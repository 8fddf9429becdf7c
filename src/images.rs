use vstd::prelude::*;

use crate::codec::{descriptor, encode, ContainerInfo, DockerCommand};
use crate::command::{strs, views, Command, CommandView};
use crate::docker::{archive_path, docker};

verus! {

/// `cmd` run in `dir`, aborting its chain on failure exactly when `required`.
pub open spec fn placed(cmd: CommandView, dir: Seq<char>, required: bool) -> CommandView {
    CommandView { dir, required, ..cmd }
}

fn place(c: Command, dir: &str, required: bool) -> (r: Command)
    ensures
        r@ == placed(c@, dir@, required),
{
    Command { dir: String::from_str(dir), required, ..c }
}

/// `cmd` whose failure does not stop the steps after it.
pub open spec fn optional(cmd: CommandView) -> CommandView {
    CommandView { required: false, ..cmd }
}

/// The steps that build image `name` from the build file in `dir`, then,
/// when `export` is set, write it to an archive in that same directory.
pub open spec fn build_steps(dir: Seq<char>, name: Seq<char>, export: bool) -> Seq<CommandView> {
    seq![placed(docker(seq!["build"@, "-t"@, name, "."@]), dir, true)] + if export {
        seq![placed(docker(seq!["save"@, "-o"@, archive_path("."@, name), name]), dir, true)]
    } else {
        Seq::empty()
    }
}

/// Builds image `name` in `dir`, and exports it there when asked.
pub fn build(dir: &str, name: &str, export: bool) -> (r: Vec<Command>)
    ensures
        views(r@) == build_steps(dir@, name@, export),
{
    let mut r: Vec<Command> = Vec::new();
    r.push(place(crate::docker::build(name), dir, true));
    if export {
        r.push(place(crate::docker::save(name, "."), dir, true));
    }
    assert(views(r@) =~= build_steps(dir@, name@, export));
    r
}

/// Removes the dangling images.
pub fn clean() -> (r: Command)
    ensures
        r@ == docker(seq!["image"@, "prune"@, "-f"@]),
{
    crate::docker::image_prune()
}

/// Loads each archive of `files`, in order; the first failure stops the rest.
pub fn import(files: &[String]) -> (r: Vec<Command>)
    ensures
        views(r@) == strs(files@).map_values(|f: Seq<char>| docker(seq!["load"@, "-i"@, f])),
{
    let mut r: Vec<Command> = Vec::new();
    let mut i: usize = 0;
    while i < files.len()
        invariant
            i <= files@.len(),
            views(r@) =~= strs(files@.subrange(0, i as int)).map_values(
                |f: Seq<char>| docker(seq!["load"@, "-i"@, f]),
            ),
        decreases files@.len() - i,
    {
        let c = crate::docker::load(files[i].as_str());
        let ghost pre = r@;
        r.push(c);
        assert(views(r@) =~= views(pre).push(c@));
        i = i + 1;
    }
    assert(files@.subrange(0, i as int) =~= files@);
    r
}

/// Reads `s` from its start: the complete non-empty lines so far, and the
/// line still open at its end.
pub open spec fn scan_lines(s: Seq<char>) -> (Seq<Seq<char>>, Seq<char>)
    decreases s.len(),
{
    if s.len() == 0 {
        (Seq::empty(), Seq::empty())
    } else {
        let (done, open) = scan_lines(s.drop_last());
        if s.last() == '\n' {
            (if open.len() > 0 {
                done.push(open)
            } else {
                done
            }, Seq::empty())
        } else {
            (done, open.push(s.last()))
        }
    }
}

/// The non-empty lines of `s`, in order; lines end at `\n`.
pub open spec fn nonempty_lines(s: Seq<char>) -> Seq<Seq<char>> {
    let (done, open) = scan_lines(s);
    if open.len() > 0 {
        done.push(open)
    } else {
        done
    }
}

/// The image names of a listing with one `repository:tag` per line.
pub fn image_names(listing: &str) -> (r: Vec<String>)
    ensures
        strs(r@) == nonempty_lines(listing@),
{
    let n = listing.unicode_len();
    let mut done: Vec<String> = Vec::new();
    let mut start: usize = 0;
    let mut i: usize = 0;
    while i < n
        invariant
            n == listing@.len(),
            start <= i <= n,
            scan_lines(listing@.subrange(0, i as int)) == (strs(done@), listing@.subrange(
                start as int,
                i as int,
            )),
        decreases n - i,
    {
        let c = listing.get_char(i);
        let ghost s = listing@.subrange(0, i + 1);
        assert(s.drop_last() =~= listing@.subrange(0, i as int));
        assert(s.last() == c);
        if c == '\n' {
            if start < i {
                let line = listing.substring_char(start, i);
                let ghost pre = done@;
                done.push(String::from_str(line));
                assert(strs(done@) =~= strs(pre).push(line@));
            }
            start = i + 1;
        }
        assert(listing@.subrange(start as int, i + 1) =~= if c == '\n' {
            Seq::empty()
        } else {
            listing@.subrange(start as int, i as int).push(c)
        });
        i = i + 1;
    }
    assert(listing@.subrange(0, n as int) =~= listing@);
    if start < n {
        let line = listing.substring_char(start, n);
        let ghost pre = done@;
        done.push(String::from_str(line));
        assert(strs(done@) =~= strs(pre).push(line@));
    }
    done
}

/// Writes each image named in `listing` to an archive in `dir`; a failure
/// to write one image does not stop the others.
pub fn export(listing: &str, dir: &str) -> (r: Vec<Command>)
    ensures
        views(r@) == nonempty_lines(listing@).map_values(
            |name: Seq<char>| optional(docker(seq!["save"@, "-o"@, archive_path(dir@, name), name])),
        ),
{
    let names = image_names(listing);
    let mut r: Vec<Command> = Vec::new();
    let mut i: usize = 0;
    while i < names.len()
        invariant
            i <= names@.len(),
            views(r@) =~= strs(names@.subrange(0, i as int)).map_values(
                |name: Seq<char>| optional(docker(seq!["save"@, "-o"@, archive_path(dir@, name), name])),
            ),
        decreases names@.len() - i,
    {
        let c = crate::docker::save(names[i].as_str(), dir);
        let c = Command { required: false, ..c };
        let ghost pre = r@;
        r.push(c);
        assert(views(r@) =~= views(pre).push(c@));
        i = i + 1;
    }
    assert(names@.subrange(0, i as int) =~= names@);
    r
}

/// `args` separated by single spaces.
pub open spec fn joined(args: Seq<Seq<char>>) -> Seq<char>
    decreases args.len(),
{
    if args.len() == 0 {
        Seq::empty()
    } else if args.len() == 1 {
        args[0]
    } else {
        joined(args.drop_last()) + " "@ + args.last()
    }
}

/// Each inspected container under its inspected name, with the argument
/// list that relaunches it as it is configured now.
pub fn reverse(infos: Vec<ContainerInfo>) -> (r: Vec<(String, Vec<String>)>)
    ensures
        r@.len() == infos@.len(),
        forall|i: int|
            0 <= i < infos@.len() ==> (#[trigger] r@[i]).0@ == infos@[i].name@ && strs(r@[i].1@)
                == encode(descriptor(infos@[i])),
{
    let ghost all = infos@;
    let mut rest = infos;
    let mut r: Vec<(String, Vec<String>)> = Vec::new();
    while rest.len() > 0
        invariant
            r@.len() + rest@.len() == all.len(),
            rest@ == all.subrange(r@.len() as int, all.len() as int),
            forall|j: int|
                0 <= j < r@.len() ==> (#[trigger] r@[j]).0@ == all[j].name@ && strs(r@[j].1@)
                    == encode(descriptor(all[j])),
        decreases rest@.len(),
    {
        let info = rest.remove(0);
        let name = info.name.clone();
        let cmd = DockerCommand::from(info).to_command();
        r.push((name, cmd));
        assert(rest@ =~= all.subrange(r@.len() as int, all.len() as int));
    }
    r
}

/// A shell script that relaunches each container: a comment line with its
/// name, then its command on one line.
pub open spec fn script_of(entries: Seq<(Seq<char>, Seq<Seq<char>>)>) -> Seq<char>
    decreases entries.len(),
{
    if entries.len() == 0 {
        "#!/bin/bash\n"@
    } else {
        script_of(entries.drop_last()) + "# "@ + entries.last().0 + "\n"@ + joined(entries.last().1)
            + "\n"@
    }
}

pub open spec fn entry_views(entries: Seq<(String, Vec<String>)>) -> Seq<(Seq<char>, Seq<Seq<char>>)> {
    entries.map_values(|e: (String, Vec<String>)| (e.0@, strs(e.1@)))
}

fn join_args(args: &Vec<String>) -> (r: String)
    ensures
        r@ == joined(strs(args@)),
{
    let mut r = String::new();
    let mut i: usize = 0;
    while i < args.len()
        invariant
            i <= args@.len(),
            r@ == joined(strs(args@).subrange(0, i as int)),
        decreases args@.len() - i,
    {
        let ghost sub = strs(args@).subrange(0, i + 1);
        assert(sub.drop_last() =~= strs(args@).subrange(0, i as int));
        if i == 0 {
            r = args[0].clone();
            assert(r@ == sub[0]);
        } else {
            r.append(" ");
            r.append(args[i].as_str());
        }
        i = i + 1;
    }
    assert(strs(args@).subrange(0, i as int) =~= strs(args@));
    r
}

/// The relaunch script of `entries`, each a container name and its command.
pub fn reverse_script(entries: &Vec<(String, Vec<String>)>) -> (r: String)
    ensures
        r@ == script_of(entry_views(entries@)),
{
    let mut r = String::from_str("#!/bin/bash\n");
    let mut i: usize = 0;
    while i < entries.len()
        invariant
            i <= entries@.len(),
            r@ == script_of(entry_views(entries@).subrange(0, i as int)),
        decreases entries@.len() - i,
    {
        let ghost sub = entry_views(entries@).subrange(0, i + 1);
        assert(sub.drop_last() =~= entry_views(entries@).subrange(0, i as int));
        r.append("# ");
        r.append(entries[i].0.as_str());
        r.append("\n");
        let line = join_args(&entries[i].1);
        r.append(line.as_str());
        r.append("\n");
        i = i + 1;
    }
    assert(entry_views(entries@).subrange(0, i as int) =~= entry_views(entries@));
    r
}

} // verus!
