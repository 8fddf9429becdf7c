use vstd::prelude::*;

use crate::command::{flag_pairs, push_flag_pairs, push_str, str_vec, strs, Command, CommandView};

verus! {

/// A required invocation of the container engine in the caller's directory.
pub open spec fn docker(args: Seq<Seq<char>>) -> CommandView {
    CommandView { program: "docker"@, args, dir: Seq::empty(), required: true }
}

/// An image name made safe as a file name: `:` and `/` become `_`.
pub open spec fn sanitized(name: Seq<char>) -> Seq<char> {
    name.map_values(|c: char| if c == ':' || c == '/' { '_' } else { c })
}

/// Where `save` writes the archive of image `name` inside directory `dir`.
pub open spec fn archive_path(dir: Seq<char>, name: Seq<char>) -> Seq<char> {
    dir + "/"@ + sanitized(name) + ".tar"@
}

/// Each port published to the same port number on the host.
pub open spec fn self_mappings(ports: Seq<Seq<char>>) -> Seq<Seq<char>> {
    ports.map_values(|p: Seq<char>| p + ":"@ + p)
}

/// The arguments of the default launch of container `name`: detached, host
/// time mounted read-only, each port published to itself, image
/// `name:latest`.
pub open spec fn default_run_args(name: Seq<char>, ports: Seq<Seq<char>>) -> Seq<Seq<char>> {
    seq!["run"@, "-d"@, "--name"@, name, "-v"@, "/etc/localtime:/etc/localtime:ro"@]
        + flag_pairs("-p"@, self_mappings(ports))
        + seq![name + ":latest"@]
}

/// Stop, remove, then launch again with the defaults.
pub open spec fn rerun_steps(name: Seq<char>, ports: Seq<Seq<char>>) -> Seq<CommandView> {
    seq![
        docker(seq!["stop"@, name]),
        docker(seq!["rm"@, name]),
        docker(default_run_args(name, ports)),
    ]
}

fn docker_with(args: Vec<String>) -> (r: Command)
    ensures
        r@ == docker(strs(args@)),
{
    Command { program: String::from_str("docker"), args, dir: String::new(), required: true }
}

fn with_targets(verb: &str, targets: &[String]) -> (r: Command)
    ensures
        r@ == docker(seq![verb@] + strs(targets@)),
{
    let mut args: Vec<String> = Vec::new();
    push_str(&mut args, verb);
    let mut i: usize = 0;
    while i < targets.len()
        invariant
            i <= targets@.len(),
            strs(args@) =~= seq![verb@] + strs(targets@.subrange(0, i as int)),
        decreases targets@.len() - i,
    {
        push_str(&mut args, targets[i].as_str());
        i = i + 1;
    }
    assert(targets@.subrange(0, i as int) =~= targets@);
    docker_with(args)
}

/// Runs the container engine with arguments given by the caller.
pub fn docker_run_command(args: &[String]) -> (r: Command)
    ensures
        r@ == docker(strs(args@)),
{
    let mut v: Vec<String> = Vec::new();
    let mut i: usize = 0;
    while i < args.len()
        invariant
            i <= args@.len(),
            strs(v@) =~= strs(args@.subrange(0, i as int)),
        decreases args@.len() - i,
    {
        push_str(&mut v, args[i].as_str());
        i = i + 1;
    }
    assert(args@.subrange(0, i as int) =~= args@);
    docker_with(v)
}

/// Stops the named containers.
pub fn container_stop(containers: &[String]) -> (r: Command)
    ensures
        r@ == docker(seq!["stop"@] + strs(containers@)),
{
    with_targets("stop", containers)
}

/// Kills the named containers.
pub fn container_kill(containers: &[String]) -> (r: Command)
    ensures
        r@ == docker(seq!["kill"@] + strs(containers@)),
{
    with_targets("kill", containers)
}

/// Removes the named containers.
pub fn container_remove(containers: &[String]) -> (r: Command)
    ensures
        r@ == docker(seq!["rm"@] + strs(containers@)),
{
    with_targets("rm", containers)
}

/// Removes the named images.
pub fn image_remove(images: &[String]) -> (r: Command)
    ensures
        r@ == docker(seq!["rmi"@] + strs(images@)),
{
    with_targets("rmi", images)
}

/// Prints the inspection document of one container.
pub fn container_inspect(name: &str) -> (r: Command)
    ensures
        r@ == docker(seq!["inspect"@, name@]),
{
    let a = str_vec(&["inspect", name]);
    assert(strs(a@) =~= seq!["inspect"@, name@]);
    docker_with(a)
}

/// Lists the images as `repository:tag`, one per line.
pub fn image_list_formatted() -> (r: Command)
    ensures
        r@ == docker(seq!["images"@, "--format"@, "{{.Repository}}:{{.Tag}}"@]),
{
    let a = str_vec(&["images", "--format", "{{.Repository}}:{{.Tag}}"]);
    assert(strs(a@) =~= seq!["images"@, "--format"@, "{{.Repository}}:{{.Tag}}"@]);
    docker_with(a)
}

/// Builds image `name` from the build file of the current directory.
pub fn build(name: &str) -> (r: Command)
    ensures
        r@ == docker(seq!["build"@, "-t"@, name@, "."@]),
{
    let a = str_vec(&["build", "-t", name, "."]);
    assert(strs(a@) =~= seq!["build"@, "-t"@, name@, "."@]);
    docker_with(a)
}

fn sanitized_name(name: &str) -> (r: String)
    ensures
        r@ == sanitized(name@),
{
    let n = name.unicode_len();
    let mut r = String::new();
    let mut i: usize = 0;
    while i < n
        invariant
            n == name@.len(),
            i <= n,
            r@ =~= sanitized(name@.subrange(0, i as int)),
        decreases n - i,
    {
        let c = name.get_char(i);
        let ghost pre = r@;
        if c == ':' || c == '/' {
            r.append("_");
            proof {
                reveal_strlit("_");
                assert("_"@ =~= seq!['_']);
            }
            assert(r@ =~= pre.push('_'));
        } else {
            let one = name.substring_char(i, i + 1);
            assert(one@ =~= seq![c]);
            r.append(one);
            assert(r@ =~= pre.push(c));
        }
        assert(sanitized(name@.subrange(0, i + 1)) =~= sanitized(name@.subrange(0, i as int)).push(
            if c == ':' || c == '/' { '_' } else { c },
        ));
        i = i + 1;
    }
    assert(name@.subrange(0, n as int) =~= name@);
    r
}

/// Writes image `name` to `<dir>/<sanitized name>.tar`.
pub fn save(name: &str, dir: &str) -> (r: Command)
    ensures
        r@ == docker(seq!["save"@, "-o"@, archive_path(dir@, name@), name@]),
{
    let file = String::from_str(dir).concat("/").concat(sanitized_name(name).as_str()).concat(".tar");
    let a = str_vec(&["save", "-o", file.as_str(), name]);
    assert(strs(a@) =~= seq!["save"@, "-o"@, file@, name@]);
    docker_with(a)
}

/// Loads the images of an archive.
pub fn load(path: &str) -> (r: Command)
    ensures
        r@ == docker(seq!["load"@, "-i"@, path@]),
{
    let a = str_vec(&["load", "-i", path]);
    assert(strs(a@) =~= seq!["load"@, "-i"@, path@]);
    docker_with(a)
}

/// Removes dangling images without asking.
pub fn image_prune() -> (r: Command)
    ensures
        r@ == docker(seq!["image"@, "prune"@, "-f"@]),
{
    let a = str_vec(&["image", "prune", "-f"]);
    assert(strs(a@) =~= seq!["image"@, "prune"@, "-f"@]);
    docker_with(a)
}

/// Launches container `name` from image `name:latest` with the defaults.
pub fn default_run(name: &str, ports: &[String]) -> (r: Command)
    ensures
        r@ == docker(default_run_args(name@, strs(ports@))),
{
    let mut args = str_vec(&["run", "-d", "--name", name, "-v", "/etc/localtime:/etc/localtime:ro"]);
    let mut mappings: Vec<String> = Vec::new();
    let mut i: usize = 0;
    while i < ports.len()
        invariant
            i <= ports@.len(),
            strs(mappings@) =~= self_mappings(strs(ports@.subrange(0, i as int))),
        decreases ports@.len() - i,
    {
        let p = ports[i].as_str();
        let m = String::from_str(p).concat(":").concat(p);
        let ghost pre = mappings@;
        mappings.push(m);
        assert(strs(mappings@) =~= strs(pre).push(m@));
        i = i + 1;
    }
    assert(ports@.subrange(0, i as int) =~= ports@);
    push_flag_pairs(&mut args, "-p", &mappings);
    let image = String::from_str(name).concat(":latest");
    let ghost pre = strs(args@);
    push_str(&mut args, image.as_str());
    assert(strs(args@) =~= default_run_args(name@, strs(ports@)));
    docker_with(args)
}

/// Stops and removes container `name`, then launches it again with the
/// defaults; the three steps are required in that order.
pub fn container_rerun(name: &str, ports: &[String]) -> (r: Vec<Command>)
    ensures
        r@.map_values(|c: Command| c@) == rerun_steps(name@, strs(ports@)),
{
    let mut v: Vec<String> = Vec::new();
    v.push(String::from_str(name));
    let one = v.as_slice();
    let mut r: Vec<Command> = Vec::new();
    r.push(container_stop(one));
    r.push(container_remove(one));
    r.push(default_run(name, ports));
    assert(strs(one@) =~= seq![name@]);
    assert(seq!["stop"@] + seq![name@] =~= seq!["stop"@, name@]);
    assert(seq!["rm"@] + seq![name@] =~= seq!["rm"@, name@]);
    assert(r@.map_values(|c: Command| c@) =~= rerun_steps(name@, strs(ports@)));
    r
}

} // verus!
