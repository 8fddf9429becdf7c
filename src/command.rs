use vstd::prelude::*;

verus! {

/// One external program invocation: the program, its arguments, the
/// directory to run it in (empty: the caller's own directory), and whether a
/// failure of this invocation aborts the chain it belongs to.
#[derive(Debug)]
pub struct Command {
    pub program: String,
    pub args: Vec<String>,
    pub dir: String,
    pub required: bool,
}

/// The mathematical form of a [`Command`].
pub struct CommandView {
    pub program: Seq<char>,
    pub args: Seq<Seq<char>>,
    pub dir: Seq<char>,
    pub required: bool,
}

/// The character sequences held by a vector of strings.
pub open spec fn strs(v: Seq<String>) -> Seq<Seq<char>> {
    v.map_values(|s: String| s@)
}

/// The views of a sequence of commands.
pub open spec fn views(cs: Seq<Command>) -> Seq<CommandView> {
    cs.map_values(|c: Command| c@)
}

impl View for Command {
    type V = CommandView;

    open spec fn view(&self) -> CommandView {
        CommandView {
            program: self.program@,
            args: strs(self.args@),
            dir: self.dir@,
            required: self.required,
        }
    }
}

impl Command {
    /// A copy of this invocation.
    pub fn clone_command(&self) -> (r: Command)
        ensures
            r@ == self@,
    {
        let mut args: Vec<String> = Vec::new();
        let mut i: usize = 0;
        while i < self.args.len()
            invariant
                i <= self.args@.len(),
                strs(args@) =~= strs(self.args@.subrange(0, i as int)),
            decreases self.args@.len() - i,
        {
            push_str(&mut args, self.args[i].as_str());
            i = i + 1;
        }
        assert(self.args@.subrange(0, i as int) =~= self.args@);
        Command {
            program: self.program.clone(),
            args,
            dir: self.dir.clone(),
            required: self.required,
        }
    }
}

/// Why a step of the orchestration could not go on.
#[derive(Debug)]
pub enum BuildError {
    /// A project has no working copy, no repository and no directory.
    MissingSource,
    /// An external program exited with a failure; its captured error output.
    ToolInvocation(String),
    /// An inspection document could not be read; the reader's diagnostic.
    Parse(String),
}

/// What running one [`Command`] gave back: its captured standard output on a
/// zero exit status, its captured standard error otherwise.
#[derive(Debug)]
pub enum StepResult {
    Success(String),
    Failure(String),
}

/// Appends `s` to the end of `v`, keeping the string views in step.
pub fn push_str(v: &mut Vec<String>, s: &str)
    ensures
        strs(final(v)@) == strs(old(v)@).push(s@),
{
    let ghost pre = v@;
    v.push(String::from_str(s));
    assert(strs(v@) =~= strs(pre).push(s@));
}

/// `flag` placed before each of `vals`, in order: `flag v0 flag v1 ...`.
pub open spec fn flag_pairs(flag: Seq<char>, vals: Seq<Seq<char>>) -> Seq<Seq<char>>
    decreases vals.len(),
{
    if vals.len() == 0 {
        Seq::empty()
    } else {
        flag_pairs(flag, vals.drop_last()).push(flag).push(vals.last())
    }
}

/// Appends `flag v` to `out` for each `v` of `vals`, in order.
pub fn push_flag_pairs(out: &mut Vec<String>, flag: &str, vals: &Vec<String>)
    ensures
        strs(final(out)@) == strs(old(out)@) + flag_pairs(flag@, strs(vals@)),
{
    let ghost pre = strs(out@);
    let ghost all = strs(vals@);
    let mut i: usize = 0;
    assert(all.subrange(0, 0) =~= Seq::<Seq<char>>::empty());
    while i < vals.len()
        invariant
            i <= vals.len(),
            all == strs(vals@),
            strs(out@) == pre + flag_pairs(flag@, all.subrange(0, i as int)),
        decreases vals.len() - i,
    {
        push_str(out, flag);
        push_str(out, vals[i].as_str());
        assert(all.subrange(0, i + 1).drop_last() =~= all.subrange(0, i as int));
        assert(strs(out@) =~= pre + flag_pairs(flag@, all.subrange(0, i + 1)));
        i = i + 1;
    }
    assert(all.subrange(0, vals.len() as int) =~= all);
}

/// The strings of `items`, in order.
pub fn str_vec(items: &[&str]) -> (r: Vec<String>)
    ensures
        strs(r@) == items@.map_values(|s: &str| s@),
{
    let mut r: Vec<String> = Vec::new();
    let mut i: usize = 0;
    while i < items.len()
        invariant
            i <= items@.len(),
            strs(r@) =~= items@.subrange(0, i as int).map_values(|s: &str| s@),
        decreases items@.len() - i,
    {
        push_str(&mut r, items[i]);
        i = i + 1;
    }
    assert(items@.subrange(0, i as int) =~= items@);
    r
}

} // verus!
