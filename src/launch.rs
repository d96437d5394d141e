//! Resolving a subprocess command on a platform where the command found on
//! the search path may be a script: the bare name is looked up first, then
//! the name with a script suffix, then with an executable suffix. A script
//! is run through the command shell with its run-script flag ahead of the
//! caller's arguments. The lookups themselves are made by the caller; each
//! step here says what to look up next or what to launch.

use vstd::prelude::*;
use crate::transport::strings_view;

verus! {

/// Which form of the command a lookup was made for.
#[derive(Debug, Clone, Copy, PartialEq, Eq, Structural)]
pub enum ProbeStage {
    /// The command as given.
    Bare,
    /// The command with the script suffix.
    Script,
    /// The command with the executable suffix.
    Executable,
}

/// What to do next while resolving a command.
#[derive(Debug)]
pub enum LaunchStep {
    /// Look up `candidate`; report the outcome for `stage`.
    Probe { stage: ProbeStage, candidate: String },
    /// Start `program` with `args`.
    Launch { program: String, args: Vec<String> },
}

/// The mathematical form of a launch step.
pub enum LaunchModel {
    Probe(ProbeStage, Seq<char>),
    Launch(Seq<char>, Seq<Seq<char>>),
}

impl View for LaunchStep {
    type V = LaunchModel;

    open spec fn view(&self) -> LaunchModel {
        match self {
            LaunchStep::Probe { stage, candidate } => LaunchModel::Probe(*stage, candidate@),
            LaunchStep::Launch { program, args } => LaunchModel::Launch(program@, strings_view(args@)),
        }
    }
}

/// `needle` occurs in `hay`.
pub open spec fn has_substring(hay: Seq<char>, needle: Seq<char>) -> bool {
    exists|i: int| 0 <= i && i + needle.len() <= hay.len() && #[trigger] hay.subrange(i, i + needle.len()) == needle
}

/// The shell invocation that runs the script `script` with `args`.
pub open spec fn through_shell(script: Seq<char>, args: Seq<Seq<char>>) -> LaunchModel {
    LaunchModel::Launch("cmd.exe"@, seq!["/c"@, script] + args)
}

/// The step after the lookup for `stage`, where `located` is what the lookup
/// printed when it found the candidate and `None` when it did not.
pub open spec fn next_step(
    command: Seq<char>,
    args: Seq<Seq<char>>,
    stage: ProbeStage,
    located: Option<Seq<char>>,
) -> LaunchModel {
    match (stage, located) {
        (ProbeStage::Bare, Some(paths)) => if has_substring(paths, ".cmd"@) {
            through_shell(command, args)
        } else {
            LaunchModel::Launch(command, args)
        },
        (ProbeStage::Bare, None) => LaunchModel::Probe(ProbeStage::Script, command + ".cmd"@),
        (ProbeStage::Script, Some(_)) => through_shell(command + ".cmd"@, args),
        (ProbeStage::Script, None) => LaunchModel::Probe(ProbeStage::Executable, command + ".exe"@),
        (ProbeStage::Executable, Some(_)) => LaunchModel::Launch(command + ".exe"@, args),
        (ProbeStage::Executable, None) => LaunchModel::Launch(command, args),
    }
}

/// Whether `needle` occurs in `hay`.
pub fn contains_text(hay: &str, needle: &str) -> (r: bool)
    ensures
        r == has_substring(hay@, needle@),
{
    let n = hay.unicode_len();
    let m = needle.unicode_len();
    if m > n {
        return false;
    }
    if m == 0 {
        assert(hay@.subrange(0, 0int + needle@.len()) =~= needle@);
        return true;
    }
    let mut i: usize = 0;
    while i <= n - m
        invariant
            n == hay@.len(),
            m == needle@.len(),
            1 <= m <= n,
            i <= n - m + 1,
            forall|k: int| 0 <= k < i ==> #[trigger] hay@.subrange(k, k + m) != needle@,
        decreases n - m + 1 - i,
    {
        let mut j: usize = 0;
        let mut same = true;
        while j < m && same
            invariant
                n == hay@.len(),
                m == needle@.len(),
                i + m <= n,
                j <= m,
                same ==> forall|t: int| 0 <= t < j ==> hay@[i + t] == needle@[t],
                !same ==> hay@.subrange(i as int, i + m) != needle@,
            decreases m - j + (if same { 1int } else { 0int }),
        {
            if hay.get_char(i + j) != needle.get_char(j) {
                same = false;
                assert(hay@.subrange(i as int, i + m)[j as int] != needle@[j as int]);
            } else {
                j = j + 1;
            }
        }
        if same {
            assert(hay@.subrange(i as int, i as int + needle@.len()) =~= needle@);
            return true;
        }
        i = i + 1;
    }
    proof {
        assert forall|k: int| 0 <= k && k + m <= n implies #[trigger] hay@.subrange(k, k + m)
            != needle@ by {
            assert(k < i);
        }
    }
    false
}

fn copy_strings(v: &Vec<String>) -> (r: Vec<String>)
    ensures
        r@ == v@,
{
    let mut out: Vec<String> = Vec::new();
    let mut i: usize = 0;
    while i < v.len()
        invariant
            i <= v.len(),
            out@ == v@.subrange(0, i as int),
        decreases v.len() - i,
    {
        out.push(v[i].clone());
        i = i + 1;
        assert(out@ =~= v@.subrange(0, i as int));
    }
    assert(out@ =~= v@);
    out
}

fn shell_step(script: String, args: &Vec<String>) -> (r: LaunchStep)
    ensures
        r@ == through_shell(script@, strings_view(args@)),
{
    let mut full: Vec<String> = Vec::new();
    full.push(String::from_str("/c"));
    full.push(script);
    let mut i: usize = 0;
    while i < args.len()
        invariant
            i <= args.len(),
            full.len() == i + 2,
            full[0]@ == "/c"@,
            full[1]@ == script@,
            forall|k: int| 0 <= k < i ==> full[k + 2] == args[k],
        decreases args.len() - i,
    {
        full.push(args[i].clone());
        i = i + 1;
    }
    let r = LaunchStep::Launch { program: String::from_str("cmd.exe"), args: full };
    assert(strings_view(full@) =~= seq!["/c"@, script@] + strings_view(args@));
    r
}

/// The first lookup: the command as given.
pub fn first_probe(command: &String) -> (r: LaunchStep)
    ensures
        r@ == LaunchModel::Probe(ProbeStage::Bare, command@),
{
    LaunchStep::Probe { stage: ProbeStage::Bare, candidate: command.clone() }
}

/// The step after the lookup made for `stage`: `located` holds what the
/// lookup printed when it found the candidate, and is `None` when it did not.
pub fn after_probe(
    command: &String,
    args: &Vec<String>,
    stage: ProbeStage,
    located: Option<String>,
) -> (r: LaunchStep)
    ensures
        r@ == next_step(
            command@,
            strings_view(args@),
            stage,
            match located {
                Some(p) => Some(p@),
                None => None,
            },
        ),
{
    match (stage, located) {
        (ProbeStage::Bare, Some(paths)) => {
            if contains_text(paths.as_str(), ".cmd") {
                shell_step(command.clone(), args)
            } else {
                LaunchStep::Launch { program: command.clone(), args: copy_strings(args) }
            }
        },
        (ProbeStage::Bare, None) => LaunchStep::Probe {
            stage: ProbeStage::Script,
            candidate: command.clone().concat(".cmd"),
        },
        (ProbeStage::Script, Some(_)) => shell_step(command.clone().concat(".cmd"), args),
        (ProbeStage::Script, None) => LaunchStep::Probe {
            stage: ProbeStage::Executable,
            candidate: command.clone().concat(".exe"),
        },
        (ProbeStage::Executable, Some(_)) => LaunchStep::Launch {
            program: command.clone().concat(".exe"),
            args: copy_strings(args),
        },
        (ProbeStage::Executable, None) => LaunchStep::Launch {
            program: command.clone(),
            args: copy_strings(args),
        },
    }
}

} // verus!
