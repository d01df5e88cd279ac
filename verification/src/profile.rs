//! The profiling program: its command line and the files it takes up.
use crate::text::{parse_usize, same_text, usize_of_text};
use vstd::prelude::*;

verus! {

/// What the command line asks for.
#[derive(Clone, Copy, Debug, PartialEq, Eq, Structural)]
pub enum Invocation {
    /// Run, with this many worker threads, or as many as there are processors.
    Run { threads: Option<usize> },
    /// Show how the program is used.
    Help,
    /// `--threads` stands without a positive number behind it.
    BadThreadCount,
    /// The argument at this position is not known.
    UnknownArgument { index: usize },
}

/// What the arguments from position `i` on ask for, with `threads` set by those before.
pub open spec fn invocation_from(args: Seq<String>, i: int, threads: Option<usize>) -> Invocation
    decreases args.len() - i,
{
    if i >= args.len() {
        Invocation::Run { threads }
    } else if args[i]@ == "--threads"@ {
        match thread_count_at(args, i + 1) {
            Some(count) => invocation_from(args, i + 2, Some(count)),
            None => Invocation::BadThreadCount,
        }
    } else if args[i]@ == "--help"@ || args[i]@ == "-h"@ {
        Invocation::Help
    } else {
        Invocation::UnknownArgument { index: i as usize }
    }
}

/// The positive number at position `i`, if there is one.
pub open spec fn thread_count_at(args: Seq<String>, i: int) -> Option<usize> {
    if i < args.len() {
        match usize_of_text(args[i]@) {
            Some(count) if count > 0 => Some(count),
            _ => None,
        }
    } else {
        None
    }
}

/// What a command line asks for. The argument at position zero is the program's name.
pub open spec fn invocation_of(args: Seq<String>) -> Invocation {
    invocation_from(args, 1, None)
}

/// Reads a command line, program name included.
pub fn parse_args(args: &Vec<String>) -> (r: Invocation)
    ensures
        r == invocation_of(args@),
{
    let mut threads: Option<usize> = None;
    let mut i: usize = 1;
    while i < args.len()
        invariant
            1 <= i,
            invocation_of(args@) == invocation_from(args@, i as int, threads),
        decreases args@.len() - i,
    {
        let arg: &str = args[i].as_str();
        if same_text(arg, "--threads") {
            if i + 1 >= args.len() {
                return Invocation::BadThreadCount;
            }
            match parse_usize(args[i + 1].as_str()) {
                Some(count) if count > 0 => {
                    threads = Some(count);
                },
                _ => {
                    return Invocation::BadThreadCount;
                },
            }
            i = i + 2;
        } else if same_text(arg, "--help") || same_text(arg, "-h") {
            return Invocation::Help;
        } else {
            return Invocation::UnknownArgument { index: i };
        }
    }
    Invocation::Run { threads }
}

impl Invocation {
    /// The status with which the program ends at once, if it does.
    pub open spec fn spec_exit_status(self) -> Option<i32> {
        match self {
            Invocation::Run { .. } => None,
            Invocation::Help => Some(0),
            Invocation::BadThreadCount => Some(1),
            Invocation::UnknownArgument { .. } => Some(1),
        }
    }

    /// The status with which the program ends at once, if it does.
    pub fn exit_status(&self) -> (r: Option<i32>)
        ensures
            r == self.spec_exit_status(),
    {
        match self {
            Invocation::Run { .. } => None,
            Invocation::Help => Some(0),
            Invocation::BadThreadCount => Some(1),
            Invocation::UnknownArgument { .. } => Some(1),
        }
    }

    /// What is wrong with the command line, in words.
    pub open spec fn spec_complaint(self, args: Seq<String>) -> Option<Seq<char>> {
        match self {
            Invocation::Run { .. } => None,
            Invocation::Help => None,
            Invocation::BadThreadCount => Some("Error: --threads requires a positive integer"@),
            Invocation::UnknownArgument { index } => Some(
                "Unknown argument: "@ + args[index as int]@,
            ),
        }
    }

    /// What is wrong with the command line, in words.
    pub fn complaint(&self, args: &Vec<String>) -> (r: Option<String>)
        requires
            *self == invocation_of(args@),
        ensures
            r is Some <==> self.spec_complaint(args@) is Some,
            r is Some ==> r->0@ == self.spec_complaint(args@)->0,
    {
        match self {
            Invocation::Run { .. } => None,
            Invocation::Help => None,
            Invocation::BadThreadCount => Some(
                "Error: --threads requires a positive integer".to_owned(),
            ),
            Invocation::UnknownArgument { index } => {
                proof {
                    assert(args@.len() == args.len());
                    lemma_unknown_index(args@);
                }
                let mut text: String = "Unknown argument: ".to_owned();
                text.append(args[*index].as_str());
                Some(text)
            },
        }
    }
}

/// How the program called `prog` is used.
pub open spec fn usage_of(prog: Seq<char>) -> Seq<char> {
    "Usage: "@ + prog + " [--threads <N>]\n"@
        + "  --threads <N>   Number of rayon worker threads (default: logical CPU count)"@
}

/// How the program called `prog` is used.
pub fn usage(prog: &str) -> (r: String)
    ensures
        r@ == usage_of(prog@),
{
    let mut text: String = "Usage: ".to_owned();
    text.append(prog);
    text.append(" [--threads <N>]\n");
    text.append("  --threads <N>   Number of rayon worker threads (default: logical CPU count)");
    text
}

/// Whether a directory entry is a picture to profile: a file other than the one that the
/// macOS Finder leaves behind.
pub fn is_profiled(is_file: bool, name: Option<&str>) -> (r: bool)
    ensures
        r == (is_file && name is Some && name->0@ != ".DS_Store"@),
{
    match name {
        Some(name) => is_file && !same_text(name, ".DS_Store"),
        None => false,
    }
}

/// An argument that is not known stands on the command line, behind the program's name.
pub proof fn lemma_unknown_index(args: Seq<String>)
    requires
        args.len() <= usize::MAX,
        invocation_of(args) is UnknownArgument,
    ensures
        1 <= invocation_of(args)->index < args.len(),
{
    lemma_unknown_index_from(args, 1, None);
}

proof fn lemma_unknown_index_from(args: Seq<String>, i: int, threads: Option<usize>)
    requires
        1 <= i,
        args.len() <= usize::MAX,
        invocation_from(args, i, threads) is UnknownArgument,
    ensures
        i <= invocation_from(args, i, threads)->index < args.len(),
    decreases args.len() - i,
{
    if i < args.len() && args[i]@ == "--threads"@ {
        lemma_unknown_index_from(args, i + 2, thread_count_at(args, i + 1));
    }
}

/// A run is never asked to use no threads at all.
pub proof fn lemma_threads_positive(args: Seq<String>)
    ensures
        invocation_of(args) matches Invocation::Run { threads: Some(count) } ==> count > 0,
{
    lemma_threads_positive_from(args, 1, None);
}

proof fn lemma_threads_positive_from(args: Seq<String>, i: int, threads: Option<usize>)
    requires
        threads matches Some(count) ==> count > 0,
    ensures
        invocation_from(args, i, threads) matches Invocation::Run { threads: Some(count) }
            ==> count > 0,
    decreases args.len() - i,
{
    if i < args.len() && args[i]@ == "--threads"@ && thread_count_at(args, i + 1) is Some {
        lemma_threads_positive_from(args, i + 2, thread_count_at(args, i + 1));
    }
}

/// A call for help, or an argument that is not known, decides: what stands behind it is
/// not read.
pub proof fn lemma_decided(args: Seq<String>, more: Seq<String>)
    requires
        invocation_of(args) is Help || invocation_of(args) is UnknownArgument,
    ensures
        invocation_of(args + more) == invocation_of(args),
{
    lemma_prefix_from(args, more, 1, None);
}

/// After a command line that asks for a run, a further thread count replaces the one
/// before it.
pub proof fn lemma_last_count_wins(args: Seq<String>, flag: String, value: String, count: usize)
    requires
        args.len() >= 1,
        invocation_of(args) is Run,
        flag@ == "--threads"@,
        usize_of_text(value@) == Some(count),
        count > 0,
    ensures
        invocation_of(args + seq![flag, value]) == (Invocation::Run { threads: Some(count) }),
{
    let more = seq![flag, value];
    let all = args + more;
    lemma_prefix_from(args, more, 1, None);
    let n = args.len() as int;
    assert(all[n] == flag && all[n + 1] == value);
    let before = invocation_of(args)->threads;
    assert(thread_count_at(all, n + 1) == Some(count));
    assert(invocation_from(all, n, before) == invocation_from(all, n + 2, Some(count)));
}

/// Reading `args + more` goes as reading `args` until `args` is used up.
proof fn lemma_prefix_from(
    args: Seq<String>,
    more: Seq<String>,
    i: int,
    threads: Option<usize>,
)
    requires
        0 <= i,
    ensures
        invocation_from(args, i, threads) is Help || invocation_from(
            args,
            i,
            threads,
        ) is UnknownArgument ==> invocation_from(args + more, i, threads) == invocation_from(
            args,
            i,
            threads,
        ),
        i <= args.len() ==> (invocation_from(args, i, threads) matches Invocation::Run {
            threads: last,
        } ==> invocation_from(args + more, i, threads) == invocation_from(
            args + more,
            args.len() as int,
            last,
        )),
    decreases args.len() - i,
{
    let all = args + more;
    if i < args.len() {
        assert(all[i] == args[i]);
        if args[i]@ == "--threads"@ && thread_count_at(args, i + 1) is Some {
            assert(all[i + 1] == args[i + 1]);
            assert(thread_count_at(all, i + 1) == thread_count_at(args, i + 1));
            lemma_prefix_from(args, more, i + 2, thread_count_at(args, i + 1));
        }
    }
}

/// A command line is read in pairs of `--threads` and a positive number, up to the first place
/// at which none stands. That place decides: the end of the line asks for a run with the last
/// number, and anything else for help, or is what is wrong.
pub proof fn lemma_command_line(args: Seq<String>, r: Invocation) -> (stop: int)
    requires
        r == invocation_of(args),
        args.len() <= usize::MAX,
    ensures
        1 <= stop,
        stop % 2 == 1,
        stop <= args.len() || stop == 1,
        forall|i: int|
            1 <= i < stop && i % 2 == 1 ==> (#[trigger] args[i])@ == "--threads"@,
        forall|i: int|
            1 <= i < stop && i % 2 == 0 ==> (usize_of_text((#[trigger] args[i])@) matches Some(
                count,
            ) && count > 0),
        r is Run <==> stop >= args.len(),
        r matches Invocation::Run { threads } ==> (if stop == 1 {
            threads is None
        } else {
            threads == usize_of_text(args[stop - 1]@)
        }),
        r is Help <==> stop < args.len() && (args[stop]@ == "--help"@ || args[stop]@ == "-h"@),
        r is BadThreadCount <==> stop < args.len() && args[stop]@ == "--threads"@,
        r is BadThreadCount ==> stop + 1 >= args.len() || usize_of_text(args[stop + 1]@) is None
            || usize_of_text(args[stop + 1]@) == Some(0usize),
        r is UnknownArgument <==> stop < args.len() && args[stop]@ != "--threads"@ && args[stop]@
            != "--help"@ && args[stop]@ != "-h"@,
        r matches Invocation::UnknownArgument { index } ==> index == stop,
{
    lemma_command_line_from(args, 1, None)
}

proof fn lemma_command_line_from(args: Seq<String>, i: int, threads: Option<usize>) -> (stop: int)
    requires
        1 <= i,
        i % 2 == 1,
        i <= args.len() || i == 1,
        args.len() <= usize::MAX,
        i == 1 ==> threads is None,
        i > 1 ==> threads == usize_of_text(args[i - 1]@),
        forall|j: int|
            1 <= j < i && j % 2 == 1 ==> (#[trigger] args[j])@ == "--threads"@,
        forall|j: int|
            1 <= j < i && j % 2 == 0 ==> (usize_of_text((#[trigger] args[j])@) matches Some(
                count,
            ) && count > 0),
    ensures
        i <= stop,
        stop % 2 == 1,
        stop <= args.len() || stop == 1,
        forall|j: int|
            1 <= j < stop && j % 2 == 1 ==> (#[trigger] args[j])@ == "--threads"@,
        forall|j: int|
            1 <= j < stop && j % 2 == 0 ==> (usize_of_text((#[trigger] args[j])@) matches Some(
                count,
            ) && count > 0),
        ({
            let r = invocation_from(args, i, threads);
            &&& r is Run <==> stop >= args.len()
            &&& r matches Invocation::Run { threads } ==> (if stop == 1 {
                threads is None
            } else {
                threads == usize_of_text(args[stop - 1]@)
            })
            &&& r is Help <==> stop < args.len() && (args[stop]@ == "--help"@ || args[stop]@
                == "-h"@)
            &&& r is BadThreadCount <==> stop < args.len() && args[stop]@ == "--threads"@
            &&& r is BadThreadCount ==> stop + 1 >= args.len() || usize_of_text(
                args[stop + 1]@,
            ) is None || usize_of_text(args[stop + 1]@) == Some(0usize)
            &&& r is UnknownArgument <==> stop < args.len() && args[stop]@ != "--threads"@
                && args[stop]@ != "--help"@ && args[stop]@ != "-h"@
            &&& r matches Invocation::UnknownArgument { index } ==> index == stop
        }),
    decreases args.len() - i,
{
    reveal_strlit("--threads");
    reveal_strlit("--help");
    reveal_strlit("-h");
    assert("--threads"@.len() != "--help"@.len() && "--threads"@.len() != "-h"@.len());
    if i < args.len() && args[i]@ == "--threads"@ && thread_count_at(args, i + 1) is Some {
        lemma_command_line_from(args, i + 2, thread_count_at(args, i + 1))
    } else {
        i
    }
}

/// `parse_args` reads the command line as `invocation_of` says.
pub proof fn lemma_parse_args_gives(args: &Vec<String>, r: Invocation)
    requires
        call_ensures(parse_args, (args,), r),
    ensures
        r == invocation_of(args@),
{
}

/// The program ends at once unless it is to run, and well only after a call for help.
pub proof fn lemma_exit_status_gives(invocation: &Invocation, r: Option<i32>)
    requires
        call_ensures(Invocation::exit_status, (invocation,), r),
    ensures
        r is None <==> *invocation is Run,
        r == Some(0i32) <==> *invocation is Help,
        r == Some(1i32) <==> *invocation is BadThreadCount || *invocation is UnknownArgument,
{
}

/// There is a complaint exactly about a command line that ends the program with a failure, and
/// that on an unknown argument names the argument.
pub proof fn lemma_complaint_gives(invocation: &Invocation, args: &Vec<String>, r: Option<String>)
    requires
        call_ensures(Invocation::complaint, (invocation, args), r),
    ensures
        r is None <==> *invocation is Run || *invocation is Help,
        *invocation is BadThreadCount ==> r->0@ == "Error: --threads requires a positive integer"@,
        *invocation matches Invocation::UnknownArgument { index } ==> r->0@
            == "Unknown argument: "@ + args@[index as int]@,
{
}

/// The usage text names the program in its first line.
pub proof fn lemma_usage_gives(prog: &str, r: String)
    requires
        call_ensures(usage, (prog,), r),
    ensures
        r@ == "Usage: "@ + prog@ + " [--threads <N>]\n"@
            + "  --threads <N>   Number of rayon worker threads (default: logical CPU count)"@,
{
}

/// A named file is profiled unless it is the Finder's, and nothing else is.
pub proof fn lemma_is_profiled_gives(is_file: bool, name: Option<&str>, r: bool)
    requires
        call_ensures(is_profiled, (is_file, name), r),
    ensures
        !is_file || name is None ==> !r,
        is_file && name is Some ==> (!r <==> name->0@ == ".DS_Store"@),
{
}

} // verus!
