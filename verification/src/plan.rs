//! Reading of each subcommand's arguments: which flags are set, where the
//! operands start, and whether enough arguments were given. The argument
//! vector holds the binary name, then the subcommand name, then the
//! subcommand's own arguments, so the latter start at position 2.

use vstd::prelude::*;
use crate::strutil::starts_with_char;
use crate::strutil::str_eq;
use crate::strutil::first_char_is;
use crate::strutil::views;

verus! {

/// Whether the argument vector has at least one operand after the
/// subcommand name.
pub fn has_operands(args: &Vec<String>) -> (r: bool)
    ensures
        r == (args@.len() > 2),
{
    args.len() > 2
}

/// Whether the argument vector has exactly two operands after the
/// subcommand name, as a rename or a permission change takes.
pub fn takes_two_operands(args: &Vec<String>) -> (r: bool)
    ensures
        r == (args@.len() == 4),
{
    args.len() == 4
}

/// How a message is echoed: whether the trailing newline is skipped, and
/// at which argument the message starts.
#[derive(Clone, Copy, Debug, PartialEq, Eq, Structural)]
pub struct EchoPlan {
    pub skip_newline: bool,
    pub start: usize,
}

/// Read the arguments of `echo`: a leading "-n" suppresses the trailing
/// newline and moves the message start by one.
pub fn echo_plan(args: &Vec<String>) -> (r: EchoPlan)
    requires
        args@.len() >= 3,
    ensures
        r.skip_newline == (args@[2]@ == "-n"@),
        r.start == (if r.skip_newline { 3int } else { 2int }),
{
    if str_eq(args[2].as_str(), "-n") {
        EchoPlan { skip_newline: true, start: 3 }
    } else {
        EchoPlan { skip_newline: false, start: 2 }
    }
}

/// How files are removed: recursively, directories only, or plainly, and
/// at which argument the operands start.
#[derive(Clone, Copy, Debug, PartialEq, Eq, Structural)]
pub struct RmOptions {
    pub recursive: bool,
    pub dirs_only: bool,
    pub start: usize,
}

/// The removal options a first argument stands for.
pub open spec fn spec_rm_options(first: Seq<char>) -> RmOptions {
    if first == "-r"@ || first == "-R"@ || first == "--recursive"@ {
        RmOptions { recursive: true, dirs_only: false, start: 3usize }
    } else if first == "-d"@ || first == "--dir"@ {
        RmOptions { recursive: false, dirs_only: true, start: 3usize }
    } else {
        RmOptions { recursive: false, dirs_only: false, start: 2usize }
    }
}

/// Read the flags of `rm` from its first argument; an argument that is
/// no recognized flag counts as an operand.
pub fn rm_options(args: &Vec<String>) -> (r: RmOptions)
    requires
        args@.len() > 2,
    ensures
        r == spec_rm_options(args@[2]@),
{
    let first = args[2].as_str();
    if str_eq(first, "-r") || str_eq(first, "-R") || str_eq(first, "--recursive") {
        RmOptions { recursive: true, dirs_only: false, start: 3 }
    } else if str_eq(first, "-d") || str_eq(first, "--dir") {
        RmOptions { recursive: false, dirs_only: true, start: 3 }
    } else {
        RmOptions { recursive: false, dirs_only: false, start: 2 }
    }
}

/// How a copy runs: recursively or not, and where the source and
/// destination stand among the arguments.
#[derive(Clone, Copy, Debug, PartialEq, Eq, Structural)]
pub struct CpPlan {
    pub recursive: bool,
    pub src_index: usize,
    pub dst_index: usize,
}

/// The copy plan the arguments stand for, or nothing when too few
/// arguments were given.
pub open spec fn spec_cp_plan(args: Seq<Seq<char>>) -> Option<CpPlan> {
    let recursive = args.len() > 3 && (args[2] == "-r"@ || args[2] == "-R"@ || args[2]
        == "--recursive"@);
    let si: usize = if recursive { 3usize } else { 2usize };
    let di: usize = if recursive { 4usize } else { 3usize };
    if args.len() < di + 1 {
        None
    } else {
        Some(CpPlan { recursive, src_index: si, dst_index: di })
    }
}

/// Read the flags of `cp` and find the source and destination arguments;
/// nothing is returned when too few arguments were given.
pub fn cp_plan(args: &Vec<String>) -> (r: Option<CpPlan>)
    ensures
        r == spec_cp_plan(views(args@)),
{
    let recursive = args.len() > 3 && (str_eq(args[2].as_str(), "-r") || str_eq(
        args[2].as_str(),
        "-R",
    ) || str_eq(args[2].as_str(), "--recursive"));
    let si: usize = if recursive { 3 } else { 2 };
    let di: usize = if recursive { 4 } else { 3 };
    if args.len() < di + 1 {
        None
    } else {
        Some(CpPlan { recursive, src_index: si, dst_index: di })
    }
}

/// Whether an argument is a flag that shows hidden entries.
pub open spec fn is_all_flag(s: Seq<char>) -> bool {
    s == "-a"@ || s == "--all"@
}

/// Whether an argument is a flag that lists recursively.
pub open spec fn is_recursive_flag(s: Seq<char>) -> bool {
    s == "-R"@ || s == "--recursive"@
}

/// Whether an argument is a recognized listing flag.
pub open spec fn is_ls_flag(s: Seq<char>) -> bool {
    is_all_flag(s) || is_recursive_flag(s)
}

/// How a listing runs: whether hidden entries are shown, whether
/// directories are entered, and at which argument the path stands.
#[derive(Clone, Copy, Debug, PartialEq, Eq, Structural)]
pub struct LsOptions {
    pub show_hidden: bool,
    pub recursive: bool,
    pub next: usize,
}

/// Read the flags of `ls`: leading arguments that begin with '-' are
/// flags; an unrecognized one is returned as an error with its position.
pub fn ls_options(args: &Vec<String>) -> (r: Result<LsOptions, usize>)
    requires
        args@.len() >= 2,
    ensures
        match r {
            Ok(o) => {
                &&& 2 <= o.next <= args@.len()
                &&& forall|j: int| 2 <= j < o.next ==> is_ls_flag(#[trigger] args@[j]@)
                &&& (o.next < args@.len() ==> !starts_with_char(args@[o.next as int]@, '-'))
                &&& o.show_hidden == exists|j: int|
                    2 <= j < o.next && is_all_flag(#[trigger] args@[j]@)
                &&& o.recursive == exists|j: int|
                    2 <= j < o.next && is_recursive_flag(#[trigger] args@[j]@)
            },
            Err(i) => {
                &&& 2 <= i < args@.len()
                &&& forall|j: int| 2 <= j < i ==> is_ls_flag(#[trigger] args@[j]@)
                &&& starts_with_char(args@[i as int]@, '-')
                &&& !is_ls_flag(args@[i as int]@)
            },
        },
{
    let mut show_hidden = false;
    let mut recursive = false;
    let mut i: usize = 2;
    while i < args.len()
        invariant
            2 <= i <= args@.len(),
            forall|j: int| 2 <= j < i ==> is_ls_flag(#[trigger] args@[j]@),
            show_hidden == exists|j: int| 2 <= j < i && is_all_flag(#[trigger] args@[j]@),
            recursive == exists|j: int| 2 <= j < i && is_recursive_flag(#[trigger] args@[j]@),
        decreases args@.len() - i,
    {
        proof {
            reveal_strlit("-a");
            reveal_strlit("--all");
            reveal_strlit("-R");
            reveal_strlit("--recursive");
            assert("-a"@.len() == 2 && "-a"@[1] == 'a');
            assert("--all"@.len() == 5);
            assert("-R"@.len() == 2 && "-R"@[1] == 'R');
            assert("--recursive"@.len() == 11);
        }
        let a = args[i].as_str();
        if !first_char_is(a, '-') {
            return Ok(LsOptions { show_hidden, recursive, next: i });
        }
        if str_eq(a, "-a") || str_eq(a, "--all") {
            proof {
                assert(is_all_flag(args@[i as int]@));
            }
            show_hidden = true;
        } else if str_eq(a, "-R") || str_eq(a, "--recursive") {
            proof {
                assert(is_recursive_flag(args@[i as int]@));
            }
            recursive = true;
        } else {
            return Err(i);
        }
        i += 1;
    }
    Ok(LsOptions { show_hidden, recursive, next: i })
}

/// The path a listing works on: the argument after the flags when one
/// was given, the current directory otherwise.
pub fn ls_path(args: &Vec<String>, next: usize) -> (r: String)
    ensures
        r@ == (if (next as int) < args@.len() {
            args@[next as int]@
        } else {
            "./"@
        }),
{
    if next < args.len() {
        args[next].clone()
    } else {
        String::from_str("./")
    }
}

/// How a link is made: symbolically or hard, and where the source and
/// link name stand among the arguments.
#[derive(Clone, Copy, Debug, PartialEq, Eq, Structural)]
pub struct LnPlan {
    pub symbolic: bool,
    pub src_index: usize,
    pub link_index: usize,
}

/// Read the flag of `ln` and find the source and link-name arguments.
pub fn ln_plan(args: &Vec<String>) -> (r: LnPlan)
    requires
        args@.len() > 2,
    ensures
        r.symbolic == (args@[2]@ == "-s"@ || args@[2]@ == "--symbolic"@),
        r.src_index == (if r.symbolic { 3int } else { 2int }),
        r.link_index == (if r.symbolic { 4int } else { 3int }),
{
    let symbolic = str_eq(args[2].as_str(), "-s") || str_eq(args[2].as_str(), "--symbolic");
    if symbolic {
        LnPlan { symbolic: true, src_index: 3, link_index: 4 }
    } else {
        LnPlan { symbolic: false, src_index: 2, link_index: 3 }
    }
}

} // verus!
