//! Decisions each subcommand takes between looking at the filesystem and
//! acting on it. Each function maps what was observed — whether a path
//! exists, whether it is a directory — to the one filesystem action or
//! error the subcommand answers it with.

use vstd::prelude::*;
use crate::strutil::starts_with_char;
use crate::strutil::first_char_is;

verus! {

/// What `rm` does with one operand. `meta` is whether the path is a
/// directory, or nothing when it could not be read.
#[derive(Clone, Copy, Debug, PartialEq, Eq, Structural)]
pub enum RmAction {
    RemoveDirAll,
    RemoveFile,
    RemoveDir,
    NeedFlagError,
    Skip,
}

/// The removal a set of flags and an observation call for: an unreadable
/// path is skipped; recursive removal takes whole directories; with the
/// directories-only flag plain files are skipped; without a flag a
/// directory is an error.
pub open spec fn spec_rm_action(recursive: bool, dirs_only: bool, meta: Option<bool>) -> RmAction {
    match meta {
        None => RmAction::Skip,
        Some(is_dir) => if recursive {
            if is_dir {
                RmAction::RemoveDirAll
            } else {
                RmAction::RemoveFile
            }
        } else if dirs_only {
            if is_dir {
                RmAction::RemoveDir
            } else {
                RmAction::Skip
            }
        } else {
            if is_dir {
                RmAction::NeedFlagError
            } else {
                RmAction::RemoveFile
            }
        },
    }
}

/// Decide what `rm` does with one operand.
pub fn rm_action(recursive: bool, dirs_only: bool, meta: Option<bool>) -> (r: RmAction)
    ensures
        r == spec_rm_action(recursive, dirs_only, meta),
{
    match meta {
        None => RmAction::Skip,
        Some(is_dir) => if recursive {
            if is_dir {
                RmAction::RemoveDirAll
            } else {
                RmAction::RemoveFile
            }
        } else if dirs_only {
            if is_dir {
                RmAction::RemoveDir
            } else {
                RmAction::Skip
            }
        } else {
            if is_dir {
                RmAction::NeedFlagError
            } else {
                RmAction::RemoveFile
            }
        },
    }
}

/// What `cp` does with its source. `meta` is whether the source is a
/// directory, or nothing when it could not be read.
#[derive(Clone, Copy, Debug, PartialEq, Eq, Structural)]
pub enum CpAction {
    NotExistError,
    NeedFlagError,
    CopyFile,
    RecurseDir,
}

/// The copy a flag and an observation call for: a missing source is an
/// error, a directory needs the recursive flag, and with it the copy
/// walks the directory.
pub open spec fn spec_cp_action(recursive: bool, meta: Option<bool>) -> CpAction {
    match meta {
        None => CpAction::NotExistError,
        Some(is_dir) => if is_dir && !recursive {
            CpAction::NeedFlagError
        } else if is_dir {
            CpAction::RecurseDir
        } else {
            CpAction::CopyFile
        },
    }
}

/// Decide what `cp` does with its source.
pub fn cp_action(recursive: bool, meta: Option<bool>) -> (r: CpAction)
    ensures
        r == spec_cp_action(recursive, meta),
{
    match meta {
        None => CpAction::NotExistError,
        Some(is_dir) => if is_dir && !recursive {
            CpAction::NeedFlagError
        } else if is_dir {
            CpAction::RecurseDir
        } else {
            CpAction::CopyFile
        },
    }
}

/// What `ls` does with its path argument. `meta` is whether the path is
/// a plain file and whether it is a directory, or nothing when it could
/// not be read.
#[derive(Clone, Copy, Debug, PartialEq, Eq, Structural)]
pub enum LsTargetAction {
    PrintPath,
    ListDir,
    InvalidError,
    AccessError,
}

/// The listing a path observation calls for: an unreadable path is an
/// access error, a plain file is printed as given, a directory is
/// listed, anything else is invalid.
pub open spec fn spec_ls_target_action(meta: Option<(bool, bool)>) -> LsTargetAction {
    match meta {
        None => LsTargetAction::AccessError,
        Some((is_file, is_dir)) => if is_file {
            LsTargetAction::PrintPath
        } else if is_dir {
            LsTargetAction::ListDir
        } else {
            LsTargetAction::InvalidError
        },
    }
}

/// Decide what `ls` does with its path argument.
pub fn ls_target_action(meta: Option<(bool, bool)>) -> (r: LsTargetAction)
    ensures
        r == spec_ls_target_action(meta),
{
    match meta {
        None => LsTargetAction::AccessError,
        Some((is_file, is_dir)) => if is_file {
            LsTargetAction::PrintPath
        } else if is_dir {
            LsTargetAction::ListDir
        } else {
            LsTargetAction::InvalidError
        },
    }
}

/// Whether a listing shows an entry of this name: hidden names — those
/// beginning with '.' — are shown only on request.
pub fn ls_entry_visible(show_hidden: bool, name: &str) -> (r: bool)
    ensures
        r == (show_hidden || !starts_with_char(name@, '.')),
{
    show_hidden || !first_char_is(name, '.')
}

/// What a listing does with one directory entry.
#[derive(Clone, Copy, Debug, PartialEq, Eq, Structural)]
pub enum LsEntryAction {
    Skip,
    Recurse,
    Name,
}

/// The step a directory entry calls for: hidden names — those beginning
/// with '.' — are skipped unless shown; in a recursive listing a
/// directory entry is printed as a path and entered; any other entry is
/// printed by name.
pub open spec fn spec_ls_entry_action(
    show_hidden: bool,
    recursive: bool,
    name: Seq<char>,
    is_dir: bool,
) -> LsEntryAction {
    if !show_hidden && starts_with_char(name, '.') {
        LsEntryAction::Skip
    } else if recursive && is_dir {
        LsEntryAction::Recurse
    } else {
        LsEntryAction::Name
    }
}

/// Decide what a listing does with one directory entry.
pub fn ls_entry_action(show_hidden: bool, recursive: bool, name: &str, is_dir: bool) -> (r:
    LsEntryAction)
    ensures
        r == spec_ls_entry_action(show_hidden, recursive, name@, is_dir),
{
    if !show_hidden && first_char_is(name, '.') {
        LsEntryAction::Skip
    } else if recursive && is_dir {
        LsEntryAction::Recurse
    } else {
        LsEntryAction::Name
    }
}

/// What `ln` does with its operands.
#[derive(Clone, Copy, Debug, PartialEq, Eq, Structural)]
pub enum LnAction {
    SourceMissingError,
    DestIsDirError,
    Symlink,
    HardLink,
}

/// The link two path observations call for: the source must exist and
/// the link name must not be a directory; then the flag picks a symbolic
/// or a hard link.
pub open spec fn spec_ln_action(symbolic: bool, source_exists: bool, link_is_dir: bool) -> LnAction {
    if !source_exists {
        LnAction::SourceMissingError
    } else if link_is_dir {
        LnAction::DestIsDirError
    } else if symbolic {
        LnAction::Symlink
    } else {
        LnAction::HardLink
    }
}

/// Decide what `ln` does with its operands.
pub fn ln_action(symbolic: bool, source_exists: bool, link_is_dir: bool) -> (r: LnAction)
    ensures
        r == spec_ln_action(symbolic, source_exists, link_is_dir),
{
    if !source_exists {
        LnAction::SourceMissingError
    } else if link_is_dir {
        LnAction::DestIsDirError
    } else if symbolic {
        LnAction::Symlink
    } else {
        LnAction::HardLink
    }
}

} // verus!
