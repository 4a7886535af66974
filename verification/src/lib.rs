//! A small set of POSIX shell commands — pwd, echo, touch, mkdir, rmdir,
//! rm, cat, mv, cp, chmod, ln, ls — as subcommands of one dispatcher.
//!
//! This library holds the part of each subcommand that computes rather
//! than touches the filesystem: the mapping of names to subcommands, the
//! reading of flags and operand positions, the parsing of permission
//! mode strings, and the decision each subcommand takes from what it
//! observed of a path. The binary around it performs the filesystem
//! calls these decisions name.

pub mod action;
pub mod command;
pub mod mode;
pub mod plan;
pub mod strutil;
