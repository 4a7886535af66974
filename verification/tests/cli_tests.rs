use miniutils::action::cp_action;
use miniutils::action::ln_action;
use miniutils::action::ls_entry_action;
use miniutils::action::ls_target_action;
use miniutils::action::rm_action;
use miniutils::action::CpAction;
use miniutils::action::LnAction;
use miniutils::action::LsEntryAction;
use miniutils::action::LsTargetAction;
use miniutils::action::RmAction;
use miniutils::command::error_exit_code;
use miniutils::command::parse_command;
use miniutils::command::Command;
use miniutils::plan::cp_plan;
use miniutils::plan::echo_plan;
use miniutils::plan::has_operands;
use miniutils::plan::ln_plan;
use miniutils::plan::ls_options;
use miniutils::plan::ls_path;
use miniutils::plan::rm_options;
use miniutils::plan::takes_two_operands;
use miniutils::strutil::first_char_is;
use miniutils::strutil::join_spaces;
use miniutils::strutil::path_join;
use miniutils::strutil::str_eq;

fn sv(parts: &[&str]) -> Vec<String> {
    parts.iter().map(|p| p.to_string()).collect()
}

#[test]
fn command_names() {
    assert_eq!(parse_command("pwd"), Command::Pwd);
    assert_eq!(parse_command("echo"), Command::Echo);
    assert_eq!(parse_command("touch"), Command::Touch);
    assert_eq!(parse_command("mkdir"), Command::Mkdir);
    assert_eq!(parse_command("rmdir"), Command::Rmdir);
    assert_eq!(parse_command("rm"), Command::Rm);
    assert_eq!(parse_command("cat"), Command::Cat);
    assert_eq!(parse_command("mv"), Command::Mv);
    assert_eq!(parse_command("cp"), Command::Cp);
    assert_eq!(parse_command("chmod"), Command::Chmod);
    assert_eq!(parse_command("ln"), Command::Ln);
    assert_eq!(parse_command("ls"), Command::Ls);
    assert_eq!(parse_command("list"), Command::Invalid);
    assert_eq!(parse_command(""), Command::Invalid);
}

#[test]
fn exit_codes() {
    assert_eq!(error_exit_code(Command::Mkdir), -30);
    assert_eq!(error_exit_code(Command::Rmdir), -60);
    assert_eq!(error_exit_code(Command::Rm), -70);
    assert_eq!(error_exit_code(Command::Cat), -20);
    assert_eq!(error_exit_code(Command::Mv), -40);
    assert_eq!(error_exit_code(Command::Cp), -90);
    assert_eq!(error_exit_code(Command::Chmod), -25);
    assert_eq!(error_exit_code(Command::Ls), -80);
    assert_eq!(error_exit_code(Command::Ln), -50);
    assert_eq!(error_exit_code(Command::Invalid), -1);
    assert_eq!(error_exit_code(Command::Pwd), -10);
    assert_eq!(error_exit_code(Command::Touch), -15);
    assert_eq!(error_exit_code(Command::Echo), 0);
}

#[test]
fn string_utilities() {
    assert!(str_eq("abc", "abc"));
    assert!(!str_eq("abc", "abd"));
    assert!(!str_eq("abc", "ab"));
    assert!(str_eq("", ""));
    assert!(first_char_is("-r", '-'));
    assert!(first_char_is(".hidden", '.'));
    assert!(!first_char_is("plain", '.'));
    assert!(!first_char_is("", '.'));
    assert_eq!(path_join("a/b", "c"), "a/b/c");
    assert_eq!(path_join("", "c"), "/c");
}

#[test]
fn arity_checks() {
    assert!(has_operands(&sv(&["bin", "touch", "f"])));
    assert!(!has_operands(&sv(&["bin", "touch"])));
    assert!(takes_two_operands(&sv(&["bin", "mv", "a", "b"])));
    assert!(!takes_two_operands(&sv(&["bin", "mv", "a"])));
    assert!(!takes_two_operands(&sv(&["bin", "mv", "a", "b", "c"])));
    assert!(takes_two_operands(&sv(&["bin", "chmod", "755", "f"])));
}

#[test]
fn echo_plain() {
    let p = echo_plan(&sv(&["bin", "echo", "hello", "world"]));
    assert!(!p.skip_newline);
    assert_eq!(p.start, 2);
    let args = sv(&["bin", "echo", "hello", "world"]);
    assert_eq!(join_spaces(&args, p.start), "hello world");
}

#[test]
fn echo_no_newline() {
    let args = sv(&["bin", "echo", "-n", "hi", "there"]);
    let p = echo_plan(&args);
    assert!(p.skip_newline);
    assert_eq!(p.start, 3);
    assert_eq!(join_spaces(&args, p.start), "hi there");
}

#[test]
fn echo_join_edges() {
    let args = sv(&["bin", "echo", "one"]);
    assert_eq!(join_spaces(&args, 2), "one");
    assert_eq!(join_spaces(&args, 3), "");
}

#[test]
fn rm_flag_forms() {
    for f in ["-r", "-R", "--recursive"] {
        let o = rm_options(&sv(&["bin", "rm", f, "d"]));
        assert!(o.recursive && !o.dirs_only);
        assert_eq!(o.start, 3);
    }
    for f in ["-d", "--dir"] {
        let o = rm_options(&sv(&["bin", "rm", f, "d"]));
        assert!(!o.recursive && o.dirs_only);
        assert_eq!(o.start, 3);
    }
    let o = rm_options(&sv(&["bin", "rm", "-x", "d"]));
    assert!(!o.recursive && !o.dirs_only);
    assert_eq!(o.start, 2);
    let o = rm_options(&sv(&["bin", "rm", "file"]));
    assert!(!o.recursive && !o.dirs_only);
    assert_eq!(o.start, 2);
}

#[test]
fn rm_decisions() {
    assert_eq!(rm_action(true, false, Some(true)), RmAction::RemoveDirAll);
    assert_eq!(rm_action(true, false, Some(false)), RmAction::RemoveFile);
    assert_eq!(rm_action(false, true, Some(true)), RmAction::RemoveDir);
    assert_eq!(rm_action(false, true, Some(false)), RmAction::Skip);
    assert_eq!(rm_action(false, false, Some(true)), RmAction::NeedFlagError);
    assert_eq!(rm_action(false, false, Some(false)), RmAction::RemoveFile);
    assert_eq!(rm_action(true, false, None), RmAction::Skip);
    assert_eq!(rm_action(false, false, None), RmAction::Skip);
}

#[test]
fn cp_plain_plan() {
    let p = cp_plan(&sv(&["bin", "cp", "a", "b"])).unwrap();
    assert!(!p.recursive);
    assert_eq!((p.src_index, p.dst_index), (2, 3));
}

#[test]
fn cp_recursive_plan() {
    for f in ["-r", "-R", "--recursive"] {
        let p = cp_plan(&sv(&["bin", "cp", f, "a", "b"])).unwrap();
        assert!(p.recursive);
        assert_eq!((p.src_index, p.dst_index), (3, 4));
    }
}

#[test]
fn cp_insufficient() {
    assert!(cp_plan(&sv(&["bin", "cp", "a"])).is_none());
    assert!(cp_plan(&sv(&["bin", "cp"])).is_none());
    assert!(cp_plan(&sv(&["bin", "cp", "-r", "a"])).is_none());
}

#[test]
fn cp_decisions() {
    assert_eq!(cp_action(false, None), CpAction::NotExistError);
    assert_eq!(cp_action(true, None), CpAction::NotExistError);
    assert_eq!(cp_action(false, Some(true)), CpAction::NeedFlagError);
    assert_eq!(cp_action(true, Some(true)), CpAction::RecurseDir);
    assert_eq!(cp_action(false, Some(false)), CpAction::CopyFile);
    assert_eq!(cp_action(true, Some(false)), CpAction::CopyFile);
}

#[test]
fn ls_no_flags() {
    let o = ls_options(&sv(&["bin", "ls"])).unwrap();
    assert!(!o.show_hidden && !o.recursive);
    assert_eq!(o.next, 2);
    let o = ls_options(&sv(&["bin", "ls", "dir"])).unwrap();
    assert!(!o.show_hidden && !o.recursive);
    assert_eq!(o.next, 2);
}

#[test]
fn ls_flags() {
    let o = ls_options(&sv(&["bin", "ls", "-a"])).unwrap();
    assert!(o.show_hidden && !o.recursive);
    assert_eq!(o.next, 3);
    let o = ls_options(&sv(&["bin", "ls", "--all", "--recursive", "dir"])).unwrap();
    assert!(o.show_hidden && o.recursive);
    assert_eq!(o.next, 4);
    let o = ls_options(&sv(&["bin", "ls", "-R", "dir"])).unwrap();
    assert!(!o.show_hidden && o.recursive);
    assert_eq!(o.next, 3);
}

#[test]
fn ls_unknown_flag() {
    assert_eq!(ls_options(&sv(&["bin", "ls", "-z"])), Err(2));
    assert_eq!(ls_options(&sv(&["bin", "ls", "-a", "-z", "dir"])), Err(3));
}

#[test]
fn ls_path_choice() {
    let args = sv(&["bin", "ls", "-a", "somewhere"]);
    assert_eq!(ls_path(&args, 3), "somewhere");
    let args = sv(&["bin", "ls"]);
    assert_eq!(ls_path(&args, 2), "./");
}

#[test]
fn ls_target_decisions() {
    assert_eq!(ls_target_action(None), LsTargetAction::AccessError);
    assert_eq!(ls_target_action(Some((true, false))), LsTargetAction::PrintPath);
    assert_eq!(ls_target_action(Some((false, true))), LsTargetAction::ListDir);
    assert_eq!(ls_target_action(Some((false, false))), LsTargetAction::InvalidError);
}

#[test]
fn ls_entry_decisions() {
    assert_eq!(ls_entry_action(false, false, ".git", false), LsEntryAction::Skip);
    assert_eq!(ls_entry_action(true, false, ".git", false), LsEntryAction::Name);
    assert_eq!(ls_entry_action(false, true, "sub", true), LsEntryAction::Recurse);
    assert_eq!(ls_entry_action(false, false, "sub", true), LsEntryAction::Name);
    assert_eq!(ls_entry_action(false, true, "file", false), LsEntryAction::Name);
    assert_eq!(ls_entry_action(true, true, ".sub", true), LsEntryAction::Recurse);
}

#[test]
fn ln_plans() {
    let p = ln_plan(&sv(&["bin", "ln", "-s", "src", "dst"]));
    assert!(p.symbolic);
    assert_eq!((p.src_index, p.link_index), (3, 4));
    let p = ln_plan(&sv(&["bin", "ln", "--symbolic", "src", "dst"]));
    assert!(p.symbolic);
    let p = ln_plan(&sv(&["bin", "ln", "src", "dst"]));
    assert!(!p.symbolic);
    assert_eq!((p.src_index, p.link_index), (2, 3));
}

#[test]
fn ln_decisions() {
    assert_eq!(ln_action(true, false, false), LnAction::SourceMissingError);
    assert_eq!(ln_action(false, false, true), LnAction::SourceMissingError);
    assert_eq!(ln_action(true, true, true), LnAction::DestIsDirError);
    assert_eq!(ln_action(false, true, true), LnAction::DestIsDirError);
    assert_eq!(ln_action(true, true, false), LnAction::Symlink);
    assert_eq!(ln_action(false, true, false), LnAction::HardLink);
}
