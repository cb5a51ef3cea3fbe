use crossbundle::command_line::CommandLine;

fn line(args: &[&str]) -> CommandLine {
    let mut cmd = CommandLine::new("rustc");
    for arg in args {
        cmd.arg(arg);
    }
    cmd
}

#[test]
fn a_new_command_has_nothing_but_its_program() {
    let cmd = CommandLine::new("cargo");
    assert_eq!(cmd.program, "cargo");
    assert!(cmd.args.is_empty());
    assert_eq!(cmd.current_dir, None);
    assert!(cmd.envs.is_empty());
}

#[test]
fn arguments_and_settings_are_kept_in_order() {
    let mut cmd = CommandLine::new("cargo");
    cmd.arg("b");
    cmd.arg("a");
    cmd.arg("b");
    cmd.env("X", "1");
    cmd.env("A", "2");
    cmd.env("X", "3");
    cmd.current_dir("/one");
    cmd.current_dir("/two");
    assert_eq!(cmd.args, vec!["b", "a", "b"]);
    assert_eq!(
        cmd.envs,
        vec![
            ("X".to_string(), "1".to_string()),
            ("A".to_string(), "2".to_string()),
            ("X".to_string(), "3".to_string()),
        ]
    );
    assert_eq!(cmd.current_dir, Some("/two".to_string()));
    let copy = cmd.clone();
    assert_eq!(copy, cmd);
    let other = cmd.with_args(vec!["z".to_string()]);
    assert_eq!(other.args, vec!["z"]);
    assert_eq!(other.program, cmd.program);
    assert_eq!(other.envs, cmd.envs);
    assert_eq!(other.current_dir, cmd.current_dir);
}

#[test]
fn value_of_a_flag() {
    let cmd = line(&["--out-dir", "/a", "--crate-type", "bin", "--out-dir", "/b"]);
    assert_eq!(cmd.value_of("--out-dir"), Some("/a".to_string()));
    assert_eq!(cmd.value_of("--crate-type"), Some("bin".to_string()));
    assert_eq!(cmd.value_of("/a"), Some("--crate-type".to_string()));
    assert_eq!(cmd.value_of("/b"), None);
    assert_eq!(cmd.value_of("--target"), None);
    assert_eq!(cmd.value_of(""), None);
    assert_eq!(line(&[]).value_of("--out-dir"), None);
    assert_eq!(line(&["--out-dir"]).value_of("--out-dir"), None);
    assert_eq!(
        line(&["--out-dir", "--out-dir"]).value_of("--out-dir"),
        Some("--out-dir".to_string())
    );
    assert_eq!(line(&["x", "--out-dir"]).value_of("--out-dir"), None);
}
