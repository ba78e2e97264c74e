use starry_api::cmdline::{init_cmdline, is_blank, split_whitespace};

fn strs(v: &[String]) -> Vec<&str> {
    v.iter().map(|s| s.as_str()).collect()
}

#[test]
fn configured_command_line_is_split_at_white_space() {
    let v = init_cmdline(Some("  /bin/busybox\tsh \n -c  ls  "), "init");
    assert_eq!(strs(&v), vec!["/bin/busybox", "sh", "-c", "ls"]);
}

#[test]
fn unset_or_blank_command_line_runs_the_init_script() {
    let script = "echo hello\nexit 0\n";
    assert_eq!(strs(&init_cmdline(None, script)), vec!["/bin/sh", "-c", script]);
    assert_eq!(strs(&init_cmdline(Some(""), script)), vec!["/bin/sh", "-c", script]);
    assert_eq!(strs(&init_cmdline(Some(" \t\u{3000}\n"), script)), vec!["/bin/sh", "-c", script]);
}

#[test]
fn split_matches_std() {
    for s in ["", "a", " a", "a ", "a b", "  héllo\u{2003}wörld\u{85}x ", "\u{a0}\u{a0}", "one\r\ntwo"] {
        let ours = split_whitespace(s);
        let std: Vec<&str> = s.split_whitespace().collect();
        assert_eq!(strs(&ours), std, "{s:?}");
        assert_eq!(is_blank(s), s.trim().is_empty(), "{s:?}");
    }
}
