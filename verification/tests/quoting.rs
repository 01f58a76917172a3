use vigil::util::{get_local_username, shell_escape, tmux_install_hint};

#[test]
fn shell_escape_wraps_plain_text() {
    assert_eq!(shell_escape("work"), "'work'");
}

#[test]
fn shell_escape_of_empty_text() {
    assert_eq!(shell_escape(""), "''");
}

#[test]
fn shell_escape_escapes_single_quotes() {
    assert_eq!(shell_escape("it's"), "'it'\\''s'");
    assert_eq!(shell_escape("'"), "''\\'''");
    assert_eq!(shell_escape("''"), "''\\'''\\'''");
}

#[test]
fn shell_escape_keeps_metacharacters() {
    assert_eq!(shell_escape("#{session_name}"), "'#{session_name}'");
    assert_eq!(shell_escape("a b;c|d $e \\ \"f\""), "'a b;c|d $e \\ \"f\"'");
    assert_eq!(shell_escape("naïve ☃\n"), "'naïve ☃\n'");
}

#[test]
fn quoted_text_is_read_back_by_a_shell_lexer() {
    let samples = [
        "",
        "work",
        "it's",
        "'",
        "''''",
        "a 'b' c",
        "#{session_name}",
        "back\\slash",
        "tab\tand\nnewline",
        "dollar $HOME `cmd` \"dq\"",
        "naïve ☃",
        " leading and trailing ",
    ];
    for s in samples {
        let words = shell_words::split(&shell_escape(s)).expect("quoted text is well formed");
        assert_eq!(words, vec![s.to_string()]);
    }
}

#[test]
fn install_hint_names_the_package_managers() {
    let hint = tmux_install_hint();
    assert_eq!(
        hint,
        "tmux not found on remote host.\n  - Debian/Ubuntu: sudo apt-get install tmux\n  - RHEL/CentOS/Fedora: sudo yum install tmux (or dnf)\n  - macOS (Homebrew): brew install tmux"
    );
}

#[test]
fn local_username_prefers_user_then_logname() {
    assert_eq!(
        get_local_username(Some("alice".to_string()), Some("bob".to_string())),
        "alice"
    );
    assert_eq!(get_local_username(None, Some("bob".to_string())), "bob");
    assert_eq!(get_local_username(Some("alice".to_string()), None), "alice");
    assert_eq!(get_local_username(None, None), "user");
}
