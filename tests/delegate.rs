use quickssh::delegate::{su_command, su_command_for, su_verdict};

#[test]
fn unprivileged_server_asks_su_for_the_user() {
    let c = su_command("alice", "pw", 1000);
    assert_eq!(c.program, "su");
    assert_eq!(c.args, vec!["alice".to_string(), "-c".to_string(), "exit 101".to_string()]);
    assert_eq!(c.input, "pw\n");
}

#[test]
fn privileged_server_goes_through_nobody() {
    let c = su_command("o'neil", "pw", 0);
    assert_eq!(c.program, "su");
    assert_eq!(
        c.args,
        vec![
            "nobody".to_string(),
            "-s".to_string(),
            "/bin/sh".to_string(),
            "-c".to_string(),
            "su 'o'\\''neil' -c 'exit 101'".to_string(),
        ]
    );
}

#[test]
fn command_for_this_process() {
    let c = su_command_for("alice", "pw");
    assert_eq!(c.program, "su");
    assert_eq!(c.input, "pw\n");
    assert!(c.args.len() == 3 || c.args.len() == 5);
}

#[test]
fn verdict_needs_sentinel_silence_and_prompt() {
    assert!(su_verdict(Some(101), b"", b"Password: "));
    assert!(!su_verdict(Some(1), b"", b"Password: "));
    assert!(!su_verdict(None, b"", b"Password: "));
    assert!(!su_verdict(Some(101), b"x", b"Password: "));
    assert!(!su_verdict(Some(101), b"", b"Password: \nsu: Authentication failure\n"));
    assert!(!su_verdict(Some(101), b"", b""));
}
