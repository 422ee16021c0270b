use quickssh::auth::Password;
use quickssh::auth::ServerOptions;
use quickssh::cli::{Command, ConfigError};

const KEY: &str = "AAAAC3NzaC1lZDI1NTE5AAAAINdamAGCsQq31Uv+08lkBzoO4XLz2qYjJa8CGmj3B1Ea";

fn command() -> Command {
    Command {
        verbose: 0,
        user: None,
        password: None,
        pubkey: vec![],
        shell: None,
        no_shell: false,
        no_sftp: true,
        port: 2022,
    }
}

#[test]
fn defaults_come_from_the_running_user() {
    let o = ServerOptions::from_command(
        command(),
        Some("carol".to_string()),
        Some("/bin/bash".to_string()),
        vec![vec![1]],
    )
    .ok()
    .unwrap();
    assert_eq!(o.user, "carol");
    assert_eq!(o.shell, "/bin/bash");
    assert!(matches!(o.password, Some(Password::Su)));
    assert_eq!(o.pubkeys, vec![vec![1]]);
    assert!(o.no_sftp);
    assert!(!o.no_shell);
    assert_eq!(o.port, 2022);
}

#[test]
fn command_line_wins() {
    let mut c = command();
    c.user = Some("dave".to_string());
    c.shell = Some("/bin/sh".to_string());
    c.password = Some("pw".to_string());
    c.pubkey = vec![format!("ssh-ed25519 {KEY} c"), "bad".to_string()];
    let o = ServerOptions::from_command(c, None, None, vec![vec![9]]).ok().unwrap();
    assert_eq!(o.user, "dave");
    assert_eq!(o.shell, "/bin/sh");
    assert!(matches!(o.password, Some(Password::Raw(ref p)) if p == "pw"));
    assert_eq!(o.pubkeys.len(), 2);
    assert_eq!(o.pubkeys[0], vec![9]);
    assert_eq!(o.pubkeys[1].len(), 51);
}

#[test]
fn missing_user_or_shell() {
    assert_eq!(
        ServerOptions::from_command(command(), None, Some("/bin/sh".to_string()), vec![]).err(),
        Some(ConfigError::NoUser)
    );
    assert_eq!(
        ServerOptions::from_command(command(), Some("e".to_string()), None, vec![]).err(),
        Some(ConfigError::NoShell)
    );
}
