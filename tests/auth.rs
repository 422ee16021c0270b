use quickssh::auth::{Auth, MethodSet, Password, ServerOptions};

fn options(password: Option<Password>, pubkeys: Vec<Vec<u8>>) -> ServerOptions {
    ServerOptions {
        user: "alice".to_string(),
        password,
        pubkeys,
        shell: "/bin/sh".to_string(),
        no_shell: false,
        no_sftp: false,
        port: 2222,
    }
}

fn rejected(password: bool, publickey: bool) -> Auth {
    Auth::Reject { proceed_with_methods: Some(MethodSet { password, publickey }) }
}

#[test]
fn fixed_password_accepts_exact_pair() {
    let o = options(Some(Password::Raw("s3cret".to_string())), vec![]);
    assert_eq!(o.auth_password("alice", "s3cret", false), Auth::Accept);
}

#[test]
fn fixed_password_rejects_other_pairs() {
    let o = options(Some(Password::Raw("s3cret".to_string())), vec![]);
    let none = Auth::Reject { proceed_with_methods: None };
    assert_eq!(o.auth_password("alice", "s3cret ", false), none);
    assert_eq!(o.auth_password("alice", "", false), none);
    assert_eq!(o.auth_password("bob", "s3cret", false), none);
    assert_eq!(o.auth_password("alice", "wrong", true), none);
}

#[test]
fn disabled_password_always_rejects() {
    let o = options(None, vec![]);
    assert_eq!(o.auth_password("alice", "anything", true), Auth::Reject { proceed_with_methods: None });
    assert!(!o.needs_delegate("alice"));
}

#[test]
fn delegate_policy_follows_the_system_check() {
    let o = options(Some(Password::Su), vec![]);
    assert!(o.needs_delegate("alice"));
    assert!(!o.needs_delegate("bob"));
    assert_eq!(o.auth_password("alice", "pw", true), Auth::Accept);
    assert_eq!(o.auth_password("alice", "pw", false), Auth::Reject { proceed_with_methods: None });
    assert_eq!(o.auth_password("bob", "pw", true), Auth::Reject { proceed_with_methods: None });
}

#[test]
fn listed_key_is_accepted() {
    let o = options(None, vec![vec![1, 2, 3], vec![4, 5]]);
    assert_eq!(o.auth_publickey(&[4, 5]), Auth::Accept);
    assert_eq!(o.auth_publickey(&[1, 2, 3]), Auth::Accept);
}

#[test]
fn unlisted_key_is_rejected_with_password_left() {
    let o = options(None, vec![vec![1, 2, 3]]);
    assert_eq!(o.auth_publickey(&[1, 2]), rejected(true, false));
    assert_eq!(o.auth_publickey(&[1, 2, 3, 4]), rejected(true, false));
    let empty = options(None, vec![]);
    assert_eq!(empty.auth_publickey(&[1, 2, 3]), rejected(true, false));
}

#[test]
fn none_auth_names_both_methods() {
    let o = options(Some(Password::Su), vec![]);
    assert_eq!(o.auth_none("alice"), rejected(true, true));
}

#[test]
fn offered_methods_follow_the_options() {
    assert_eq!(options(None, vec![]).methods(), None);
    assert_eq!(
        options(Some(Password::Su), vec![]).methods(),
        Some(MethodSet { password: true, publickey: false })
    );
    assert_eq!(
        options(None, vec![vec![7]]).methods(),
        Some(MethodSet { password: false, publickey: true })
    );
    assert_eq!(
        options(Some(Password::Raw("x".to_string())), vec![vec![7]]).methods(),
        Some(MethodSet { password: true, publickey: true })
    );
}
