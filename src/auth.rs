//! Server options and the authentication decisions made on them.

use vstd::prelude::*;

verus! {

/// How a password is checked.
pub enum Password {
    /// It must equal this string.
    Raw(String),
    /// The operating system's own login check decides, through `su`.
    Su,
}

/// The authentication methods a client may go on with.
#[derive(PartialEq, Eq, Structural, Clone, Copy, Debug)]
pub struct MethodSet {
    pub password: bool,
    pub publickey: bool,
}

/// The answer to one authentication attempt.
#[derive(PartialEq, Eq, Structural, Clone, Copy, Debug)]
pub enum Auth {
    Accept,
    Reject { proceed_with_methods: Option<MethodSet> },
}

/// The configuration that every connection shares, read-only.
pub struct ServerOptions {
    /// The only user that may log in.
    pub user: String,
    /// How passwords are checked; `None` turns password login off.
    pub password: Option<Password>,
    /// The accepted public keys, each in its wire encoding.
    pub pubkeys: Vec<Vec<u8>>,
    /// The program run for a shell, and through which commands run.
    pub shell: String,
    /// Whether shell and command sessions are refused.
    pub no_shell: bool,
    /// Whether the file-transfer subsystem is refused.
    pub no_sftp: bool,
    /// The port to listen on.
    pub port: u16,
}

/// Whether `key` is one of the accepted keys.
pub open spec fn key_accepted(keys: Seq<Vec<u8>>, key: Seq<u8>) -> bool {
    exists|i: int| 0 <= i < keys.len() && (#[trigger] keys[i])@ == key
}

/// The answer to a public-key attempt: only a listed key gets in; any other
/// is told to try a password.
pub open spec fn spec_auth_publickey(keys: Seq<Vec<u8>>, key: Seq<u8>) -> Auth {
    if key_accepted(keys, key) {
        Auth::Accept
    } else {
        Auth::Reject { proceed_with_methods: Some(MethodSet { password: true, publickey: false }) }
    }
}

/// Whether a password is right for the configured user under the policy;
/// `delegate_ok` is what the system login check said, where it was asked.
pub open spec fn password_matches(
    policy: Option<Password>,
    expected_user: Seq<char>,
    user: Seq<char>,
    password: Seq<char>,
    delegate_ok: bool,
) -> bool {
    &&& user == expected_user
    &&& match policy {
        Some(Password::Raw(p)) => p@ == password,
        Some(Password::Su) => delegate_ok,
        None => false,
    }
}

/// The answer to a password attempt.
pub open spec fn spec_auth_password(
    policy: Option<Password>,
    expected_user: Seq<char>,
    user: Seq<char>,
    password: Seq<char>,
    delegate_ok: bool,
) -> Auth {
    if password_matches(policy, expected_user, user, password, delegate_ok) {
        Auth::Accept
    } else {
        Auth::Reject { proceed_with_methods: None }
    }
}

pub(crate) fn same_bytes(a: &[u8], b: &[u8]) -> (r: bool)
    ensures
        r == (a@ == b@),
{
    if a.len() != b.len() {
        return false;
    }
    let mut i: usize = 0;
    while i < a.len()
        invariant
            a@.len() == b@.len(),
            0 <= i <= a@.len(),
            forall|j: int| 0 <= j < i ==> a@[j] == b@[j],
        decreases a@.len() - i,
    {
        if a[i] != b[i] {
            return false;
        }
        i = i + 1;
    }
    assert(a@ =~= b@);
    true
}

fn same_text(a: &String, b: &str) -> (r: bool)
    ensures
        r == (a@ == b@),
{
    let b = b.to_owned();
    *a == b
}

impl ServerOptions {
    /// The methods the server offers at all: password where a policy is set,
    /// public key where a key is listed; `None` when it offers nothing.
    pub fn methods(&self) -> (r: Option<MethodSet>)
        ensures
            (self.password is None && self.pubkeys@.len() == 0) ==> r is None,
            (self.password is Some || self.pubkeys@.len() > 0) ==> r == Some(
                MethodSet { password: self.password is Some, publickey: self.pubkeys@.len() > 0 },
            ),
    {
        let password = self.password.is_some();
        let publickey = self.pubkeys.len() > 0;
        if !password && !publickey {
            None
        } else {
            Some(MethodSet { password, publickey })
        }
    }

    /// Whether a password attempt by `user` has to ask the system login
    /// check: only for the configured user under the `Su` policy.
    pub fn needs_delegate(&self, user: &str) -> (r: bool)
        ensures
            r == (user@ == self.user@ && self.password matches Some(Password::Su)),
    {
        match self.password {
            Some(Password::Su) => same_text(&self.user, user),
            _ => false,
        }
    }

    /// A password attempt. `delegate_ok` is the system login check's verdict
    /// where `needs_delegate` asked for one, and is not looked at otherwise.
    pub fn auth_password(&self, user: &str, password: &str, delegate_ok: bool) -> (r: Auth)
        ensures
            r == spec_auth_password(self.password, self.user@, user@, password@, delegate_ok),
    {
        if !same_text(&self.user, user) {
            return Auth::Reject { proceed_with_methods: None };
        }
        let ok = match &self.password {
            Some(Password::Raw(p)) => same_text(p, password),
            Some(Password::Su) => delegate_ok,
            None => false,
        };
        if ok {
            Auth::Accept
        } else {
            Auth::Reject { proceed_with_methods: None }
        }
    }

    /// A public-key attempt with the key's wire encoding: membership in the
    /// accepted list, nothing more.
    pub fn auth_publickey(&self, key: &[u8]) -> (r: Auth)
        ensures
            r == spec_auth_publickey(self.pubkeys@, key@),
    {
        let mut i: usize = 0;
        while i < self.pubkeys.len()
            invariant
                0 <= i <= self.pubkeys@.len(),
                forall|j: int| 0 <= j < i ==> (#[trigger] self.pubkeys@[j])@ != key@,
            decreases self.pubkeys@.len() - i,
        {
            if same_bytes(self.pubkeys[i].as_slice(), key) {
                return Auth::Accept;
            }
            i = i + 1;
        }
        Auth::Reject { proceed_with_methods: Some(MethodSet { password: true, publickey: false }) }
    }

    /// An attempt without credentials: always refused, naming both methods.
    pub fn auth_none(&self, user: &str) -> (r: Auth)
        ensures
            r == (Auth::Reject {
                proceed_with_methods: Some(MethodSet { password: true, publickey: true }),
            }),
    {
        Auth::Reject { proceed_with_methods: Some(MethodSet { password: true, publickey: true }) }
    }
}

/// Under a fixed password, exactly the configured user with exactly that
/// password gets in; every other pair is refused, whatever a system check
/// would say.
pub proof fn lemma_fixed_password(
    expected_user: Seq<char>,
    fixed: String,
    user: Seq<char>,
    password: Seq<char>,
    delegate_ok: bool,
)
    ensures
        spec_auth_password(Some(Password::Raw(fixed)), expected_user, user, password, delegate_ok)
            == (if user == expected_user && password == fixed@ {
            Auth::Accept
        } else {
            Auth::Reject { proceed_with_methods: None }
        }),
{
}

/// Every listed key gets in; any other key is refused and told that a
/// password may still work.
pub proof fn lemma_key_allow_list(keys: Seq<Vec<u8>>, key: Seq<u8>)
    ensures
        (exists|i: int| 0 <= i < keys.len() && (#[trigger] keys[i])@ == key) ==> spec_auth_publickey(
            keys,
            key,
        ) == Auth::Accept,
        (forall|i: int| 0 <= i < keys.len() ==> (#[trigger] keys[i])@ != key) ==> spec_auth_publickey(
            keys,
            key,
        ) == (Auth::Reject {
            proceed_with_methods: Some(MethodSet { password: true, publickey: false }),
        }),
{
}

} // verus!
