//! The command line, and the server options made from it.

use vstd::prelude::*;

use crate::auth::{Password, ServerOptions};
use crate::keys::{accepted_keys, blob_views, keys_of, views};

verus! {

/// What the command line gives.
pub struct Command {
    /// How much to log: 0, 1, or 2 and more.
    pub verbose: u8,
    /// The user that may log in; the user running the server by default.
    pub user: Option<String>,
    /// A fixed password; without it passwords go to the system login check.
    pub password: Option<String>,
    /// Extra accepted public keys, each a key line.
    pub pubkey: Vec<String>,
    /// The shell to run; the shell of the user running the server by default.
    pub shell: Option<String>,
    /// Refuse shell and command sessions.
    pub no_shell: bool,
    /// Refuse the file-transfer subsystem.
    pub no_sftp: bool,
    /// The port to listen on.
    pub port: u16,
}

/// Why no server options could be made.
#[derive(PartialEq, Eq, Structural, Clone, Copy, Debug)]
pub enum ConfigError {
    /// No user was given, and the running user is not known.
    NoUser,
    /// No shell was given, and the running user's shell is not known.
    NoShell,
}

/// The first of two optional values that is there.
pub open spec fn first_of<T>(a: Option<T>, b: Option<T>) -> Option<T> {
    match a {
        Some(x) => Some(x),
        None => b,
    }
}

/// The password policy a command line asks for: the given password, or the
/// system login check.
pub open spec fn policy_of(password: Option<String>) -> Option<Password> {
    match password {
        Some(p) => Some(Password::Raw(p)),
        None => Some(Password::Su),
    }
}

impl ServerOptions {
    /// The options for a command line. `login_user` and `login_shell` are the
    /// running user's name and shell, where known; they stand in for what the
    /// command line leaves out. The accepted keys are `authorized` followed by
    /// the readable keys of the command line.
    pub fn from_command(
        cmd: Command,
        login_user: Option<String>,
        login_shell: Option<String>,
        authorized: Vec<Vec<u8>>,
    ) -> (r: Result<ServerOptions, ConfigError>)
        ensures
            first_of(cmd.user, login_user) is None ==> r == Err::<ServerOptions, ConfigError>(
                ConfigError::NoUser,
            ),
            first_of(cmd.user, login_user) is Some && first_of(cmd.shell, login_shell) is None
                ==> r == Err::<ServerOptions, ConfigError>(ConfigError::NoShell),
            r matches Ok(o) ==> {
                &&& Some(o.user) == first_of(cmd.user, login_user)
                &&& Some(o.shell) == first_of(cmd.shell, login_shell)
                &&& o.password == policy_of(cmd.password)
                &&& blob_views(o.pubkeys@) == blob_views(authorized@) + keys_of(views(cmd.pubkey@))
                &&& o.no_shell == cmd.no_shell
                &&& o.no_sftp == cmd.no_sftp
                &&& o.port == cmd.port
            },
            first_of(cmd.user, login_user) is Some && first_of(cmd.shell, login_shell) is Some
                ==> r is Ok,
    {
        let user = match cmd.user {
            Some(u) => u,
            None => match login_user {
                Some(u) => u,
                None => return Err(ConfigError::NoUser),
            },
        };
        let shell = match cmd.shell {
            Some(s) => s,
            None => match login_shell {
                Some(s) => s,
                None => return Err(ConfigError::NoShell),
            },
        };
        let password = match cmd.password {
            Some(p) => Some(Password::Raw(p)),
            None => Some(Password::Su),
        };
        let mut pubkeys = authorized;
        let mut extra = accepted_keys(&cmd.pubkey);
        let ghost first = pubkeys@;
        let ghost second = extra@;
        pubkeys.append(&mut extra);
        assert(blob_views(pubkeys@) =~= blob_views(first) + blob_views(second));
        Ok(
            ServerOptions {
                user,
                password,
                pubkeys,
                shell,
                no_shell: cmd.no_shell,
                no_sftp: cmd.no_sftp,
                port: cmd.port,
            },
        )
    }
}

} // verus!
