//! The channel state of one connection, and the decisions on the requests
//! made on its channels.
//!
//! The connection is generic over the channel value `C` that the transport
//! hands over when a session channel opens. A channel is bound either to a
//! pseudo terminal (shell or command) or to the file-transfer subsystem, by
//! the first request that is granted on it.

use std::collections::{HashMap, HashSet};
use vstd::prelude::*;
use vstd::utf8::{decode_utf8, valid_utf8};

use crate::auth::ServerOptions;

verus! {

broadcast use vstd::std_specs::hash::group_hash_axioms;

/// Why a channel request is refused.
#[derive(PartialEq, Eq, Structural, Clone, Copy, Debug)]
pub enum RequestError {
    /// Shell and command sessions are turned off.
    ShellDisabled,
    /// The file-transfer subsystem is turned off.
    SftpDisabled,
    /// No subsystem of that name is offered.
    UnknownSubsystem,
    /// The command is not valid UTF-8.
    InvalidCommand,
    /// The channel is unknown, or already bound by an earlier request.
    ChannelUnavailable,
}

/// A program to start on a new pseudo terminal.
pub struct SpawnPlan {
    pub program: String,
    pub args: Vec<String>,
}

/// The arguments of a plan, as character sequences.
pub open spec fn arg_views(args: Seq<String>) -> Seq<Seq<char>> {
    args.map_values(|a: String| a@)
}

/// The size a window-change request asks for, as (rows, columns): each
/// dimension keeps its low sixteen bits.
pub open spec fn spec_pty_size(cols: u32, rows: u32) -> (u16, u16) {
    ((rows % 0x10000) as u16, (cols % 0x10000) as u16)
}

/// The exit status reported when a shell ends: its exit code, or 1 when it
/// has none (it was killed by a signal).
pub fn exit_status(code: Option<i32>) -> (r: u32)
    ensures
        r == (match code {
            Some(c) => c as u32,
            None => 1u32,
        }),
{
    match code {
        Some(c) => c as u32,
        None => 1,
    }
}

/// Relies on `String::from_utf8`: it succeeds exactly on valid UTF-8, and
/// then holds the characters the bytes encode.
#[verifier::external_body]
fn text_of(bytes: Vec<u8>) -> (r: Option<String>)
    ensures
        r is Some <==> valid_utf8(bytes@),
        r matches Some(s) ==> s@ == decode_utf8(bytes@),
{
    String::from_utf8(bytes).ok()
}

/// The state of one connection.
pub struct Connection<C> {
    id: usize,
    channels: HashMap<u32, C>,
    ptys: HashSet<u32>,
}

impl<C> Connection<C> {
    /// The number the connection got when it was accepted.
    pub closed spec fn spec_id(&self) -> usize {
        self.id
    }

    /// The session channels not handed to a subsystem, by channel id.
    pub closed spec fn channels(&self) -> Map<u32, C> {
        self.channels@
    }

    /// The channels bound to a pseudo terminal.
    pub closed spec fn ptys(&self) -> Set<u32> {
        self.ptys@
    }

    /// Whether a request may still bind the channel.
    pub open spec fn is_unbound(&self, ch: u32) -> bool {
        self.channels().contains_key(ch) && !self.ptys().contains(ch)
    }

    /// A fresh connection with no channels.
    pub fn new(id: usize) -> (r: Self)
        ensures
            r.spec_id() == id,
            r.channels() == Map::<u32, C>::empty(),
            r.ptys() == Set::<u32>::empty(),
    {
        Connection { id, channels: HashMap::new(), ptys: HashSet::new() }
    }

    /// The number the connection got when it was accepted.
    pub fn id(&self) -> (r: usize)
        ensures
            r == self.spec_id(),
    {
        self.id
    }

    /// Registers a session channel; it is always accepted, what may be done
    /// on it is decided per request.
    pub fn channel_open_session(&mut self, ch: u32, channel: C) -> (r: bool)
        ensures
            r,
            final(self).channels() == old(self).channels().insert(ch, channel),
            final(self).ptys() == old(self).ptys(),
            final(self).spec_id() == old(self).spec_id(),
    {
        self.channels.insert(ch, channel);
        true
    }

    /// A shell request: refused when shells are off or the channel is not
    /// free; otherwise the channel is bound to a terminal running the
    /// configured shell with no arguments.
    pub fn shell_request(&mut self, options: &ServerOptions, ch: u32) -> (r: Result<
        SpawnPlan,
        RequestError,
    >)
        ensures
            final(self).channels() == old(self).channels(),
            final(self).spec_id() == old(self).spec_id(),
            options.no_shell ==> r == Err::<SpawnPlan, RequestError>(RequestError::ShellDisabled),
            !options.no_shell && !old(self).is_unbound(ch) ==> r == Err::<SpawnPlan, RequestError>(
                RequestError::ChannelUnavailable,
            ),
            r is Err ==> final(self).ptys() == old(self).ptys(),
            !options.no_shell && old(self).is_unbound(ch) ==> (r matches Ok(p) && p.program@
                == options.shell@ && p.args@.len() == 0 && final(self).ptys() == old(
                self,
            ).ptys().insert(ch)),
    {
        if options.no_shell {
            return Err(RequestError::ShellDisabled);
        }
        if !self.channels.contains_key(&ch) || self.ptys.contains(&ch) {
            return Err(RequestError::ChannelUnavailable);
        }
        self.ptys.insert(ch);
        Ok(SpawnPlan { program: options.shell.clone(), args: Vec::new() })
    }

    /// A command request: refused when shells are off, when the command is
    /// not UTF-8 text or the channel is not free; otherwise the channel is
    /// bound to a terminal running `<shell> -c <command>`.
    pub fn exec_request(&mut self, options: &ServerOptions, ch: u32, command: &[u8]) -> (r: Result<
        SpawnPlan,
        RequestError,
    >)
        ensures
            final(self).channels() == old(self).channels(),
            final(self).spec_id() == old(self).spec_id(),
            options.no_shell ==> r == Err::<SpawnPlan, RequestError>(RequestError::ShellDisabled),
            !options.no_shell && !valid_utf8(command@) ==> r == Err::<SpawnPlan, RequestError>(
                RequestError::InvalidCommand,
            ),
            !options.no_shell && valid_utf8(command@) && !old(self).is_unbound(ch) ==> r == Err::<
                SpawnPlan,
                RequestError,
            >(RequestError::ChannelUnavailable),
            r is Err ==> final(self).ptys() == old(self).ptys(),
            !options.no_shell && valid_utf8(command@) && old(self).is_unbound(ch) ==> (r matches Ok(
                p,
            ) && p.program@ == options.shell@ && arg_views(p.args@) == seq![
                seq!['-', 'c'],
                decode_utf8(command@),
            ] && final(self).ptys() == old(self).ptys().insert(ch)),
    {
        if options.no_shell {
            return Err(RequestError::ShellDisabled);
        }
        let text = match text_of(vstd::slice::slice_to_vec(command)) {
            Some(t) => t,
            None => return Err(RequestError::InvalidCommand),
        };
        if !self.channels.contains_key(&ch) || self.ptys.contains(&ch) {
            return Err(RequestError::ChannelUnavailable);
        }
        self.ptys.insert(ch);
        proof {
            reveal_strlit("-c");
        }
        let mut args: Vec<String> = Vec::new();
        args.push(String::from_str("-c"));
        args.push(text);
        assert("-c"@ =~= seq!['-', 'c']);
        assert(arg_views(args@)[0] == seq!['-', 'c']);
        assert(arg_views(args@)[1] == decode_utf8(command@));
        assert(arg_views(args@) =~= seq![seq!['-', 'c'], decode_utf8(command@)]);
        Ok(SpawnPlan { program: options.shell.clone(), args })
    }

    /// A subsystem request: only `sftp` is offered, and only when file
    /// transfer is on and the channel is free. The channel then leaves the
    /// table and is handed back to be served by a fresh file-transfer
    /// handler.
    pub fn subsystem_request(&mut self, options: &ServerOptions, ch: u32, name: &str) -> (r: Result<
        C,
        RequestError,
    >)
        ensures
            final(self).ptys() == old(self).ptys(),
            final(self).spec_id() == old(self).spec_id(),
            name@ != "sftp"@ ==> r == Err::<C, RequestError>(RequestError::UnknownSubsystem),
            name@ == "sftp"@ && options.no_sftp ==> r == Err::<C, RequestError>(
                RequestError::SftpDisabled,
            ),
            name@ == "sftp"@ && !options.no_sftp && !old(self).is_unbound(ch) ==> r == Err::<
                C,
                RequestError,
            >(RequestError::ChannelUnavailable),
            r is Err ==> final(self).channels() == old(self).channels(),
            name@ == "sftp"@ && !options.no_sftp && old(self).is_unbound(ch) ==> r == Ok::<
                C,
                RequestError,
            >(old(self).channels()[ch]) && final(self).channels() == old(self).channels().remove(
                ch,
            ),
    {
        let sftp = String::from_str("sftp");
        if !(sftp == name.to_owned()) {
            return Err(RequestError::UnknownSubsystem);
        }
        if options.no_sftp {
            return Err(RequestError::SftpDisabled);
        }
        if self.ptys.contains(&ch) {
            return Err(RequestError::ChannelUnavailable);
        }
        match self.channels.remove(&ch) {
            Some(c) => Ok(c),
            None => Err(RequestError::ChannelUnavailable),
        }
    }

    /// A window-change request: the new size, as (rows, columns), when the
    /// channel has a terminal, and nothing otherwise. It never fails and
    /// leaves the connection as it was.
    pub fn window_change_request(&self, ch: u32, cols: u32, rows: u32) -> (r: Option<(u16, u16)>)
        ensures
            self.ptys().contains(ch) ==> r == Some(spec_pty_size(cols, rows)),
            !self.ptys().contains(ch) ==> r is None,
    {
        if self.ptys.contains(&ch) {
            Some(((rows % 0x10000) as u16, (cols % 0x10000) as u16))
        } else {
            None
        }
    }

    /// Whether data arriving on the channel goes to a terminal; otherwise it
    /// is dropped.
    pub fn has_pty(&self, ch: u32) -> (r: bool)
        ensures
            r == self.ptys().contains(ch),
    {
        self.ptys.contains(&ch)
    }
}

} // verus!
