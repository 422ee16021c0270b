//! The system login check: a password is handed to `su`, and the way `su`
//! ends tells whether it was right.

use vstd::prelude::*;

use crate::auth::same_bytes;
use crate::connection::arg_views;

verus! {

/// The exit code the command run by `su` ends with; only a right password
/// lets it run.
pub const SU_SENTINEL: i32 = 101;

/// A process to start, and the text to write to its standard input.
pub struct SuCommand {
    pub program: String,
    pub args: Vec<String>,
    pub input: String,
}

/// What stands for one character of a single-quoted shell word: a quote
/// closes the word, is written escaped, and opens it again.
pub open spec fn quoted_char(c: char) -> Seq<char> {
    if c == '\'' {
        seq!['\'', '\\', '\'', '\'']
    } else {
        seq![c]
    }
}

/// The characters of `s` as they stand between single quotes.
pub open spec fn quoted_body(s: Seq<char>) -> Seq<char>
    decreases s.len(),
{
    if s.len() == 0 {
        Seq::empty()
    } else {
        quoted_body(s.drop_last()) + quoted_char(s.last())
    }
}

/// `s` as one single-quoted shell word.
pub open spec fn shell_word(s: Seq<char>) -> Seq<char> {
    seq!['\''] + quoted_body(s) + seq!['\'']
}

/// The arguments given to `su`. An unprivileged server asks `su` for the
/// user directly. A privileged one would pass the check without a password,
/// so it first becomes `nobody` and from there asks `su` for the user.
pub open spec fn spec_su_args(user: Seq<char>, uid: u32) -> Seq<Seq<char>> {
    if uid == 0 {
        seq![
            "nobody"@,
            "-s"@,
            "/bin/sh"@,
            "-c"@,
            "su "@ + shell_word(user) + " -c 'exit 101'"@,
        ]
    } else {
        seq![user, "-c"@, "exit 101"@]
    }
}

/// The standard error text of `su` when it asked for a password and got the
/// right one: `Password: ` in ASCII.
pub open spec fn password_prompt() -> Seq<u8> {
    seq![80u8, 97u8, 115u8, 115u8, 119u8, 111u8, 114u8, 100u8, 58u8, 32u8]
}

/// Relies on `users::get_current_uid`, the real user id of this process;
/// nothing is known of it beforehand.
#[verifier::external_body]
fn current_uid() -> (r: u32) {
    users::get_current_uid()
}

fn shell_word_of(s: &str) -> (r: String)
    ensures
        r@ == shell_word(s@),
{
    proof {
        reveal_strlit("'");
    }
    let mut out = String::from_str("'");
    let len = s.unicode_len();
    let mut i: usize = 0;
    while i < len
        invariant
            len == s@.len(),
            0 <= i <= len,
            out@ == seq!['\''] + quoted_body(s@.take(i as int)),
        decreases len - i,
    {
        let c = s.get_char(i);
        assert(s@.take(i + 1).drop_last() =~= s@.take(i as int));
        assert(s@.take(i + 1).last() == c);
        assert(quoted_body(s@.take(i + 1)) == quoted_body(s@.take(i as int)) + quoted_char(c));
        let ghost before = out@;
        if c == '\'' {
            proof {
                reveal_strlit("\\");
                reveal_strlit("'");
            }
            out.append("'");
            out.append("\\");
            out.append("'");
            out.append("'");
            assert("\\"@ =~= seq!['\\']);
            assert("'"@ =~= seq!['\'']);
        } else {
            let one = s.substring_char(i, i + 1);
            out.append(one);
            assert(one@ =~= seq![c]);
        }
        assert(out@ =~= before + quoted_char(c));
        assert(out@ =~= seq!['\''] + quoted_body(s@.take(i + 1)));
        i = i + 1;
    }
    assert(s@.take(len as int) =~= s@);
    out.append("'");
    assert(out@ =~= shell_word(s@));
    out
}

/// The `su` invocation that checks `password` for `user`, for a server
/// running with real user id `uid`; the password goes to its standard input
/// on a line of its own.
pub fn su_command(user: &str, password: &str, uid: u32) -> (r: SuCommand)
    ensures
        r.program@ == "su"@,
        arg_views(r.args@) == spec_su_args(user@, uid),
        r.input@ == password@ + "\n"@,
{
    let mut args: Vec<String> = Vec::new();
    if uid == 0 {
        args.push(String::from_str("nobody"));
        args.push(String::from_str("-s"));
        args.push(String::from_str("/bin/sh"));
        args.push(String::from_str("-c"));
        let inner = String::from_str("su ").concat(shell_word_of(user).as_str()).concat(
            " -c 'exit 101'",
        );
        args.push(inner);
        assert(arg_views(args@) =~= spec_su_args(user@, uid));
    } else {
        args.push(String::from_str(user));
        args.push(String::from_str("-c"));
        args.push(String::from_str("exit 101"));
        assert(arg_views(args@) =~= spec_su_args(user@, uid));
    }
    SuCommand {
        program: String::from_str("su"),
        args,
        input: String::from_str(password).concat("\n"),
    }
}

/// The `su` invocation that checks `password` for `user` from this process.
pub fn su_command_for(user: &str, password: &str) -> (r: SuCommand)
    ensures
        r.program@ == "su"@,
        exists|uid: u32| arg_views(r.args@) == spec_su_args(user@, uid),
        r.input@ == password@ + "\n"@,
{
    let uid = current_uid();
    su_command(user, password, uid)
}

/// Whether `su` accepted the password: it ran the command to its sentinel
/// exit code, wrote nothing to standard output, and wrote exactly the
/// password prompt to standard error.
pub fn su_verdict(code: Option<i32>, stdout: &[u8], stderr: &[u8]) -> (r: bool)
    ensures
        r == (code == Some(SU_SENTINEL) && stdout@.len() == 0 && stderr@ == password_prompt()),
{
    let prompt: Vec<u8> = vec![80u8, 97u8, 115u8, 115u8, 119u8, 111u8, 114u8, 100u8, 58u8, 32u8];
    assert(prompt@ =~= password_prompt());
    match code {
        Some(c) => c == SU_SENTINEL && stdout.len() == 0 && same_bytes(stderr, prompt.as_slice()),
        None => false,
    }
}

} // verus!
