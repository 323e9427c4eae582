//! State of one shell session: its identifier, its size, and the one-time
//! hand-off of its write handle to the bridge.

use vstd::prelude::*;
use crate::types::{CommandResult, ShellConfig};

verus! {

/// A lowercase hexadecimal digit.
pub open spec fn is_lower_hex(c: char) -> bool {
    ('0' <= c && c <= '9') || ('a' <= c && c <= 'f')
}

/// Relies on `uuid::Uuid::new_v4` and its `Display`: a random UUID in the
/// hyphenated form, 36 characters of which the first eight are lowercase
/// hexadecimal digits.
#[verifier::external_body]
fn random_uuid_text() -> (r: String)
    ensures
        r@.len() == 36,
        forall|i: int| 0 <= i < 8 ==> is_lower_hex(#[trigger] r@[i]),
{
    uuid::Uuid::new_v4().to_string()
}

/// The session identifier made from a UUID's text: `tp-` and its first
/// eight characters.
pub fn session_id_from_uuid(uuid_text: &str) -> (r: String)
    requires
        uuid_text@.len() >= 8,
    ensures
        r@ == "tp-"@ + uuid_text@.subrange(0, 8),
{
    let mut r = String::from_str("tp-");
    r.append(uuid_text.substring_char(0, 8));
    r
}

/// A fresh session identifier: `tp-` followed by eight random lowercase
/// hexadecimal digits.
pub fn new_session_id() -> (r: String)
    ensures
        exists|u: Seq<char>|
            #![trigger u.subrange(0, 8)]
            u.len() == 8 && (forall|i: int| 0 <= i < 8 ==> is_lower_hex(#[trigger] u[i])) && r@ == "tp-"@
                + u.subrange(0, 8),
{
    let u = random_uuid_text();
    let r = session_id_from_uuid(u.as_str());
    assert(u@.subrange(0, 8).subrange(0, 8) == u@.subrange(0, 8));
    r
}

/// Why an operation on a session was refused.
#[derive(Clone, Copy, Debug, PartialEq, Eq, Structural)]
pub enum SessionError {
    /// The write handle was handed to the bridge; the session no longer writes.
    Detached,
}

/// The bookkeeping of a shell session.
#[derive(Debug)]
pub struct SessionState {
    pub session_id: String,
    pub shell_path: String,
    pub cols: u16,
    pub rows: u16,
    pub writer_attached: bool,
}

impl SessionState {
    /// A new session for `config`, named `session_id`, that still holds its
    /// write handle.
    pub fn new(config: &ShellConfig, session_id: String) -> (r: SessionState)
        ensures
            r.session_id@ == session_id@,
            r.shell_path@ == config.shell_path@,
            r.cols == config.cols,
            r.rows == config.rows,
            r.writer_attached,
    {
        SessionState {
            session_id,
            shell_path: config.shell_path.clone(),
            cols: config.cols,
            rows: config.rows,
            writer_attached: true,
        }
    }

    /// The session's identifier.
    pub fn session_id(&self) -> (r: &str)
        ensures
            r@ == self.session_id@,
    {
        self.session_id.as_str()
    }

    /// Whether the session may still write input itself.
    pub fn check_send(&self) -> (r: Result<(), SessionError>)
        ensures
            r is Ok <==> self.writer_attached,
            r is Err ==> r == Err::<(), SessionError>(SessionError::Detached),
    {
        if self.writer_attached {
            Ok(())
        } else {
            Err(SessionError::Detached)
        }
    }

    /// Hands the write handle over: true the first time, false ever after.
    pub fn take_pty_writer(&mut self) -> (r: bool)
        ensures
            r == old(self).writer_attached,
            !final(self).writer_attached,
            final(self).session_id == old(self).session_id,
            final(self).shell_path == old(self).shell_path,
            final(self).cols == old(self).cols,
            final(self).rows == old(self).rows,
    {
        let r = self.writer_attached;
        self.writer_attached = false;
        r
    }

    /// Records a new terminal size.
    pub fn resize(&mut self, rows: u16, cols: u16)
        ensures
            final(self).rows == rows,
            final(self).cols == cols,
            final(self).session_id == old(self).session_id,
            final(self).shell_path == old(self).shell_path,
            final(self).writer_attached == old(self).writer_attached,
    {
        self.rows = rows;
        self.cols = cols;
    }
}

/// The placeholder output reported when reading the shell's output failed.
pub const OUTPUT_PLACEHOLDER: &'static str = "Command executed";

/// The result of running a command and waiting: the output read, or the
/// placeholder when reading failed; success is always reported, since the
/// shell's exit status is not observed.
pub fn command_result(output: Option<String>) -> (r: CommandResult)
    ensures
        output matches Some(o) ==> r.output@ == o@,
        output is None ==> r.output@ == OUTPUT_PLACEHOLDER@,
        r.success,
{
    let output = match output {
        Some(o) => o,
        None => String::from_str(OUTPUT_PLACEHOLDER),
    };
    CommandResult { output, success: true }
}

} // verus!
