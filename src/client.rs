//! Client start-up values: the session to open, command-line arguments and
//! force-close behaviour.

use vstd::prelude::*;
use crate::text::text_equals;

verus! {

/// How a client starts.
#[derive(Debug, Clone)]
pub enum ClientInfo {
    /// A new session with the given name.
    New(String),
}

impl ClientInfo {
    /// The name of the session.
    pub fn get_session_name(&self) -> (r: &str)
        ensures
            self matches ClientInfo::New(n) && r@ == n@,
    {
        match self {
            ClientInfo::New(name) => name.as_str(),
        }
    }
}

/// Command-line arguments of the client.
#[derive(Default, Debug, Clone)]
pub struct CliArgs {
    pub server: Option<String>,
    pub session: Option<String>,
    pub config: Option<String>,
    pub config_dir: Option<String>,
    pub debug: bool,
}

/// What a forced close does.
#[derive(Copy, Clone, Debug, PartialEq, Eq, Structural)]
pub enum OnForceClose {
    Quit,
    Detach,
}

impl OnForceClose {
    /// The default: detach.
    pub fn default_choice() -> (r: OnForceClose)
        ensures
            r == OnForceClose::Detach,
    {
        OnForceClose::Detach
    }

    /// Parses `quit` or `detach`; any other text is returned as the error.
    pub fn from_name(s: &str) -> (r: Result<OnForceClose, String>)
        ensures
            s@ == "quit"@ ==> r == Ok::<OnForceClose, String>(OnForceClose::Quit),
            s@ == "detach"@ ==> r == Ok::<OnForceClose, String>(OnForceClose::Detach),
            s@ != "quit"@ && s@ != "detach"@ ==> (r matches Err(e) && e@ == s@),
    {
        proof {
            reveal_strlit("quit");
            reveal_strlit("detach");
            assert("quit"@.len() == 4);
            assert("detach"@.len() == 6);
        }
        if text_equals(s, "quit") {
            Ok(OnForceClose::Quit)
        } else if text_equals(s, "detach") {
            Ok(OnForceClose::Detach)
        } else {
            Err(String::from_str(s))
        }
    }
}

/// A value that could not be converted.
#[derive(Debug)]
pub enum ConversionError {
    UnknownInputMode(String),
}

} // verus!
