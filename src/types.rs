//! Plain configuration and result values.

use vstd::prelude::*;

verus! {

/// Shell used when none is configured.
pub const DEFAULT_SHELL: &'static str = "/bin/bash";

/// How the shell is started: its path and the terminal's size.
#[derive(Debug, Clone)]
pub struct ShellConfig {
    pub shell_path: String,
    pub cols: u16,
    pub rows: u16,
}

impl ShellConfig {
    /// The default configuration, given the value of the `SHELL` variable
    /// (`None` when it is not set): that shell, or `/bin/bash`, on 80 columns
    /// and 24 rows.
    pub fn from_shell_var(shell: Option<String>) -> (r: ShellConfig)
        ensures
            shell matches Some(s) ==> r.shell_path@ == s@,
            shell is None ==> r.shell_path@ == DEFAULT_SHELL@,
            r.cols == 80,
            r.rows == 24,
    {
        let shell_path = match shell {
            Some(s) => s,
            None => String::from_str(DEFAULT_SHELL),
        };
        ShellConfig { shell_path, cols: 80, rows: 24 }
    }
}

/// What running a command reports.
#[derive(Debug)]
pub struct CommandResult {
    pub output: String,
    pub success: bool,
}

} // verus!
