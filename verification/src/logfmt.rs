//! Formatting for the diagnostic log: a pure side-channel, one line per
//! notable event, written by the shell to the console and to a per-user
//! log file whose write failures are silently ignored.

use vstd::prelude::*;
use vstd::string::StringExecFns;

verus! {

/// One log line: `[prefix] message`.
pub fn log_line_text(prefix: &str, msg: &str) -> (r: String)
    ensures
        r@ == "["@ + prefix@ + "] "@ + msg@,
{
    let mut s = String::from_str("[");
    s.append(prefix);
    s.append("] ");
    s.append(msg);
    s
}

/// The per-user log directory under the given home directory.
pub fn log_dir_path(home: &str) -> (r: String)
    ensures
        r@ == home@ + "/Library/Logs/MagicControl"@,
{
    let mut s = String::from_str(home);
    s.append("/Library/Logs/MagicControl");
    s
}

/// The per-user log file under the given home directory.
pub fn log_file_path(home: &str) -> (r: String)
    ensures
        r@ == home@ + "/Library/Logs/MagicControl/magic-control.log"@,
{
    let mut s = String::from_str(home);
    s.append("/Library/Logs/MagicControl/magic-control.log");
    s
}

} // verus!
