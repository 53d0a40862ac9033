//! How much the program logs, by the number of `-v` flags.
use vstd::prelude::*;

use crate::tools::string_list;
use crate::text::views;

verus! {

/// The level of the messages that are logged.
#[derive(Clone, Copy, Debug, PartialEq, Eq, Structural)]
pub enum LogLevel {
    Info,
    Debug,
    Trace,
}

/// The modules whose messages are logged, and from which level, for
/// `verbose` flags: this program's and the HTTP client's at `Info`, `Debug`
/// or `Trace` for none, one or two flags; every module's at `Trace` for
/// more.
pub fn log_settings(verbose: u8) -> (r: (Vec<String>, LogLevel))
    ensures
        verbose <= 2 ==> views(r.0@) == seq!["theya"@, "reqwest"@],
        verbose == 0 ==> r.1 == LogLevel::Info,
        verbose == 1 ==> r.1 == LogLevel::Debug,
        verbose >= 2 ==> r.1 == LogLevel::Trace,
        verbose > 2 ==> views(r.0@) == seq![""@],
{
    if verbose > 2 {
        let groups = string_list(&[""]);
        assert(views(groups@) =~= seq![""@]);
        return (groups, LogLevel::Trace);
    }
    let groups = string_list(&["theya", "reqwest"]);
    assert(views(groups@) =~= seq!["theya"@, "reqwest"@]);
    let level = if verbose == 0 {
        LogLevel::Info
    } else if verbose == 1 {
        LogLevel::Debug
    } else {
        LogLevel::Trace
    };
    (groups, level)
}

} // verus!
