//! The log level of a crate, set once from a text that the caller supplies.

use crate::error::{channel_after, failure, outcome_view, BoundaryError, ErrorChannel, ErrorKind, ErrorView};
use crate::text::{buffer_view, joined, require_text, required_text};
use vstd::prelude::*;

verus! {

/// The log level as the caller supplies it.
pub open spec fn log_level(level: Option<Seq<u8>>) -> Result<Seq<char>, ErrorView> {
    required_text(level, "provided log level is NULL"@, "convert log level string"@)
}

/// The filter that sets the level of the records of the crate `target` to
/// `level`: the name of the crate, an equals sign and the level.
pub open spec fn log_filter(target: Seq<char>, level: Seq<char>) -> Seq<char> {
    target + "="@ + level
}

/// What an init reports once the logger was or was not installed.
pub open spec fn log_result(installed: bool) -> Result<(), ErrorView> {
    if installed {
        Ok(())
    } else {
        Err(failure(ErrorKind::InitializationError, "init log level"@))
    }
}

/// What an init reports, where `installed` says whether the logger was
/// installed: the failure of the level, or that of the installation.
pub open spec fn log_report(level: Option<Seq<u8>>, installed: bool) -> Result<(), ErrorView> {
    match log_level(level) {
        Err(e) => Err(e),
        Ok(_) => log_result(installed),
    }
}

/// Builds the filter that sets the level of the records of the crate
/// `target` to `level`.
pub fn compose_log_filter(target: &str, level: &str) -> (filter: String)
    ensures
        filter@ == log_filter(target@, level@),
{
    let mut filter = joined(target, "=");
    filter.append(level);
    filter
}

/// `Builder::new`, `Builder::parse_filters` and `Builder::try_init` of
/// `env_logger`: installs a logger with the given filter as the logger of the
/// process, and says whether it did. It does not where the process has a
/// logger already; nothing is claimed of which of the two happens.
#[verifier::external_body]
fn install_logger(filter: &str) -> (installed: bool) {
    env_logger::Builder::new().parse_filters(filter).try_init().is_ok()
}

/// What an init reports for the result of the installation.
pub fn log_outcome(installed: bool) -> (outcome: Result<(), BoundaryError>)
    ensures
        outcome_view(outcome) == log_result(installed),
{
    if installed {
        Ok(())
    } else {
        Err(BoundaryError::new(ErrorKind::InitializationError, "init log level"))
    }
}

/// Sets the log level of the crate `target`, the crate whose records are to
/// pass. The level is validated first; the logger is installed, with the
/// filter made of the two, only if it is valid text. A call after the first
/// installs nothing and reports that.
pub fn log_init_res(target: &str, level: Option<&[u8]>) -> (outcome: Result<(), BoundaryError>)
    ensures
        exists|installed: bool|
            outcome_view(outcome) == #[trigger] log_report(buffer_view(level), installed),
{
    match require_text(level, "provided log level is NULL", "convert log level string") {
        Err(e) => {
            let outcome = Err(e);
            assert(outcome_view(outcome) == log_report(buffer_view(level), false));
            outcome
        },
        Ok(text) => {
            let filter = compose_log_filter(target, text);
            let installed = install_logger(filter.as_str());
            let outcome = log_outcome(installed);
            assert(outcome_view(outcome) == log_report(buffer_view(level), installed));
            outcome
        },
    }
}

/// Sets the log level of the crate `target` and leaves the outcome in the
/// channel.
pub fn log_init(channel: &mut ErrorChannel, target: &str, level: Option<&[u8]>)
    ensures
        exists|installed: bool|
            final(channel)@ == channel_after(#[trigger] log_report(buffer_view(level), installed)),
{
    let outcome = log_init_res(target, level);
    channel.update_if_required(outcome);
}

} // verus!
