//! Where the rate document comes from and where it is kept.

use vstd::prelude::*;

verus! {

/// The endpoint that serves the latest rates.
pub const API_URL: &'static str = "https://openexchangerates.org/api/latest.json";

/// The key that the endpoint is asked with.
pub const API_KEY: &'static str = "";

/// Where the fetched document is kept, relative to the home directory.
pub const CACHE_FILE: &'static str = ".cache/currency.db";

/// The URL of a request to `base` with `key` as its `app_id` parameter.
pub fn request_url(base: &str, key: &str) -> (r: String)
    ensures
        r@ == base@ + "?app_id="@ + key@,
{
    let mut r = base.to_string();
    r.append("?app_id=");
    r.append(key);
    r
}

/// Whether an HTTP status code is a success: 200 to 299.
pub fn status_ok(code: u16) -> (r: bool)
    ensures
        r == (200 <= code && code <= 299),
{
    200 <= code && code <= 299
}

/// The steps of a refresh, in the order in which they run.
#[derive(Clone, Copy, Debug, PartialEq, Eq)]
pub enum FetchStep {
    /// Create the cache file's directory.
    CreateDir,
    /// Send the one GET request.
    Get,
    /// Read the response's body.
    ReadBody,
    /// Overwrite the cache file with the body.
    Write,
}

/// Why a refresh stopped.
#[derive(Clone, Copy, Debug, PartialEq, Eq)]
pub enum FetchFailure {
    /// The step could not be carried out.
    StepFailed(FetchStep),
    /// The server answered with a status that is not a success.
    Status(u16),
}

/// What to do next in a refresh.
#[derive(Clone, Copy, Debug, PartialEq, Eq)]
pub enum FetchAction {
    /// Carry out this step.
    Do(FetchStep),
    /// Every step went through: the cache file holds the new document.
    Succeed,
    /// Stop: the cache file is left to the last step that was carried out.
    Fail(FetchFailure),
}

/// The step that a refresh starts with.
pub fn first_fetch_step() -> (r: FetchStep)
    ensures
        r == FetchStep::CreateDir,
{
    FetchStep::CreateDir
}

/// What follows once step `done` has been carried out, `ok` telling whether it
/// went through and, for the request, `status` the status the server gave.
pub open spec fn fetch_action(done: FetchStep, ok: bool, status: Option<u16>) -> FetchAction {
    if !ok {
        FetchAction::Fail(FetchFailure::StepFailed(done))
    } else {
        match done {
            FetchStep::CreateDir => FetchAction::Do(FetchStep::Get),
            FetchStep::Get => match status {
                Some(c) => if 200 <= c && c <= 299 {
                    FetchAction::Do(FetchStep::ReadBody)
                } else {
                    FetchAction::Fail(FetchFailure::Status(c))
                },
                None => FetchAction::Do(FetchStep::ReadBody),
            },
            FetchStep::ReadBody => FetchAction::Do(FetchStep::Write),
            FetchStep::Write => FetchAction::Succeed,
        }
    }
}

/// Decides the next action of a refresh: the steps run in order, the first
/// one that fails, or a status that is not a success, stops the refresh, and
/// it succeeds once the file has been written.
pub fn next_fetch_action(done: FetchStep, ok: bool, status: Option<u16>) -> (r: FetchAction)
    ensures
        r == fetch_action(done, ok, status),
{
    if !ok {
        return FetchAction::Fail(FetchFailure::StepFailed(done));
    }
    match done {
        FetchStep::CreateDir => FetchAction::Do(FetchStep::Get),
        FetchStep::Get => match status {
            Some(c) => if status_ok(c) {
                FetchAction::Do(FetchStep::ReadBody)
            } else {
                FetchAction::Fail(FetchFailure::Status(c))
            },
            None => FetchAction::Do(FetchStep::ReadBody),
        },
        FetchStep::ReadBody => FetchAction::Do(FetchStep::Write),
        FetchStep::Write => FetchAction::Succeed,
    }
}

/// When every step goes through, a refresh creates the directory, sends the
/// request, reads the body and writes the file, in that order, then succeeds.
pub proof fn lemma_fetch_steps_in_order(status: u16)
    requires
        200 <= status <= 299,
    ensures
        fetch_action(FetchStep::CreateDir, true, None) == FetchAction::Do(FetchStep::Get),
        fetch_action(FetchStep::Get, true, Some(status)) == FetchAction::Do(FetchStep::ReadBody),
        fetch_action(FetchStep::ReadBody, true, None) == FetchAction::Do(FetchStep::Write),
        fetch_action(FetchStep::Write, true, None) == FetchAction::Succeed,
{
}

/// A refresh succeeds only after the file has been written, and stops at the
/// first step that fails.
pub proof fn lemma_success_needs_every_step(done: FetchStep, ok: bool, status: Option<u16>)
    ensures
        fetch_action(done, ok, status) == FetchAction::Succeed ==> done == FetchStep::Write && ok,
        !ok ==> fetch_action(done, ok, status) == FetchAction::Fail(
            FetchFailure::StepFailed(done),
        ),
{
}

/// A status outside 200 to 299 stops the refresh before anything is read or
/// written, and the failure names that status.
pub proof fn lemma_bad_status_fails(code: u16)
    requires
        !(200 <= code <= 299),
    ensures
        fetch_action(FetchStep::Get, true, Some(code)) == FetchAction::Fail(
            FetchFailure::Status(code),
        ),
{
}

/// The reason given for a status that is not a success, the status as text.
pub fn status_failure(status: &str) -> (r: String)
    ensures
        r@ == "HTTP request failed with status: "@ + status@,
{
    let mut r = "HTTP request failed with status: ".to_string();
    r.append(status);
    r
}

/// The warning printed when a refresh fails; the run then goes on with the
/// document that the cache file already holds.
pub fn refresh_warning(reason: &str) -> (r: String)
    ensures
        r@ == "Warning: unable to refresh currency rates ("@ + reason@
            + "). Trying to use previous data."@,
{
    let mut r = "Warning: unable to refresh currency rates (".to_string();
    r.append(reason);
    r.append("). Trying to use previous data.");
    r
}

/// What a finished refresh leaves to report: a warning for a failure, with its
/// reason, and nothing for a success. Either way the run goes on to read the
/// cache file.
pub fn refresh_report(failure_reason: Option<&str>) -> (r: Option<String>)
    ensures
        failure_reason is None ==> r is None,
        failure_reason matches Some(reason) ==> (r matches Some(w) && w@
            == "Warning: unable to refresh currency rates ("@ + reason@
            + "). Trying to use previous data."@),
{
    match failure_reason {
        None => None,
        Some(reason) => Some(refresh_warning(reason)),
    }
}

} // verus!
