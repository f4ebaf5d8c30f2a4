//! Update-channel selection and the shaping of update-check results. The
//! network transfer and installer belong to the surrounding application;
//! this module picks the endpoint for the chosen channel, validates it as a
//! URL, and fixes what each check outcome reports to the operator.

use vstd::prelude::*;
use vstd::string::StringExecFns;

verus! {

/// Carrier for `url::Url` values in verified signatures.
#[verifier::external_type_specification]
#[verifier::external_body]
pub struct ExUrl(url::Url);

/// Whether a string parses as an absolute URL; decided by `url::Url::parse`,
/// whose verdict depends on the string alone.
pub uninterp spec fn url_parse_ok(s: Seq<char>) -> bool;

/// The URL that `url::Url::parse` reads out of a string; a function of the
/// string alone.
pub uninterp spec fn parsed_url_of(s: Seq<char>) -> url::Url;

/// Relies on url::Url::parse: parses an absolute URL from the string, with
/// the parse error rendered as text; both the verdict and the parsed value
/// depend on the string alone.
#[verifier::external_body]
fn parse_url(s: &str) -> (r: Result<url::Url, String>)
    ensures
        r is Ok <==> url_parse_ok(s@),
        r matches Ok(u) ==> u == parsed_url_of(s@),
{
    match url::Url::parse(s) {
        Ok(u) => Ok(u),
        Err(e) => Err(format!("Invalid URL: {}", e)),
    }
}

/// The update manifest location for each channel.
pub open spec fn endpoint_spec(include_beta: bool) -> Seq<char> {
    if include_beta {
        "https://github.com/mcp-scooter/scooter/releases/download/updater/beta.json"@
    } else {
        "https://github.com/mcp-scooter/scooter/releases/download/updater/latest.json"@
    }
}

/// Names the update manifest endpoint for the chosen channel: the beta
/// manifest when beta builds are included, the stable manifest otherwise.
pub fn update_endpoint(include_beta: bool) -> (r: &'static str)
    ensures
        r@ == endpoint_spec(include_beta),
{
    if include_beta {
        "https://github.com/mcp-scooter/scooter/releases/download/updater/beta.json"
    } else {
        "https://github.com/mcp-scooter/scooter/releases/download/updater/latest.json"
    }
}

/// Builds the parsed endpoint URL for the chosen channel, for the updater to
/// fetch; fails exactly when the endpoint text does not parse as a URL, and
/// on success returns exactly the parse of the chosen channel's endpoint.
pub fn build_update_url(include_beta: bool) -> (r: Result<url::Url, String>)
    ensures
        r is Ok <==> url_parse_ok(endpoint_spec(include_beta)),
        r matches Ok(u) ==> u == parsed_url_of(endpoint_spec(include_beta)),
{
    parse_url(update_endpoint(include_beta))
}

/// What an operator learns from an update check.
#[derive(Debug, PartialEq)]
pub struct UpdateInfo {
    pub available: bool,
    pub version: Option<String>,
    pub notes: Option<String>,
    pub date: Option<String>,
}

/// Outcome of one update check, as the surrounding application reports it.
pub enum UpdateCheckOutcome {
    /// An update exists, with its version and optional notes and date.
    Available { version: String, notes: Option<String>, date: Option<String> },
    /// No update is available.
    UpToDate,
    /// The check itself failed, with the failure rendered as text.
    CheckFailed(String),
}

/// Shapes an update-check outcome into the operator-facing result: an
/// available update carries its metadata, an up-to-date installation reports
/// no update, and a failed check surfaces the failure.
pub fn summarize_update_check(o: UpdateCheckOutcome) -> (r: Result<UpdateInfo, String>)
    ensures
        match o {
            UpdateCheckOutcome::Available { version, notes, date } => {
                &&& r matches Ok(u)
                &&& u.available == true
                &&& u.version == Some(version)
                &&& u.notes == notes
                &&& u.date == date
            },
            UpdateCheckOutcome::UpToDate => {
                &&& r matches Ok(u)
                &&& u.available == false
                &&& u.version is None
                &&& u.notes is None
                &&& u.date is None
            },
            UpdateCheckOutcome::CheckFailed(e) => {
                &&& r matches Err(m)
                &&& m@ == "Failed to check for updates: "@ + e@
            },
        },
{
    match o {
        UpdateCheckOutcome::Available { version, notes, date } => Ok(UpdateInfo {
            available: true,
            version: Some(version),
            notes,
            date,
        }),
        UpdateCheckOutcome::UpToDate => Ok(UpdateInfo {
            available: false,
            version: None,
            notes: None,
            date: None,
        }),
        UpdateCheckOutcome::CheckFailed(e) => Err(
            String::from_str("Failed to check for updates: ").concat(e.as_str()),
        ),
    }
}

/// Decides what an install command does with a check outcome: only an
/// available update proceeds to download and install; an up-to-date
/// installation and a failed check refuse with the corresponding message.
pub fn plan_install(o: &UpdateCheckOutcome) -> (r: Result<(), String>)
    ensures
        match *o {
            UpdateCheckOutcome::Available { .. } => r is Ok,
            UpdateCheckOutcome::UpToDate => {
                &&& r matches Err(m)
                &&& m@ == "No update available"@
            },
            UpdateCheckOutcome::CheckFailed(e) => {
                &&& r matches Err(m)
                &&& m@ == "Failed to check for updates: "@ + e@
            },
        },
{
    match o {
        UpdateCheckOutcome::Available { .. } => Ok(()),
        UpdateCheckOutcome::UpToDate => Err("No update available".to_owned()),
        UpdateCheckOutcome::CheckFailed(e) => Err(
            String::from_str("Failed to check for updates: ").concat(e.as_str()),
        ),
    }
}

} // verus!
