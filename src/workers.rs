use vstd::prelude::*;

use crate::pipeline::{PipelineMessage, StagedArtifact};

verus! {

/// The directory where downloads wait until they are unpacked.
pub const STAGING_DIR: &'static str = "/tmp/";

/// Where installed tools go, below the user's home directory.
pub const INSTALL_SUBDIR: &'static str = "/.steam/root/compatibilitytools.d/";

/// The reason given when the user's home directory cannot be found.
pub const NO_HOME_DIR: &'static str = "home directory not found";

/// The character of a decimal digit.
pub open spec fn digit_char(d: nat) -> char
    recommends
        d < 10,
{
    seq!['0', '1', '2', '3', '4', '5', '6', '7', '8', '9'][d as int]
}

/// The decimal digits of `n`, most significant first, without leading zeros.
pub open spec fn decimal(n: nat) -> Seq<char>
    decreases n,
{
    if n < 10 {
        seq![digit_char(n)]
    } else {
        decimal(n / 10).push(digit_char(n % 10))
    }
}

/// Whether an HTTP status says that the request succeeded (2xx).
pub open spec fn is_success_status(status: u16) -> bool {
    200 <= status <= 299
}

/// The staging path of a download saved under `name`.
pub open spec fn staging_path_of(name: Seq<char>) -> Seq<char> {
    STAGING_DIR@ + name
}

/// The install directory below the home directory `home`.
pub open spec fn install_dir_of(home: Seq<char>) -> Seq<char> {
    home + INSTALL_SUBDIR@
}

/// Relies on std's `Display` for `u16` (through `to_string`): the decimal
/// digits, without sign or leading zeros.
#[verifier::external_body]
fn decimal_string(n: u16) -> (r: String)
    ensures
        r@ == decimal(n as nat),
{
    n.to_string()
}

/// Relies on `dirs::home_dir` for the user's home directory, which depends
/// on the environment and the platform, so nothing is claimed of it. The path
/// is read as text, with invalid UTF-8 replaced.
#[verifier::external_body]
fn home_dir() -> (r: Option<String>) {
    match dirs::home_dir() {
        Some(p) => Some(p.to_string_lossy().into_owned()),
        None => None,
    }
}

/// The file that a download saved under `name` is written to.
pub fn staging_path(name: &str) -> (r: String)
    ensures
        r@ == staging_path_of(name@),
{
    String::from_str(STAGING_DIR).concat(name)
}

/// The failure reason for an HTTP status: none for a success, else the
/// status code in decimal (a 404 gives "404").
pub fn status_failure(status: u16) -> (r: Option<String>)
    ensures
        r is None <==> is_success_status(status),
        r matches Some(reason) ==> reason@ == decimal(status as nat),
{
    if 200 <= status && status <= 299 {
        None
    } else {
        Some(decimal_string(status))
    }
}

/// The message a download worker sends: the staged artifact at `path` when
/// fetching and writing succeeded, else the failure's reason.
pub fn download_message(path: String, outcome: Result<(), String>) -> (r: PipelineMessage)
    ensures
        match outcome {
            Ok(_) => r == PipelineMessage::DownloadComplete(StagedArtifact { path }),
            Err(reason) => r == PipelineMessage::Failure(reason),
        },
{
    match outcome {
        Ok(_) => PipelineMessage::DownloadComplete(StagedArtifact { path }),
        Err(reason) => PipelineMessage::Failure(reason),
    }
}

/// The message an install worker sends: completion when unpacking and
/// removing the staged file succeeded, else the failure's reason, so that a
/// failed install never reports completion.
pub fn install_message(outcome: Result<(), String>) -> (r: PipelineMessage)
    ensures
        match outcome {
            Ok(_) => r == PipelineMessage::InstallComplete,
            Err(reason) => r == PipelineMessage::Failure(reason),
        },
{
    match outcome {
        Ok(_) => PipelineMessage::InstallComplete,
        Err(reason) => PipelineMessage::Failure(reason),
    }
}

/// The install directory below the home directory `home`.
pub fn install_dir(home: &str) -> (r: String)
    ensures
        r@ == install_dir_of(home@),
{
    String::from_str(home).concat(INSTALL_SUBDIR)
}

/// The install directory of the current user, or the reason it has none.
pub fn install_target() -> (r: Result<String, String>)
    ensures
        match r {
            Ok(dir) => exists|home: Seq<char>| dir@ == install_dir_of(home),
            Err(reason) => reason@ == NO_HOME_DIR@,
        },
{
    match home_dir() {
        Some(home) => Ok(install_dir(home.as_str())),
        None => Err(String::from_str(NO_HOME_DIR)),
    }
}

} // verus!
