use vstd::prelude::*;

use crate::release::{selected, WorkItem};

verus! {

/// A downloaded archive waiting in the staging directory.
#[derive(Debug, Clone, PartialEq, Eq)]
pub struct StagedArtifact {
    pub path: String,
}

/// Where an installation stands, as shown to the user.
#[derive(Debug, Clone, PartialEq, Eq)]
pub enum InstallState {
    Ready,
    Downloading,
    Installing,
    Error(String),
}

/// What a worker reports back, once, when it is done.
#[derive(Debug, Clone, PartialEq, Eq)]
pub enum PipelineMessage {
    DownloadComplete(StagedArtifact),
    InstallComplete,
    Failure(String),
}

/// The state after the user asks to install a release whose archives are
/// `work`: nothing happens when there is nothing to fetch; otherwise
/// downloading starts, from whatever state, and any earlier error is gone.
pub open spec fn after_request(s: InstallState, work: Seq<WorkItem>) -> InstallState {
    if work.len() == 0 {
        s
    } else {
        InstallState::Downloading
    }
}

/// Whether downloads or installs of the current request are still running.
pub open spec fn is_busy(s: InstallState) -> bool {
    s is Downloading || s is Installing
}

/// The state after a worker's message arrives.
pub open spec fn after_message(s: InstallState, m: PipelineMessage) -> InstallState {
    match m {
        PipelineMessage::DownloadComplete(_) => if is_busy(s) {
            InstallState::Installing
        } else {
            s
        },
        PipelineMessage::InstallComplete => if s is Installing {
            InstallState::Ready
        } else {
            s
        },
        PipelineMessage::Failure(reason) => InstallState::Error(reason),
    }
}

/// The artifact to hand to a new install worker when a message arrives, if
/// any: a finished download of a request that is still running.
pub open spec fn install_to_spawn(s: InstallState, m: PipelineMessage) -> Option<StagedArtifact> {
    match m {
        PipelineMessage::DownloadComplete(a) => if is_busy(s) {
            Some(a)
        } else {
            None
        },
        _ => None,
    }
}

/// The text shown for a state: its name, or the error's reason.
pub open spec fn label_of(s: InstallState) -> Seq<char> {
    match s {
        InstallState::Ready => "Ready"@,
        InstallState::Downloading => "Downloading"@,
        InstallState::Installing => "Installing"@,
        InstallState::Error(reason) => reason@,
    }
}

/// A finished download moves a running request to installing, and nothing
/// else does: a download that completes while ready or after an error starts
/// no installation.
pub proof fn lemma_download_complete_installs(s: InstallState, a: StagedArtifact)
    ensures
        s is Downloading ==> after_message(s, PipelineMessage::DownloadComplete(a)) is Installing,
        after_message(s, PipelineMessage::DownloadComplete(a)) is Installing ==> is_busy(s),
        s is Ready ==> after_message(s, PipelineMessage::DownloadComplete(a)) is Ready,
        s is Error ==> after_message(s, PipelineMessage::DownloadComplete(a)) == s,
        install_to_spawn(s, PipelineMessage::DownloadComplete(a)) is Some <==> is_busy(s),
{
}

/// A failure always ends in an error that carries the failure's reason
/// unchanged, whatever the state was; a later failure overwrites an earlier one.
pub proof fn lemma_failure_records_reason(s: InstallState, reason: String)
    ensures
        after_message(s, PipelineMessage::Failure(reason)) == InstallState::Error(reason),
        label_of(after_message(s, PipelineMessage::Failure(reason))) == reason@,
        install_to_spawn(s, PipelineMessage::Failure(reason)) is None,
{
}

/// A new request after an error starts downloading afresh: the earlier
/// reason is gone, not kept beside the new state.
pub proof fn lemma_retry_clears_error(reason: String, work: Seq<WorkItem>)
    requires
        work.len() > 0,
    ensures
        after_request(InstallState::Error(reason), work) == InstallState::Downloading,
        label_of(after_request(InstallState::Error(reason), work)) == "Downloading"@,
{
}

/// A request moves to downloading in one step however many archives it
/// fetches, and a release without archives leaves the state as it was.
pub proof fn lemma_request_starts_once(s: InstallState, work: Seq<WorkItem>)
    ensures
        work.len() > 0 ==> after_request(s, work) == InstallState::Downloading,
        work.len() > 0 ==> after_request(after_request(s, work), work) == after_request(s, work),
        work.len() == 0 ==> after_request(s, work) == s,
{
}

} // verus!
