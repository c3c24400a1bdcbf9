use vstd::prelude::*;

use crate::pipeline::{
    after_message, after_request, install_to_spawn, label_of, InstallState, PipelineMessage,
    StagedArtifact,
};
use crate::release::{selected, Release, WorkItem};

verus! {

/// The controller of installations: the releases on offer, the one the user
/// picked, and the single installation status, which only the controller
/// changes and only in answer to a request or a worker's message.
pub struct ProtonGEManager {
    metadata: Vec<Release>,
    selected_release: Option<usize>,
    install_status: InstallState,
}

/// What a controller holds, seen as plain values.
pub struct ManagerView {
    pub releases: Seq<Release>,
    pub selected: Option<usize>,
    pub status: InstallState,
}

impl View for ProtonGEManager {
    type V = ManagerView;

    closed spec fn view(&self) -> ManagerView {
        ManagerView {
            releases: self.metadata@,
            selected: self.selected_release,
            status: self.install_status,
        }
    }
}

/// The work that a request fetches: the archives of the picked release, or
/// nothing when no release is picked.
pub open spec fn requested_work(v: ManagerView) -> Seq<WorkItem> {
    match v.selected {
        Some(i) => selected(v.releases[i as int].assets@),
        None => Seq::empty(),
    }
}

impl ProtonGEManager {
    #[verifier::type_invariant]
    closed spec fn picks_a_listed_release(&self) -> bool {
        match self.selected_release {
            Some(i) => i < self.metadata@.len(),
            None => true,
        }
    }

    /// A controller offering `metadata`, with nothing picked, ready to install.
    pub fn new(metadata: Vec<Release>) -> (r: Self)
        ensures
            r@.releases == metadata@,
            r@.selected is None,
            r@.status == InstallState::Ready,
    {
        ProtonGEManager { metadata, selected_release: None, install_status: InstallState::Ready }
    }

    /// The releases on offer.
    pub fn releases(&self) -> (r: &Vec<Release>)
        ensures
            r@ == self@.releases,
    {
        &self.metadata
    }

    /// The current installation status.
    pub fn install_status(&self) -> (r: &InstallState)
        ensures
            *r == self@.status,
    {
        &self.install_status
    }
    /// Picks the release at `index` of those on offer. An index past the end
    /// picks nothing and changes nothing; the result says whether it picked.
    pub fn select_release(&mut self, index: usize) -> (r: bool)
        ensures
            r == (index < old(self)@.releases.len()),
            final(self)@.releases == old(self)@.releases,
            final(self)@.status == old(self)@.status,
            final(self)@.selected == (if r {
                Some(index)
            } else {
                old(self)@.selected
            }),
    {
        if index < self.metadata.len() {
            self.selected_release = Some(index);
            true
        } else {
            false
        }
    }

    /// The picked release, if any.
    pub fn selected_release(&self) -> (r: Option<&Release>)
        ensures
            match self@.selected {
                Some(i) => r == Some(&self@.releases[i as int]),
                None => r is None,
            },
    {
        proof {
            use_type_invariant(self);
        }
        match self.selected_release {
            Some(i) => Some(&self.metadata[i]),
            None => None,
        }
    }

    /// The user asks to install the picked release. Returns one work item for
    /// each of its archives, in its order, one download worker each; when
    /// there is at least one, the status becomes downloading (an earlier error
    /// is dropped). With no release picked, or one without archives, nothing
    /// is fetched and the status stays as it was.
    pub fn request_install(&mut self) -> (r: Vec<WorkItem>)
        ensures
            r@ == requested_work(old(self)@),
            final(self)@.status == after_request(old(self)@.status, r@),
            final(self)@.releases == old(self)@.releases,
            final(self)@.selected == old(self)@.selected,
    {
        proof {
            use_type_invariant(&*self);
        }
        let work = match self.selected_release {
            Some(i) => self.metadata[i].select_assets(),
            None => Vec::new(),
        };
        if work.len() > 0 {
            self.install_status = InstallState::Downloading;
        }
        work
    }

    /// Takes in a worker's message. The status moves as `after_message` says;
    /// the result is the artifact that a new install worker must unpack, if
    /// the message is a finished download of a request that is still running.
    pub fn handle_message(&mut self, msg: PipelineMessage) -> (r: Option<StagedArtifact>)
        ensures
            r == install_to_spawn(old(self)@.status, msg),
            final(self)@.status == after_message(old(self)@.status, msg),
            final(self)@.releases == old(self)@.releases,
            final(self)@.selected == old(self)@.selected,
    {
        proof {
            use_type_invariant(&*self);
        }
        let busy = match self.install_status {
            InstallState::Downloading | InstallState::Installing => true,
            _ => false,
        };
        match msg {
            PipelineMessage::DownloadComplete(artifact) => {
                if busy {
                    self.install_status = InstallState::Installing;
                    Some(artifact)
                } else {
                    None
                }
            },
            PipelineMessage::InstallComplete => {
                if let InstallState::Installing = self.install_status {
                    self.install_status = InstallState::Ready;
                }
                None
            },
            PipelineMessage::Failure(reason) => {
                self.install_status = InstallState::Error(reason);
                None
            },
        }
    }

    /// The text shown for the current status: its name, or the error's reason.
    pub fn status_label(&self) -> (r: String)
        ensures
            r@ == label_of(self@.status),
    {
        match &self.install_status {
            InstallState::Ready => String::from_str("Ready"),
            InstallState::Downloading => String::from_str("Downloading"),
            InstallState::Installing => String::from_str("Installing"),
            InstallState::Error(reason) => reason.clone(),
        }
    }
}

} // verus!
