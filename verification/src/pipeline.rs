//! The pipeline controller: a linear stage state machine from manifest
//! acquisition to completion. Each transition is triggered by a completion
//! signal from one component or by the operator; the controller is the only
//! layer that decides between halting, retrying and advancing.

use vstd::prelude::*;
use crate::download::{initial_task, DownloadBatch, TaskState};
use crate::manifest::{spec_lookup, Manifest, ModLoader, ModRef};
use crate::runtime::RuntimeStatus;

verus! {

/// The stages of one installation run, in order.
#[derive(Clone, Copy, PartialEq, Eq, Structural, Debug)]
pub enum Stage {
    /// Fetching the remote manifest; failure here is fatal.
    ManifestFetch,
    /// Idle landing stage; the operator starts the run.
    Home,
    /// Checking that the external runtime is present.
    RuntimeCheck,
    /// The operator picks a profile.
    ProfileSelect,
    /// Running the loader installer for the selected profile's loader kind.
    LoaderInstall(ModLoader),
    /// Downloading the profile's mods; registration happens alongside.
    Download,
    /// Terminal for this run; the operator may start over.
    Complete,
}

/// The single pipeline instance: the current stage and the data each stage
/// produced. Components receive the slice they need; only the controller's
/// transitions move the stage.
pub struct PipelineState {
    pub stage: Stage,
    pub selected_profile: i32,
    pub manifest: Manifest,
    pub downloads: DownloadBatch,
}

impl PipelineState {
    /// Controller invariant: once the manifest stage is passed, the manifest
    /// holds at least one profile and its ids are distinct; the download
    /// batch always satisfies its own invariant.
    pub open spec fn wf(&self) -> bool {
        &&& self.downloads.wf()
        &&& !(self.stage is ManifestFetch) ==> self.manifest@.len() >= 1 && self.manifest.wf()
    }

    /// A fresh pipeline: manifest acquisition, nothing selected, no tasks.
    pub fn new() -> (r: PipelineState)
        ensures
            r.wf(),
            r.stage is ManifestFetch,
            r.selected_profile == 0,
            r.manifest@.len() == 0,
            r.downloads@.len() == 0,
    {
        let empty_mods: Vec<ModRef> = Vec::new();
        PipelineState {
            stage: Stage::ManifestFetch,
            selected_profile: 0,
            manifest: Manifest { profiles: Vec::new() },
            downloads: DownloadBatch::new(&empty_mods),
        }
    }

    /// The fetched manifest arrived. It is accepted — and the pipeline moves
    /// to the landing stage — only when it holds at least one profile;
    /// otherwise nothing changes and the result is false.
    pub fn on_manifest_loaded(&mut self, m: Manifest) -> (accepted: bool)
        requires
            old(self).wf(),
            old(self).stage is ManifestFetch,
            m.wf(),
        ensures
            final(self).wf(),
            accepted == (m@.len() >= 1),
            accepted ==> final(self).stage is Home && final(self).manifest == m,
            !accepted ==> *final(self) == *old(self),
            final(self).selected_profile == old(self).selected_profile,
            final(self).downloads == old(self).downloads,
    {
        if m.profiles.len() >= 1 {
            self.manifest = m;
            self.stage = Stage::Home;
            true
        } else {
            false
        }
    }

    /// The operator starts the run from the landing stage.
    pub fn proceed_from_home(&mut self)
        requires
            old(self).wf(),
            old(self).stage is Home,
        ensures
            final(self).wf(),
            final(self).stage is RuntimeCheck,
            final(self).selected_profile == old(self).selected_profile,
            final(self).manifest == old(self).manifest,
            final(self).downloads == old(self).downloads,
    {
        self.stage = Stage::RuntimeCheck;
    }

    /// The runtime check finished. A present runtime advances to profile
    /// selection; an absent one leaves the pipeline where it is, and the
    /// operator is prompted to install the runtime manually.
    pub fn on_runtime_check(&mut self, status: &RuntimeStatus)
        requires
            old(self).wf(),
            old(self).stage is RuntimeCheck,
        ensures
            final(self).wf(),
            status.present ==> final(self).stage is ProfileSelect,
            !status.present ==> *final(self) == *old(self),
            final(self).selected_profile == old(self).selected_profile,
            final(self).manifest == old(self).manifest,
            final(self).downloads == old(self).downloads,
    {
        if status.present {
            self.stage = Stage::ProfileSelect;
        }
    }

    /// The operator picks a profile id. Only the selection changes.
    pub fn select_profile(&mut self, id: i32)
        requires
            old(self).wf(),
            old(self).stage is ProfileSelect,
        ensures
            final(self).wf(),
            final(self).selected_profile == id,
            final(self).stage == old(self).stage,
            final(self).manifest == old(self).manifest,
            final(self).downloads == old(self).downloads,
    {
        self.selected_profile = id;
    }

    /// The operator confirms the selection: move to loader installation,
    /// branching on the selected profile's loader kind. An id without a
    /// match falls back to the first profile, as lookup does.
    pub fn proceed_to_install(&mut self)
        requires
            old(self).wf(),
            old(self).stage is ProfileSelect,
        ensures
            final(self).wf(),
            final(self).stage == Stage::LoaderInstall(
                spec_lookup(old(self).manifest@, old(self).selected_profile).meta.loader,
            ),
            final(self).selected_profile == old(self).selected_profile,
            final(self).manifest == old(self).manifest,
            final(self).downloads == old(self).downloads,
    {
        let profile = self.manifest.lookup(self.selected_profile);
        self.stage = Stage::LoaderInstall(profile.meta.loader);
    }

    /// The loader installer reported. Success materializes one download task
    /// per mod of the selected profile and enters the download stage;
    /// failure stays, and the operator may retry the same stage.
    pub fn on_install_finished(&mut self, success: bool)
        requires
            old(self).wf(),
            old(self).stage is LoaderInstall,
        ensures
            final(self).wf(),
            final(self).selected_profile == old(self).selected_profile,
            final(self).manifest == old(self).manifest,
            !success ==> *final(self) == *old(self),
            success ==> {
                &&& final(self).stage is Download
                &&& final(self).downloads@.len() == spec_lookup(
                    old(self).manifest@,
                    old(self).selected_profile,
                ).mods.len()
                &&& forall|i: int|
                    0 <= i < final(self).downloads@.len() ==> final(self).downloads@[i]
                        == initial_task(
                        #[trigger] spec_lookup(
                            old(self).manifest@,
                            old(self).selected_profile,
                        ).mods[i],
                    )
                &&& final(self).downloads.spec_in_flight() == 0
            },
    {
        if success {
            let profile = self.manifest.lookup(self.selected_profile);
            self.downloads = DownloadBatch::new(&profile.mods);
            self.stage = Stage::Download;
        }
    }

    /// The operator steps back to profile selection, from a failed loader
    /// install or from the terminal stage to run again.
    pub fn back_to_profiles(&mut self)
        requires
            old(self).wf(),
            old(self).stage is LoaderInstall || old(self).stage is Complete,
        ensures
            final(self).wf(),
            final(self).stage is ProfileSelect,
            final(self).selected_profile == old(self).selected_profile,
            final(self).manifest == old(self).manifest,
            final(self).downloads == old(self).downloads,
    {
        self.stage = Stage::ProfileSelect;
    }

    /// The operator asks to finish the download stage. The pipeline moves to
    /// the terminal stage only when every task completed; a pending, running
    /// or failed task blocks completion.
    pub fn finish_downloads(&mut self) -> (advanced: bool)
        requires
            old(self).wf(),
            old(self).stage is Download,
        ensures
            final(self).wf(),
            advanced == (forall|i: int|
                0 <= i < old(self).downloads@.len() ==> old(self).downloads@[i].state
                    == TaskState::Complete),
            advanced ==> final(self).stage is Complete,
            !advanced ==> *final(self) == *old(self),
            final(self).selected_profile == old(self).selected_profile,
            final(self).manifest == old(self).manifest,
            final(self).downloads == old(self).downloads,
    {
        if self.downloads.all_complete() {
            self.stage = Stage::Complete;
            true
        } else {
            false
        }
    }
}

} // verus!
