//! The mirror synchroniser: for each repository of a listing, in order,
//! decide between a fresh clone and an update of the mirror that is there,
//! and stop for good at the first thing that goes wrong.
//!
//! The synchroniser touches neither the filesystem nor a process. It names
//! one [`SyncAction`] at a time; the caller performs it and hands back a
//! [`SyncEvent`], from which [`MirrorSynchronizer::advance`] computes the
//! state that follows.

use crate::command::{CommandView, GitCommand};
use crate::error::{ErrorView, SyncError};
use crate::paths::{join_path, joined_path, parent_of, parent_path};
use crate::repo::{ConfigView, RepositoryDescriptor, RepositoryView, RunConfig};
use vstd::prelude::*;

verus! {

/// A repository that has all it needs to be mirrored, and the directory in
/// which its mirror lives.
#[derive(Debug, PartialEq, Eq)]
pub struct MirrorTarget {
    /// The `owner/name` identifier of the repository.
    pub full_name: String,
    /// Where the repository is cloned from.
    pub clone_url: String,
    /// The mirror directory: the destination joined with the full name.
    pub path: String,
}

/// What a [`MirrorTarget`] holds, as mathematical values.
pub struct TargetView {
    pub full_name: Seq<char>,
    pub clone_url: Seq<char>,
    pub path: Seq<char>,
}

impl View for MirrorTarget {
    type V = TargetView;

    open spec fn view(&self) -> TargetView {
        TargetView { full_name: self.full_name@, clone_url: self.clone_url@, path: self.path@ }
    }
}

impl Clone for MirrorTarget {
    fn clone(&self) -> (copy: Self)
        ensures
            copy@ == self@,
    {
        MirrorTarget {
            full_name: self.full_name.clone(),
            clone_url: self.clone_url.clone(),
            path: self.path.clone(),
        }
    }
}

/// The mirror target of `repo` below `root`, or the reason why it has none.
///
/// The full name is looked at first: an entry that lacks both fields is
/// reported for its name.
pub open spec fn target_of(root: Seq<char>, repo: RepositoryView) -> Result<TargetView, ErrorView> {
    match repo.full_name {
        None => Err(ErrorView::MissingFullName),
        Some(full_name) => match repo.clone_url {
            None => Err(ErrorView::MissingCloneUrl { full_name }),
            Some(clone_url) => Ok(
                TargetView { full_name, clone_url, path: joined_path(root, full_name) },
            ),
        },
    }
}

/// Checks that `repo` has its required fields and computes where its mirror
/// lives below `destination_root`.
pub fn mirror_target(destination_root: &str, repo: &RepositoryDescriptor) -> (result: Result<
    MirrorTarget,
    SyncError,
>)
    ensures
        match result {
            Ok(target) => target_of(destination_root@, repo@) == Ok::<TargetView, ErrorView>(
                target@,
            ),
            Err(error) => target_of(destination_root@, repo@) == Err::<TargetView, ErrorView>(
                error@,
            ),
        },
{
    match &repo.full_name {
        None => Err(SyncError::MissingFullName),
        Some(full_name) => match &repo.clone_url {
            None => Err(SyncError::MissingCloneUrl { full_name: full_name.clone() }),
            Some(clone_url) => {
                let path = join_path(destination_root, full_name.as_str());
                Ok(
                    MirrorTarget {
                        full_name: full_name.clone(),
                        clone_url: clone_url.clone(),
                        path,
                    },
                )
            },
        },
    }
}

/// What the synchroniser asks its caller to do next.
#[derive(Debug, PartialEq, Eq)]
pub enum SyncAction {
    /// Report whether anything exists at `path`: answer with
    /// [`SyncEvent::Exists`].
    Probe { path: String },
    /// Create the directory `path` and every missing directory above it.
    CreateDirs { path: String },
    /// Run `command` to its end, with the caller's own standard streams.
    Execute { command: GitCommand },
    /// Every repository has been dealt with.
    Finish,
    /// The run has failed with `error`; nothing more is to be done.
    Abort { error: SyncError },
}

/// What a [`SyncAction`] holds, as mathematical values.
pub enum ActionView {
    Probe { path: Seq<char> },
    CreateDirs { path: Seq<char> },
    Execute { command: CommandView },
    Finish,
    Abort { error: ErrorView },
}

impl View for SyncAction {
    type V = ActionView;

    open spec fn view(&self) -> ActionView {
        match self {
            SyncAction::Probe { path } => ActionView::Probe { path: path@ },
            SyncAction::CreateDirs { path } => ActionView::CreateDirs { path: path@ },
            SyncAction::Execute { command } => ActionView::Execute { command: command@ },
            SyncAction::Finish => ActionView::Finish,
            SyncAction::Abort { error } => ActionView::Abort { error: error@ },
        }
    }
}

/// What the caller reports after it has performed an action.
#[derive(Debug, PartialEq, Eq)]
pub enum SyncEvent {
    /// The answer to a [`SyncAction::Probe`].
    Exists(bool),
    /// The directories were created, or the command exited with status zero.
    Succeeded,
    /// The directories could not be created, or the command could not be
    /// started or exited with another status. The text says what happened.
    Failed(String),
}

/// What a [`SyncEvent`] holds, as mathematical values.
pub enum EventView {
    Exists(bool),
    Succeeded,
    Failed(Seq<char>),
}

impl View for SyncEvent {
    type V = EventView;

    open spec fn view(&self) -> EventView {
        match self {
            SyncEvent::Exists(exists) => EventView::Exists(*exists),
            SyncEvent::Succeeded => EventView::Succeeded,
            SyncEvent::Failed(detail) => EventView::Failed(detail@),
        }
    }
}

/// Where the synchroniser stands with the repository under work.
enum Stage {
    Probing { target: MirrorTarget },
    CreatingDirs { target: MirrorTarget, parent: String },
    Cloning { target: MirrorTarget },
    Updating { target: MirrorTarget },
    FetchingLfs { target: MirrorTarget },
    Finished,
    Failed { error: SyncError },
}

/// Where the synchroniser stands with the repository under work.
pub enum StageView {
    /// Waiting to learn whether the mirror directory exists.
    Probing { target: TargetView },
    /// No mirror yet: waiting for the directories above it.
    CreatingDirs { target: TargetView, parent: Seq<char> },
    /// Waiting for the mirror clone to end.
    Cloning { target: TargetView },
    /// A mirror is there: waiting for its update to end.
    Updating { target: TargetView },
    /// Mirrored: waiting for the large-file fetch to end.
    FetchingLfs { target: TargetView },
    /// Every repository is mirrored.
    Finished,
    /// The run has failed.
    Failed { error: ErrorView },
}

impl View for Stage {
    type V = StageView;

    closed spec fn view(&self) -> StageView {
        match self {
            Stage::Probing { target } => StageView::Probing { target: target@ },
            Stage::CreatingDirs { target, parent } => StageView::CreatingDirs {
                target: target@,
                parent: parent@,
            },
            Stage::Cloning { target } => StageView::Cloning { target: target@ },
            Stage::Updating { target } => StageView::Updating { target: target@ },
            Stage::FetchingLfs { target } => StageView::FetchingLfs { target: target@ },
            Stage::Finished => StageView::Finished,
            Stage::Failed { error } => StageView::Failed { error: error@ },
        }
    }
}

/// The state of a synchroniser, as mathematical values: what it was given,
/// how far it has come, and what it waits for.
pub struct SyncView {
    pub destination_root: Seq<char>,
    pub fetch_lfs: bool,
    /// The repositories to mirror, in the order in which they are taken.
    pub repos: Seq<RepositoryView>,
    /// The index of the repository under work; the number of repositories
    /// once all are done.
    pub position: nat,
    pub stage: StageView,
}

impl StageView {
    /// Whether the run has ended, well or badly.
    pub open spec fn terminal(self) -> bool {
        self is Finished || self is Failed
    }

    /// The action that answers to this stage.
    pub open spec fn action(self) -> ActionView {
        match self {
            StageView::Probing { target } => ActionView::Probe { path: target.path },
            StageView::CreatingDirs { parent, .. } => ActionView::CreateDirs { path: parent },
            StageView::Cloning { target } => ActionView::Execute {
                command: CommandView::CloneMirror { url: target.clone_url, target: target.path },
            },
            StageView::Updating { target } => ActionView::Execute {
                command: CommandView::RemoteUpdate { target: target.path },
            },
            StageView::FetchingLfs { target } => ActionView::Execute {
                command: CommandView::LfsFetchAll { target: target.path },
            },
            StageView::Finished => ActionView::Finish,
            StageView::Failed { error } => ActionView::Abort { error },
        }
    }
}

impl SyncView {
    /// The state in which work on the repository at `index` begins: waiting
    /// for the probe of its mirror directory, failed if the entry lacks a
    /// field, finished if there is no such repository.
    pub open spec fn enter(self, index: nat) -> SyncView {
        if index >= self.repos.len() {
            SyncView { position: self.repos.len(), stage: StageView::Finished, ..self }
        } else {
            match target_of(self.destination_root, self.repos[index as int]) {
                Ok(target) => SyncView {
                    position: index,
                    stage: StageView::Probing { target },
                    ..self
                },
                Err(error) => SyncView {
                    position: index,
                    stage: StageView::Failed { error },
                    ..self
                },
            }
        }
    }

    /// The same synchroniser at another stage of the same repository.
    pub open spec fn at(self, stage: StageView) -> SyncView {
        SyncView { stage, ..self }
    }

    /// The state after the mirror of `target` has been cloned or updated:
    /// the large-file fetch if the run asks for it, else the next repository.
    pub open spec fn mirrored(self, target: TargetView) -> SyncView {
        if self.fetch_lfs {
            self.at(StageView::FetchingLfs { target })
        } else {
            self.enter(self.position + 1)
        }
    }

    /// What the caller is to do in this state.
    pub open spec fn action(self) -> ActionView {
        self.stage.action()
    }

    /// The state that follows when `event` is reported in this state.
    ///
    /// An event that does not answer the pending action, and any event once
    /// the run has ended, leaves the state as it is.
    pub open spec fn advance(self, event: EventView) -> SyncView {
        match (self.stage, event) {
            (StageView::Probing { target }, EventView::Exists(true)) => self.at(
                StageView::Updating { target },
            ),
            (StageView::Probing { target }, EventView::Exists(false)) => match parent_path(
                target.path,
            ) {
                Some(parent) => self.at(StageView::CreatingDirs { target, parent }),
                None => self.at(
                    StageView::Failed {
                        error: ErrorView::NoParentDirectory { target: target.path },
                    },
                ),
            },
            (StageView::CreatingDirs { target, .. }, EventView::Succeeded) => self.at(
                StageView::Cloning { target },
            ),
            (StageView::CreatingDirs { parent, .. }, EventView::Failed(detail)) => self.at(
                StageView::Failed { error: ErrorView::CreateDirectories { path: parent, detail } },
            ),
            (StageView::Cloning { target }, EventView::Succeeded) => self.mirrored(target),
            (StageView::Updating { target }, EventView::Succeeded) => self.mirrored(target),
            (StageView::FetchingLfs { .. }, EventView::Succeeded) => self.enter(self.position + 1),
            (StageView::Cloning { .. }, EventView::Failed(detail)) => self.failed_command(detail),
            (StageView::Updating { .. }, EventView::Failed(detail)) => self.failed_command(detail),
            (StageView::FetchingLfs { .. }, EventView::Failed(detail)) => self.failed_command(
                detail,
            ),
            _ => self,
        }
    }

    /// The state after the command that this state asks for has failed.
    pub open spec fn failed_command(self, detail: Seq<char>) -> SyncView {
        match self.action() {
            ActionView::Execute { command } => self.at(
                StageView::Failed { error: ErrorView::Command { command, detail } },
            ),
            _ => self,
        }
    }

    /// What holds of every state that a synchroniser can be in.
    pub open spec fn wf(self) -> bool {
        &&& self.position <= self.repos.len()
        &&& self.stage is Finished ==> self.position == self.repos.len()
        &&& !(self.stage is Finished) ==> self.position < self.repos.len()
        &&& match self.stage {
            StageView::Probing { target } => self.works_on(target),
            StageView::CreatingDirs { target, parent } => self.works_on(target) && parent_path(
                target.path,
            ) == Some(parent),
            StageView::Cloning { target } => self.works_on(target),
            StageView::Updating { target } => self.works_on(target),
            StageView::FetchingLfs { target } => self.works_on(target),
            StageView::Finished => true,
            StageView::Failed { .. } => true,
        }
    }

    /// Whether `target` is the mirror target of the repository under work.
    pub open spec fn works_on(self, target: TargetView) -> bool {
        &&& self.position < self.repos.len()
        &&& target_of(self.destination_root, self.repos[self.position as int]) == Ok::<
            TargetView,
            ErrorView,
        >(target)
    }
}

/// The state in which a synchroniser starts on `repos` under `config`.
pub open spec fn begin(config: ConfigView, repos: Seq<RepositoryView>) -> SyncView {
    SyncView {
        destination_root: config.destination_root,
        fetch_lfs: config.fetch_lfs,
        repos,
        position: 0,
        stage: StageView::Finished,
    }.enter(0)
}

/// What a synchroniser was given and keeps to the end.
struct Job {
    destination_root: String,
    fetch_lfs: bool,
    repos: Vec<RepositoryDescriptor>,
}

impl Job {
    /// The state of a synchroniser with this job, at `position` and `stage`.
    closed spec fn state(self, position: nat, stage: StageView) -> SyncView {
        SyncView {
            destination_root: self.destination_root@,
            fetch_lfs: self.fetch_lfs,
            repos: self.repos.deep_view(),
            position,
            stage,
        }
    }

    fn at(self, position: usize, stage: Stage) -> (next: MirrorSynchronizer)
        requires
            self.state(position as nat, stage@).wf(),
        ensures
            next@ == self.state(position as nat, stage@),
    {
        MirrorSynchronizer { job: self, position, stage }
    }

    fn enter(self, index: usize) -> (next: MirrorSynchronizer)
        ensures
            next@ == self.state(0, StageView::Finished).enter(index as nat),
    {
        if index >= self.repos.len() {
            let position = self.repos.len();
            self.at(position, Stage::Finished)
        } else {
            let stage = match mirror_target(self.destination_root.as_str(), &self.repos[index]) {
                Ok(target) => Stage::Probing { target },
                Err(error) => Stage::Failed { error },
            };
            self.at(index, stage)
        }
    }

    fn enter_following(self, position: usize) -> (next: MirrorSynchronizer)
        requires
            position < self.repos.len(),
        ensures
            next@ == self.state(0, StageView::Finished).enter(position as nat + 1),
    {
        let count = self.repos.len();
        assert(position < count);
        self.enter(position + 1)
    }

    fn mirrored(self, position: usize, target: MirrorTarget) -> (next: MirrorSynchronizer)
        requires
            self.state(position as nat, StageView::Finished).works_on(target@),
        ensures
            next@ == self.state(position as nat, StageView::Finished).mirrored(target@),
    {
        if self.fetch_lfs {
            self.at(position, Stage::FetchingLfs { target })
        } else {
            self.enter_following(position)
        }
    }
}

/// Mirrors a sequence of repositories, one after the other, each to its end
/// before the next is looked at.
pub struct MirrorSynchronizer {
    job: Job,
    position: usize,
    stage: Stage,
}

impl View for MirrorSynchronizer {
    type V = SyncView;

    closed spec fn view(&self) -> SyncView {
        self.job.state(self.position as nat, self.stage@)
    }
}

/// Starts the synchronisation of `repos` below the destination of `config`.
///
/// The first repository is checked at once: the synchroniser that comes back
/// already waits for the probe of its mirror directory, or has failed on its
/// missing field, or has finished because there is nothing to mirror.
pub fn process_repos(config: &RunConfig, repos: Vec<RepositoryDescriptor>) -> (sync:
    MirrorSynchronizer)
    ensures
        sync@ == begin(config@, repos.deep_view()),
{
    let job = Job {
        destination_root: config.destination_root.clone(),
        fetch_lfs: config.fetch_lfs,
        repos,
    };
    job.enter(0)
}

impl MirrorSynchronizer {
    #[verifier::type_invariant]
    spec fn inv(self) -> bool {
        self@.wf()
    }

    /// Whether the run has ended, well or badly.
    pub fn is_terminal(&self) -> (terminal: bool)
        ensures
            terminal == self@.stage.terminal(),
    {
        match &self.stage {
            Stage::Finished => true,
            Stage::Failed { .. } => true,
            _ => false,
        }
    }

    /// The index of the repository under work; the number of repositories
    /// once all are done.
    pub fn position(&self) -> (position: usize)
        ensures
            position == self@.position,
    {
        self.position
    }

    /// What the caller is to do now.
    pub fn action(&self) -> (action: SyncAction)
        ensures
            action@ == self@.action(),
    {
        match &self.stage {
            Stage::Probing { target } => SyncAction::Probe { path: target.path.clone() },
            Stage::CreatingDirs { parent, .. } => SyncAction::CreateDirs { path: parent.clone() },
            Stage::Cloning { target } => SyncAction::Execute {
                command: GitCommand::CloneMirror {
                    url: target.clone_url.clone(),
                    target: target.path.clone(),
                },
            },
            Stage::Updating { target } => SyncAction::Execute {
                command: GitCommand::RemoteUpdate { target: target.path.clone() },
            },
            Stage::FetchingLfs { target } => SyncAction::Execute {
                command: GitCommand::LfsFetchAll { target: target.path.clone() },
            },
            Stage::Finished => SyncAction::Finish,
            Stage::Failed { error } => SyncAction::Abort { error: error.clone() },
        }
    }

    /// Takes in what the caller reports and moves on.
    ///
    /// A mirror directory that exists is updated; one that does not is
    /// cloned into, once the directories above it are there. After either,
    /// the large-file objects are fetched if the run asks for them, and the
    /// next repository is taken up. A failure that is reported, a mirror
    /// directory without a parent and an entry that lacks a field each end
    /// the run. An event that does not answer the pending action changes
    /// nothing.
    pub fn advance(self, event: SyncEvent) -> (next: MirrorSynchronizer)
        ensures
            next@ == self@.advance(event@),
    {
        proof {
            use_type_invariant(&self);
        }
        let MirrorSynchronizer { job, position, stage } = self;
        match event {
            SyncEvent::Exists(exists) => match stage {
                Stage::Probing { target } => {
                    if exists {
                        job.at(position, Stage::Updating { target })
                    } else {
                        match parent_of(target.path.as_str()) {
                            Some(parent) => job.at(
                                position,
                                Stage::CreatingDirs { target, parent },
                            ),
                            None => job.at(
                                position,
                                Stage::Failed {
                                    error: SyncError::NoParentDirectory { target: target.path },
                                },
                            ),
                        }
                    }
                },
                stage => job.at(position, stage),
            },
            SyncEvent::Succeeded => match stage {
                Stage::CreatingDirs { target, .. } => job.at(position, Stage::Cloning { target }),
                Stage::Cloning { target } => job.mirrored(position, target),
                Stage::Updating { target } => job.mirrored(position, target),
                Stage::FetchingLfs { .. } => job.enter_following(position),
                stage => job.at(position, stage),
            },
            SyncEvent::Failed(detail) => {
                let error = match stage {
                    Stage::CreatingDirs { parent, .. } => SyncError::CreateDirectories {
                        path: parent,
                        detail,
                    },
                    Stage::Cloning { target } => SyncError::Command {
                        command: GitCommand::CloneMirror {
                            url: target.clone_url,
                            target: target.path,
                        },
                        detail,
                    },
                    Stage::Updating { target } => SyncError::Command {
                        command: GitCommand::RemoteUpdate { target: target.path },
                        detail,
                    },
                    Stage::FetchingLfs { target } => SyncError::Command {
                        command: GitCommand::LfsFetchAll { target: target.path },
                        detail,
                    },
                    stage => {
                        return job.at(position, stage);
                    },
                };
                job.at(position, Stage::Failed { error })
            },
        }
    }
}

} // verus!
