//! A whole run: every user, then every organisation, each listed to the
//! last page and then mirrored repository by repository, and the first
//! failure anywhere ends it.
//!
//! Like its parts, the run performs nothing. It names one [`RunAction`] at a
//! time, and [`MirrorRun::advance`] takes in the [`RunEvent`] that the
//! caller reports for it.

use crate::command::{CommandView, GitCommand};
use crate::convergence::{held_back, lemma_advance_wf, lemma_begin_wf, lemma_held_back_step};
use crate::error::{ErrorView, SyncError};
use crate::mirror::{
    begin, process_repos, ActionView, EventView, MirrorSynchronizer, StageView, SyncAction,
    SyncEvent, SyncView,
};
use crate::pages::{collected, fetch_all_repo_pages, Aggregation, AggregationView};
use crate::repo::{
    ConfigView, ListingPage, PageView, RepositoryDescriptor, RepositoryView, RunConfig,
};
use crate::source::{ListingRequest, RepositorySource, RequestView, SourceView};
use vstd::prelude::*;

verus! {

/// The sources of a run in the order in which they are worked through:
/// the users as configured, then the organisations as configured.
pub open spec fn source_order(config: ConfigView) -> Seq<SourceView> {
    Seq::new(
        config.users.len() + config.orgs.len(),
        |i: int|
            if i < config.users.len() {
                SourceView::User(config.users[i])
            } else {
                SourceView::Org(config.orgs[i - config.users.len()])
            },
    )
}

/// The sources of a run in the order in which they are worked through.
pub fn sources(config: &RunConfig) -> (sources: Vec<RepositorySource>)
    ensures
        sources.deep_view() == source_order(config@),
{
    let mut sources: Vec<RepositorySource> = Vec::new();
    let mut taken: usize = 0;
    while taken < config.users.len()
        invariant
            taken <= config.users.len(),
            sources.len() == taken,
            forall|i: int| 0 <= i < taken ==> sources[i]@ == SourceView::User(config.users[i]@),
        decreases config.users.len() - taken,
    {
        sources.push(RepositorySource::User(config.users[taken].clone()));
        taken = taken + 1;
    }
    let mut taken: usize = 0;
    while taken < config.orgs.len()
        invariant
            taken <= config.orgs.len(),
            sources.len() == config.users.len() + taken,
            forall|i: int|
                0 <= i < config.users.len() ==> sources[i]@ == SourceView::User(
                    config.users[i]@,
                ),
            forall|i: int|
                0 <= i < taken ==> sources[config.users.len() + i]@ == SourceView::Org(
                    config.orgs[i]@,
                ),
        decreases config.orgs.len() - taken,
    {
        sources.push(RepositorySource::Org(config.orgs[taken].clone()));
        taken = taken + 1;
    }
    assert(sources.deep_view() =~= source_order(config@));
    sources
}

/// What the run asks its caller to do next.
#[derive(Debug, PartialEq, Eq)]
pub enum RunAction {
    /// Send the first request of a listing: answer with the page that came.
    List { request: ListingRequest },
    /// Fetch the page behind `link`, as the same client that sent the first
    /// request: answer with the page that came.
    Follow { link: String },
    /// Report whether anything exists at `path`.
    Probe { path: String },
    /// Create the directory `path` and every missing directory above it.
    CreateDirs { path: String },
    /// Run `command` to its end, with the caller's own standard streams.
    Execute { command: GitCommand },
    /// Every repository of every source is mirrored.
    Finish,
    /// The run has failed with `error`; nothing more is to be done.
    Abort { error: SyncError },
}

/// What a [`RunAction`] holds, as mathematical values.
pub enum RunActionView {
    List { request: RequestView },
    Follow { link: Seq<char> },
    Probe { path: Seq<char> },
    CreateDirs { path: Seq<char> },
    Execute { command: CommandView },
    Finish,
    Abort { error: ErrorView },
}

impl View for RunAction {
    type V = RunActionView;

    open spec fn view(&self) -> RunActionView {
        match self {
            RunAction::List { request } => RunActionView::List { request: request@ },
            RunAction::Follow { link } => RunActionView::Follow { link: link@ },
            RunAction::Probe { path } => RunActionView::Probe { path: path@ },
            RunAction::CreateDirs { path } => RunActionView::CreateDirs { path: path@ },
            RunAction::Execute { command } => RunActionView::Execute { command: command@ },
            RunAction::Finish => RunActionView::Finish,
            RunAction::Abort { error } => RunActionView::Abort { error: error@ },
        }
    }
}

/// What the caller reports after it has performed an action.
#[derive(Debug, PartialEq, Eq)]
pub enum RunEvent {
    /// The page that a listing request or a followed link brought.
    Page(ListingPage),
    /// The answer to a [`RunAction::Probe`].
    Exists(bool),
    /// The directories were created, or the command exited with status zero.
    Succeeded,
    /// The request, the creation of the directories or the command failed.
    /// The text says what happened.
    Failed(String),
}

/// What a [`RunEvent`] holds, as mathematical values.
pub enum RunEventView {
    Page(PageView),
    Exists(bool),
    Succeeded,
    Failed(Seq<char>),
}

impl View for RunEvent {
    type V = RunEventView;

    open spec fn view(&self) -> RunEventView {
        match self {
            RunEvent::Page(page) => RunEventView::Page(page@),
            RunEvent::Exists(exists) => RunEventView::Exists(*exists),
            RunEvent::Succeeded => RunEventView::Succeeded,
            RunEvent::Failed(detail) => RunEventView::Failed(detail@),
        }
    }
}

/// The action of the synchroniser as an action of the run.
pub open spec fn lifted(action: ActionView) -> RunActionView {
    match action {
        ActionView::Probe { path } => RunActionView::Probe { path },
        ActionView::CreateDirs { path } => RunActionView::CreateDirs { path },
        ActionView::Execute { command } => RunActionView::Execute { command },
        ActionView::Finish => RunActionView::Finish,
        ActionView::Abort { error } => RunActionView::Abort { error },
    }
}

/// Where the run stands with the source under work.
enum Phase {
    Listing,
    Paging { repos: Vec<RepositoryDescriptor>, link: String },
    Syncing { sync: MirrorSynchronizer },
    Finished,
    Failed { error: SyncError },
}

/// Where the run stands with the source under work.
pub enum PhaseView {
    /// Waiting for the first page of the listing.
    Listing,
    /// Waiting for the page behind `link`; `repos` is what has come so far.
    Paging { repos: Seq<RepositoryView>, link: Seq<char> },
    /// The listing is complete and its repositories are being mirrored.
    Syncing { sync: SyncView },
    /// Every source is done.
    Finished,
    /// The run has failed.
    Failed { error: ErrorView },
}

impl View for Phase {
    type V = PhaseView;

    closed spec fn view(&self) -> PhaseView {
        match self {
            Phase::Listing => PhaseView::Listing,
            Phase::Paging { repos, link } => PhaseView::Paging {
                repos: repos.deep_view(),
                link: link@,
            },
            Phase::Syncing { sync } => PhaseView::Syncing { sync: sync@ },
            Phase::Finished => PhaseView::Finished,
            Phase::Failed { error } => PhaseView::Failed { error: error@ },
        }
    }
}

/// The state of a run, as mathematical values: what it was asked to do, how
/// far it has come, and what it waits for.
pub struct RunView {
    pub config: ConfigView,
    /// The index of the source under work in [`source_order`]; the number
    /// of sources once all are done.
    pub cursor: nat,
    pub phase: PhaseView,
}

impl RunView {
    /// The sources of the run, in the order in which they are taken.
    pub open spec fn sources(self) -> Seq<SourceView> {
        source_order(self.config)
    }

    /// The same run at another phase of the same source.
    pub open spec fn at(self, phase: PhaseView) -> RunView {
        RunView { phase, ..self }
    }

    /// The state in which work on the source at `index` begins: waiting for
    /// the first page of its listing, or finished if there is no such
    /// source.
    pub open spec fn open_source(self, index: nat) -> RunView {
        if index >= self.sources().len() {
            RunView { cursor: self.sources().len(), phase: PhaseView::Finished, ..self }
        } else {
            RunView { cursor: index, phase: PhaseView::Listing, ..self }
        }
    }

    /// The run after the synchroniser of the source under work has come to
    /// `sync`: on to the next source when it has finished, failed when it
    /// has failed, else waiting for what it waits for.
    pub open spec fn mirroring(self, sync: SyncView) -> RunView {
        match sync.stage {
            StageView::Finished => self.open_source(self.cursor + 1),
            StageView::Failed { error } => self.at(PhaseView::Failed { error }),
            _ => self.at(PhaseView::Syncing { sync }),
        }
    }

    /// The run after the aggregation of the listing under work has come to
    /// `aggregation`: waiting for the next page while one is pending, failed
    /// when a page could not be had, and mirroring the repositories once
    /// the listing is complete. No repository is touched before that.
    pub open spec fn listing(self, aggregation: AggregationView) -> RunView {
        match aggregation {
            AggregationView::Pending { repos, link } => self.at(PhaseView::Paging { repos, link }),
            AggregationView::Complete { repos } => self.mirroring(begin(self.config, repos)),
            AggregationView::Failed { error } => self.at(PhaseView::Failed { error }),
        }
    }

    /// What the caller is to do in this state.
    pub open spec fn action(self) -> RunActionView {
        match self.phase {
            PhaseView::Listing => RunActionView::List {
                request: self.sources()[self.cursor as int].request(),
            },
            PhaseView::Paging { link, .. } => RunActionView::Follow { link },
            PhaseView::Syncing { sync } => lifted(sync.action()),
            PhaseView::Finished => RunActionView::Finish,
            PhaseView::Failed { error } => RunActionView::Abort { error },
        }
    }

    /// The state that follows when `event` is reported in this state.
    ///
    /// An event that does not answer the pending action, and any event once
    /// the run has ended, leaves the state as it is.
    pub open spec fn advance(self, event: RunEventView) -> RunView {
        match (self.phase, event) {
            (PhaseView::Listing, RunEventView::Page(page)) => self.listing(collected(page)),
            (PhaseView::Listing, RunEventView::Failed(detail)) => self.at(
                PhaseView::Failed {
                    error: ErrorView::Listing {
                        owner: self.sources()[self.cursor as int].owner(),
                        detail,
                    },
                },
            ),
            (PhaseView::Paging { repos, link }, RunEventView::Page(page)) => self.listing(
                (AggregationView::Pending { repos, link }).resume(Ok(page)),
            ),
            (PhaseView::Paging { repos, link }, RunEventView::Failed(detail)) => self.listing(
                (AggregationView::Pending { repos, link }).resume(Err(detail)),
            ),
            (PhaseView::Syncing { sync }, RunEventView::Exists(exists)) => self.mirroring(
                sync.advance(EventView::Exists(exists)),
            ),
            (PhaseView::Syncing { sync }, RunEventView::Succeeded) => self.mirroring(
                sync.advance(EventView::Succeeded),
            ),
            (PhaseView::Syncing { sync }, RunEventView::Failed(detail)) => self.mirroring(
                sync.advance(EventView::Failed(detail)),
            ),
            _ => self,
        }
    }

    /// What holds of every state that a run can be in.
    pub open spec fn wf(self) -> bool {
        &&& self.cursor <= self.sources().len()
        &&& self.phase is Finished ==> self.cursor == self.sources().len()
        &&& !(self.phase is Finished) ==> self.cursor < self.sources().len()
        &&& self.phase matches PhaseView::Syncing { sync } ==> {
            &&& sync.wf()
            &&& !sync.stage.terminal()
            &&& sync.destination_root == self.config.destination_root
            &&& sync.fetch_lfs == self.config.fetch_lfs
        }
    }
}

/// The state in which a run under `config` starts.
pub open spec fn launched(config: ConfigView) -> RunView {
    RunView { config, cursor: 0, phase: PhaseView::Finished }.open_source(0)
}

/// A run starts in a state that it can be in.
pub proof fn lemma_launched_wf(config: ConfigView)
    ensures
        launched(config).wf(),
{
}

/// No event leads a run out of the states that it can be in, and none
/// changes what it was asked to do. No source is gone back to: all of one
/// source comes before the next, and the users before the organisations.
/// Once the run has ended, well or badly, nothing changes any more.
pub proof fn lemma_run_advance_wf(state: RunView, event: RunEventView)
    requires
        state.wf(),
    ensures
        state.advance(event).wf(),
        state.advance(event).config == state.config,
        state.cursor <= state.advance(event).cursor,
        state.phase is Finished || state.phase is Failed ==> state.advance(event) == state,
{
    match (state.phase, event) {
        (PhaseView::Listing, RunEventView::Page(page)) => {
            lemma_begin_wf(state.config, page.items);
        },
        (PhaseView::Paging { repos, .. }, RunEventView::Page(page)) => {
            lemma_begin_wf(state.config, repos + page.items);
        },
        (PhaseView::Syncing { sync }, RunEventView::Exists(exists)) => {
            lemma_advance_wf(sync, EventView::Exists(exists));
        },
        (PhaseView::Syncing { sync }, RunEventView::Succeeded) => {
            lemma_advance_wf(sync, EventView::Succeeded);
        },
        (PhaseView::Syncing { sync }, RunEventView::Failed(detail)) => {
            lemma_advance_wf(sync, EventView::Failed(detail));
        },
        _ => {},
    }
}

/// The state that `events`, reported in this order, lead to from `state`.
pub open spec fn replayed(state: RunView, events: Seq<RunEventView>) -> RunView
    decreases events.len(),
{
    if events.len() == 0 {
        state
    } else {
        replayed(state, events.drop_last()).advance(events.last())
    }
}

/// Whether `state` can never get past the entry at `index` of the listing
/// of the source at `cursor`: it is still at that source, and it has failed
/// or its synchroniser is held back by that entry.
pub open spec fn halted(
    state: RunView,
    cursor: nat,
    repos: Seq<RepositoryView>,
    index: int,
) -> bool {
    &&& state.cursor == cursor
    &&& match state.phase {
        PhaseView::Failed { .. } => true,
        PhaseView::Syncing { sync } => sync.repos == repos && held_back(sync, index),
        _ => false,
    }
}

/// Fail-fast through the whole run: once the listing of a source is
/// complete and one of its entries lacks its full name or its clone URL,
/// then whatever the caller reports, the run never takes up a repository
/// after that entry, never goes on to another source and never finishes.
pub proof fn lemma_missing_field_ends_run(
    state: RunView,
    repos: Seq<RepositoryView>,
    index: int,
    events: Seq<RunEventView>,
)
    requires
        state.wf(),
        !(state.phase is Finished),
        0 <= index < repos.len(),
        !repos[index].complete(),
    ensures
        replayed(state.listing(AggregationView::Complete { repos }), events).wf(),
        replayed(state.listing(AggregationView::Complete { repos }), events).config
            == state.config,
        halted(
            replayed(state.listing(AggregationView::Complete { repos }), events),
            state.cursor,
            repos,
            index,
        ),
    decreases events.len(),
{
    lemma_begin_wf(state.config, repos);
    if events.len() > 0 {
        lemma_missing_field_ends_run(state, repos, index, events.drop_last());
        let before = replayed(
            state.listing(AggregationView::Complete { repos }),
            events.drop_last(),
        );
        lemma_run_advance_wf(before, events.last());
        match (before.phase, events.last()) {
            (PhaseView::Syncing { sync }, RunEventView::Exists(exists)) => {
                lemma_advance_wf(sync, EventView::Exists(exists));
                lemma_held_back_step(sync, index, EventView::Exists(exists));
            },
            (PhaseView::Syncing { sync }, RunEventView::Succeeded) => {
                lemma_advance_wf(sync, EventView::Succeeded);
                lemma_held_back_step(sync, index, EventView::Succeeded);
            },
            (PhaseView::Syncing { sync }, RunEventView::Failed(detail)) => {
                lemma_advance_wf(sync, EventView::Failed(detail));
                lemma_held_back_step(sync, index, EventView::Failed(detail));
            },
            _ => {},
        }
    }
}

/// What a run was asked to do, with its sources laid out in their order.
struct Plan {
    config: RunConfig,
    sources: Vec<RepositorySource>,
}

impl Plan {
    /// Whether the sources are those of the configuration, in their order.
    closed spec fn laid_out(self) -> bool {
        self.sources.deep_view() == source_order(self.config@)
    }

    /// The state of a run with this plan, at `cursor` and `phase`.
    closed spec fn state(self, cursor: nat, phase: PhaseView) -> RunView {
        RunView { config: self.config@, cursor, phase }
    }

    fn at(self, cursor: usize, phase: Phase) -> (next: MirrorRun)
        requires
            self.laid_out(),
            self.state(cursor as nat, phase@).wf(),
        ensures
            next@ == self.state(cursor as nat, phase@),
    {
        MirrorRun { plan: self, cursor, phase }
    }

    fn open_source(self, index: usize) -> (next: MirrorRun)
        requires
            self.laid_out(),
        ensures
            next@ == self.state(0, PhaseView::Finished).open_source(index as nat),
    {
        if index >= self.sources.len() {
            let cursor = self.sources.len();
            self.at(cursor, Phase::Finished)
        } else {
            self.at(index, Phase::Listing)
        }
    }

    fn mirroring(self, cursor: usize, sync: MirrorSynchronizer) -> (next: MirrorRun)
        requires
            self.laid_out(),
            cursor < self.sources.len(),
            sync@.wf(),
            sync@.destination_root == self.config@.destination_root,
            sync@.fetch_lfs == self.config@.fetch_lfs,
        ensures
            next@ == self.state(cursor as nat, PhaseView::Finished).mirroring(sync@),
    {
        match sync.action() {
            SyncAction::Finish => {
                let count = self.sources.len();
                assert(cursor < count);
                self.open_source(cursor + 1)
            },
            SyncAction::Abort { error } => self.at(cursor, Phase::Failed { error }),
            _ => self.at(cursor, Phase::Syncing { sync }),
        }
    }

    fn listing(self, cursor: usize, aggregation: Aggregation) -> (next: MirrorRun)
        requires
            self.laid_out(),
            cursor < self.sources.len(),
        ensures
            next@ == self.state(cursor as nat, PhaseView::Finished).listing(aggregation@),
    {
        match aggregation {
            Aggregation::Pending { repos, link } => self.at(cursor, Phase::Paging { repos, link }),
            Aggregation::Complete { repos } => {
                proof {
                    lemma_begin_wf(self.config@, repos.deep_view());
                }
                let sync = process_repos(&self.config, repos);
                self.mirroring(cursor, sync)
            },
            Aggregation::Failed { error } => self.at(cursor, Phase::Failed { error }),
        }
    }
}

/// One run of the mirroring, from the first user to the last organisation.
pub struct MirrorRun {
    plan: Plan,
    cursor: usize,
    phase: Phase,
}

impl View for MirrorRun {
    type V = RunView;

    closed spec fn view(&self) -> RunView {
        self.plan.state(self.cursor as nat, self.phase@)
    }
}

impl MirrorRun {
    #[verifier::type_invariant]
    spec fn inv(self) -> bool {
        &&& self.plan.laid_out()
        &&& self@.wf()
    }

    /// Starts a run under `config`. It waits for the first page of the
    /// first source, or has finished because no source is configured.
    pub fn start(config: RunConfig) -> (run: MirrorRun)
        ensures
            run@ == launched(config@),
    {
        let sources = sources(&config);
        let plan = Plan { config, sources };
        plan.open_source(0)
    }

    /// Whether the run has ended, well or badly.
    pub fn is_terminal(&self) -> (terminal: bool)
        ensures
            terminal == (self@.phase is Finished || self@.phase is Failed),
    {
        match &self.phase {
            Phase::Finished => true,
            Phase::Failed { .. } => true,
            _ => false,
        }
    }

    /// What the caller is to do now.
    pub fn action(&self) -> (action: RunAction)
        ensures
            action@ == self@.action(),
    {
        proof {
            use_type_invariant(self);
        }
        match &self.phase {
            Phase::Listing => {
                assert(self.plan.sources[self.cursor as int]@
                    == self@.sources()[self.cursor as int]);
                RunAction::List { request: self.plan.sources[self.cursor].request() }
            },
            Phase::Paging { link, .. } => RunAction::Follow { link: link.clone() },
            Phase::Syncing { sync } => match sync.action() {
                SyncAction::Probe { path } => RunAction::Probe { path },
                SyncAction::CreateDirs { path } => RunAction::CreateDirs { path },
                SyncAction::Execute { command } => RunAction::Execute { command },
                SyncAction::Finish => RunAction::Finish,
                SyncAction::Abort { error } => RunAction::Abort { error },
            },
            Phase::Finished => RunAction::Finish,
            Phase::Failed { error } => RunAction::Abort { error: error.clone() },
        }
    }

    /// Takes in what the caller reports and moves on.
    ///
    /// A page goes to the aggregation of the listing under work; when the
    /// listing is complete its repositories are mirrored in order, and when
    /// they are done the next source is listed. Whatever fails, be it a
    /// request, a repository entry, a directory or a command, ends the run:
    /// no later repository and no later source is touched. An event that
    /// does not answer the pending action changes nothing.
    pub fn advance(self, event: RunEvent) -> (next: MirrorRun)
        ensures
            next@ == self@.advance(event@),
    {
        proof {
            use_type_invariant(&self);
        }
        let MirrorRun { plan, cursor, phase } = self;
        match phase {
            Phase::Listing => match event {
                RunEvent::Page(page) => plan.listing(cursor, fetch_all_repo_pages(page)),
                RunEvent::Failed(detail) => {
                    assert(plan.sources[cursor as int]@
                        == source_order(plan.config@)[cursor as int]);
                    let owner = plan.sources[cursor].owner().clone();
                    plan.at(cursor, Phase::Failed { error: SyncError::Listing { owner, detail } })
                },
                _ => plan.at(cursor, Phase::Listing),
            },
            Phase::Paging { repos, link } => {
                let outcome = match event {
                    RunEvent::Page(page) => Ok(page),
                    RunEvent::Failed(detail) => Err(detail),
                    _ => {
                        return plan.at(cursor, Phase::Paging { repos, link });
                    },
                };
                let pending = Aggregation::Pending { repos, link };
                plan.listing(cursor, pending.resume(outcome))
            },
            Phase::Syncing { sync } => {
                let reported = match event {
                    RunEvent::Exists(exists) => SyncEvent::Exists(exists),
                    RunEvent::Succeeded => SyncEvent::Succeeded,
                    RunEvent::Failed(detail) => SyncEvent::Failed(detail),
                    RunEvent::Page(_) => {
                        return plan.at(cursor, Phase::Syncing { sync });
                    },
                };
                proof {
                    lemma_advance_wf(sync@, reported@);
                }
                plan.mirroring(cursor, sync.advance(reported))
            },
            phase => plan.at(cursor, phase),
        }
    }
}

} // verus!
