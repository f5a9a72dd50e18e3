//! What holds of whole runs of the mirror synchroniser.
//!
//! Two models of the world around the synchroniser are used. In the first,
//! nothing is assumed of the caller: any sequence of events may arrive. In
//! the second, the filesystem is a set of paths at which something exists,
//! and every action that the synchroniser asks for succeeds.

use crate::command::CommandView;
use crate::mirror::{begin, target_of, ActionView, EventView, StageView, SyncView, TargetView};
use crate::paths::parent_path;
use crate::repo::{ConfigView, RepositoryView};
use vstd::prelude::*;

verus! {

/// The state that `events`, reported in this order, lead to from `state`.
pub open spec fn replay(state: SyncView, events: Seq<EventView>) -> SyncView
    decreases events.len(),
{
    if events.len() == 0 {
        state
    } else {
        replay(state, events.drop_last()).advance(events.last())
    }
}

/// What performing `action` does when all goes well, to a filesystem in
/// which something exists at exactly the paths of `world`: the event that
/// the caller reports, and the filesystem afterwards.
///
/// Creating directories brings the directory asked for into existence, a
/// mirror clone its target; probing, updating and fetching leave the set of
/// paths as it is.
pub open spec fn perform(world: Set<Seq<char>>, action: ActionView) -> (EventView, Set<Seq<char>>) {
    match action {
        ActionView::Probe { path } => (EventView::Exists(world.contains(path)), world),
        ActionView::CreateDirs { path } => (EventView::Succeeded, world.insert(path)),
        ActionView::Execute { command: CommandView::CloneMirror { target, .. } } => (
            EventView::Succeeded,
            world.insert(target),
        ),
        _ => (EventView::Succeeded, world),
    }
}

/// Whether performing `action` can bring a new path into existence.
pub open spec fn creates(action: ActionView) -> bool {
    match action {
        ActionView::CreateDirs { .. } => true,
        ActionView::Execute { command: CommandView::CloneMirror { .. } } => true,
        _ => false,
    }
}

/// How a run ended: the last state, the filesystem it left, and the actions
/// that were performed, in order.
pub struct Outcome {
    pub state: SyncView,
    pub world: Set<Seq<char>>,
    pub trace: Seq<ActionView>,
}

/// A bound on the number of actions that are still to come.
pub open spec fn work_left(state: SyncView) -> nat {
    let repos_left: nat = if state.position < state.repos.len() {
        (state.repos.len() - state.position) as nat
    } else {
        0
    };
    let steps_left: nat = match state.stage {
        StageView::Probing { .. } => 4,
        StageView::CreatingDirs { .. } => 3,
        StageView::Cloning { .. } => 2,
        StageView::Updating { .. } => 2,
        StageView::FetchingLfs { .. } => 1,
        StageView::Finished => 0,
        StageView::Failed { .. } => 0,
    };
    5 * repos_left + steps_left
}

/// The run that starts in `state` on the filesystem `world`, with every
/// action succeeding, up to the state that asks for nothing more.
pub open spec fn run(state: SyncView, world: Set<Seq<char>>) -> Outcome
    decreases work_left(state),
{
    if state.stage.terminal() {
        Outcome { state, world, trace: Seq::empty() }
    } else {
        let action = state.action();
        let (event, after) = perform(world, action);
        let rest = run(state.advance(event), after);
        Outcome { state: rest.state, world: rest.world, trace: seq![action] + rest.trace }
    }
}

/// Whether no action of `trace` can bring a new path into existence.
pub open spec fn only_updates(trace: Seq<ActionView>) -> bool {
    forall|i: int| 0 <= i < trace.len() ==> !creates(#[trigger] trace[i])
}

/// Work on a repository always begins in a state that a synchroniser can be
/// in.
pub proof fn lemma_enter_wf(state: SyncView, index: nat)
    ensures
        state.enter(index).wf(),
{
}

/// A synchroniser starts in a state that it can be in.
pub proof fn lemma_begin_wf(config: ConfigView, repos: Seq<RepositoryView>)
    ensures
        begin(config, repos).wf(),
{
}

/// No event leads a synchroniser out of the states that it can be in, and
/// none changes what it was given. No repository is gone back to, and once
/// the run has ended nothing changes any more.
pub proof fn lemma_advance_wf(state: SyncView, event: EventView)
    requires
        state.wf(),
    ensures
        state.advance(event).wf(),
        state.advance(event).repos == state.repos,
        state.advance(event).destination_root == state.destination_root,
        state.advance(event).fetch_lfs == state.fetch_lfs,
        state.position <= state.advance(event).position,
        state.stage.terminal() ==> state.advance(event) == state,
{
}

/// Whether `state` can never get past the repository at `index`: it has not
/// come further, it has not finished, and if it has come that far it has
/// failed on that repository's missing field.
pub open spec fn held_back(state: SyncView, index: int) -> bool {
    &&& state.position <= index < state.repos.len()
    &&& !(state.stage is Finished)
    &&& state.position == index ==> (target_of(state.destination_root, state.repos[index])
        matches Err(error) && state.stage == (StageView::Failed { error }))
}

/// A synchroniser that is held back by an entry without a field stays held
/// back by it, whatever is reported.
pub proof fn lemma_held_back_step(state: SyncView, index: int, event: EventView)
    requires
        state.wf(),
        held_back(state, index),
        !state.repos[index].complete(),
    ensures
        held_back(state.advance(event), index),
{
}

/// Fail-fast on a missing field: if the entry at `index` lacks its full name
/// or its clone URL, then whatever the caller reports, the synchroniser
/// never takes up a repository after it and never finishes; once it reaches
/// that entry it has failed with the error that names the missing field.
pub proof fn lemma_missing_field_stops_run(
    config: ConfigView,
    repos: Seq<RepositoryView>,
    index: int,
    events: Seq<EventView>,
)
    requires
        0 <= index < repos.len(),
        !repos[index].complete(),
    ensures
        replay(begin(config, repos), events).wf(),
        replay(begin(config, repos), events).repos == repos,
        replay(begin(config, repos), events).destination_root == config.destination_root,
        held_back(replay(begin(config, repos), events), index),
    decreases events.len(),
{
    if events.len() > 0 {
        lemma_missing_field_stops_run(config, repos, index, events.drop_last());
        let before = replay(begin(config, repos), events.drop_last());
        lemma_advance_wf(before, events.last());
        lemma_held_back_step(before, index, events.last());
    }
}

/// A run in which every action succeeds ends in a state that asks for
/// nothing more, and works on what it was given to the end.
pub proof fn lemma_run_ends(state: SyncView, world: Set<Seq<char>>)
    requires
        state.wf(),
    ensures
        run(state, world).state.stage.terminal(),
        run(state, world).state.wf(),
        run(state, world).state.repos == state.repos,
        run(state, world).state.destination_root == state.destination_root,
        run(state, world).state.fetch_lfs == state.fetch_lfs,
        world.subset_of(run(state, world).world),
    decreases work_left(state),
{
    if !state.stage.terminal() {
        let (event, after) = perform(world, state.action());
        lemma_advance_wf(state, event);
        lemma_run_ends(state.advance(event), after);
    }
}

proof fn lemma_run_held_back(state: SyncView, world: Set<Seq<char>>, index: int)
    requires
        state.wf(),
        held_back(state, index),
        !state.repos[index].complete(),
    ensures
        held_back(run(state, world).state, index),
    decreases work_left(state),
{
    if !state.stage.terminal() {
        let (event, after) = perform(world, state.action());
        lemma_advance_wf(state, event);
        lemma_held_back_step(state, index, event);
        lemma_run_held_back(state.advance(event), after, index);
    }
}

/// Fail-fast on a missing field, where every action succeeds: the run over
/// a sequence whose entry at `index` lacks a field ends in failure, at that
/// entry or before it.
pub proof fn lemma_missing_field_fails_run(
    config: ConfigView,
    repos: Seq<RepositoryView>,
    index: int,
    world: Set<Seq<char>>,
)
    requires
        0 <= index < repos.len(),
        !repos[index].complete(),
    ensures
        run(begin(config, repos), world).state.stage is Failed,
        run(begin(config, repos), world).state.position <= index,
{
    let start = begin(config, repos);
    lemma_run_ends(start, world);
    lemma_run_held_back(start, world, index);
}

/// The state in which the repository after the one under work is taken up.
pub open spec fn following(state: SyncView) -> SyncView {
    state.enter(state.position + 1)
}

/// Where a mirror is there, the run updates it, fetches its large-file
/// objects if asked to, and goes on with the following repository, on an
/// unchanged filesystem.
proof fn lemma_run_updates(state: SyncView, world: Set<Seq<char>>, target: TargetView)
    requires
        state.wf(),
        state.stage == (StageView::Probing { target }),
        world.contains(target.path),
    ensures
        run(state, world).state == run(following(state), world).state,
        run(state, world).world == run(following(state), world).world,
        only_updates(run(following(state), world).trace) ==> only_updates(
            run(state, world).trace,
        ),
{
    reveal_with_fuel(run, 4);
    let rest = run(following(state), world).trace;
    let probe = ActionView::Probe { path: target.path };
    let update = ActionView::Execute {
        command: CommandView::RemoteUpdate { target: target.path },
    };
    let fetch = ActionView::Execute { command: CommandView::LfsFetchAll { target: target.path } };
    if state.fetch_lfs {
        assert(run(state, world).trace == seq![probe] + (seq![update] + (seq![fetch] + rest)));
    } else {
        assert(run(state, world).trace == seq![probe] + (seq![update] + rest));
    }
}

/// Where no mirror is there and its directory has a parent, the run creates
/// the parent, clones, fetches the large-file objects if asked to, and goes
/// on with the following repository, on a filesystem that now holds the
/// mirror.
proof fn lemma_run_clones(
    state: SyncView,
    world: Set<Seq<char>>,
    target: TargetView,
    parent: Seq<char>,
)
    requires
        state.wf(),
        state.stage == (StageView::Probing { target }),
        !world.contains(target.path),
        parent_path(target.path) == Some(parent),
    ensures
        run(state, world).state == run(
            following(state),
            world.insert(parent).insert(target.path),
        ).state,
        run(state, world).world == run(
            following(state),
            world.insert(parent).insert(target.path),
        ).world,
{
    reveal_with_fuel(run, 5);
}

proof fn lemma_rerun(state: SyncView, world: Set<Seq<char>>)
    requires
        state.wf(),
        state.stage is Probing || state.stage.terminal(),
    ensures
        run(state, run(state, world).world).state == run(state, world).state,
        run(state, run(state, world).world).world == run(state, world).world,
        only_updates(run(state, run(state, world).world).trace),
    decreases work_left(state),
{
    let settled = run(state, world).world;
    match state.stage {
        StageView::Probing { target } => {
            let next = following(state);
            lemma_enter_wf(state, state.position + 1);
            if world.contains(target.path) {
                lemma_run_updates(state, world, target);
                lemma_run_ends(next, world);
                lemma_rerun(next, world);
                lemma_run_updates(state, settled, target);
            } else {
                match parent_path(target.path) {
                    Some(parent) => {
                        let mirrored = world.insert(parent).insert(target.path);
                        lemma_run_clones(state, world, target, parent);
                        lemma_run_ends(next, mirrored);
                        lemma_rerun(next, mirrored);
                        lemma_run_updates(state, settled, target);
                    },
                    None => {
                        reveal_with_fuel(run, 2);
                        assert(run(state, world).trace =~= seq![
                            ActionView::Probe { path: target.path },
                        ]);
                    },
                }
            }
        },
        _ => {},
    }
}

/// Idempotent convergence: run the synchroniser on a sequence of
/// repositories, every action succeeding, and then once more on the same
/// sequence and on the filesystem that the first run left. The second run
/// ends in the state in which the first ended, it leaves the filesystem as
/// it found it, and it neither clones nor creates a directory. This holds
/// from whatever filesystem the first run starts, the empty one included.
pub proof fn lemma_second_run_converges(
    config: ConfigView,
    repos: Seq<RepositoryView>,
    world: Set<Seq<char>>,
)
    ensures
        ({
            let first = run(begin(config, repos), world);
            let second = run(begin(config, repos), first.world);
            &&& second.state == first.state
            &&& second.world == first.world
            &&& only_updates(second.trace)
        }),
{
    lemma_begin_wf(config, repos);
    lemma_rerun(begin(config, repos), world);
}

} // verus!
