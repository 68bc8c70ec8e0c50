//! The spawn watcher: correlating a freshly launched process with the
//! window it creates. The I/O layer spawns the child, subscribes to the
//! manager's events, and feeds each observation to the state machine here;
//! the state machine decides when the watch ends and which commands to
//! issue, exactly once.

use vstd::prelude::*;
use crate::command::{Command, CommandKind, Criteria, SETTLE_MS, place_by_id, tag_park_focus_by_id};

verus! {

/// One notification drawn from the event subscription: a window-lifecycle
/// event carrying the window's process id and container id, or any other
/// subscribed notification (such as a tick), which the watcher ignores.
#[derive(Clone, Copy, PartialEq, Eq, Structural, Debug)]
pub enum WatchEvent {
    Window { pid: u64, con_id: u64 },
    Other,
}

/// One observation the watch loop makes: the non-blocking liveness poll
/// found the child exited, or the subscription yielded an event.
#[derive(Clone, Copy, PartialEq, Eq, Structural, Debug)]
pub enum WatchInput {
    ChildExited,
    Event(WatchEvent),
}

/// Where a watch session stands: still waiting, matched the child's
/// window (with its container id), or abandoned because the child exited
/// before any matching window appeared. The last is a normal, silent
/// outcome — the tag is simply never attached for that attempt.
#[derive(Clone, Copy, PartialEq, Eq, Structural, Debug)]
pub enum WatchState {
    Watching,
    Matched(u64),
    Abandoned,
}

/// Whether the child still runs, from one non-blocking status poll: no
/// exit status yet means it runs.
pub fn is_running(status: &Option<i64>) -> (r: bool)
    ensures
        r == (status is None),
{
    match status {
        None => true,
        Some(_) => false,
    }
}

/// The state after one observation: in `Watching`, a child exit abandons
/// the watch, a window event with the child's pid matches it (remembering
/// the container id), and anything else leaves it watching. `Matched` and
/// `Abandoned` are terminal.
pub open spec fn step_state(s: WatchState, input: WatchInput, child_pid: u64) -> WatchState {
    match s {
        WatchState::Watching => match input {
            WatchInput::ChildExited => WatchState::Abandoned,
            WatchInput::Event(WatchEvent::Window { pid, con_id }) => if pid == child_pid {
                WatchState::Matched(con_id)
            } else {
                WatchState::Watching
            },
            WatchInput::Event(WatchEvent::Other) => WatchState::Watching,
        },
        _ => s,
    }
}

/// Whether this observation is the one that matches: the watch still
/// stands, and a window event arrived whose process id is the child's.
pub open spec fn matching_input(s: WatchState, input: WatchInput, child_pid: u64) -> bool {
    s is Watching && match input {
        WatchInput::Event(WatchEvent::Window { pid, .. }) => pid == child_pid,
        _ => false,
    }
}

/// The two commands issued on the matched window, in order: tag it, park
/// it and focus it; then, after the settle pause, size and center it.
/// Both are addressed by the matched container id.
#[derive(Clone, Debug, PartialEq)]
pub struct MatchActions {
    pub tag_park: Command,
    pub settle_ms: u64,
    pub place: Command,
}

/// Advances the watch by one observation. Commands come back exactly on
/// the step that matches the child's window, and never again.
pub fn watch_step(
    state: WatchState,
    input: WatchInput,
    child_pid: u64,
    tag: &String,
    width: u64,
    height: u64,
) -> (r: (WatchState, Option<MatchActions>))
    ensures
        r.0 == step_state(state, input, child_pid),
        r.1 is Some <==> matching_input(state, input, child_pid),
        r.1 matches Some(a) ==> {
            &&& r.0 matches WatchState::Matched(id)
            &&& a.tag_park.kind matches CommandKind::TagParkFocus { tag: t } && t@ == tag@
            &&& a.tag_park.criteria == Criteria::ConId(id)
            &&& a.settle_ms == SETTLE_MS
            &&& a.place.kind == (CommandKind::PlaceCentered { width, height })
            &&& a.place.criteria == Criteria::ConId(id)
        },
{
    match state {
        WatchState::Watching => match input {
            WatchInput::ChildExited => (WatchState::Abandoned, None),
            WatchInput::Event(WatchEvent::Window { pid, con_id }) => {
                if pid == child_pid {
                    let actions = MatchActions {
                        tag_park: tag_park_focus_by_id(tag.clone(), con_id),
                        settle_ms: SETTLE_MS,
                        place: place_by_id(con_id, width, height),
                    };
                    (WatchState::Matched(con_id), Some(actions))
                } else {
                    (WatchState::Watching, None)
                }
            },
            WatchInput::Event(WatchEvent::Other) => (WatchState::Watching, None),
        },
        _ => (state, None),
    }
}

/// The final state of a watch session fed these observations in order:
/// the first decisive one wins, and later ones are never reached.
pub open spec fn watch_result(child_pid: u64, inputs: Seq<WatchInput>) -> WatchState
    decreases inputs,
{
    if inputs.len() == 0 {
        WatchState::Watching
    } else {
        match step_state(WatchState::Watching, inputs[0], child_pid) {
            WatchState::Watching => watch_result(child_pid, inputs.drop_first()),
            s => s,
        }
    }
}

/// Runs a whole watch session over a pre-collected sequence of
/// observations. On a match the commands of [`MatchActions`] come back in
/// order — one tagging command, then one placement command, both
/// addressed to the matched container id — and on any other outcome no
/// command comes back at all.
pub fn run_watch(
    child_pid: u64,
    tag: &String,
    width: u64,
    height: u64,
    inputs: &Vec<WatchInput>,
) -> (r: (WatchState, Vec<Command>))
    ensures
        r.0 == watch_result(child_pid, inputs@),
        r.0 matches WatchState::Matched(id) ==> {
            &&& r.1@.len() == 2
            &&& r.1@[0].kind matches CommandKind::TagParkFocus { tag: t } && t@ == tag@
            &&& r.1@[0].criteria == Criteria::ConId(id)
            &&& r.1@[1].kind == (CommandKind::PlaceCentered { width, height })
            &&& r.1@[1].criteria == Criteria::ConId(id)
        },
        !(r.0 is Matched) ==> r.1@.len() == 0,
{
    proof {
        assert(inputs@.skip(0) =~= inputs@);
    }
    let mut i: usize = 0;
    while i < inputs.len()
        invariant
            i <= inputs@.len(),
            watch_result(child_pid, inputs@) == watch_result(
                child_pid,
                inputs@.skip(i as int),
            ),
        decreases inputs@.len() - i,
    {
        let (state, actions) = watch_step(
            WatchState::Watching,
            inputs[i],
            child_pid,
            tag,
            width,
            height,
        );
        proof {
            assert(inputs@.skip(i as int).len() > 0);
            assert(inputs@.skip(i as int)[0] == inputs@[i as int]);
            assert(inputs@.skip(i as int).drop_first() =~= inputs@.skip(i as int + 1));
        }
        match actions {
            Some(a) => {
                let mut cmds: Vec<Command> = Vec::new();
                cmds.push(a.tag_park);
                cmds.push(a.place);
                return (state, cmds);
            },
            None => {
                if matches!(state, WatchState::Abandoned) {
                    return (WatchState::Abandoned, Vec::new());
                }
            },
        }
        i = i + 1;
    }
    (WatchState::Watching, Vec::new())
}

} // verus!
