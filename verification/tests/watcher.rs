use sway_scratchpad::command::{CommandKind, Criteria};
use sway_scratchpad::watcher::{
    WatchEvent, WatchInput, WatchState, is_running, run_watch, watch_step,
};

#[test]
fn match_issues_one_tag_then_one_placement() {
    let tag = "SCRATCHPAD_term".to_string();
    let inputs = vec![
        WatchInput::Event(WatchEvent::Other),
        WatchInput::Event(WatchEvent::Window { pid: 1234, con_id: 99 }),
        WatchInput::Event(WatchEvent::Window { pid: 1234, con_id: 100 }),
    ];
    let (state, cmds) = run_watch(1234, &tag, 1824, 972, &inputs);
    assert_eq!(state, WatchState::Matched(99));
    assert_eq!(cmds.len(), 2);
    assert_eq!(&cmds[0].kind, &CommandKind::TagParkFocus { tag: tag.clone() });
    assert_eq!(&cmds[0].criteria, &Criteria::ConId(99));
    assert_eq!(&cmds[1].kind, &CommandKind::PlaceCentered { width: 1824, height: 972 });
    assert_eq!(&cmds[1].criteria, &Criteria::ConId(99));
}

#[test]
fn child_exit_before_match_issues_nothing() {
    let tag = "SCRATCHPAD_term".to_string();
    let inputs = vec![
        WatchInput::Event(WatchEvent::Other),
        WatchInput::ChildExited,
        WatchInput::Event(WatchEvent::Window { pid: 1234, con_id: 99 }),
    ];
    let (state, cmds) = run_watch(1234, &tag, 1824, 972, &inputs);
    assert_eq!(state, WatchState::Abandoned);
    assert!(cmds.is_empty());
}

#[test]
fn foreign_windows_are_ignored() {
    let tag = "SCRATCHPAD_term".to_string();
    let inputs = vec![WatchInput::Event(WatchEvent::Window { pid: 4321, con_id: 7 })];
    let (state, cmds) = run_watch(1234, &tag, 100, 100, &inputs);
    assert_eq!(state, WatchState::Watching);
    assert!(cmds.is_empty());
}

#[test]
fn matched_and_abandoned_are_terminal() {
    let tag = "SCRATCHPAD_term".to_string();
    let win = WatchInput::Event(WatchEvent::Window { pid: 1, con_id: 6 });
    let (s1, a1) = watch_step(
        WatchState::Watching,
        WatchInput::Event(WatchEvent::Window { pid: 1, con_id: 5 }),
        1,
        &tag,
        10,
        10,
    );
    assert_eq!(s1, WatchState::Matched(5));
    assert!(a1.is_some());
    let (s2, a2) = watch_step(s1, win, 1, &tag, 10, 10);
    assert_eq!(s2, WatchState::Matched(5));
    assert!(a2.is_none());
    let (s3, a3) = watch_step(WatchState::Abandoned, win, 1, &tag, 10, 10);
    assert_eq!(s3, WatchState::Abandoned);
    assert!(a3.is_none());
}

#[test]
fn match_actions_carry_the_settle_pause() {
    let tag = "SCRATCHPAD_term".to_string();
    let (_, actions) = watch_step(
        WatchState::Watching,
        WatchInput::Event(WatchEvent::Window { pid: 1234, con_id: 99 }),
        1234,
        &tag,
        640,
        480,
    );
    let a = actions.expect("the matching event must yield actions");
    assert_eq!(&a.tag_park.kind, &CommandKind::TagParkFocus { tag: tag.clone() });
    assert_eq!(&a.tag_park.criteria, &Criteria::ConId(99));
    assert_eq!(a.settle_ms, 50);
    assert_eq!(&a.place.kind, &CommandKind::PlaceCentered { width: 640, height: 480 });
    assert_eq!(&a.place.criteria, &Criteria::ConId(99));
}

#[test]
fn liveness_from_status_poll() {
    assert!(is_running(&None));
    assert!(!is_running(&Some(0)));
    assert!(!is_running(&Some(1)));
}
