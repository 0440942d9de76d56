use closeclaw_config::debounce::{DebounceState, LoopAction, LoopEvent, WatchEventKind};

fn paths(xs: &[&str]) -> Vec<String> {
    xs.iter().map(|x| x.to_string()).collect()
}

fn sorted(mut v: Vec<String>) -> Vec<String> {
    v.sort();
    v
}

#[test]
fn debounce_collects_and_dispatches_once() {
    let mut st = DebounceState::new();
    assert!(matches!(st.step(LoopEvent::Timeout), LoopAction::Wait));
    assert!(matches!(
        st.step(LoopEvent::Changed(WatchEventKind::Modify, paths(&["/c/models.json", "/c/system.json"]))),
        LoopAction::Wait
    ));
    assert!(matches!(
        st.step(LoopEvent::Changed(WatchEventKind::Create, paths(&["/c/models.json"]))),
        LoopAction::Wait
    ));
    // Access events change nothing.
    st.step(LoopEvent::Changed(WatchEventKind::Other, paths(&["/c/gateway.json"])));
    st.step(LoopEvent::WatchError);
    match st.step(LoopEvent::Timeout) {
        LoopAction::Dispatch { paths: p, stop } => {
            assert!(!stop);
            assert_eq!(sorted(p), paths(&["/c/models.json", "/c/system.json"]));
        }
        other => panic!("unexpected {:?}", other),
    }
    // The batch was cleared.
    assert!(matches!(st.step(LoopEvent::Timeout), LoopAction::Wait));
}

#[test]
fn debounce_disconnect_flushes_and_stops() {
    let mut st = DebounceState::new();
    st.step(LoopEvent::Changed(WatchEventKind::Remove, paths(&["/c/credentials/a.json"])));
    match st.step(LoopEvent::Disconnected) {
        LoopAction::Dispatch { paths: p, stop } => {
            assert!(stop);
            assert_eq!(p, paths(&["/c/credentials/a.json"]));
        }
        other => panic!("unexpected {:?}", other),
    }
    match DebounceState::new().step(LoopEvent::Disconnected) {
        LoopAction::Dispatch { paths: p, stop } => {
            assert!(stop);
            assert!(p.is_empty());
        }
        other => panic!("unexpected {:?}", other),
    }
}
