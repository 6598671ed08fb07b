use hawkeye::status::{parse_target, resolve, target_label, ObservedState, Status, TargetState};

#[test]
fn resolve_agreeing_signals() {
    assert_eq!(
        resolve(Some(TargetState::Running), Some(ObservedState::Running)),
        Status::Running
    );
    assert_eq!(
        resolve(Some(TargetState::Ready), Some(ObservedState::Ready)),
        Status::Ready
    );
}

#[test]
fn resolve_mismatch_is_pending_both_ways() {
    assert_eq!(
        resolve(Some(TargetState::Ready), Some(ObservedState::Running)),
        Status::Pending
    );
    assert_eq!(
        resolve(Some(TargetState::Running), Some(ObservedState::Ready)),
        Status::Pending
    );
}

#[test]
fn resolve_total_over_all_combinations() {
    let targets = [None, Some(TargetState::Ready), Some(TargetState::Running)];
    let observed = [None, Some(ObservedState::Ready), Some(ObservedState::Running)];
    for t in targets {
        for o in observed {
            let s = resolve(t, o);
            assert!(matches!(
                s,
                Status::Ready | Status::Running | Status::Pending | Status::Error
            ));
            if t.is_none() || o.is_none() {
                assert_eq!(s, Status::Error);
            } else {
                assert_ne!(s, Status::Error);
            }
        }
    }
}

#[test]
fn resolve_deterministic() {
    for t in [None, Some(TargetState::Ready), Some(TargetState::Running)] {
        for o in [None, Some(ObservedState::Ready), Some(ObservedState::Running)] {
            assert_eq!(resolve(t, o), resolve(t, o));
        }
    }
}

#[test]
fn target_label_round_trip() {
    for t in [TargetState::Ready, TargetState::Running] {
        let label = target_label(t);
        assert_eq!(parse_target(&label), Some(t));
    }
}

#[test]
fn target_label_values() {
    assert_eq!(target_label(TargetState::Running), "Running");
    assert_eq!(target_label(TargetState::Ready), "Ready");
}

#[test]
fn parse_target_rejects_malformed() {
    assert_eq!(parse_target(&String::from("running")), None);
    assert_eq!(parse_target(&String::from("READY")), None);
    assert_eq!(parse_target(&String::from("")), None);
    assert_eq!(parse_target(&String::from("Stopped")), None);
}
