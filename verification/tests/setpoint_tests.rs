use craven_control::setpoint::Setpoint;

// Epsilon of 0.01 units, in micro-units.
const EPSILON: u64 = 10_000;

#[test]
fn targets_within_epsilon_write_once() {
    let mut sp = Setpoint::new(EPSILON);
    let targets = [
        12_000_000u64,
        12_005_000,
        11_995_000,
        12_009_999,
        11_990_001,
        12_000_000,
    ];
    let mut writes = 0u32;
    for t in targets {
        if sp.offer(t) {
            writes += 1;
        }
    }
    assert_eq!(writes, 1);
    assert_eq!(sp.last_applied_micro, Some(12_000_000));
}

#[test]
fn target_at_epsilon_writes_again() {
    let mut sp = Setpoint::new(EPSILON);
    let targets = [12_000_000u64, 12_005_000, 11_995_000];
    let mut writes = 0u32;
    for t in targets {
        if sp.offer(t) {
            writes += 1;
        }
    }
    // A move of exactly epsilon from the applied value re-issues the write.
    if sp.offer(12_010_000) {
        writes += 1;
    }
    assert_eq!(writes, 2);
    assert_eq!(sp.last_applied_micro, Some(12_010_000));
}

#[test]
fn first_target_always_writes() {
    let mut sp = Setpoint::new(EPSILON);
    assert!(sp.offer(0));
    assert_eq!(sp.last_applied_micro, Some(0));
}

#[test]
fn unchanged_target_is_skipped() {
    let mut sp = Setpoint::new(EPSILON);
    assert!(sp.offer(5_000_000));
    assert!(!sp.offer(5_000_000));
    assert!(!sp.offer(5_009_999));
    assert_eq!(sp.last_applied_micro, Some(5_000_000));
}
