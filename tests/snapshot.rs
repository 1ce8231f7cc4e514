use tasklite::snapshot::{signal_outcome, KillError, Snapshot};

#[test]
fn kill_of_absent_pid_is_not_found() {
    let mut snap = Snapshot::new();
    let all = snap.get_processes(usize::MAX);
    if !all.iter().any(|s| s.pid == 9999) {
        assert_eq!(snap.kill_process(9999), Err(KillError::NotFound));
    }
}

#[test]
fn kill_of_impossible_pid_is_not_found() {
    let snap = Snapshot::new();
    assert_eq!(snap.kill_process(u32::MAX), Err(KillError::NotFound));
}

#[test]
fn signal_sent_gives_true() {
    assert_eq!(signal_outcome(true), Ok(true));
}

#[test]
fn signal_refused_gives_signal_failed() {
    assert_eq!(signal_outcome(false), Err(KillError::SignalFailed));
}

#[test]
fn error_messages() {
    assert_eq!(KillError::NotFound.message(), "Process not found");
    assert_eq!(
        KillError::SignalFailed.message(),
        "Failed to kill process (insufficient permissions or system process)"
    );
}

#[test]
fn processes_are_listed_busiest_first() {
    let mut snap = Snapshot::new();
    let all = snap.get_processes(usize::MAX);
    for w in all.windows(2) {
        let a = f32::from_bits(w[0].cpu_usage_bits);
        let b = f32::from_bits(w[1].cpu_usage_bits);
        assert!(a >= b || b.is_nan());
    }
    let mut seen: Vec<u32> = all.iter().map(|s| s.pid).collect();
    seen.sort();
    seen.dedup();
    assert_eq!(seen.len(), all.len());
}

#[test]
fn top_n_is_bounded() {
    let mut snap = Snapshot::new();
    assert!(snap.get_processes(0).is_empty());
    assert!(snap.get_processes(3).len() <= 3);
}

#[test]
fn system_stats_are_consistent() {
    let mut snap = Snapshot::new();
    let s = snap.get_system_stats();
    let expected = if s.memory_total_bytes == 0 {
        0
    } else {
        s.memory_used_bytes as u128 * 1_000_000 / s.memory_total_bytes as u128
    };
    assert_eq!(s.memory_usage_ppm, expected);
}
