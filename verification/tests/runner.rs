use std::sync::mpsc::TryRecvError;

use mantra_miner::{BoundaryCheck, Mantra, MantraMiner, Options, WorkerTask};

fn repeated_mantra() -> Mantra {
    Mantra {
        syllables: vec!["hri".to_string()],
        repeats: Some(108),
    }
}

fn bounded_options(repeats: usize) -> Options {
    Options {
        preparation: None,
        preparation_repeats: None,
        mantras: vec![Mantra {
            syllables: vec!["om".to_string()],
            repeats: None,
        }],
        conclusion: None,
        conclusion_repeats: None,
        repeats: Some(repeats),
        rate_ns: 0,
    }
}

#[test]
fn options() {
    let options = Options {
        preparation: None,
        preparation_repeats: None,
        mantras: vec![repeated_mantra()],
        conclusion: None,
        conclusion_repeats: None,
        rate_ns: 1000,
        repeats: Some(3),
    };
    let options_clone = options.clone();
    let miner = MantraMiner::new(options);
    assert_eq!(miner.options(), options_clone);
}

#[test]
fn stop_on_idle_miner_is_a_noop() {
    let mut miner = MantraMiner::new(Options::default());
    assert!(miner.stop().is_ok());
    assert!(miner.stop().is_ok());
    assert_eq!(miner.count(), 0);
    assert_eq!(miner.options(), Options::default());
}

#[test]
fn boundary_decision_on_bounded_script() {
    let options = bounded_options(2);
    assert!(MantraMiner::boundary_decision(&options, 0, BoundaryCheck::Quiet));
    assert!(MantraMiner::boundary_decision(&options, 1, BoundaryCheck::Quiet));
    assert!(!MantraMiner::boundary_decision(&options, 2, BoundaryCheck::Quiet));
    assert!(!MantraMiner::boundary_decision(&options, 50, BoundaryCheck::Quiet));
}

#[test]
fn boundary_decision_on_unbounded_script() {
    let mut options = bounded_options(2);
    options.repeats = None;
    assert!(MantraMiner::boundary_decision(&options, 0, BoundaryCheck::Quiet));
    assert!(MantraMiner::boundary_decision(&options, 10, BoundaryCheck::Quiet));
    assert!(MantraMiner::boundary_decision(&options, 1_000_000, BoundaryCheck::Quiet));
}

#[test]
fn boundary_decision_on_cancellation() {
    let options = bounded_options(2);
    assert!(!MantraMiner::boundary_decision(&options, 0, BoundaryCheck::Signal));
    assert!(!MantraMiner::boundary_decision(&options, 0, BoundaryCheck::Closed));
    let mut unbounded = bounded_options(2);
    unbounded.repeats = None;
    assert!(!MantraMiner::boundary_decision(&unbounded, 1, BoundaryCheck::Signal));
    assert!(!MantraMiner::boundary_decision(&unbounded, 1, BoundaryCheck::Closed));
}

fn poll(task: &WorkerTask) -> BoundaryCheck {
    match task.cancel.try_recv() {
        Ok(()) => BoundaryCheck::Signal,
        Err(TryRecvError::Disconnected) => BoundaryCheck::Closed,
        Err(TryRecvError::Empty) => BoundaryCheck::Quiet,
    }
}

/// Drives a worker task on the calling thread, exactly as the embedding's
/// worker loop does, minus the sink writes and the sleeps.
fn drive(task: &WorkerTask) -> usize {
    let mut completed: usize = 0;
    loop {
        let check = poll(task);
        if !MantraMiner::boundary_decision(&task.options, completed, check) {
            break;
        }
        let _units = MantraMiner::iteration(&task.options);
        *task.count.lock() += 1;
        completed += 1;
    }
    completed
}

#[test]
fn bounded_run_stabilizes_at_its_bound() {
    let mut miner = MantraMiner::new(bounded_options(10));
    let task = miner.start();
    let completed = drive(&task);
    assert_eq!(completed, 10);
    assert_eq!(miner.count(), 10);
}

#[test]
fn stop_halts_the_worker_at_the_next_boundary() {
    let mut miner = MantraMiner::new(bounded_options(1000));
    let task = miner.start();
    assert!(matches!(poll(&task), BoundaryCheck::Quiet));
    assert!(miner.stop().is_ok());
    assert!(matches!(poll(&task), BoundaryCheck::Signal));
    assert!(!MantraMiner::boundary_decision(&task.options, 0, BoundaryCheck::Signal));
    // With the sender gone, every later poll shows the disconnection.
    assert!(matches!(poll(&task), BoundaryCheck::Closed));
}

#[test]
fn start_replaces_the_previous_worker() {
    let mut miner = MantraMiner::new(bounded_options(1000));
    let first = miner.start();
    let second = miner.start();
    // The implicit stop signalled the first worker's channel; the fresh
    // channel of the second worker is untouched.
    assert!(matches!(poll(&first), BoundaryCheck::Signal));
    assert!(matches!(poll(&second), BoundaryCheck::Quiet));
}

#[test]
fn counter_persists_across_runs() {
    let mut miner = MantraMiner::new(bounded_options(3));
    let first = miner.start();
    assert_eq!(drive(&first), 3);
    let second = miner.start();
    assert_eq!(drive(&second), 3);
    // The shared counter is created once with the miner and accumulates
    // across restarts.
    assert_eq!(miner.count(), 6);
}
