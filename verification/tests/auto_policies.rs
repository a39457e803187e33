use std::sync::Arc;
use std::sync::Mutex;

use mr_prober::auto::strategy::AutoProberAction;
use mr_prober::auto::strategy::AutoProberCfg;
use mr_prober::auto::strategy::AutoProberStrategy;
use mr_prober::auto::strategy::BackoffStrategy;
use mr_prober::auto::AutoProberEnd;
use mr_prober::proc::Processor;
use mr_prober::runtime::Runtime;
use mr_prober::store::SentinelStore;
use mr_prober::ProbeError;
use mr_prober::Prober;
use mr_prober::ProbeResult;

/// A runtime for driving loops in tests: waiting is a no-op and no files
/// are served.
struct NoopRuntime;

impl Runtime for NoopRuntime {
    type File = ();
    type Err = ();

    fn open_file(_path: &str) -> Result<(), ()> {
        Err(())
    }

    fn read_string(_file: &()) -> Result<String, ()> {
        Err(())
    }

    fn write_str(_file: &mut (), _text: &str) -> Result<(), ()> {
        Err(())
    }

    fn sleep(_seconds: u64) {}
}

/// A store that counts commits.
struct CountingStore {
    value: Option<u64>,
    commits: Arc<Mutex<u32>>,
}

impl SentinelStore<u64> for CountingStore {
    type Err = String;

    fn current(&self) -> Result<Option<u64>, String> {
        Ok(self.value)
    }

    fn commit(&mut self, sentinel: u64) -> Result<(), String> {
        *self.commits.lock().unwrap() += 1;
        self.value = Some(sentinel);
        Ok(())
    }
}

/// Never has anything new to report.
struct AlwaysEmpty;

impl Processor for AlwaysEmpty {
    type Sentinel = u64;
    type Err = String;

    fn next(&self, _current: Option<u64>) -> Result<Option<u64>, String> {
        Ok(None)
    }
}

/// Always fails.
struct AlwaysFails;

impl Processor for AlwaysFails {
    type Sentinel = u64;
    type Err = String;

    fn next(&self, _current: Option<u64>) -> Result<Option<u64>, String> {
        Err("boom".to_string())
    }
}

/// With an abort policy on empty, a processor that reports nothing on the
/// very first call stops the loop immediately, and commit is never called.
#[test]
fn abort_on_empty_terminates_immediately() {
    let commits = Arc::new(Mutex::new(0u32));
    let store = CountingStore { value: None, commits: Arc::clone(&commits) };
    let cfg = AutoProberCfg {
        on_success: AutoProberStrategy::Continue,
        on_empty: AutoProberStrategy::Abort,
        on_error: AutoProberStrategy::Abort,
    };

    let mut auto = Prober::new(store, AlwaysEmpty).into_auto(cfg);
    let (outcome, action) = auto.step();

    assert!(matches!(outcome, ProbeResult::Empty));
    assert!(matches!(action, AutoProberAction::Halt));
    assert_eq!(*commits.lock().unwrap(), 0);
}

/// The same policy table, driven through `run`: one step, a clean halt.
#[test]
fn abort_on_empty_run_halts() {
    let commits = Arc::new(Mutex::new(0u32));
    let store = CountingStore { value: None, commits: Arc::clone(&commits) };
    let cfg = AutoProberCfg {
        on_success: AutoProberStrategy::Continue,
        on_empty: AutoProberStrategy::Abort,
        on_error: AutoProberStrategy::Abort,
    };

    let end = Prober::new(store, AlwaysEmpty).into_auto(cfg).run::<NoopRuntime>(1000);

    assert!(matches!(end, Some(AutoProberEnd::Halted)));
    assert_eq!(*commits.lock().unwrap(), 0);
}

/// With an abort policy on error, a processor that always fails ends the
/// run in an unrecoverable failure carrying the cause — never a silent
/// return.
#[test]
fn fatal_on_error_abort() {
    let cfg = AutoProberCfg {
        on_success: AutoProberStrategy::Continue,
        on_empty: AutoProberStrategy::Abort,
        on_error: AutoProberStrategy::Abort,
    };

    let end = Prober::in_memory(AlwaysFails).into_auto(cfg).run::<NoopRuntime>(1000);

    match end {
        Some(AutoProberEnd::Failed(ProbeError::Processor(msg))) => assert_eq!(msg, "boom"),
        _ => panic!("expected the run to end in an unrecoverable failure"),
    }
}

/// A backoff policy on error retries with growing delays and then stops
/// the loop when its attempts are exhausted.
#[test]
fn backoff_on_error_exhausts() {
    let cfg = AutoProberCfg {
        on_success: AutoProberStrategy::Continue,
        on_empty: AutoProberStrategy::Abort,
        on_error: AutoProberStrategy::Backoff(BackoffStrategy::new(3, 2)),
    };

    let mut auto = Prober::in_memory(AlwaysFails).into_auto(cfg);

    let mut waits = Vec::new();
    loop {
        let (outcome, action) = auto.step();
        assert!(matches!(outcome, ProbeResult::Error(_)));
        match action {
            AutoProberAction::Wait(seconds) => waits.push(seconds),
            AutoProberAction::Exhausted => break,
            other => panic!("unexpected action {other:?}"),
        }
    }

    assert_eq!(waits, vec![2, 4, 8]);
}

/// Fails and succeeds in alternation.
struct Flaky {
    calls: Arc<Mutex<u32>>,
}

impl Processor for Flaky {
    type Sentinel = u64;
    type Err = String;

    fn next(&self, _current: Option<u64>) -> Result<Option<u64>, String> {
        let mut calls = self.calls.lock().unwrap();
        *calls += 1;
        if *calls % 2 == 1 {
            Err("flaky".to_string())
        } else {
            Ok(Some(u64::from(*calls)))
        }
    }
}

/// An intervening success does not rewind an error-slot backoff: its
/// attempt counter keeps growing until the slot is exhausted; only an
/// explicit reset rewinds it.
#[test]
fn backoff_not_reset_by_success() {
    let cfg = AutoProberCfg {
        on_success: AutoProberStrategy::Continue,
        on_empty: AutoProberStrategy::Abort,
        on_error: AutoProberStrategy::Backoff(BackoffStrategy::new(3, 2)),
    };

    let calls = Arc::new(Mutex::new(0u32));
    let mut auto = Prober::in_memory(Flaky { calls }).into_auto(cfg);

    let mut waits = Vec::new();
    loop {
        let (_outcome, action) = auto.step();
        match action {
            AutoProberAction::Wait(seconds) => waits.push(seconds),
            AutoProberAction::Proceed => {}
            AutoProberAction::Exhausted => break,
            other => panic!("unexpected action {other:?}"),
        }
    }

    assert_eq!(waits, vec![2, 4, 8]);
}

/// A fixed-delay policy asks for exactly its configured wait.
#[test]
fn fixed_delay_requests_wait() {
    let cfg = AutoProberCfg {
        on_empty: AutoProberStrategy::DelaySecs(7),
        on_success: AutoProberStrategy::Continue,
        on_error: AutoProberStrategy::Abort,
    };

    let mut auto = Prober::in_memory(AlwaysEmpty).into_auto(cfg);
    let (outcome, action) = auto.step();

    assert!(matches!(outcome, ProbeResult::Empty));
    assert!(matches!(action, AutoProberAction::Wait(7)));
}
