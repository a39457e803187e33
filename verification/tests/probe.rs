use mr_prober::proc::Processor;
use mr_prober::store::SentinelStore;
use mr_prober::ProbeError;
use mr_prober::Prober;
use mr_prober::ProbeResult;

/// Advances an integer sentinel: none becomes 0, `k` becomes `k + 1`.
struct IncrementProcessor;

impl Processor for IncrementProcessor {
    type Sentinel = u64;
    type Err = String;

    fn next(&self, current: Option<u64>) -> Result<Option<u64>, String> {
        Ok(Some(match current {
            None => 0,
            Some(k) => k + 1,
        }))
    }
}

/// Ten consecutive probes against a fresh in-memory store commit the
/// sentinels 0 through 9 in order, and the store then reports 9.
#[test]
fn monotonic_advancement() {
    let mut prober = Prober::in_memory(IncrementProcessor);

    let mut committed = Vec::new();
    for _ in 0..10 {
        assert!(matches!(prober.probe(), ProbeResult::Success));
        committed.push(prober.current().unwrap().unwrap());
    }

    assert_eq!(committed, vec![0, 1, 2, 3, 4, 5, 6, 7, 8, 9]);
    assert_eq!(prober.current().unwrap(), Some(9));
}

/// Reports 9 once, then nothing new.
struct NineThenEmpty;

impl Processor for NineThenEmpty {
    type Sentinel = u64;
    type Err = String;

    fn next(&self, current: Option<u64>) -> Result<Option<u64>, String> {
        match current {
            None => Ok(Some(9)),
            Some(_) => Ok(None),
        }
    }
}

/// A processor that reports nothing new leaves the store untouched: after
/// an `Empty` probe the stored sentinel is still 9.
#[test]
fn empty_leaves_store_untouched() {
    let mut prober = Prober::in_memory(NineThenEmpty);

    assert!(matches!(prober.probe(), ProbeResult::Success));
    assert_eq!(prober.current().unwrap(), Some(9));

    assert!(matches!(prober.probe(), ProbeResult::Empty));
    assert_eq!(prober.current().unwrap(), Some(9));
}

/// A store whose reads fail outright.
struct BrokenStore;

impl SentinelStore<u64> for BrokenStore {
    type Err = String;

    fn current(&self) -> Result<Option<u64>, String> {
        Err("store offline".to_string())
    }

    fn commit(&mut self, _sentinel: u64) -> Result<(), String> {
        Err("store offline".to_string())
    }
}

/// A store failure on the initial read surfaces as a store error and the
/// processor is never consulted.
#[test]
fn store_failure_reported_before_processor_runs() {
    struct PanickingProcessor;

    impl Processor for PanickingProcessor {
        type Sentinel = u64;
        type Err = String;

        fn next(&self, _current: Option<u64>) -> Result<Option<u64>, String> {
            panic!("the processor must not be called when the read fails");
        }
    }

    let mut prober = Prober::new(BrokenStore, PanickingProcessor);
    let outcome = prober.probe();
    match outcome {
        ProbeResult::Error(ProbeError::Store(msg)) => assert_eq!(msg, "store offline"),
        _ => panic!("expected a store error"),
    }
}
