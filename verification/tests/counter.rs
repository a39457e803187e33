use std::sync::Arc;
use std::sync::Mutex;

use mr_prober::auto::AutoProberEnd;
use mr_prober::proc::Processor;
use mr_prober::runtime::Runtime;
use mr_prober::Prober;

/// Records every value the processor was asked to advance from.
#[derive(Default)]
struct Counter {
    interactions: Vec<u64>,
}

impl Counter {
    /// Pushes `val` into the interactions and returns the number of
    /// interactions so far.
    fn interact(&mut self, val: u64) -> u64 {
        self.interactions.push(val);
        self.interactions.len().try_into().unwrap()
    }
}

struct CounterProcessor {
    counter: Arc<Mutex<Counter>>,
}

impl CounterProcessor {
    fn new(counter: Arc<Mutex<Counter>>) -> Self {
        Self { counter }
    }
}

impl Processor for CounterProcessor {
    type Sentinel = u64;
    type Err = String;

    fn next(&self, current: Option<u64>) -> Result<Option<u64>, String> {
        if current.is_some_and(|it| it >= 10) {
            return Ok(None);
        }

        let next = self.counter.lock().unwrap().interact(current.unwrap_or(0));

        Ok(Some(next))
    }
}

/// A runtime for driving loops in tests: waiting is a no-op and no files
/// are served (every file operation reports failure, which the runtime
/// contract always allows).
struct NoopRuntime;

impl Runtime for NoopRuntime {
    type File = ();
    type Err = ();

    fn open_file(_path: &str) -> Result<(), ()> {
        Err(())
    }

    fn read_string(_file: &()) -> Result<String, ()> {
        Err(())
    }

    fn write_str(_file: &mut (), _text: &str) -> Result<(), ()> {
        Err(())
    }

    fn sleep(_seconds: u64) {}
}

#[test]
fn in_memory() {
    // ARRANGE
    let counter = Arc::new(Mutex::new(Counter::default()));

    let mut prober = Prober::in_memory(CounterProcessor::new(Arc::clone(&counter)));

    // ACT
    for _ in 0..10 {
        prober.probe().expect_ok();
    }

    // ASSERT
    assert_eq!(
        counter.lock().unwrap().interactions,
        vec![0, 1, 2, 3, 4, 5, 6, 7, 8, 9]
    );
}

#[test]
fn auto_prober() {
    // ARRANGE
    let counter = Arc::new(Mutex::new(Counter::default()));

    let prober = Prober::in_memory(CounterProcessor::new(Arc::clone(&counter)));

    // ACT: the default policies probe while there is work and halt at the
    // first empty outcome.
    let end = prober.into_auto(Default::default()).run::<NoopRuntime>(1000);

    // ASSERT
    assert!(matches!(end, Some(AutoProberEnd::Halted)));
    assert_eq!(
        counter.lock().unwrap().interactions,
        vec![0, 1, 2, 3, 4, 5, 6, 7, 8, 9]
    );
}
