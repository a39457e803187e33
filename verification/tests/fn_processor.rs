use mr_prober::proc::FnProcessor;
use mr_prober::proc::Processor;
use mr_prober::Prober;
use mr_prober::ProbeResult;

#[test]
fn fn_processor_works() {
    let proc = FnProcessor::new(|_current: Option<u64>| Ok::<_, String>(Some(42u64)));

    assert_eq!(proc.next(None).expect("should be ok"), Some(42));
}

/// A wrapped function value drives a prober like any other processor.
#[test]
fn fn_processor_probes() {
    let proc = FnProcessor::new(|current: Option<u64>| {
        Ok::<_, String>(match current {
            None => Some(1),
            Some(_) => None,
        })
    });

    let mut prober = Prober::in_memory(proc);
    assert!(matches!(prober.probe(), ProbeResult::Success));
    assert_eq!(prober.current().unwrap(), Some(1));
    assert!(matches!(prober.probe(), ProbeResult::Empty));
}
