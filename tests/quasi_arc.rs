use otel_posix_propagator::QuasiArc;
use std::sync::{
    atomic::{AtomicUsize, Ordering},
    Arc,
};

/// A simple type whose Drop increments a counter.
struct Counter(Arc<AtomicUsize>);
impl Drop for Counter {
    fn drop(&mut self) {
        self.0.fetch_add(1, Ordering::SeqCst);
    }
}

#[test]
fn no_clone_leaks() {
    let drops = Arc::new(AtomicUsize::new(0));
    {
        // original never reads or deallocates
        let _qa = QuasiArc::new(Counter(drops.clone()));
        assert_eq!(drops.load(Ordering::SeqCst), 0);
        // dropping original alone should *not* drop inner
    }
    assert_eq!(
        drops.load(Ordering::SeqCst),
        0,
        "Inner must not deallocate until first clone"
    );
}

#[test]
fn single_clone_drops_inner() {
    let drops = Arc::new(AtomicUsize::new(0));
    {
        let qa = QuasiArc::new(Counter(drops.clone()));
        let qa2 = qa.clone();
        // still not dropped, because qa2 is alive
        assert_eq!(drops.load(Ordering::SeqCst), 0);

        drop(qa2);
        // dropping the only clone frees the value
        assert_eq!(
            drops.load(Ordering::SeqCst),
            1,
            "Inner should drop once after last clone is dropped"
        );
    }
}

#[test]
fn multiple_clones() {
    let drops = Arc::new(AtomicUsize::new(0));
    {
        let qa = QuasiArc::new(Counter(drops.clone()));
        let qa2 = qa.clone();
        let qa3 = qa.clone();
        assert_eq!(drops.load(Ordering::SeqCst), 0);

        drop(qa2);
        // one clone gone, but one still alive: no drop yet
        assert_eq!(drops.load(Ordering::SeqCst), 0);

        drop(qa3);
        // last clone gone: free and drop Counter
        assert_eq!(drops.load(Ordering::SeqCst), 1);
    }
}

#[test]
fn cancel_before_clone_frees_immediately() {
    let drops = Arc::new(AtomicUsize::new(0));
    // create and then cancel without any clone
    let qa = QuasiArc::new(Counter(drops.clone()));
    qa.cancel();
    assert_eq!(drops.load(Ordering::SeqCst), 1);
}

#[test]
fn try_cancel_after_clone_returns_err() {
    let drops = Arc::new(AtomicUsize::new(0));
    let qa = QuasiArc::new(Counter(drops.clone()));
    let qa2 = qa.clone();
    let r = qa.try_cancel();
    drop(qa2);
    assert_eq!(drops.load(Ordering::SeqCst), 1);
    assert!(r.is_err(), "try_cancel should return Err(()) after clone");
}

#[test]
fn try_cancel_no_clone_returns_ok() {
    let drops = Arc::new(AtomicUsize::new(0));
    let qa = QuasiArc::new(Counter(drops.clone()));
    let r = qa.try_cancel();
    assert_eq!(drops.load(Ordering::SeqCst), 1);
    assert!(r.is_ok(), "try_cancel should return Ok(()) before clone");
}

#[test]
fn origin_and_clones_read_the_value() {
    let qa = QuasiArc::new(String::from("payload"));
    assert_eq!(qa.get().unwrap().as_str(), "payload");
    let c1 = qa.clone();
    let c2 = qa.clone();
    let c3 = c1.clone();
    assert_eq!(c1.get().unwrap().as_str(), "payload");
    assert_eq!(c2.get().unwrap().as_str(), "payload");
    assert_eq!(c3.get().unwrap().as_str(), "payload");
    assert_eq!(qa.get().unwrap().as_str(), "payload");
    assert!(c2.try_cancel().is_err());
}

#[test]
fn cancel_after_clone_leaves_value_to_clones() {
    let drops = Arc::new(AtomicUsize::new(0));
    let qa = QuasiArc::new(Counter(drops.clone()));
    let qa2 = qa.clone();
    qa.cancel();
    assert_eq!(drops.load(Ordering::SeqCst), 0);
    drop(qa2);
    assert_eq!(drops.load(Ordering::SeqCst), 1);
}

#[test]
fn origin_reads_nothing_after_last_clone_is_gone() {
    let drops = Arc::new(AtomicUsize::new(0));
    let qa = QuasiArc::new(Counter(drops.clone()));
    assert!(qa.get().is_some());
    assert_eq!(drops.load(Ordering::SeqCst), 0);
    let qa2 = qa.clone();
    drop(qa2);
    assert_eq!(drops.load(Ordering::SeqCst), 1);
    assert!(qa.get().is_none());
}

#[test]
fn clone_reads_what_origin_read() {
    let qa = QuasiArc::new(5u32);
    assert_eq!(*qa.get().unwrap(), 5);
    let probe = qa.clone();
    assert_eq!(*probe.get().unwrap(), 5);
}
