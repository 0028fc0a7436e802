use std::sync::atomic::{AtomicUsize, Ordering};
use std::sync::Arc;

use decoders::native_session::ResidentRetention;

struct DropProbe(Arc<AtomicUsize>);

impl Drop for DropProbe {
    fn drop(&mut self) {
        self.0.fetch_add(1, Ordering::SeqCst);
    }
}

#[test]
fn abandoned_retention_never_drops_the_last_resident() {
    let drops = Arc::new(AtomicUsize::new(0));
    {
        let resident = Arc::new(DropProbe(Arc::clone(&drops)));
        let _retention = ResidentRetention::new(Arc::clone(&resident));
        drop(resident);
    }
    assert_eq!(drops.load(Ordering::SeqCst), 0);
}

#[test]
fn released_retention_recovers_the_exact_resident_once() {
    let drops = Arc::new(AtomicUsize::new(0));
    let resident = Arc::new(DropProbe(Arc::clone(&drops)));
    let retention = ResidentRetention::new(Arc::clone(&resident));
    drop(resident);
    let recovered = retention.recover();
    assert_eq!(Arc::strong_count(&recovered), 1);
    drop(recovered);
    assert_eq!(drops.load(Ordering::SeqCst), 1);
}

#[test]
fn a_retention_lends_the_resident_it_holds() {
    let resident = Arc::new(7_u32);
    let retention = ResidentRetention::new(Arc::clone(&resident));
    assert!(Arc::ptr_eq(retention.get(), &resident));
    assert_eq!(Arc::strong_count(&resident), 2);
}
