use std::sync::atomic::{AtomicUsize, Ordering};
use std::sync::Arc;

use backgroundassets::handler::Registry;
use doom_fish_utils::stream::{AsyncStreamSender, BoundedAsyncStream};

struct Probe {
    hits: usize,
    drops: Arc<AtomicUsize>,
}

impl Drop for Probe {
    fn drop(&mut self) {
        self.drops.fetch_add(1, Ordering::SeqCst);
    }
}

struct State {
    probe: Probe,
    _sender: AsyncStreamSender<u32>,
}

fn state(drops: &Arc<AtomicUsize>) -> (BoundedAsyncStream<u32>, State) {
    let (stream, sender) = BoundedAsyncStream::new(4);
    (stream, State { probe: Probe { hits: 0, drops: Arc::clone(drops) }, _sender: sender })
}

#[test]
fn replacing_a_registration_closes_the_previous_stream() {
    let mut registry: Registry<State> = Registry::new();
    let drops = Arc::new(AtomicUsize::new(0));
    let (first_stream, first) = state(&drops);
    let first_id = registry.install(first);
    let (second_stream, second) = state(&drops);
    let second_id = registry.install(second);

    assert!(first_stream.is_closed());
    assert!(!second_stream.is_closed());
    assert_eq!(drops.load(Ordering::SeqCst), 1);

    registry.remove(first_id);
    assert!(!second_stream.is_closed());
    registry.remove(second_id);
    assert!(second_stream.is_closed());
    assert_eq!(drops.load(Ordering::SeqCst), 2);
}

#[test]
fn replaced_state_lives_while_a_holder_keeps_it() {
    let mut registry: Registry<Arc<std::sync::Mutex<State>>> = Registry::new();
    let drops = Arc::new(AtomicUsize::new(0));
    let (_first_stream, first) = state(&drops);
    let first_id = registry.install(Arc::new(std::sync::Mutex::new(first)));

    let current = Arc::clone(registry.current().unwrap());
    let (_second_stream, second) = state(&drops);
    let second_id = registry.install(Arc::new(std::sync::Mutex::new(second)));
    registry.remove(first_id);
    current.lock().unwrap().probe.hits += 1;
    assert_ne!(first_id, second_id);
    assert_eq!(drops.load(Ordering::SeqCst), 0);

    drop(current);
    assert_eq!(drops.load(Ordering::SeqCst), 1);

    registry.remove(first_id);
    assert!(registry.current().is_some());
    registry.remove(second_id);
    assert!(registry.current().is_none());
    assert_eq!(drops.load(Ordering::SeqCst), 2);
}

#[test]
fn registrations_get_increasing_identifiers() {
    let mut registry: Registry<u32> = Registry::new();
    assert!(registry.current().is_none());
    let a = registry.install(10);
    let b = registry.install(20);
    assert_eq!((a, b), (1, 2));
    assert_eq!(registry.current(), Some(&20));
    registry.remove(a);
    assert_eq!(registry.current(), Some(&20));
    registry.remove(b);
    registry.remove(b);
    assert_eq!(registry.current(), None);
}

#[test]
fn identifiers_stay_distinct_over_a_history_of_installs_and_removals() {
    let mut registry: Registry<u32> = Registry::new();
    let mut ids = Vec::new();
    for value in 0..5u32 {
        ids.push(registry.install(value));
        if value % 2 == 0 {
            registry.remove(*ids.last().unwrap());
            assert_eq!(registry.current(), None);
        }
    }
    assert_eq!(ids, vec![1, 2, 3, 4, 5]);
    let last = registry.install(99);
    assert_eq!(last, 6);
    for id in &ids {
        registry.remove(*id);
        assert_eq!(registry.current(), Some(&99));
    }
    registry.remove(last);
    assert_eq!(registry.current(), None);
}
