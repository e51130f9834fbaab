use std::cell::Cell;
use std::sync::Arc;

use reth_direct::{NoopCanonStateSubscriptions, RethLayer, RethLayerBuilder};

type Slots = (String, u32, &'static str, u8, NoopCanonStateSubscriptions);

fn record(
    count: &Cell<u32>,
) -> impl FnOnce(&String, &u32, &&'static str, &u8, &NoopCanonStateSubscriptions) -> Slots + '_ {
    move |reader, pool, net, tasks, events| {
        count.set(count.get() + 1);
        (reader.clone(), *pool, *net, *tasks, *events)
    }
}

#[test]
fn builder_threads_each_slot_into_the_bundle() {
    let count = Cell::new(0);
    let mut layer: RethLayer<_, _, _, _, _, Slots> = RethLayerBuilder::default()
        .with_provider(String::from("reader"))
        .with_pool(7u32)
        .with_network("no peers")
        .with_executor(3u8)
        .with_noop_events()
        .into_layer();
    let bundle = layer.eth_handlers(record(&count));
    assert_eq!(*bundle, (String::from("reader"), 7, "no peers", 3, NoopCanonStateSubscriptions));
    assert_eq!(count.get(), 1);
}

#[test]
fn builder_new_keeps_the_given_slots() {
    let count = Cell::new(0);
    let mut layer: RethLayer<_, _, _, _, _, Slots> =
        RethLayerBuilder::new(String::from("db"), 1u32, "net", 2u8, NoopCanonStateSubscriptions)
            .into_layer();
    let bundle = layer.eth_handlers(record(&count));
    assert_eq!(*bundle, (String::from("db"), 1, "net", 2, NoopCanonStateSubscriptions));
}

#[test]
fn later_step_replaces_an_earlier_one() {
    let count = Cell::new(0);
    let mut layer: RethLayer<_, _, _, _, _, Slots> = RethLayerBuilder::default()
        .with_provider(String::from("first"))
        .with_pool(1u32)
        .with_network("n")
        .with_executor(0u8)
        .with_events(NoopCanonStateSubscriptions)
        .with_provider(String::from("second"))
        .into_layer();
    let bundle = layer.eth_handlers(record(&count));
    assert_eq!(bundle.0, "second");
}

#[test]
fn bundle_is_built_once_and_shared() {
    let count = Cell::new(0);
    let mut layer: RethLayer<_, _, _, _, _, Slots> =
        RethLayer::new(String::from("r"), 1u32, "n", 2u8, NoopCanonStateSubscriptions);
    let first = layer.eth_handlers(record(&count));
    let second = layer.eth_handlers(record(&count));
    let third = layer.eth_handlers(record(&count));
    assert_eq!(count.get(), 1);
    assert!(Arc::ptr_eq(&first, &second));
    assert!(Arc::ptr_eq(&first, &third));
}

#[test]
fn retransformed_layer_builds_a_fresh_bundle() {
    let count = Cell::new(0);
    let mut layer: RethLayer<_, _, _, _, _, Slots> =
        RethLayer::new(String::from("r"), 1u32, "n", 2u8, NoopCanonStateSubscriptions);
    let old = layer.eth_handlers(record(&count));
    let mut next = layer.with_pool(9u32);
    let fresh = next.eth_handlers(record(&count));
    assert_eq!(count.get(), 2);
    assert!(!Arc::ptr_eq(&old, &fresh));
    assert_eq!(fresh.1, 9);
    assert_eq!(old.1, 1);
}

#[test]
fn each_layer_step_starts_without_a_bundle() {
    let count = Cell::new(0);
    let mut layer: RethLayer<_, _, _, _, _, Slots> =
        RethLayer::new(String::from("r"), 1u32, "n", 2u8, NoopCanonStateSubscriptions);
    layer.eth_handlers(record(&count));
    let mut layer = layer.with_provider(String::from("p"));
    layer.eth_handlers(record(&count));
    let mut layer = layer.with_network("m");
    layer.eth_handlers(record(&count));
    let mut layer = layer.with_executor(5u8);
    layer.eth_handlers(record(&count));
    let mut layer = layer.with_events(NoopCanonStateSubscriptions);
    layer.eth_handlers(record(&count));
    let mut layer = layer.with_noop_events();
    let last = layer.eth_handlers(record(&count));
    assert_eq!(count.get(), 6);
    assert_eq!(*last, (String::from("p"), 1, "m", 5, NoopCanonStateSubscriptions));
}

#[test]
fn default_layer_has_empty_slots() {
    let count = Cell::new(0u32);
    let mut layer: RethLayer<(), (), (), (), (), u32> = RethLayer::default();
    let bundle = layer.eth_handlers(|_, _, _, _, _| {
        count.set(count.get() + 1);
        42u32
    });
    assert_eq!(*bundle, 42);
    assert_eq!(count.get(), 1);
}

#[test]
fn inert_slots_leave_the_reader_intact() {
    let count = Cell::new(0);
    let mut layer: RethLayer<_, _, _, _, _, Slots> = RethLayer::default()
        .with_provider(String::from("real reader"))
        .with_pool(0u32)
        .with_network("none")
        .with_executor(0u8)
        .with_noop_events();
    let provider = layer.layer(11u64, record(&count));
    assert_eq!(provider.eth().0, "real reader");
    assert_eq!(*provider.inner(), 11);
}
