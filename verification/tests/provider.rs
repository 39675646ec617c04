use auto_provider::capability::Component;
use auto_provider::error::ProviderError;
use auto_provider::provider::Provider;
use std::sync::Arc;

#[derive(Debug, PartialEq)]
struct Logger {
    level: u8,
}

impl Logger {
    fn new() -> Logger {
        Logger { level: 1 }
    }
}

impl Component for Logger {}

#[derive(Debug, PartialEq)]
struct Clock {
    ticks: u64,
}

impl Clock {
    fn new() -> Clock {
        Clock { ticks: 0 }
    }
}

impl Component for Clock {}

#[derive(Debug, PartialEq)]
struct Database {
    url: String,
}

impl Component for Database {}

// Same fields as `Logger`, another type.
#[derive(Debug, PartialEq)]
struct Auditor {
    level: u8,
}

impl Component for Auditor {}

#[test]
fn managed_instance_comes_back() {
    let mut registry = Provider::base();
    registry.manage(Logger { level: 7 });
    let logger = registry.get::<Logger>();
    assert_eq!(*logger, Logger { level: 7 });
}

#[test]
fn managed_instance_comes_back_through_try_get() {
    let mut registry = Provider::base();
    registry.manage(Database { url: String::from("db://main") });
    let database = registry.try_get::<Database>();
    assert_eq!(database, Ok(Arc::new(Database { url: String::from("db://main") })));
}

#[test]
fn every_lookup_gives_the_same_instance() {
    let mut registry = Provider::base();
    registry.manage(Logger { level: 7 });
    let first = registry.get::<Logger>();
    let second = registry.get::<Logger>();
    assert!(Arc::ptr_eq(&first, &second));
}

#[test]
fn later_instance_replaces_the_earlier() {
    let mut registry = Provider::base();
    registry.manage(Logger { level: 1 });
    registry.manage(Logger { level: 2 });
    let logger = registry.get::<Logger>();
    assert_eq!(*logger, Logger { level: 2 });
    assert_ne!(*logger, Logger { level: 1 });
}

#[test]
fn handle_taken_before_an_overwrite_stays_valid() {
    let mut registry = Provider::base();
    registry.manage(Logger { level: 1 });
    let old = registry.get::<Logger>();
    registry.manage(Logger { level: 2 });
    assert_eq!(*old, Logger { level: 1 });
    assert_eq!(*registry.get::<Logger>(), Logger { level: 2 });
}

#[test]
fn overwrite_lets_the_earlier_instance_go() {
    let mut registry = Provider::base();
    registry.manage(Logger { level: 1 });
    let old = registry.get::<Logger>();
    assert_eq!(Arc::strong_count(&old), 2);
    registry.manage(Logger { level: 2 });
    assert_eq!(Arc::strong_count(&old), 1);
}

#[test]
fn type_with_the_same_fields_is_another_type() {
    let mut registry = Provider::base();
    registry.manage(Logger { level: 7 });
    assert_eq!(registry.try_get::<Auditor>(), Err(ProviderError::MissingService));
    assert_eq!(registry.try_get::<Logger>(), Ok(Arc::new(Logger { level: 7 })));
}

#[test]
fn managing_one_type_leaves_another_in_place() {
    let mut registry = Provider::base();
    registry.manage(Logger { level: 7 });
    registry.manage(Auditor { level: 9 });
    assert_eq!(*registry.get::<Logger>(), Logger { level: 7 });
    assert_eq!(*registry.get::<Auditor>(), Auditor { level: 9 });
}

#[test]
fn lookup_in_an_empty_provider_is_missing() {
    let registry = Provider::base();
    assert_eq!(registry.try_get::<Logger>(), Err(ProviderError::MissingService));
    assert_eq!(registry.try_get::<Clock>(), Err(ProviderError::MissingService));
}

#[test]
fn lookup_of_a_type_never_managed_is_missing() {
    let mut registry = Provider::base();
    registry.manage(Clock { ticks: 3 });
    assert_eq!(registry.try_get::<Database>(), Err(ProviderError::MissingService));
}

#[test]
fn managing_the_same_instance_twice() {
    let mut registry = Provider::base();
    registry.manage(Logger { level: 4 });
    registry.manage(Logger { level: 4 });
    assert_eq!(*registry.get::<Logger>(), Logger { level: 4 });
    assert_eq!(registry.try_get::<Clock>(), Err(ProviderError::MissingService));
}

#[test]
fn logger_and_clock_are_both_given() {
    let mut registry = Provider::base();
    registry.manage(Logger::new()).manage(Clock::new());
    let logger: Arc<Logger> = registry.get::<Logger>();
    let clock: Arc<Clock> = registry.get::<Clock>();
    assert_eq!(*logger, Logger { level: 1 });
    assert_eq!(*clock, Clock { ticks: 0 });
    assert_eq!(registry.try_get::<Database>(), Err(ProviderError::MissingService));
}

#[test]
fn identity_hands_the_provider_back() {
    let mut registry = Provider::base();
    registry.manage(Clock { ticks: 5 });
    let same = registry.identity();
    assert_eq!(*same.get::<Clock>(), Clock { ticks: 5 });
}

#[test]
fn clone_gives_out_the_same_instances() {
    let mut registry = Provider::base();
    registry.manage(Logger { level: 7 }).manage(Clock { ticks: 5 });
    let mut copy = registry.clone();
    assert!(Arc::ptr_eq(&copy.get::<Logger>(), &registry.get::<Logger>()));
    assert!(Arc::ptr_eq(&copy.get::<Clock>(), &registry.get::<Clock>()));
    copy.manage(Logger { level: 8 });
    assert_eq!(*copy.get::<Logger>(), Logger { level: 8 });
    assert_eq!(*registry.get::<Logger>(), Logger { level: 7 });
}

#[test]
fn handle_can_cross_to_another_thread_of_use() {
    fn needs_send_sync<S: Send + Sync>(_: &S) {}
    let mut registry = Provider::base();
    registry.manage(Clock { ticks: 5 });
    let clock = registry.get::<Clock>();
    needs_send_sync(&clock);
    drop(registry);
    assert_eq!(clock.ticks, 5);
}

#[test]
fn order_of_registration_does_not_matter() {
    let mut first = Provider::base();
    first.manage(Logger { level: 7 }).manage(Clock { ticks: 5 });
    let mut second = Provider::base();
    second.manage(Clock { ticks: 5 }).manage(Logger { level: 7 });
    assert_eq!(*first.get::<Logger>(), *second.get::<Logger>());
    assert_eq!(*first.get::<Clock>(), *second.get::<Clock>());
    assert_eq!(first.try_get::<Database>(), second.try_get::<Database>());
}

#[test]
fn each_type_keeps_its_own_entry() {
    let mut registry = Provider::base();
    registry
        .manage(Logger { level: 1 })
        .manage(Clock { ticks: 2 })
        .manage(Database { url: String::from("db://a") })
        .manage(Auditor { level: 4 });
    registry.manage(Clock { ticks: 20 }).manage(Logger { level: 10 });
    assert_eq!(*registry.get::<Logger>(), Logger { level: 10 });
    assert_eq!(*registry.get::<Clock>(), Clock { ticks: 20 });
    assert_eq!(*registry.get::<Database>(), Database { url: String::from("db://a") });
    assert_eq!(*registry.get::<Auditor>(), Auditor { level: 4 });
}
