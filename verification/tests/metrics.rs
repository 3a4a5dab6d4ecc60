use prometheus::{IntCounter, Registry};
use zgdatestharness::metrics::{int_counter, DAMetrics};

#[test]
fn counters_have_their_names_and_texts() {
    let metrics = DAMetrics::new();
    assert_eq!(metrics.dispersed_bytes.name, "da_dispersed_bytes");
    assert_eq!(
        metrics.dispersed_bytes.help,
        "Number of bytes dispersed by the DA layer"
    );
    assert_eq!(
        metrics.dispersal_rate_limited.name,
        "da_dispersal_rate_limited"
    );
    assert_eq!(
        metrics.dispersal_rate_limited.help,
        "Times the dispersal was rate limited"
    );
    assert_eq!(metrics.confirmed_bytes.name, "da_confirmed_bytes");
    assert_eq!(
        metrics.confirmed_bytes.help,
        "Number of bytes confirmed by the DA layer"
    );
    assert_eq!(
        metrics.poll_confirmation_count.name,
        "da_poll_confirmation_count"
    );
    assert_eq!(
        metrics.poll_confirmation_count.help,
        "Number of times we polled the DA for confirmation"
    );
}

#[test]
fn prometheus_takes_all_counters() {
    let registry = Registry::new();
    let metrics = DAMetrics::new();
    for counter in [
        metrics.dispersed_bytes,
        metrics.dispersal_rate_limited,
        metrics.confirmed_bytes,
        metrics.poll_confirmation_count,
    ] {
        let exported = IntCounter::new(counter.name, counter.help).unwrap();
        registry.register(Box::new(exported)).unwrap();
    }
    assert_eq!(registry.gather().len(), 4);
}

#[test]
fn a_counter_goes_up() {
    let mut counter = int_counter("name", "help");
    counter.inc();
    counter.inc_by(41);
    assert_eq!(counter.value, 42);
    assert_eq!(counter.name, "name");
    assert_eq!(counter.help, "help");
}

#[test]
fn a_counter_starts_again_as_the_exported_one_does() {
    let mut counter = int_counter("name", "help");
    let exported = IntCounter::new("name", "help").unwrap();
    counter.inc_by(u64::MAX);
    exported.inc_by(u64::MAX);
    counter.inc_by(3);
    exported.inc_by(3);
    assert_eq!(counter.value, 2);
    assert_eq!(exported.get(), 2);
}
