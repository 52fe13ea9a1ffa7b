use random_audit::Counter;
use random_audit::greet;
use random_audit::text::found_gaps_message;
use random_audit::text::u64_to_decimal;

#[test]
fn greeting_wraps_the_name() {
    assert_eq!(greet("World".to_string()), "Hello, World!");
    assert_eq!(greet("".to_string()), "Hello, !");
}

#[test]
fn decimal_rendering_is_exact() {
    assert_eq!(u64_to_decimal(0), "0");
    assert_eq!(u64_to_decimal(7), "7");
    assert_eq!(u64_to_decimal(42), "42");
    assert_eq!(u64_to_decimal(1000), "1000");
    assert_eq!(u64_to_decimal(u64::MAX), "18446744073709551615");
}

#[test]
fn gaps_message_counts_the_gaps() {
    assert_eq!(found_gaps_message(1), "Found 1 gaps in sequence");
    assert_eq!(found_gaps_message(17), "Found 17 gaps in sequence");
}

#[test]
fn counter_increments_and_sets() {
    let mut counter = Counter::new();
    assert_eq!(counter.get_count(), 0);
    assert_eq!(counter.increment(), 1);
    assert_eq!(counter.increment(), 2);
    assert_eq!(counter.get_count(), 2);
    assert_eq!(counter.set_count(40), 40);
    assert_eq!(counter.increment(), 41);
}
