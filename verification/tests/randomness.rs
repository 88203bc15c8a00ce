use rng_attester::errors::RngError;
use rng_attester::performer::RngPerformer;

#[test]
fn zero_length_is_rejected_with_invalid_argument() {
    let performer = RngPerformer::new();
    assert_eq!(
        performer.generate_random_number(0),
        Err(RngError::InvalidArgument)
    );
}

#[test]
fn length_one_returns_exactly_one_byte() {
    let performer = RngPerformer::new();
    let bytes = performer.generate_random_number(1).unwrap();
    assert_eq!(bytes.len(), 1);
}

#[test]
fn length_1024_returns_exactly_1024_bytes() {
    let performer = RngPerformer::new();
    let bytes = performer.generate_random_number(1024).unwrap();
    assert_eq!(bytes.len(), 1024);
}

#[test]
fn two_draws_differ() {
    // 32 fresh random bytes collide with negligible probability.
    let performer = RngPerformer::new();
    let a = performer.generate_random_number(32).unwrap();
    let b = performer.generate_random_number(32).unwrap();
    assert_ne!(a, b);
}

#[test]
fn default_performer_generates() {
    let performer = RngPerformer::default();
    let bytes = performer.generate_random_number(16).unwrap();
    assert_eq!(bytes.len(), 16);
}
