use girlboss::JobStatus;

fn wall_clock_ns() -> u64 {
    match std::time::SystemTime::now().duration_since(std::time::UNIX_EPOCH) {
        Ok(d) => d.as_nanos() as u64,
        Err(_) => 0,
    }
}

#[test]
fn creating_from_str() {
    let status = JobStatus::from("foo");
    assert_eq!(status.message(), "foo");
}

#[test]
fn creating_from_string() {
    let status = JobStatus::from("foo".to_string());
    assert_eq!(status.message(), "foo");
}

#[test]
fn timestamp_makes_sense() {
    let before = wall_clock_ns();
    let status = JobStatus::from("test");
    let after = wall_clock_ns();
    assert!(before <= status.timestamp());
    assert!(status.timestamp() <= after);
}

#[test]
fn age_at_measures_from_the_timestamp() {
    let status = girlboss::JobStatus::stamped("x".to_string(), 100);
    assert_eq!(status.age_at(150), 50);
    assert_eq!(status.age_at(100), 0);
    // A clock that ran backwards past the report gives age zero.
    assert_eq!(status.age_at(90), 0);
}

#[test]
fn age_makes_sense() {
    let status = JobStatus::from("test");
    // Within ten milliseconds of the report.
    assert!(status.age() <= 10_000_000);
}
