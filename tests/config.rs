use jsonapi_client::config::Builder;

#[test]
fn set_timeout() {
    let builder = Builder::new();
    let timeout = 50;
    let builder = builder.set_timeout(timeout);
    assert_eq!(builder.unwrap().get_timeout(), timeout);
}

#[test]
fn set_min_retry_interval() {
    let builder = Builder::new();
    let min_retry_interval = 50;
    let builder = builder.set_min_retry_interval(min_retry_interval);
    assert_eq!(builder.unwrap().get_min_retry_interval(), min_retry_interval);
}

#[test]
fn set_max_retry_interval() {
    let builder = Builder::new();
    let max_retry_interval = 50;
    let builder = builder.set_max_retry_interval(max_retry_interval);
    assert_eq!(builder.unwrap().get_max_retry_interval(), max_retry_interval);
}

#[test]
fn set_max_retries() {
    let builder = Builder::new();
    let max_retries = 50;
    let builder = builder.set_max_retries(max_retries);
    assert_eq!(builder.unwrap().get_max_retries(), max_retries);
}

#[test]
fn defaults_are_documented_values() {
    let builder = Builder::new();
    assert_eq!(builder.get_timeout(), 30000);
    assert_eq!(builder.get_min_retry_interval(), 100);
    assert_eq!(builder.get_max_retry_interval(), 5000);
    assert_eq!(builder.get_max_retries(), 3);
    assert_eq!(Builder::default(), builder);
}

#[test]
fn setter_leaves_other_fields_alone() {
    let base = Builder::new();
    let b = base.set_timeout(7).unwrap();
    assert_eq!(b.get_timeout(), 7);
    assert_eq!(b.get_min_retry_interval(), base.get_min_retry_interval());
    assert_eq!(b.get_max_retry_interval(), base.get_max_retry_interval());
    assert_eq!(b.get_max_retries(), base.get_max_retries());

    let b = base.set_max_retries(9).unwrap();
    assert_eq!(b.get_max_retries(), 9);
    assert_eq!(b.get_timeout(), base.get_timeout());
    assert_eq!(b.get_min_retry_interval(), base.get_min_retry_interval());
    assert_eq!(b.get_max_retry_interval(), base.get_max_retry_interval());

    let b = base.set_min_retry_interval(1).unwrap();
    assert_eq!(b.get_min_retry_interval(), 1);
    assert_eq!(b.get_max_retry_interval(), base.get_max_retry_interval());

    let b = base.set_max_retry_interval(2).unwrap();
    assert_eq!(b.get_max_retry_interval(), 2);
    assert_eq!(b.get_min_retry_interval(), base.get_min_retry_interval());
}

#[test]
fn retry_interval_doubles_until_the_bound() {
    let b = Builder::new();
    assert_eq!(b.retry_interval(0), 100);
    assert_eq!(b.retry_interval(1), 200);
    assert_eq!(b.retry_interval(2), 400);
    assert_eq!(b.retry_interval(5), 3200);
    assert_eq!(b.retry_interval(6), 5000);
    assert_eq!(b.retry_interval(40), 5000);
    assert_eq!(b.retry_interval(u32::MAX), 5000);
}

#[test]
fn retry_interval_with_inverted_bounds_is_the_upper_bound() {
    let b = Builder::new()
        .set_min_retry_interval(900)
        .unwrap()
        .set_max_retry_interval(300)
        .unwrap();
    assert_eq!(b.retry_interval(0), 300);
    assert_eq!(b.retry_interval(3), 300);
}

#[test]
fn retry_interval_at_the_largest_values() {
    let b = Builder::new()
        .set_min_retry_interval(u64::MAX)
        .unwrap()
        .set_max_retry_interval(u64::MAX)
        .unwrap();
    assert_eq!(b.retry_interval(0), u64::MAX);
    assert_eq!(b.retry_interval(1), u64::MAX);
    let z = Builder::new().set_min_retry_interval(0).unwrap();
    assert_eq!(z.retry_interval(10), 0);
}

#[test]
fn retry_delay_stops_after_the_budget() {
    let b = Builder::new();
    assert_eq!(b.retry_delay(0), Some(100));
    assert_eq!(b.retry_delay(2), Some(400));
    assert_eq!(b.retry_delay(3), None);
    let none = Builder::new().set_max_retries(0).unwrap();
    assert_eq!(none.retry_delay(0), None);
}
