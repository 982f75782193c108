use std::cell::Cell;

use dns_crawler::time_getter::TimeGetter;

#[test]
fn getter_asks_its_function() {
    let getter = TimeGetter::new(|| 1234);
    assert_eq!(getter.get_time(), 1234);
    assert_eq!((getter.getter())(), 1234);
}

#[test]
fn test_clock_advances_on_demand() {
    let clock = Cell::new(10);
    let getter = TimeGetter::new(|| clock.get());
    assert_eq!(getter.get_time(), 10);
    clock.set(70);
    assert_eq!(getter.get_time(), 70);
}
