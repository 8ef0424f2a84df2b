use motion_pipeline::statistic::{Statistic, BUCKETS};

#[test]
fn buckets_are_hundredths_of_the_unit_interval() {
    assert_eq!(BUCKETS, 100);
    assert_eq!(Statistic::new(0).bucket(), 0);
    assert_eq!(Statistic::new(42_949_672).bucket(), 0);
    assert_eq!(Statistic::new(42_949_673).bucket(), 1);
    assert_eq!(Statistic::new(2_147_483_647).bucket(), 49);
    assert_eq!(Statistic::new(2_147_483_648).bucket(), 50);
    assert_eq!(Statistic::new(4_252_017_623).bucket(), 98);
    assert_eq!(Statistic::new(4_252_017_624).bucket(), 99);
    assert_eq!(Statistic::new(u32::MAX).bucket(), 99);
}

#[test]
fn the_bucket_is_the_floor_of_a_hundred_times_the_value() {
    let mut numerator: u32 = 0;
    loop {
        let statistic = Statistic::new(numerator);
        let value = statistic.numerator() as f64 / 4_294_967_296.0;
        assert_eq!(statistic.bucket(), ((value * 100.0) as usize).min(99));
        match numerator.checked_add(9_999_991) {
            Some(next) => numerator = next,
            None => break,
        }
    }
}
