use reflax::{Rnd, FAST_RAND_MAX};

#[test]
fn fastrand_follows_the_linear_congruential_stream() {
    let mut rnd = Rnd::from_seed(12345);
    assert_eq!(rnd.fastrand(), 7584);
    assert_eq!(rnd.fastrand(), 19164);
    assert_eq!(rnd.fastrand(), 25795);
}

#[test]
fn fastrand_from_zero_seed() {
    let mut rnd = Rnd::from_seed(0);
    assert_eq!(rnd.fastrand(), 38);
}

#[test]
fn fastrand_is_deterministic_for_a_seed_and_in_range() {
    let mut a = Rnd::from_seed(-987654);
    let mut b = Rnd::from_seed(-987654);
    for _ in 0..1000 {
        let x = a.fastrand();
        assert_eq!(x, b.fastrand());
        assert!(x >= 0 && x <= FAST_RAND_MAX);
    }
}
