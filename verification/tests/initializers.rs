use robit::initializers::{Distribution, Initializer, Ones, RandomDistr, Uniform, Zeros};
use robit::Fixed;

fn raw(value: i64) -> Fixed {
    Fixed { raw: value }
}

#[test]
fn zeros_fills_with_zero() {
    let values: Vec<Fixed> = Zeros::default().gen(4);
    assert_eq!(vec![raw(0); 4], values);
}

#[test]
fn ones_fills_with_one() {
    let values: Vec<Fixed> = Ones::default().gen(3);
    assert_eq!(vec![raw(1_000_000); 3], values);
}

#[test]
fn nothing_is_generated_for_length_zero() {
    assert_eq!(Vec::<Fixed>::new(), Initializer::<Fixed>::gen(&Zeros, 0));
    assert_eq!(Vec::<Fixed>::new(), Initializer::<Fixed>::gen(&Ones, 0));
    assert_eq!(Vec::<Fixed>::new(), RandomDistr::uniform().gen(0));
}

#[test]
fn uniform_keeps_its_bounds() {
    let dist = Uniform::new(raw(-3), raw(9));
    assert_eq!(raw(-3), dist.low());
    assert_eq!(raw(9), dist.high());

    let initializer = RandomDistr::uniform_with(raw(10), raw(20));
    assert_eq!(raw(10), initializer.dist().low());
    assert_eq!(raw(20), initializer.dist().high());

    let wrapped = RandomDistr::new(dist);
    assert_eq!(&dist, wrapped.dist());
}

#[test]
fn uniform_defaults_to_five_hundredths_either_way() {
    let initializer = RandomDistr::uniform();
    assert_eq!(raw(-50_000), initializer.dist().low());
    assert_eq!(raw(50_000), initializer.dist().high());
}

#[test]
fn uniform_samples_stay_in_the_range() {
    let dist = Uniform::new(raw(100), raw(1_100));
    let mut seen_above_low = false;
    for _ in 0..500 {
        let x = dist.sample();
        assert!(100 <= x.raw && x.raw < 1_100);
        if x.raw != 100 {
            seen_above_low = true;
        }
    }
    assert!(seen_above_low);
}

#[test]
fn uniform_over_one_value_is_that_value() {
    let dist = Uniform::new(raw(-7), raw(-6));
    for _ in 0..20 {
        assert_eq!(raw(-7), dist.sample());
    }
}

#[test]
fn random_initializer_draws_each_entry_from_the_range() {
    let initializer = RandomDistr::uniform();
    let values = initializer.gen(1_000);

    assert_eq!(1_000, values.len());
    assert!(values.iter().all(|x| -50_000 <= x.raw && x.raw < 50_000));
    assert!(values.iter().any(|x| *x != values[0]));
}

#[test]
fn random_initializer_reaches_the_ends_of_a_short_range() {
    let initializer = RandomDistr::uniform_with(raw(0), raw(2));
    let values = initializer.gen(400);

    assert!(values.iter().all(|x| x.raw == 0 || x.raw == 1));
    assert!(values.iter().any(|x| x.raw == 0));
    assert!(values.iter().any(|x| x.raw == 1));
}
