use libelinvar::hello;
use libelinvar::rng::Rng;

#[test]
fn test_hello() {
    assert_eq!("Elinvar", hello());
}

#[test]
fn test_roll() {
    let mut rng = Rng::new();
    let result = rng.generate();
    assert_eq!(4, result);
}
