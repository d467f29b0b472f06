use libafl::inputs::BytesInput;
use libafl::rand::{Rand, StdRand, XKCDRand};

#[test]
fn test_input() {
    let mut rand = StdRand::with_seed(0);
    assert_ne!(rand.next(), rand.next());
    assert!(rand.below(100) < 100);
    assert_eq!(rand.below(1), 0);
    assert_eq!(rand.between(10, 10), 10);
    assert!(rand.between(11, 20) > 10);
}

#[test]
fn std_rand_same_seed_same_sequence() {
    let mut a = StdRand::with_seed(42);
    let mut b = StdRand::with_seed(42);
    for _ in 0..100 {
        assert_eq!(a.next(), b.next());
    }
    let mut c = StdRand::with_seed(43);
    let mut d = StdRand::with_seed(42);
    assert_ne!(c.next(), d.next());
}

#[test]
fn std_rand_first_output_of_seed_zero() {
    // SplitMix64's first output for state 0.
    let mut r = StdRand::with_seed(0);
    assert_eq!(r.next(), 0xe220a8397b1dcdaf);
}

#[test]
fn xkcd_rand_is_constant() {
    let mut r = XKCDRand::with_seed(5);
    assert_eq!(r.next(), 5);
    assert_eq!(r.next(), 5);
    r.set_seed(7);
    assert_eq!(r.next(), 7);
}

#[test]
fn bytes_input_basics() {
    let mut i = BytesInput::new(vec![1, 2, 3]);
    assert_eq!(i.len(), 3);
    assert_eq!(i.bytes(), &[1, 2, 3]);
    i.set_byte(1, 9);
    assert_eq!(i.target_bytes(), &[1, 9, 3]);
    i.bytes_mut().push(4);
    assert_eq!(i.to_vec(), vec![1, 9, 3, 4]);
    let j: BytesInput = vec![1, 9, 3, 4].into();
    assert_eq!(i, j);
    assert_ne!(i, BytesInput::new(vec![1, 9, 3]));
}
