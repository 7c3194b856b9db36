use crosvm_plugin::rand_ish::{
    uniform_sample_ascii_alphanumeric, urandom_str, SimpleRng, UrandomStr,
};
use std::collections::hash_map::RandomState;
use std::hash::{BuildHasher, Hasher};

/// A byte that no two runs agree on.
fn random_byte() -> u8 {
    RandomState::new().build_hasher().finish() as u8
}

fn random_reads() -> Vec<Result<u8, i32>> {
    (0..1000).map(|_| Ok(random_byte())).collect()
}

fn reads(bytes: &[u8]) -> Vec<Result<u8, i32>> {
    bytes.iter().map(|b| Ok(*b)).collect()
}

#[test]
fn check_100() {
    for i in 0..100 {
        let s = urandom_str(i, random_reads()).unwrap();
        assert_eq!(s.len(), i);
        assert!(s.is_ascii());
        assert!(!s.contains(' '));
        assert!(!s.contains(|c: char| !c.is_ascii_alphanumeric()));
    }
}

#[test]
fn samples_every_character_four_times() {
    let alphabet = "ABCDEFGHIJKLMNOPQRSTUVWXYZabcdefghijklmnopqrstuvwxyz0123456789";
    for c in alphabet.chars() {
        let n = (0..=255u8).filter(|b| uniform_sample_ascii_alphanumeric(*b) == Some(c)).count();
        assert_eq!(n, 4);
    }
    assert_eq!(uniform_sample_ascii_alphanumeric(0), Some('A'));
    assert_eq!(uniform_sample_ascii_alphanumeric(61), Some('9'));
    assert_eq!(uniform_sample_ascii_alphanumeric(62), Some('A'));
    assert_eq!(uniform_sample_ascii_alphanumeric(247), Some('9'));
    assert_eq!(uniform_sample_ascii_alphanumeric(248), None);
    assert_eq!(uniform_sample_ascii_alphanumeric(255), None);
}

#[test]
fn draws_are_reproducible() {
    let mut rng = SimpleRng::new(0);
    assert_eq!(rng.rng(), 1442695040888963407);
    assert_eq!(rng.rng(), 1876011003808476466);
    assert_eq!(rng.next(), Some(11166244414315200793));
}

#[test]
fn text_is_reproducible() {
    assert_eq!(SimpleRng::new(0).str(20), "RyZ45GfsdaniwpShCtED");
    assert_eq!(SimpleRng::new(42).str(10), "1uNC3mzS7Y");
    assert_eq!(SimpleRng::new(42).str(200).len(), 200);
}

#[test]
fn no_text_takes_no_draw() {
    let mut rng = SimpleRng::new(7);
    assert_eq!(rng.str(0), "");
    assert_eq!(rng.rng(), SimpleRng::new(7).rng());
}

#[test]
fn a_rejected_draw_is_followed_by_an_accepted_one() {
    // The first draw from this state ends in a byte that samples nothing.
    let mut rng = SimpleRng::new(38);
    assert_eq!(uniform_sample_ascii_alphanumeric(rng.rng() as u8), None);
    assert_eq!(uniform_sample_ascii_alphanumeric(rng.rng() as u8), Some('O'));
    assert_eq!(SimpleRng::new(38).str(1), "O");
}

#[test]
fn text_is_what_the_draws_sample() {
    let mut rng = SimpleRng::new(5);
    let bytes: Vec<u8> = (0..60).map(|_| rng.rng() as u8).collect();
    assert_eq!(urandom_str(30, reads(&bytes)), Ok(SimpleRng::new(5).str(30)));
}

#[test]
fn texts_in_a_row_are_one_text() {
    let mut rng = SimpleRng::new(3);
    let both = rng.str(5) + &rng.str(9);
    assert_eq!(SimpleRng::new(3).str(14), both);
}

#[test]
fn different_states_draw_different_numbers() {
    let mut drawn: Vec<u64> = (0..1000).map(|s| SimpleRng::new(s).rng()).collect();
    drawn.sort();
    drawn.dedup();
    assert_eq!(drawn.len(), 1000);
}

#[test]
fn sampling_skips_unusable_bytes_and_stops_when_complete() {
    assert_eq!(urandom_str(3, reads(&[0, 250, 1, 255, 2, 3])), Ok("ABC".to_string()));
    assert_eq!(urandom_str(3, reads(&[0, 250])), Ok("A".to_string()));
    assert_eq!(urandom_str(0, reads(&[0])), Ok(String::new()));
}

#[test]
fn a_read_error_counts_only_before_the_text_is_complete() {
    assert_eq!(urandom_str(2, vec![Ok(0), Err(5), Ok(1)]), Err(5));
    assert_eq!(urandom_str(2, vec![Ok(0), Ok(1), Err(5)]), Ok("AB".to_string()));
    assert_eq!(urandom_str(0, vec![Err(5)]), Ok(String::new()));
}

#[test]
fn text_grows_byte_by_byte() {
    let mut text = UrandomStr::start(2);
    assert!(!text.is_complete());
    text.read(26);
    text.read(248);
    assert!(!text.is_complete());
    text.read(52);
    assert!(text.is_complete());
    text.read(0);
    assert_eq!(text.into_string(), "a0");
}
