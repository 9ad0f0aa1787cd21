use attested_router::bytes128::McU128;
use attested_router::bytes128::RngSeed32;
use attested_router::rng::SeededRng;

#[test]
fn same_u64_seed_same_stream() {
    let mut a = SeededRng::from_u64_seed(42);
    let mut b = SeededRng::from_u64_seed(42);
    for _ in 0..8 {
        assert_eq!(a.next_u64(), b.next_u64());
    }
    let mut c = SeededRng::from_u64_seed(43);
    assert_ne!(a.next_u64(), {
        for _ in 0..8 {
            c.next_u64();
        }
        c.next_u64()
    });
}

#[test]
fn same_seed_bytes_same_stream() {
    let seed = RngSeed32::new([9u8; 32]);
    let mut a = SeededRng::from_seed(&seed);
    let mut b = SeededRng::from_seed(&RngSeed32::new([9u8; 32]));
    for _ in 0..4 {
        assert_eq!(a.next_u64(), b.next_u64());
    }
}

#[test]
fn word_pos_round_trips_through_bytes() {
    let mut rng = SeededRng::from_u64_seed(7);
    rng.set_word_pos(&McU128::from_u128(1234));
    assert_eq!(rng.word_pos().to_u128(), 1234);
    // Drawing advances the stream position.
    rng.next_u64();
    assert_ne!(rng.word_pos().to_u128(), 1234);
}

#[test]
fn word_pos_restores_stream() {
    let mut rng = SeededRng::from_u64_seed(99);
    let pos = rng.word_pos();
    let first = rng.next_u64();
    rng.next_u64();
    rng.set_word_pos(&pos);
    assert_eq!(rng.next_u64(), first);
}
