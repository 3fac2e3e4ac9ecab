use windoge_pow::hash::{has_leading_zeros, hash_chunks, join, leading_zeros};

#[test]
fn hash_of_one_chunk() {
    let chunks = vec![b"abc".to_vec()];
    assert_eq!(hash_chunks(&chunks), 0xf670e279871f3ae97270d92a69eaa3b2u128);
}

#[test]
fn hash_of_two_chunks_differs_from_their_concatenation() {
    let split = vec![b"ab".to_vec(), b"c".to_vec()];
    let whole = vec![b"abc".to_vec()];
    assert_eq!(hash_chunks(&split), 0x1591bba359cc486518472a6911d04e57u128);
    assert_ne!(hash_chunks(&split), hash_chunks(&whole));
}

#[test]
fn hash_is_the_same_for_the_same_chunks() {
    let a = vec![vec![1u8, 2, 3], vec![4u8; 40]];
    let b = vec![vec![1u8, 2, 3], vec![4u8; 40]];
    assert_eq!(hash_chunks(&a), hash_chunks(&b));
}

#[test]
fn join_puts_the_high_half_on_top() {
    assert_eq!(join(0, 0), 0);
    assert_eq!(join(1, 0), 1u128 << 64);
    assert_eq!(join(0, 5), 5);
    assert_eq!(join(u64::MAX, u64::MAX), u128::MAX);
    assert_eq!(join(0x0123, 0x4567), (0x0123u128 << 64) | 0x4567);
}

#[test]
fn leading_zeros_of_small_values() {
    assert_eq!(leading_zeros(0), 128);
    assert_eq!(leading_zeros(1), 127);
    assert_eq!(leading_zeros(u128::MAX), 0);
    assert_eq!(leading_zeros(1u128 << 64), 63);
    assert_eq!(leading_zeros((1u128 << 64) - 1), 64);
    assert_eq!(leading_zeros(1u128 << 127), 0);
}

#[test]
fn leading_zeros_agree_with_the_machine() {
    let mut x: u128 = 1;
    for _ in 0..128 {
        assert_eq!(leading_zeros(x), x.leading_zeros());
        assert_eq!(leading_zeros(x | 1), (x | 1).leading_zeros());
        x = x.wrapping_mul(3).wrapping_add(0x9e3779b97f4a7c15);
    }
}

#[test]
fn difficulty_is_met_by_enough_leading_zeros() {
    assert!(has_leading_zeros(0, 128));
    assert!(!has_leading_zeros(0, 129));
    assert!(has_leading_zeros(u128::MAX, 0));
    assert!(!has_leading_zeros(u128::MAX, 1));
    assert!(has_leading_zeros(1u128 << 100, 27));
    assert!(!has_leading_zeros(1u128 << 100, 28));
}
