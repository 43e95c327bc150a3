use crafty::intrinsics::{
    nth_bit_set_32, nth_bit_set_32_scalar, nth_bit_set_64, nth_bit_set_64_scalar,
};

fn slow_nth(value: u64, n: u32, width: u32) -> u32 {
    let mut seen = 0;
    for i in 0..width {
        if (value >> i) & 1 == 1 {
            if seen == n {
                return i;
            }
            seen += 1;
        }
    }
    width
}

#[test]
fn nth_bit_of_a_small_word() {
    assert_eq!(nth_bit_set_64(0b1010, 0), 1);
    assert_eq!(nth_bit_set_64(0b1010, 1), 3);
    assert_eq!(nth_bit_set_32(0b1010, 0), 1);
    assert_eq!(nth_bit_set_32(0b1010, 1), 3);
}

#[test]
fn nth_bit_out_of_range_gives_the_width() {
    assert_eq!(nth_bit_set_64(0b1010, 2), 64);
    assert_eq!(nth_bit_set_64(0, 0), 64);
    assert_eq!(nth_bit_set_64(u64::MAX, 64), 64);
    assert_eq!(nth_bit_set_32(0b1010, 2), 32);
    assert_eq!(nth_bit_set_32(0, 0), 32);
    assert_eq!(nth_bit_set_32(u32::MAX, 32), 32);
    assert_eq!(nth_bit_set_64_scalar(0, 5), 64);
    assert_eq!(nth_bit_set_32_scalar(0, 5), 32);
}

#[test]
fn nth_bit_of_a_full_word_is_n() {
    for n in 0..64 {
        assert_eq!(nth_bit_set_64(u64::MAX, n), n);
        assert_eq!(nth_bit_set_64_scalar(u64::MAX, n), n);
    }
    for n in 0..32 {
        assert_eq!(nth_bit_set_32(u32::MAX, n), n);
        assert_eq!(nth_bit_set_32_scalar(u32::MAX, n), n);
    }
}

#[test]
fn nth_bit_finds_the_top_bit() {
    assert_eq!(nth_bit_set_64(1u64 << 63, 0), 63);
    assert_eq!(nth_bit_set_64((1u64 << 63) | 1, 1), 63);
    assert_eq!(nth_bit_set_32(1u32 << 31, 0), 31);
    assert_eq!(nth_bit_set_32((1u32 << 31) | 1, 1), 31);
}

#[test]
fn nth_bit_agrees_with_a_linear_scan() {
    let mut value: u64 = 0x9E37_79B9_7F4A_7C15;
    for _ in 0..200 {
        value = value.wrapping_mul(6364136223846793005).wrapping_add(1442695040888963407);
        let sparse = value & value.rotate_left(17) & value.rotate_left(41);
        for word in [value, sparse] {
            for n in 0..66 {
                assert_eq!(nth_bit_set_64(word, n), slow_nth(word, n, 64));
                assert_eq!(nth_bit_set_64_scalar(word, n), slow_nth(word, n, 64));
                let half = word as u32;
                assert_eq!(nth_bit_set_32(half, n), slow_nth(half as u64, n, 32));
                assert_eq!(nth_bit_set_32_scalar(half, n), slow_nth(half as u64, n, 32));
            }
        }
    }
}
