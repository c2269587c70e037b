use stm32::bits::{get_bit, get_range, set_bit, set_range};

#[test]
fn get_range_reads_a_field() {
    assert_eq!(get_range(0x0000_0c00, 10, 12), 3);
    assert_eq!(get_range(0xdead_beef, 4, 12), 0xee);
    assert_eq!(get_range(0xdead_beef, 0, 32), 0xdead_beef);
    assert_eq!(get_range(0xdead_beef, 28, 32), 0xd);
}

#[test]
fn get_range_of_an_empty_range_is_zero() {
    assert_eq!(get_range(0xffff_ffff, 7, 7), 0);
    assert_eq!(get_range(0xffff_ffff, 32, 32), 0);
}

#[test]
fn set_range_writes_a_field() {
    assert_eq!(set_range(0, 10, 12, 0b01), 0x0000_0400);
    assert_eq!(set_range(0xffff_ffff, 4, 8, 0), 0xffff_ff0f);
    assert_eq!(set_range(0x1234_5678, 0, 32, 0xcafe_f00d), 0xcafe_f00d);
    assert_eq!(set_range(0x1234_5678, 28, 32, 0xa), 0xa234_5678);
}

#[test]
fn set_range_of_an_empty_range_keeps_the_word() {
    assert_eq!(set_range(0x1234_5678, 9, 9, 0), 0x1234_5678);
}

#[test]
fn set_range_then_get_range_round_trips() {
    let words = [0u32, 0xffff_ffff, 0xa5a5_5a5a, 0x1357_9bdf];
    for &word in words.iter() {
        for low in 0u32..32 {
            for high in (low + 1)..=32 {
                let width = high - low;
                let max = if width == 32 { u32::MAX } else { (1u32 << width) - 1 };
                for &value in [0, 1, max / 3, max].iter() {
                    let new = set_range(word, low, high, value);
                    assert_eq!(get_range(new, low, high), value);
                    let field = if width == 32 { u32::MAX } else { max << low };
                    assert_eq!(new & !field, word & !field);
                }
            }
        }
    }
}

#[test]
fn get_bit_and_set_bit() {
    assert!(get_bit(0x8000_0000, 31));
    assert!(!get_bit(0x8000_0000, 30));
    assert_eq!(set_bit(0, 31, true), 0x8000_0000);
    assert_eq!(set_bit(0xffff_ffff, 0, false), 0xffff_fffe);
    assert_eq!(set_bit(0x10, 4, true), 0x10);
}
