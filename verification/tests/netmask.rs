use tundev::netmask::{get_netmask_bit_count, to_bits};

fn contiguous(p: u32) -> [u8; 4] {
    let mask: u32 = if p == 0 { 0 } else { u32::MAX << (32 - p) };
    mask.to_be_bytes()
}

#[test]
fn to_bits_is_least_significant_first() {
    assert_eq!(to_bits(0), [0, 0, 0, 0, 0, 0, 0, 0]);
    assert_eq!(to_bits(255), [1, 1, 1, 1, 1, 1, 1, 1]);
    assert_eq!(to_bits(1), [1, 0, 0, 0, 0, 0, 0, 0]);
    assert_eq!(to_bits(128), [0, 0, 0, 0, 0, 0, 0, 1]);
    assert_eq!(to_bits(0b1010_0110), [0, 1, 1, 0, 0, 1, 0, 1]);
}

#[test]
fn to_bits_rebuilds_every_byte() {
    for v in 0..=255u8 {
        let bits = to_bits(v);
        let mut back: u32 = 0;
        for i in 0..8 {
            assert!(bits[i] <= 1);
            back += (bits[i] as u32) << i;
        }
        assert_eq!(back, v as u32);
    }
}

#[test]
fn contiguous_masks_give_their_prefix_length() {
    for p in 0..=32u32 {
        assert_eq!(get_netmask_bit_count(contiguous(p)) as u32, p);
    }
}

#[test]
fn common_masks() {
    assert_eq!(get_netmask_bit_count([0, 0, 0, 0]), 0);
    assert_eq!(get_netmask_bit_count([255, 0, 0, 0]), 8);
    assert_eq!(get_netmask_bit_count([255, 255, 0, 0]), 16);
    assert_eq!(get_netmask_bit_count([255, 255, 255, 0]), 24);
    assert_eq!(get_netmask_bit_count([255, 255, 255, 252]), 30);
    assert_eq!(get_netmask_bit_count([255, 255, 255, 255]), 32);
    assert_eq!(get_netmask_bit_count([255, 255, 240, 0]), 20);
    assert_eq!(get_netmask_bit_count([128, 0, 0, 0]), 1);
}

#[test]
fn non_contiguous_mask_truncates_at_first_zero_octet() {
    assert_eq!(get_netmask_bit_count([255, 0, 255, 0]), 8);
}

#[test]
fn bits_after_the_first_zero_are_ignored() {
    assert_eq!(get_netmask_bit_count([255, 255, 0, 255]), 16);
    assert_eq!(get_netmask_bit_count([254, 255, 255, 255]), 7);
    assert_eq!(get_netmask_bit_count([127, 255, 255, 255]), 0);
    assert_eq!(get_netmask_bit_count([0, 255, 255, 255]), 0);
    assert_eq!(get_netmask_bit_count([255, 255, 255, 253]), 30);
    assert_eq!(get_netmask_bit_count([255, 191, 255, 255]), 9);
}

#[test]
fn trailing_bits_do_not_change_the_result() {
    for p in 0..32u32 {
        let clean = contiguous(p);
        let mut dirty = clean;
        for k in (p + 1)..32 {
            dirty[(k / 8) as usize] |= 0x80u8 >> (k % 8);
        }
        assert_eq!(get_netmask_bit_count(dirty), get_netmask_bit_count(clean));
        assert_eq!(get_netmask_bit_count(dirty) as u32, p);
    }
}
