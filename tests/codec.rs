use multi_harp_patina::codec::{encode_t2, encode_t3};
use multi_harp_patina::{
    photon_special, photon_to_arrival_t2, photon_to_arrival_t3, photon_to_channel,
    photon_to_sync_counter, SPECIAL,
};

#[test]
fn decodes_t2_fields() {
    let v: u32 = SPECIAL | (5u32 << 25) | 0x0012_3456;
    assert!(photon_special(v));
    assert_eq!(photon_to_channel(v), 5);
    assert_eq!(photon_to_arrival_t2(v), 0x0012_3456);
}

#[test]
fn decodes_t3_fields() {
    let v: u32 = (3u32 << 25) | (0x1abcu32 << 10) | 0x155;
    assert!(!photon_special(v));
    assert_eq!(photon_to_channel(v), 3);
    assert_eq!(photon_to_arrival_t3(v), 0x1abc);
    assert_eq!(photon_to_sync_counter(v), 0x155);
}

#[test]
fn decodes_extreme_words() {
    assert!(!photon_special(0));
    assert_eq!(photon_to_channel(0), 0);
    assert_eq!(photon_to_arrival_t2(0), 0);
    assert!(photon_special(u32::MAX));
    assert_eq!(photon_to_channel(u32::MAX), 63);
    assert_eq!(photon_to_arrival_t2(u32::MAX), 0x01ff_ffff);
    assert_eq!(photon_to_arrival_t3(u32::MAX), 0x7fff);
    assert_eq!(photon_to_sync_counter(u32::MAX), 0x3ff);
}

#[test]
fn encodes_exact_words() {
    assert_eq!(encode_t2(true, 63, 0x01ff_ffff), u32::MAX);
    assert_eq!(encode_t2(false, 1, 7), 0x0200_0007);
    assert_eq!(encode_t3(false, 2, 1, 1), 0x0400_0401);
    assert_eq!(encode_t3(true, 0, 0, 0), 0x8000_0000);
}

#[test]
fn round_trip_in_both_modes() {
    let mut v: u32 = 0x9e37_79b9;
    for _ in 0..10_000 {
        let t2 = encode_t2(photon_special(v), photon_to_channel(v), photon_to_arrival_t2(v));
        assert_eq!(t2, v);
        let t3 = encode_t3(
            photon_special(v),
            photon_to_channel(v),
            photon_to_arrival_t3(v),
            photon_to_sync_counter(v),
        );
        assert_eq!(t3, v);
        v = v.wrapping_mul(1_664_525).wrapping_add(1_013_904_223);
    }
}
