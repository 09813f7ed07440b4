use cjk_search::generate_uuid;

#[test]
fn uuid_pads_both_fields_with_zeros() {
    assert_eq!(generate_uuid(0x1234, 7), "0000000000001234-00000007");
}

#[test]
fn uuid_of_zero_is_all_zeros() {
    assert_eq!(generate_uuid(0, 0), "0000000000000000-00000000");
}

#[test]
fn uuid_uses_lower_case_digits() {
    assert_eq!(generate_uuid(0xABCDEF, 0xFEDCBA98), "0000000000abcdef-fedcba98");
}

#[test]
fn uuid_grows_beyond_the_minimum_widths() {
    assert_eq!(
        generate_uuid(u128::MAX, u64::MAX),
        "ffffffffffffffffffffffffffffffff-ffffffffffffffff"
    );
    assert_eq!(generate_uuid(1u128 << 64, 1u64 << 32), "10000000000000000-100000000");
}

#[test]
fn uuid_at_the_width_boundaries() {
    assert_eq!(generate_uuid(0xffff_ffff_ffff_ffff, 0xffff_ffff), "ffffffffffffffff-ffffffff");
    assert_eq!(generate_uuid(15, 16), "000000000000000f-00000010");
}

#[test]
fn uuid_agrees_with_hexadecimal_formatting() {
    let timestamps: [u128; 5] = [1, 255, 1_700_000_000_000_000, 1u128 << 70, 0x0123_4567_89ab_cdef];
    let counters: [u64; 5] = [0, 9, 4_294_967_295, 4_294_967_296, 0xdead_beef_0000];
    for timestamp in timestamps {
        for counter in counters {
            assert_eq!(
                generate_uuid(timestamp, counter),
                format!("{:016x}-{:08x}", timestamp, counter)
            );
        }
    }
}

#[test]
fn uuid_differs_for_different_counters() {
    let timestamp = 1_700_000_000_000_000u128;
    assert_ne!(generate_uuid(timestamp, 1), generate_uuid(timestamp, 2));
    assert_ne!(generate_uuid(timestamp, 0), generate_uuid(timestamp, 0x1_0000_0000));
    assert_ne!(generate_uuid(1, 2), generate_uuid(2, 1));
}

#[test]
fn uuid_has_one_hyphen_after_the_timestamp() {
    let id = generate_uuid(0x1_0000_0000_0000_0000, 3);
    assert_eq!(id.matches('-').count(), 1);
    assert_eq!(id.find('-'), Some(17));
}
