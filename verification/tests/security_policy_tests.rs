use esp_openthread::security_policy::{
    pack_security_policy, unpack_security_policy, SecurityPolicy,
};

fn policies_equal(a: &SecurityPolicy, b: &SecurityPolicy) -> bool {
    a == b
}

#[test]
fn each_flag_lands_in_its_own_bit() {
    // (set one flag, expected packed word) in the engine's declaration order.
    let cases: [(fn(&mut SecurityPolicy), u16); 9] = [
        (|p| p.obtain_network_key_enabled = true, 0x1),
        (|p| p.native_commissioning_enabled = true, 0x2),
        (|p| p.routers_enabled = true, 0x4),
        (|p| p.external_commissioning_enabled = true, 0x8),
        (|p| p.commercial_commissioning_enabled = true, 0x10),
        (|p| p.autonomous_enrollment_enabled = true, 0x20),
        (|p| p.network_key_provisioning_enabled = true, 0x40),
        (|p| p.toble_link_enabled = true, 0x80),
        (|p| p.non_ccm_routers_enabled = true, 0x100),
    ];
    for (set, expected_bits) in cases {
        let mut p = SecurityPolicy::default();
        set(&mut p);
        let raw = pack_security_policy(&p);
        assert_eq!(raw.flag_bits, expected_bits);
        let q = unpack_security_policy(&raw);
        assert!(policies_equal(&p, &q), "flag with bit {expected_bits:#x} did not round-trip");
    }
}

#[test]
fn all_flags_round_trip_together() {
    let p = SecurityPolicy {
        rotation_time: 672,
        autonomous_enrollment_enabled: true,
        commercial_commissioning_enabled: true,
        external_commissioning_enabled: true,
        native_commissioning_enabled: true,
        network_key_provisioning_enabled: true,
        non_ccm_routers_enabled: true,
        obtain_network_key_enabled: true,
        routers_enabled: true,
        toble_link_enabled: true,
        version_threshold_for_routing: 5,
    };
    let raw = pack_security_policy(&p);
    assert_eq!(raw.rotation_time, 672);
    assert_eq!(raw.flag_bits, 0x1FF | (5 << 9));
    let q = unpack_security_policy(&raw);
    assert!(policies_equal(&p, &q));
}

#[test]
fn version_threshold_occupies_bits_nine_to_eleven() {
    let mut p = SecurityPolicy::default();
    p.version_threshold_for_routing = 7;
    let raw = pack_security_policy(&p);
    assert_eq!(raw.flag_bits, 7 << 9);
    assert_eq!(unpack_security_policy(&raw).version_threshold_for_routing, 7);
}

#[test]
fn version_threshold_truncates_to_three_bits() {
    let mut p = SecurityPolicy::default();
    p.version_threshold_for_routing = 9;
    let raw = pack_security_policy(&p);
    assert_eq!(raw.flag_bits, 1 << 9);
    assert_eq!(unpack_security_policy(&raw).version_threshold_for_routing, 1);
}

#[test]
fn rotation_time_passes_through() {
    let mut p = SecurityPolicy::default();
    p.rotation_time = 0xBEEF;
    let raw = pack_security_policy(&p);
    assert_eq!(raw.rotation_time, 0xBEEF);
    assert_eq!(raw.flag_bits, 0);
    assert_eq!(unpack_security_policy(&raw).rotation_time, 0xBEEF);
}
