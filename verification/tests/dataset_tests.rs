use esp_openthread::dataset::{
    dataset_from_raw_dataset, dataset_to_raw, NetworkName, OperationalDataset, ThreadTimestamp,
};
use esp_openthread::security_policy::SecurityPolicy;

#[test]
fn sparse_presence_round_trips_exactly() {
    // Only channel and PAN id populated: reading back must report exactly
    // those two fields, not an "all present" artifact.
    let mut d = OperationalDataset::default();
    d.channel = Some(15);
    d.pan_id = Some(0x1234);

    let raw = dataset_to_raw(&d);
    assert!(raw.components.channel_present);
    assert!(raw.components.pan_id_present);
    assert!(!raw.components.active_timestamp_present);
    assert!(!raw.components.pending_timestamp_present);
    assert!(!raw.components.network_key_present);
    assert!(!raw.components.network_name_present);
    assert!(!raw.components.extended_pan_id_present);
    assert!(!raw.components.mesh_local_prefix_present);
    assert!(!raw.components.delay_present);
    assert!(!raw.components.pskc_present);
    assert!(!raw.components.security_policy_present);
    assert!(!raw.components.channel_mask_present);

    let back = dataset_from_raw_dataset(&raw);
    assert_eq!(back.channel, Some(15));
    assert_eq!(back.pan_id, Some(0x1234));
    assert_eq!(back.active_timestamp, None);
    assert_eq!(back.pending_timestamp, None);
    assert_eq!(back.network_key, None);
    assert_eq!(back.network_name, None);
    assert_eq!(back.extended_pan_id, None);
    assert_eq!(back.mesh_local_prefix, None);
    assert_eq!(back.delay, None);
    assert_eq!(back.pskc, None);
    assert_eq!(back.security_policy, None);
    assert_eq!(back.channel_mask, None);
}

#[test]
fn fully_populated_dataset_round_trips() {
    let name = NetworkName::from_bytes(b"OpenThread".to_vec()).unwrap();
    let policy = SecurityPolicy {
        rotation_time: 672,
        autonomous_enrollment_enabled: false,
        commercial_commissioning_enabled: false,
        external_commissioning_enabled: true,
        native_commissioning_enabled: true,
        network_key_provisioning_enabled: false,
        non_ccm_routers_enabled: false,
        obtain_network_key_enabled: true,
        routers_enabled: true,
        toble_link_enabled: false,
        version_threshold_for_routing: 0,
    };
    let d = OperationalDataset {
        active_timestamp: Some(ThreadTimestamp { seconds: 10, ticks: 3, authoritative: true }),
        pending_timestamp: Some(ThreadTimestamp { seconds: 20, ticks: 1, authoritative: false }),
        network_key: Some([0xAB; 16]),
        network_name: Some(name.clone()),
        extended_pan_id: Some([1, 2, 3, 4, 5, 6, 7, 8]),
        mesh_local_prefix: Some([0xFD, 0, 0, 0xDB, 8, 0xA0, 0, 0]),
        delay: Some(30_000),
        pan_id: Some(0x1234),
        channel: Some(15),
        pskc: Some([0xCD; 16]),
        security_policy: Some(policy.clone()),
        channel_mask: Some(0x07FF_F800),
    };
    let raw = dataset_to_raw(&d);
    // The pending timestamp goes to its own slot, not the active one.
    assert_eq!(raw.active_timestamp.seconds, 10);
    assert_eq!(raw.pending_timestamp.seconds, 20);
    let back = dataset_from_raw_dataset(&raw);
    assert_eq!(back, d);
}

#[test]
fn absent_fields_leave_no_stale_bytes() {
    let d = OperationalDataset::default();
    let raw = dataset_to_raw(&d);
    assert_eq!(raw.network_key, [0u8; 16]);
    assert_eq!(raw.network_name, [0u8; 17]);
    assert_eq!(raw.extended_pan_id, [0u8; 8]);
    assert_eq!(raw.mesh_local_prefix, [0u8; 8]);
    assert_eq!(raw.pskc, [0u8; 16]);
    assert_eq!(raw.delay, 0);
    assert_eq!(raw.pan_id, 0);
    assert_eq!(raw.channel, 0);
    assert_eq!(raw.channel_mask, 0);
    assert_eq!(raw.security_policy.rotation_time, 0);
    assert_eq!(raw.security_policy.flag_bits, 0);
    assert_eq!(raw.active_timestamp.seconds, 0);
    assert_eq!(raw.pending_timestamp.seconds, 0);
}

#[test]
fn network_name_marshals_zero_terminated() {
    let mut d = OperationalDataset::default();
    d.network_name = Some(NetworkName::from_bytes(b"abc".to_vec()).unwrap());
    let raw = dataset_to_raw(&d);
    let mut expected = [0u8; 17];
    expected[..3].copy_from_slice(b"abc");
    assert_eq!(raw.network_name, expected);
    let back = dataset_from_raw_dataset(&raw);
    assert_eq!(back.network_name.unwrap().as_bytes().as_slice(), b"abc");
}

#[test]
fn network_name_of_sixteen_bytes_round_trips() {
    let mut d = OperationalDataset::default();
    d.network_name = Some(NetworkName::from_bytes(b"0123456789abcdef".to_vec()).unwrap());
    let raw = dataset_to_raw(&d);
    assert_eq!(raw.network_name[16], 0, "terminator byte must stay zero");
    let back = dataset_from_raw_dataset(&raw);
    assert_eq!(back.network_name.unwrap().as_bytes().as_slice(), b"0123456789abcdef");
}

#[test]
fn network_name_longer_than_bound_is_rejected() {
    assert!(NetworkName::from_bytes(b"0123456789abcdefg".to_vec()).is_none());
    assert!(NetworkName::from_bytes(b"0123456789abcdef".to_vec()).is_some());
}

#[test]
fn name_with_embedded_zero_is_truncated_on_read() {
    let mut d = OperationalDataset::default();
    d.network_name = Some(NetworkName::from_bytes(b"ab\0cd".to_vec()).unwrap());
    let raw = dataset_to_raw(&d);
    let back = dataset_from_raw_dataset(&raw);
    assert_eq!(back.network_name.unwrap().as_bytes().as_slice(), b"ab");
}
