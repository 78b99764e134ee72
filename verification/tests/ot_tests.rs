use esp_openthread::checked;
use esp_openthread::dataset::OperationalDataset;
use esp_openthread::flags::{THREAD_NETWORK_DATA_CHANGED, THREAD_ROLE_CHANGED};
use esp_openthread::net::RawUnicastAddress;
use esp_openthread::ot::OpenThread;
use esp_openthread::radio::{rssi_to_lqi, RawReceivedFrame};
use esp_openthread::registry::NetworkSettings;
use esp_openthread::role::ThreadDeviceRole;
use esp_openthread::Error;

type Ot = OpenThread<u32, u32>;

#[test]
fn checked_maps_statuses() {
    assert_eq!(checked(0), Ok(()));
    assert_eq!(checked(1), Err(Error::InternalError(1)));
    assert_eq!(checked(0xDEAD), Err(Error::InternalError(0xDEAD)));
}

#[test]
fn idle_process_is_a_no_op() {
    let ot: Ot = OpenThread::new(1);
    let plan = ot.process(false, &Vec::new(), 123);
    assert!(!plan.run_timers);
    assert!(plan.frames.is_empty());
}

#[test]
fn process_runs_timers_before_frames_and_converts_each() {
    let ot: Ot = OpenThread::new(1);
    // Length prefix 3: payload bytes 0x11 0xD8 0x33; the trailing byte at
    // index len - 1 (0xD8 = -40 dBm) is the RSSI.
    let frame = RawReceivedFrame { data: vec![3, 0x11, 0xD8, 0x33], channel: 15 };
    let plan = ot.process(true, &vec![frame], 5);
    assert!(plan.run_timers);
    assert_eq!(plan.frames.len(), 1);
    let f = &plan.frames[0];
    assert_eq!(f.psdu, vec![0x11, 0xD8, 0x33]);
    assert_eq!(f.channel, 15);
    assert_eq!(f.radio_type, 1);
    assert_eq!(f.rssi, -40);
    assert_eq!(f.lqi, rssi_to_lqi(-40));
    assert_eq!(f.timestamp, 5000);
}

#[test]
fn rssi_to_lqi_exact_values() {
    assert_eq!(rssi_to_lqi(-90), 0);
    assert_eq!(rssi_to_lqi(-81), 0);
    assert_eq!(rssi_to_lqi(-80), 0);
    assert_eq!(rssi_to_lqi(-55), 127);
    assert_eq!(rssi_to_lqi(-40), 204);
    assert_eq!(rssi_to_lqi(-30), 255);
    assert_eq!(rssi_to_lqi(-29), 255);
    assert_eq!(rssi_to_lqi(0), 255);
}

#[test]
fn run_tasklets_follows_the_pending_flag() {
    let ot: Ot = OpenThread::new(1);
    assert!(ot.run_tasklets(true));
    assert!(!ot.run_tasklets(false));
}

#[test]
fn role_codes_decode_exactly() {
    let ot: Ot = OpenThread::new(1);
    assert_eq!(ot.get_role(0), Some(ThreadDeviceRole::Detached));
    assert_eq!(ot.get_role(1), Some(ThreadDeviceRole::Disabled));
    assert_eq!(ot.get_role(2), Some(ThreadDeviceRole::Child));
    assert_eq!(ot.get_role(3), Some(ThreadDeviceRole::Router));
    assert_eq!(ot.get_role(4), Some(ThreadDeviceRole::Leader));
    assert_eq!(ot.get_role(5), None);
    assert_eq!(ThreadDeviceRole::from_u32(4), Some(ThreadDeviceRole::Leader));
}

#[test]
fn role_to_string() {
    let ot: Ot = OpenThread::new(1);
    assert_eq!(ot.device_role_to_string(ThreadDeviceRole::Leader), "leader");
    assert_eq!(ot.device_role_to_string(ThreadDeviceRole::Child), "child");
    assert_eq!(ot.device_role_to_string(ThreadDeviceRole::Router), "router");
    assert_eq!(ot.device_role_to_string(ThreadDeviceRole::Detached), "detached");
    assert_eq!(ot.device_role_to_string(ThreadDeviceRole::Disabled), "disabled");
}

#[test]
fn change_callback_fires_once_with_exactly_the_given_flags() {
    let mut ot: Ot = OpenThread::new(1);
    ot.set_change_callback(Some(99));
    let bits = THREAD_ROLE_CHANGED | THREAD_NETWORK_DATA_CHANGED;
    let mut invocations = 0;
    if let Some(f) = ot.registry.change_callback(bits) {
        invocations += 1;
        assert_eq!(f.bits(), bits);
    }
    assert_eq!(invocations, 1);
}

#[test]
fn change_callback_without_registration_or_with_bad_bits_stays_silent() {
    let mut ot: Ot = OpenThread::new(1);
    assert!(ot.registry.change_callback(THREAD_ROLE_CHANGED).is_none());
    ot.set_change_callback(Some(5));
    assert!(ot.registry.change_callback(0x8000_0000).is_none());
    ot.set_change_callback(None);
    assert!(ot.registry.change_callback(THREAD_ROLE_CHANGED).is_none());
}

#[test]
fn callback_registration_replaces_the_previous_one() {
    let mut ot: Ot = OpenThread::new(1);
    ot.set_change_callback(Some(5));
    ot.set_change_callback(Some(6));
    assert_eq!(ot.registry.take_change_callback(), Some(6));
    assert_eq!(ot.registry.take_change_callback(), None);
}

#[test]
fn settings_default_until_set() {
    let mut ot: Ot = OpenThread::new(1);
    assert_eq!(ot.registry.get_settings(), NetworkSettings::default());
    let s = NetworkSettings {
        promiscuous: true,
        ext_address: 0x1122_3344_5566_7788,
        short_address: 0xABCD,
        pan_id: 0x1234,
        channel: 15,
    };
    ot.registry.set_settings(s);
    assert_eq!(ot.registry.get_settings(), s);
}

#[test]
fn with_radio_runs_against_the_registered_handle() {
    let mut ot: Ot = OpenThread::new(10);
    let doubled = ot.registry.with_radio(|r: u32| (r + 1, r * 2));
    assert_eq!(doubled, Some(20));
    // The handle handed back by the closure stays registered.
    let seen = ot.registry.with_radio(|r: u32| (r, r));
    assert_eq!(seen, Some(11));
    ot.teardown();
    assert_eq!(ot.registry.with_radio(|r: u32| (r, r)), None);
}

#[test]
fn dataset_submission_statuses_surface_verbatim() {
    let ot: Ot = OpenThread::new(1);
    let mut d = OperationalDataset::default();
    d.channel = Some(15);
    let raw = ot.set_active_dataset(&d);
    assert!(raw.components.channel_present);
    assert_eq!(ot.get_active_dataset(&raw, 23), Err(Error::InternalError(23)));
    let back = ot.get_active_dataset(&raw, 0).unwrap();
    assert_eq!(back.channel, Some(15));
    assert_eq!(back.pan_id, None);
}

#[test]
fn unicast_addresses_convert_and_respect_capacity() {
    let ot: Ot = OpenThread::new(1);
    let a = RawUnicastAddress {
        address: [0xFE, 0x80, 0, 0, 0, 0, 0, 0, 0, 0, 0, 0, 0, 0, 0, 1],
        prefix: 64,
        origin: 2,
    };
    let b = RawUnicastAddress { address: [0xFD; 16], prefix: 48, origin: 1 };
    let both = ot.ipv6_get_unicast_addresses::<4>(&vec![a, b]);
    assert_eq!(both.len(), 2);
    assert_eq!(both[0].address.octets(), a.address);
    assert_eq!(both[0].prefix, 64);
    assert_eq!(both[0].origin, 2);
    assert_eq!(both[1].address.octets(), b.address);
    let capped = ot.ipv6_get_unicast_addresses::<1>(&vec![a, b]);
    assert_eq!(capped.len(), 1);
    assert_eq!(capped[0].prefix, 64);
}

#[test]
fn enable_toggles_surface_statuses() {
    let ot: Ot = OpenThread::new(1);
    assert_eq!(ot.ipv6_set_enabled(0), Ok(()));
    assert_eq!(ot.ipv6_set_enabled(8), Err(Error::InternalError(8)));
    assert_eq!(ot.thread_set_enabled(0), Ok(()));
    assert_eq!(ot.thread_set_enabled(4), Err(Error::InternalError(4)));
}

#[test]
fn teardown_clears_every_slot() {
    let mut ot: Ot = OpenThread::new(1);
    ot.registry.set_settings(NetworkSettings::default());
    ot.set_change_callback(Some(1));
    ot.teardown();
    assert!(!ot.registry.has_change_callback());
    assert_eq!(ot.registry.get_settings(), NetworkSettings::default());
    assert_eq!(ot.registry.with_radio(|r: u32| (r, ())), None);
}
