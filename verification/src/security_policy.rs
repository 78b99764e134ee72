//! The security policy of an operational dataset, and its packing into the
//! engine's bit-field layout: a 16-bit rotation time followed by nine
//! single-bit enable flags and a 3-bit version threshold, in a fixed order.
//! A one-bit misalignment would silently corrupt an unrelated flag, so the
//! bit positions are stated, verified and tested explicitly.

use vstd::prelude::*;

verus! {

/// Security policy of a Thread network.
#[derive(Debug, Clone, Copy, PartialEq, Eq, Structural, Default)]
pub struct SecurityPolicy {
    /// The value for thrKeyRotation in units of hours.
    pub rotation_time: u16,
    /// Autonomous Enrollment is enabled.
    pub autonomous_enrollment_enabled: bool,
    /// Commercial Commissioning is enabled.
    pub commercial_commissioning_enabled: bool,
    /// External Commissioner authentication is allowed.
    pub external_commissioning_enabled: bool,
    /// Native Commissioning using PSKc is allowed.
    pub native_commissioning_enabled: bool,
    /// Network Key Provisioning is enabled.
    pub network_key_provisioning_enabled: bool,
    /// Non-CCM Routers enabled.
    pub non_ccm_routers_enabled: bool,
    /// Obtaining the Network Key for out-of-band commissioning is enabled.
    pub obtain_network_key_enabled: bool,
    /// Thread 1.0/1.1.x Routers are enabled.
    pub routers_enabled: bool,
    /// ToBLE link is enabled.
    pub toble_link_enabled: bool,
    /// Version-threshold for Routing (a 3-bit field in the native layout).
    pub version_threshold_for_routing: u8,
}

/// The engine's fixed layout of a security policy: the rotation time, and the
/// flag bits packed least-significant-bit first in the engine's declaration
/// order — bit 0 obtain-network-key, bit 1 native commissioning, bit 2
/// routers, bit 3 external commissioning, bit 4 commercial commissioning,
/// bit 5 autonomous enrollment, bit 6 network-key provisioning, bit 7 ToBLE
/// link, bit 8 non-CCM routers, bits 9..=11 the version threshold.
#[derive(Debug, Clone, Copy, PartialEq, Eq, Structural, Default)]
pub struct RawSecurityPolicy {
    pub rotation_time: u16,
    pub flag_bits: u16,
}

/// The packed flag word of a security policy, bit by bit.
pub open spec fn spec_policy_flag_bits(p: SecurityPolicy) -> u16 {
    (if p.obtain_network_key_enabled { 0x1u16 } else { 0u16 })
    | (if p.native_commissioning_enabled { 0x2u16 } else { 0u16 })
    | (if p.routers_enabled { 0x4u16 } else { 0u16 })
    | (if p.external_commissioning_enabled { 0x8u16 } else { 0u16 })
    | (if p.commercial_commissioning_enabled { 0x10u16 } else { 0u16 })
    | (if p.autonomous_enrollment_enabled { 0x20u16 } else { 0u16 })
    | (if p.network_key_provisioning_enabled { 0x40u16 } else { 0u16 })
    | (if p.toble_link_enabled { 0x80u16 } else { 0u16 })
    | (if p.non_ccm_routers_enabled { 0x100u16 } else { 0u16 })
    | (((p.version_threshold_for_routing & 7) as u16) << 9u16)
}

/// The policy a packed flag word and a rotation time stand for.
pub open spec fn spec_unpack_policy(raw: RawSecurityPolicy) -> SecurityPolicy {
    SecurityPolicy {
        rotation_time: raw.rotation_time,
        obtain_network_key_enabled: raw.flag_bits & 0x1u16 != 0,
        native_commissioning_enabled: raw.flag_bits & 0x2u16 != 0,
        routers_enabled: raw.flag_bits & 0x4u16 != 0,
        external_commissioning_enabled: raw.flag_bits & 0x8u16 != 0,
        commercial_commissioning_enabled: raw.flag_bits & 0x10u16 != 0,
        autonomous_enrollment_enabled: raw.flag_bits & 0x20u16 != 0,
        network_key_provisioning_enabled: raw.flag_bits & 0x40u16 != 0,
        toble_link_enabled: raw.flag_bits & 0x80u16 != 0,
        non_ccm_routers_enabled: raw.flag_bits & 0x100u16 != 0,
        version_threshold_for_routing: ((raw.flag_bits >> 9u16) & 7u16) as u8,
    }
}

/// Packs a security policy into the engine's fixed bit-field layout.  The
/// version threshold is truncated to its 3-bit slot, as the native layout
/// does.
pub fn pack_security_policy(p: &SecurityPolicy) -> (raw: RawSecurityPolicy)
    ensures
        raw.rotation_time == p.rotation_time,
        raw.flag_bits == spec_policy_flag_bits(*p),
{
    let flag_bits: u16 = (if p.obtain_network_key_enabled { 0x1u16 } else { 0u16 })
        | (if p.native_commissioning_enabled { 0x2u16 } else { 0u16 })
        | (if p.routers_enabled { 0x4u16 } else { 0u16 })
        | (if p.external_commissioning_enabled { 0x8u16 } else { 0u16 })
        | (if p.commercial_commissioning_enabled { 0x10u16 } else { 0u16 })
        | (if p.autonomous_enrollment_enabled { 0x20u16 } else { 0u16 })
        | (if p.network_key_provisioning_enabled { 0x40u16 } else { 0u16 })
        | (if p.toble_link_enabled { 0x80u16 } else { 0u16 })
        | (if p.non_ccm_routers_enabled { 0x100u16 } else { 0u16 })
        | (((p.version_threshold_for_routing & 7) as u16) << 9u16);
    RawSecurityPolicy { rotation_time: p.rotation_time, flag_bits }
}

/// Unpacks the engine's fixed bit-field layout into a security policy.
pub fn unpack_security_policy(raw: &RawSecurityPolicy) -> (p: SecurityPolicy)
    ensures
        p == spec_unpack_policy(*raw),
{
    SecurityPolicy {
        rotation_time: raw.rotation_time,
        obtain_network_key_enabled: raw.flag_bits & 0x1 != 0,
        native_commissioning_enabled: raw.flag_bits & 0x2 != 0,
        routers_enabled: raw.flag_bits & 0x4 != 0,
        external_commissioning_enabled: raw.flag_bits & 0x8 != 0,
        commercial_commissioning_enabled: raw.flag_bits & 0x10 != 0,
        autonomous_enrollment_enabled: raw.flag_bits & 0x20 != 0,
        network_key_provisioning_enabled: raw.flag_bits & 0x40 != 0,
        toble_link_enabled: raw.flag_bits & 0x80 != 0,
        non_ccm_routers_enabled: raw.flag_bits & 0x100 != 0,
        version_threshold_for_routing: ((raw.flag_bits >> 9) & 7) as u8,
    }
}

/// Bit-position alignment: packing a policy and unpacking it again recovers
/// exactly the flag set that was packed — each enable flag lands in its own
/// bit and disturbs no other — and the version threshold comes back truncated
/// to its 3-bit slot.
pub proof fn lemma_security_policy_round_trip(p: SecurityPolicy)
    ensures
        spec_unpack_policy(
            RawSecurityPolicy {
                rotation_time: p.rotation_time,
                flag_bits: spec_policy_flag_bits(p),
            },
        ) == (SecurityPolicy {
            version_threshold_for_routing: (p.version_threshold_for_routing & 7) as u8,
            ..p
        }),
{
    let o: u16 = if p.obtain_network_key_enabled { 0x1u16 } else { 0u16 };
    let n: u16 = if p.native_commissioning_enabled { 0x2u16 } else { 0u16 };
    let r: u16 = if p.routers_enabled { 0x4u16 } else { 0u16 };
    let e: u16 = if p.external_commissioning_enabled { 0x8u16 } else { 0u16 };
    let c: u16 = if p.commercial_commissioning_enabled { 0x10u16 } else { 0u16 };
    let a: u16 = if p.autonomous_enrollment_enabled { 0x20u16 } else { 0u16 };
    let k: u16 = if p.network_key_provisioning_enabled { 0x40u16 } else { 0u16 };
    let t: u16 = if p.toble_link_enabled { 0x80u16 } else { 0u16 };
    let m: u16 = if p.non_ccm_routers_enabled { 0x100u16 } else { 0u16 };
    let w: u8 = p.version_threshold_for_routing;
    assert(w & 7 <= 7) by (bit_vector);
    let v: u16 = (w & 7) as u16;
    let packed: u16 = o | n | r | e | c | a | k | t | m | (v << 9u16);
    assert(packed == spec_policy_flag_bits(p));
    assert((packed & 0x1 != 0) == (o == 0x1) && (packed & 0x2 != 0) == (n == 0x2) && (packed & 0x4
        != 0) == (r == 0x4) && (packed & 0x8 != 0) == (e == 0x8) && (packed & 0x10 != 0) == (c
        == 0x10) && (packed & 0x20 != 0) == (a == 0x20) && (packed & 0x40 != 0) == (k == 0x40) && (
    packed & 0x80 != 0) == (t == 0x80) && (packed & 0x100 != 0) == (m == 0x100) && ((packed
        >> 9u16) & 7) == v) by (bit_vector)
        requires
            (o == 0 || o == 0x1) && (n == 0 || n == 0x2) && (r == 0 || r == 0x4) && (e == 0 || e
                == 0x8) && (c == 0 || c == 0x10) && (a == 0 || a == 0x20) && (k == 0 || k == 0x40)
                && (t == 0 || t == 0x80) && (m == 0 || m == 0x100) && v <= 7,
            packed == o | n | r | e | c | a | k | t | m | (v << 9u16),
    ;
    assert(((w & 7) as u16) as u8 == (w & 7)) by (bit_vector);
}

} // verus!
