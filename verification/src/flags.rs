//! The set of state-change flags that the protocol engine reports through its
//! state-changed callback: a 32-bit word in which each bit stands for one
//! facet of protocol state that changed.  The bit values are a fixed, versioned
//! contract with the engine and must not be reordered or reinterpreted.

use vstd::prelude::*;

verus! {

/// An IPv6 address was added.
pub const IPV6_ADDRESS_ADDED: u32 = 0x1;
/// An IPv6 address was removed.
pub const IPV6_ADDRESS_REMOVED: u32 = 0x2;
/// The device role (disabled, detached, child, router, leader) changed.
pub const THREAD_ROLE_CHANGED: u32 = 0x4;
/// The link-local address changed.
pub const THREAD_LL_ADDRESS_CHANGED: u32 = 0x8;
/// The mesh-local address changed.
pub const THREAD_MESH_LOCAL_ADDRESS_CHANGED: u32 = 0x10;
/// An RLOC was added.
pub const THREAD_RLOC_ADDED: u32 = 0x20;
/// An RLOC was removed.
pub const THREAD_RLOC_REMOVED: u32 = 0x40;
/// The partition id changed.
pub const THREAD_PARTITION_ID_CHANGED: u32 = 0x80;
/// The Thread key sequence changed.
pub const THREAD_KEY_SEQUENCE_CHANGED: u32 = 0x100;
/// The Thread network data changed.
pub const THREAD_NETWORK_DATA_CHANGED: u32 = 0x200;
/// A child was added.
pub const THREAD_CHILD_ADDED: u32 = 0x400;
/// A child was removed.
pub const THREAD_CHILD_REMOVED: u32 = 0x800;
/// Subscribed to an IPv6 multicast address.
pub const IPV6_MULTICAST_SUBSCRIBED: u32 = 0x1000;
/// Unsubscribed from an IPv6 multicast address.
pub const IPV6_MULTICAST_UNSUBSCRIBED: u32 = 0x2000;
/// The Thread network channel changed.
pub const THREAD_NETWORK_CHANNEL_CHANGED: u32 = 0x4000;
/// The Thread network PAN id changed.
pub const THREAD_PAN_ID_CHANGED: u32 = 0x8000;
/// The Thread network name changed.
pub const THREAD_NETWORK_NAME_CHANGED: u32 = 0x10000;
/// The Thread network extended PAN id changed.
pub const THREAD_EXTENDED_PAN_ID_CHANGED: u32 = 0x20000;
/// The network key changed.
pub const THREAD_NETWORK_KEY_CHANGED: u32 = 0x40000;
/// The PSKc changed.
pub const THREAD_PSKC_CHANGED: u32 = 0x80000;
/// The security policy changed.
pub const THREAD_SECURITY_POLICY_CHANGED: u32 = 0x100000;
/// The channel manager's new pending Thread channel changed.
pub const CHANNEL_MANAGER_NEW_CHANNEL_CHANGED: u32 = 0x200000;
/// The supported channel mask changed.
pub const SUPPORTED_CHANNEL_MASK_CHANGED: u32 = 0x400000;
/// The commissioner state changed.
pub const COMMISSIONER_STATE_CHANGED: u32 = 0x800000;
/// The Thread network interface state changed.
pub const THREAD_NETWORK_INTERFACE_STATE_CHANGED: u32 = 0x1000000;
/// The backbone router state changed.
pub const THREAD_BACKBONE_ROUTER_STATE_CHANGED: u32 = 0x2000000;
/// The local backbone router configuration changed.
pub const THREAD_BACKBONE_ROUTER_LOCAL_CHANGED: u32 = 0x4000000;
/// The joiner state changed.
pub const JOINER_STATE_CHANGED: u32 = 0x8000000;
/// The active operational dataset changed.
pub const ACTIVE_DATASET_CHANGED: u32 = 0x10000000;
/// The pending operational dataset changed.
pub const PENDING_DATASET_CHANGED: u32 = 0x20000000;

/// Every flag bit the engine can legitimately emit: bits 0 through 29.
pub const ALL_CHANGED_FLAGS: u32 = 0x3FFF_FFFF;

/// Specific state/configuration that has changed, as a set of the flag bits
/// above.  A value of this type never carries a bit outside
/// [`ALL_CHANGED_FLAGS`].
#[derive(Debug, Clone, Copy, PartialEq, Eq, Structural)]
pub struct ChangedFlags {
    bits: u32,
}

impl View for ChangedFlags {
    type V = u32;

    closed spec fn view(&self) -> u32 {
        self.bits
    }
}

/// A flag word is a valid engine encoding exactly when it carries no bit
/// outside the known range; the known bits are contiguous from bit 0, so
/// validity is a bound.
pub open spec fn valid_flag_bits(bits: u32) -> bool {
    bits <= ALL_CHANGED_FLAGS
}

/// What decoding a raw flag word yields: the same word, as a flag set, when
/// every bit is a known one; nothing otherwise.  An unrecognized bit is
/// rejected rather than silently dropped, matching the engine's bit contract.
pub closed spec fn spec_from_bits(bits: u32) -> Option<ChangedFlags> {
    if valid_flag_bits(bits) {
        Some(ChangedFlags { bits })
    } else {
        None
    }
}

impl ChangedFlags {
    /// The flag set carries only known bits.
    pub closed spec fn wf(&self) -> bool {
        valid_flag_bits(self.bits)
    }

    /// The empty flag set.
    pub fn empty() -> (r: ChangedFlags)
        ensures
            r@ == 0u32,
            r.wf(),
    {
        ChangedFlags { bits: 0 }
    }

    /// Decodes a raw 32-bit flag word from the engine.  Returns the flag set
    /// when every bit is known, and `None` when the word carries a bit the
    /// engine cannot legitimately emit.
    pub fn from_bits(bits: u32) -> (r: Option<ChangedFlags>)
        ensures
            r == spec_from_bits(bits),
            r is Some <==> valid_flag_bits(bits),
            r matches Some(f) ==> f@ == bits && f.wf(),
    {
        if bits <= ALL_CHANGED_FLAGS {
            Some(ChangedFlags { bits })
        } else {
            None
        }
    }

    /// Encodes the flag set back into the engine's 32-bit word.
    pub fn bits(&self) -> (r: u32)
        ensures
            r == self@,
    {
        self.bits
    }

    /// Whether every flag of `other` is also set in `self`.
    pub fn contains(&self, other: &ChangedFlags) -> (r: bool)
        ensures
            r == (self@ & other@ == other@),
    {
        self.bits & other.bits == other.bits
    }

    /// The union of two flag sets.
    pub fn union(&self, other: &ChangedFlags) -> (r: ChangedFlags)
        requires
            self.wf(),
            other.wf(),
        ensures
            r@ == (self@ | other@),
            r.wf(),
    {
        proof {
            lemma_union_stays_valid(self.bits, other.bits);
        }
        ChangedFlags { bits: self.bits | other.bits }
    }
}

/// The union of two valid flag words is a valid flag word.
proof fn lemma_union_stays_valid(a: u32, b: u32)
    requires
        valid_flag_bits(a),
        valid_flag_bits(b),
    ensures
        valid_flag_bits(a | b),
{
    assert(a <= 0x3FFF_FFFFu32 && b <= 0x3FFF_FFFFu32 ==> (a | b) <= 0x3FFF_FFFFu32)
        by (bit_vector);
}

/// Decoding is stable: for every flag word the engine can legitimately emit,
/// decoding into the flag set and encoding back yields the original word, and
/// decoding succeeds exactly on those words.
pub proof fn lemma_flag_decode_encode_round_trip(bits: u32)
    ensures
        valid_flag_bits(bits) <==> spec_from_bits(bits) is Some,
        spec_from_bits(bits) matches Some(f) ==> f@ == bits,
{
}

} // verus!
