//! The active or pending operational dataset — every field independently
//! optional — and its bidirectional mapping to the engine's fixed-layout form,
//! which couples a pre-zeroed slot per field with a presence bitmap.  Present
//! fields are copied into their slot and their presence bit set; absent fields
//! leave the slot zeroed and the bit clear, so no stale bytes from an earlier
//! conversion can leak.  Reading back honours the presence bitmap.

use crate::security_policy::{
    spec_policy_flag_bits, spec_unpack_policy, pack_security_policy, unpack_security_policy,
    RawSecurityPolicy, SecurityPolicy,
};
use vstd::prelude::*;

verus! {

broadcast use vstd::array::group_array_axioms;

/// Thread dataset timestamp.
#[derive(Debug, Clone, Copy, PartialEq, Eq, Structural)]
pub struct ThreadTimestamp {
    pub seconds: u64,
    pub ticks: u16,
    pub authoritative: bool,
}

/// The bound on a Thread network name, in bytes, not counting the native
/// form's terminator.
pub const NETWORK_NAME_MAX: usize = 16;

/// A Thread network name: a bounded byte string of at most
/// [`NETWORK_NAME_MAX`] bytes.  The native form is a zero-terminated array one
/// byte longer.
#[derive(Debug, PartialEq)]
pub struct NetworkName {
    bytes: Vec<u8>,
}

impl Clone for NetworkName {
    /// The clone carries the same bytes.
    fn clone(&self) -> (r: NetworkName)
        ensures
            r@ == self@,
    {
        proof {
            use_type_invariant(self);
        }
        NetworkName { bytes: self.bytes.clone() }
    }
}

impl View for NetworkName {
    type V = Seq<u8>;

    closed spec fn view(&self) -> Seq<u8> {
        self.bytes@
    }
}

impl NetworkName {
    #[verifier::type_invariant]
    spec fn inv(&self) -> bool {
        self.bytes@.len() <= NETWORK_NAME_MAX
    }

    /// The empty name.
    pub fn new() -> (r: NetworkName)
        ensures
            r@ == Seq::<u8>::empty(),
    {
        NetworkName { bytes: Vec::new() }
    }

    /// Builds a name from raw bytes; a name longer than the bound is rejected
    /// rather than overrun.
    pub fn from_bytes(bytes: Vec<u8>) -> (r: Option<NetworkName>)
        ensures
            r is Some <==> bytes@.len() <= NETWORK_NAME_MAX,
            r matches Some(n) ==> n@ == bytes@,
    {
        if bytes.len() <= NETWORK_NAME_MAX {
            Some(NetworkName { bytes })
        } else {
            None
        }
    }

    /// The name's bytes.
    pub fn as_bytes(&self) -> (r: &Vec<u8>)
        ensures
            r@ == self@,
    {
        &self.bytes
    }

    /// The name's length in bytes.
    pub fn len(&self) -> (r: usize)
        ensures
            r == self@.len(),
    {
        self.bytes.len()
    }
}

/// Active or pending operational dataset: the bundle of network-identity and
/// security parameters of a Thread network, each field independently optional.
#[derive(Debug, Clone, PartialEq)]
pub struct OperationalDataset {
    /// Active Timestamp
    pub active_timestamp: Option<ThreadTimestamp>,
    /// Pending Timestamp
    pub pending_timestamp: Option<ThreadTimestamp>,
    /// Network Key
    pub network_key: Option<[u8; 16]>,
    /// Network name
    pub network_name: Option<NetworkName>,
    /// Extended PAN ID
    pub extended_pan_id: Option<[u8; 8]>,
    /// Mesh Local Prefix
    pub mesh_local_prefix: Option<[u8; 8]>,
    /// Delay Timer
    pub delay: Option<u32>,
    /// PAN ID
    pub pan_id: Option<u16>,
    /// Channel
    pub channel: Option<u16>,
    /// PSKc
    pub pskc: Option<[u8; 16]>,
    /// Security Policy
    pub security_policy: Option<SecurityPolicy>,
    /// Channel Mask
    pub channel_mask: Option<u32>,
}

impl Default for OperationalDataset {
    /// The dataset with every field absent.
    fn default() -> (r: OperationalDataset)
        ensures
            r == spec_empty_dataset(),
    {
        OperationalDataset {
            active_timestamp: None,
            pending_timestamp: None,
            network_key: None,
            network_name: None,
            extended_pan_id: None,
            mesh_local_prefix: None,
            delay: None,
            pan_id: None,
            channel: None,
            pskc: None,
            security_policy: None,
            channel_mask: None,
        }
    }
}

/// The dataset with every field absent.
pub open spec fn spec_empty_dataset() -> OperationalDataset {
    OperationalDataset {
        active_timestamp: None,
        pending_timestamp: None,
        network_key: None,
        network_name: None,
        extended_pan_id: None,
        mesh_local_prefix: None,
        delay: None,
        pan_id: None,
        channel: None,
        pskc: None,
        security_policy: None,
        channel_mask: None,
    }
}

/// The presence bitmap of the engine's fixed-layout dataset: one bit per
/// optional field, in the engine's declaration order.
#[derive(Debug, Clone, Copy, PartialEq, Eq, Structural, Default)]
pub struct DatasetComponents {
    pub active_timestamp_present: bool,
    pub pending_timestamp_present: bool,
    pub network_key_present: bool,
    pub network_name_present: bool,
    pub extended_pan_id_present: bool,
    pub mesh_local_prefix_present: bool,
    pub delay_present: bool,
    pub pan_id_present: bool,
    pub channel_present: bool,
    pub pskc_present: bool,
    pub security_policy_present: bool,
    pub channel_mask_present: bool,
}

/// The engine's fixed-layout operational dataset: one pre-sized slot per
/// field plus the presence bitmap.  The network name slot carries the name's
/// bytes followed by a zero terminator and zero padding.
#[derive(Debug, Clone, Copy, PartialEq)]
pub struct RawOperationalDataset {
    pub active_timestamp: ThreadTimestamp,
    pub pending_timestamp: ThreadTimestamp,
    pub network_key: [u8; 16],
    pub network_name: [u8; 17],
    pub extended_pan_id: [u8; 8],
    pub mesh_local_prefix: [u8; 8],
    pub delay: u32,
    pub pan_id: u16,
    pub channel: u16,
    pub pskc: [u8; 16],
    pub security_policy: RawSecurityPolicy,
    pub channel_mask: u32,
    pub components: DatasetComponents,
}

/// The all-zero timestamp that an absent timestamp field leaves in its slot.
pub open spec fn spec_zero_timestamp() -> ThreadTimestamp {
    ThreadTimestamp { seconds: 0, ticks: 0, authoritative: false }
}

/// `n` zero bytes.
pub open spec fn spec_zero_bytes(n: int) -> Seq<u8> {
    Seq::new(n as nat, |i: int| 0u8)
}

/// The native form of a network name: the name's bytes followed by zeroes up
/// to the slot's 17 bytes (terminator and padding).
pub open spec fn spec_raw_name(name: Seq<u8>) -> Seq<u8> {
    Seq::new(17, |i: int| if i < name.len() { name[i] } else { 0u8 })
}

/// The length of the name held in a native name slot: the bytes before the
/// first zero, at most 16.
pub open spec fn spec_name_len_from(s: Seq<u8>, i: int) -> int
    decreases 16 - i,
{
    if i < 0 || i >= 16 {
        16
    } else if s[i] == 0 {
        i
    } else {
        spec_name_len_from(s, i + 1)
    }
}

/// The length of the name held in a native name slot.
pub open spec fn spec_name_len(s: Seq<u8>) -> int {
    spec_name_len_from(s, 0)
}

/// The presence bitmap a dataset marshals to: a field's bit is set exactly
/// when the field is present.
pub open spec fn spec_presence(d: OperationalDataset) -> DatasetComponents {
    DatasetComponents {
        active_timestamp_present: d.active_timestamp is Some,
        pending_timestamp_present: d.pending_timestamp is Some,
        network_key_present: d.network_key is Some,
        network_name_present: d.network_name is Some,
        extended_pan_id_present: d.extended_pan_id is Some,
        mesh_local_prefix_present: d.mesh_local_prefix is Some,
        delay_present: d.delay is Some,
        pan_id_present: d.pan_id is Some,
        channel_present: d.channel is Some,
        pskc_present: d.pskc is Some,
        security_policy_present: d.security_policy is Some,
        channel_mask_present: d.channel_mask is Some,
    }
}

/// What marshalling `d` into the engine's fixed layout yields: every present
/// field copied into its slot with its presence bit set, every absent field's
/// slot zeroed with its bit clear.
pub open spec fn marshals_to(d: OperationalDataset, raw: RawOperationalDataset) -> bool {
    &&& raw.components == spec_presence(d)
    &&& raw.active_timestamp == (match d.active_timestamp {
        Some(t) => t,
        None => spec_zero_timestamp(),
    })
    &&& raw.pending_timestamp == (match d.pending_timestamp {
        Some(t) => t,
        None => spec_zero_timestamp(),
    })
    &&& raw.network_key@ == (match d.network_key {
        Some(k) => k@,
        None => spec_zero_bytes(16),
    })
    &&& raw.network_name@ == (match d.network_name {
        Some(n) => spec_raw_name(n@),
        None => spec_zero_bytes(17),
    })
    &&& raw.extended_pan_id@ == (match d.extended_pan_id {
        Some(p) => p@,
        None => spec_zero_bytes(8),
    })
    &&& raw.mesh_local_prefix@ == (match d.mesh_local_prefix {
        Some(p) => p@,
        None => spec_zero_bytes(8),
    })
    &&& raw.delay == (match d.delay {
        Some(v) => v,
        None => 0u32,
    })
    &&& raw.pan_id == (match d.pan_id {
        Some(v) => v,
        None => 0u16,
    })
    &&& raw.channel == (match d.channel {
        Some(v) => v,
        None => 0u16,
    })
    &&& raw.pskc@ == (match d.pskc {
        Some(k) => k@,
        None => spec_zero_bytes(16),
    })
    &&& raw.security_policy == (match d.security_policy {
        Some(sp) => RawSecurityPolicy {
            rotation_time: sp.rotation_time,
            flag_bits: spec_policy_flag_bits(sp),
        },
        None => RawSecurityPolicy { rotation_time: 0, flag_bits: 0 },
    })
    &&& raw.channel_mask == (match d.channel_mask {
        Some(v) => v,
        None => 0u32,
    })
}

/// What unmarshalling the engine's fixed layout yields: each field is present
/// exactly when its presence bit is set, carrying the slot's value; the name
/// comes back stripped of its terminator and padding.
pub open spec fn unmarshals_to(raw: RawOperationalDataset, d: OperationalDataset) -> bool {
    &&& d.active_timestamp == (if raw.components.active_timestamp_present {
        Some(raw.active_timestamp)
    } else {
        None::<ThreadTimestamp>
    })
    &&& d.pending_timestamp == (if raw.components.pending_timestamp_present {
        Some(raw.pending_timestamp)
    } else {
        None::<ThreadTimestamp>
    })
    &&& d.network_key == (if raw.components.network_key_present {
        Some(raw.network_key)
    } else {
        None::<[u8; 16]>
    })
    &&& (d.network_name is Some <==> raw.components.network_name_present)
    &&& (d.network_name matches Some(n) ==> n@ == raw.network_name@.subrange(
        0,
        spec_name_len(raw.network_name@),
    ))
    &&& d.extended_pan_id == (if raw.components.extended_pan_id_present {
        Some(raw.extended_pan_id)
    } else {
        None::<[u8; 8]>
    })
    &&& d.mesh_local_prefix == (if raw.components.mesh_local_prefix_present {
        Some(raw.mesh_local_prefix)
    } else {
        None::<[u8; 8]>
    })
    &&& d.delay == (if raw.components.delay_present {
        Some(raw.delay)
    } else {
        None::<u32>
    })
    &&& d.pan_id == (if raw.components.pan_id_present {
        Some(raw.pan_id)
    } else {
        None::<u16>
    })
    &&& d.channel == (if raw.components.channel_present {
        Some(raw.channel)
    } else {
        None::<u16>
    })
    &&& d.pskc == (if raw.components.pskc_present {
        Some(raw.pskc)
    } else {
        None::<[u8; 16]>
    })
    &&& d.security_policy == (if raw.components.security_policy_present {
        Some(spec_unpack_policy(raw.security_policy))
    } else {
        None::<SecurityPolicy>
    })
    &&& d.channel_mask == (if raw.components.channel_mask_present {
        Some(raw.channel_mask)
    } else {
        None::<u32>
    })
}

/// Marshals a dataset into the engine's fixed layout: each present field is
/// copied into its pre-zeroed slot and its presence bit set; absent fields
/// leave the slot zeroed and the bit clear.
pub fn dataset_to_raw(dataset: &OperationalDataset) -> (raw: RawOperationalDataset)
    ensures
        marshals_to(*dataset, raw),
{
    let active_timestamp = match &dataset.active_timestamp {
        Some(t) => *t,
        None => ThreadTimestamp { seconds: 0, ticks: 0, authoritative: false },
    };
    let pending_timestamp = match &dataset.pending_timestamp {
        Some(t) => *t,
        None => ThreadTimestamp { seconds: 0, ticks: 0, authoritative: false },
    };
    let network_key = match &dataset.network_key {
        Some(k) => *k,
        None => [0u8; 16],
    };
    let network_name = match &dataset.network_name {
        Some(n) => name_to_raw(n),
        None => [0u8; 17],
    };
    let extended_pan_id = match &dataset.extended_pan_id {
        Some(p) => *p,
        None => [0u8; 8],
    };
    let mesh_local_prefix = match &dataset.mesh_local_prefix {
        Some(p) => *p,
        None => [0u8; 8],
    };
    let delay = match &dataset.delay {
        Some(v) => *v,
        None => 0u32,
    };
    let pan_id = match &dataset.pan_id {
        Some(v) => *v,
        None => 0u16,
    };
    let channel = match &dataset.channel {
        Some(v) => *v,
        None => 0u16,
    };
    let pskc = match &dataset.pskc {
        Some(k) => *k,
        None => [0u8; 16],
    };
    let security_policy = match &dataset.security_policy {
        Some(sp) => pack_security_policy(sp),
        None => RawSecurityPolicy { rotation_time: 0, flag_bits: 0 },
    };
    let channel_mask = match &dataset.channel_mask {
        Some(v) => *v,
        None => 0u32,
    };
    let components = DatasetComponents {
        active_timestamp_present: dataset.active_timestamp.is_some(),
        pending_timestamp_present: dataset.pending_timestamp.is_some(),
        network_key_present: dataset.network_key.is_some(),
        network_name_present: dataset.network_name.is_some(),
        extended_pan_id_present: dataset.extended_pan_id.is_some(),
        mesh_local_prefix_present: dataset.mesh_local_prefix.is_some(),
        delay_present: dataset.delay.is_some(),
        pan_id_present: dataset.pan_id.is_some(),
        channel_present: dataset.channel.is_some(),
        pskc_present: dataset.pskc.is_some(),
        security_policy_present: dataset.security_policy.is_some(),
        channel_mask_present: dataset.channel_mask.is_some(),
    };
    proof {
        if dataset.network_key is None {
            assert(network_key@ =~= spec_zero_bytes(16));
        }
        if dataset.network_name is None {
            assert(network_name@ =~= spec_zero_bytes(17));
        }
        if dataset.extended_pan_id is None {
            assert(extended_pan_id@ =~= spec_zero_bytes(8));
        }
        if dataset.mesh_local_prefix is None {
            assert(mesh_local_prefix@ =~= spec_zero_bytes(8));
        }
        if dataset.pskc is None {
            assert(pskc@ =~= spec_zero_bytes(16));
        }
    }
    RawOperationalDataset {
        active_timestamp,
        pending_timestamp,
        network_key,
        network_name,
        extended_pan_id,
        mesh_local_prefix,
        delay,
        pan_id,
        channel,
        pskc,
        security_policy,
        channel_mask,
        components,
    }
}

/// Copies a bounded name into its native slot: the name's bytes, then a zero
/// terminator and zero padding.
fn name_to_raw(name: &NetworkName) -> (raw: [u8; 17])
    ensures
        raw@ == spec_raw_name(name@),
{
    proof {
        use_type_invariant(name);
    }
    let mut raw = [0u8; 17];
    let bytes = name.as_bytes();
    let n = bytes.len();
    let mut i: usize = 0;
    while i < n
        invariant
            i <= n,
            n == name@.len() <= 16,
            bytes@ == name@,
            raw@.len() == 17,
            forall|j: int| 0 <= j < i ==> raw@[j] == name@[j],
            forall|j: int| i <= j < 17 ==> raw@[j] == 0u8,
        decreases n - i,
    {
        raw[i] = bytes[i];
        i += 1;
    }
    proof {
        assert(raw@ =~= spec_raw_name(name@));
    }
    raw
}

/// Creates an operational dataset from the engine's fixed layout, honouring
/// the presence bitmap: a field is reported present exactly when its bit is
/// set; the name is stripped of its zero terminator and trailing padding.
pub fn dataset_from_raw_dataset(raw: &RawOperationalDataset) -> (dataset: OperationalDataset)
    ensures
        unmarshals_to(*raw, dataset),
{
    let network_name = if raw.components.network_name_present {
        Some(name_from_raw(&raw.network_name))
    } else {
        None
    };
    OperationalDataset {
        active_timestamp: if raw.components.active_timestamp_present {
            Some(raw.active_timestamp)
        } else {
            None
        },
        pending_timestamp: if raw.components.pending_timestamp_present {
            Some(raw.pending_timestamp)
        } else {
            None
        },
        network_key: if raw.components.network_key_present {
            Some(raw.network_key)
        } else {
            None
        },
        network_name,
        extended_pan_id: if raw.components.extended_pan_id_present {
            Some(raw.extended_pan_id)
        } else {
            None
        },
        mesh_local_prefix: if raw.components.mesh_local_prefix_present {
            Some(raw.mesh_local_prefix)
        } else {
            None
        },
        delay: if raw.components.delay_present {
            Some(raw.delay)
        } else {
            None
        },
        pan_id: if raw.components.pan_id_present {
            Some(raw.pan_id)
        } else {
            None
        },
        channel: if raw.components.channel_present {
            Some(raw.channel)
        } else {
            None
        },
        pskc: if raw.components.pskc_present {
            Some(raw.pskc)
        } else {
            None
        },
        security_policy: if raw.components.security_policy_present {
            Some(unpack_security_policy(&raw.security_policy))
        } else {
            None
        },
        channel_mask: if raw.components.channel_mask_present {
            Some(raw.channel_mask)
        } else {
            None
        },
    }
}

/// Reads a bounded name back out of its native slot: the bytes before the
/// first zero, at most 16 of them.
fn name_from_raw(raw: &[u8; 17]) -> (name: NetworkName)
    ensures
        name@ == raw@.subrange(0, spec_name_len(raw@)),
{
    let mut bytes: Vec<u8> = Vec::new();
    let mut i: usize = 0;
    while i < 16 && raw[i] != 0
        invariant
            i <= 16,
            raw@.len() == 17,
            bytes@ == raw@.subrange(0, i as int),
            forall|j: int| 0 <= j < i ==> raw@[j] != 0u8,
        decreases 16 - i,
    {
        bytes.push(raw[i]);
        i += 1;
        proof {
            assert(bytes@ =~= raw@.subrange(0, i as int));
        }
    }
    proof {
        lemma_name_len_from(raw@, 0, i as int);
    }
    match NetworkName::from_bytes(bytes) {
        Some(name) => name,
        None => NetworkName::new(),  // unreachable: at most 16 bytes were collected
    }
}

/// If the bytes from `i` up to `n` are non-zero and byte `n` (when inside the
/// slot) is zero, the name length scan from `i` stops at `n`.
proof fn lemma_name_len_from(s: Seq<u8>, i: int, n: int)
    requires
        0 <= i <= n <= 16,
        forall|j: int| i <= j < n ==> s[j] != 0u8,
        n < 16 ==> s[n] == 0u8,
    ensures
        spec_name_len_from(s, i) == n,
    decreases n - i,
{
    if i < n {
        lemma_name_len_from(s, i + 1, n);
    }
}

/// A dataset's bounded-text field respects its bound.  This holds of every
/// value by construction; it is stated for use where a dataset is only given
/// mathematically.
pub open spec fn dataset_wf(d: OperationalDataset) -> bool {
    d.network_name matches Some(n) ==> n@.len() <= NETWORK_NAME_MAX
}

/// Marshalling preserves the presence set exactly: a dataset marshalled into
/// the engine's fixed layout and unmarshalled back reports precisely the
/// fields that were present before, not an "all present" artifact.
pub proof fn lemma_dataset_presence_round_trip(
    d: OperationalDataset,
    raw: RawOperationalDataset,
    d2: OperationalDataset,
)
    requires
        marshals_to(d, raw),
        unmarshals_to(raw, d2),
    ensures
        spec_presence(d2) == spec_presence(d),
{
}

/// Marshalling a dataset and unmarshalling it back recovers every present
/// field's value, provided the name carries no embedded zero byte (the native
/// form is zero-terminated) and the security policy's version threshold fits
/// its 3-bit slot; absent fields come back absent.
pub proof fn lemma_dataset_value_round_trip(
    d: OperationalDataset,
    raw: RawOperationalDataset,
    d2: OperationalDataset,
)
    requires
        marshals_to(d, raw),
        unmarshals_to(raw, d2),
        dataset_wf(d),
        d.network_name matches Some(n) ==> forall|j: int| 0 <= j < n@.len() ==> n@[j] != 0u8,
        d.security_policy matches Some(sp) ==> sp.version_threshold_for_routing < 8,
    ensures
        d2.active_timestamp == d.active_timestamp,
        d2.pending_timestamp == d.pending_timestamp,
        d2.network_key == d.network_key,
        d2.network_name is Some <==> d.network_name is Some,
        (d2.network_name is Some && d.network_name is Some) ==> (d2.network_name->Some_0)@ == (d.network_name->Some_0)@,
        d2.extended_pan_id == d.extended_pan_id,
        d2.mesh_local_prefix == d.mesh_local_prefix,
        d2.delay == d.delay,
        d2.pan_id == d.pan_id,
        d2.channel == d.channel,
        d2.pskc == d.pskc,
        d2.security_policy == d.security_policy,
        d2.channel_mask == d.channel_mask,
{
    if d.network_name is Some {
        let n = d.network_name->Some_0;
        assert(raw.network_name@ == spec_raw_name(n@));
        lemma_name_len_from(raw.network_name@, 0, n@.len() as int);
        assert(raw.network_name@.subrange(0, n@.len() as int) =~= n@);
    }
    if d.security_policy is Some {
        let sp = d.security_policy->Some_0;
        crate::security_policy::lemma_security_policy_round_trip(sp);
        let w: u8 = sp.version_threshold_for_routing;
        assert(w < 8 ==> w & 7 == w) by (bit_vector);
    }
}

} // verus!
