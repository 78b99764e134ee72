//! The radio receive pipeline: reformatting a raw frame from the radio
//! driver's queue into the fixed-layout frame the protocol engine expects —
//! length-prefixed payload, channel, RSSI taken from the frame's trailing
//! byte, link quality derived from the RSSI, and a microsecond timestamp.

use vstd::prelude::*;

verus! {

/// The longest physical-layer payload of one radio frame.
pub const MAX_PSDU_LEN: usize = 127;

/// One frame as the radio driver queues it: a length-prefixed byte buffer
/// (byte 0 holds the payload length, the payload follows) and the channel it
/// arrived on.
#[derive(Debug, Clone, PartialEq)]
pub struct RawReceivedFrame {
    pub data: Vec<u8>,
    pub channel: u8,
}

/// A queued frame the pipeline can safely reformat: the declared length is
/// non-zero, fits the scratch payload buffer, and lies within the buffer the
/// driver handed over.
pub open spec fn frame_wf(frame: RawReceivedFrame) -> bool {
    &&& frame.data@.len() >= 1
    &&& 1 <= frame.data@[0] <= MAX_PSDU_LEN
    &&& frame.data@.len() >= frame.data@[0] + 1
}

/// One frame in the fixed layout the protocol engine expects.
#[derive(Debug, Clone, PartialEq)]
pub struct RadioFrame {
    /// The payload, at most [`MAX_PSDU_LEN`] bytes.
    pub psdu: Vec<u8>,
    /// The channel the frame arrived on.
    pub channel: u8,
    /// The engine's radio-type tag for this link.
    pub radio_type: u8,
    /// Received signal strength, from the frame's trailing byte.
    pub rssi: i8,
    /// Link quality indicator, derived from the RSSI.
    pub lqi: u8,
    /// Receive timestamp in microseconds.
    pub timestamp: u64,
}

/// Link quality derived from a received signal strength: 0 at or below
/// -80 dBm, saturated at 255 above -30 dBm, scaled linearly between.
pub open spec fn spec_lqi_from_rssi(rssi: i8) -> u8 {
    if rssi < -80 {
        0u8
    } else if rssi > -30 {
        255u8
    } else {
        (((rssi + 80) * 255) / 50) as u8
    }
}

/// Derives the link quality indicator from a received signal strength, with
/// the same mapping the radio driver documents for its own frames.
pub fn rssi_to_lqi(rssi: i8) -> (r: u8)
    ensures
        r == spec_lqi_from_rssi(rssi),
{
    if rssi < -80 {
        0
    } else if rssi > -30 {
        0xff
    } else {
        let base: i32 = rssi as i32 + 80;
        ((base * 255) / 50) as u8
    }
}

/// How a queued raw frame reformats into the engine's frame layout at a given
/// millisecond clock reading: the payload is the declared number of bytes
/// after the length prefix, the RSSI is the frame's trailing byte, the link
/// quality is derived from the RSSI, and the timestamp is the clock reading
/// in microseconds.
pub open spec fn converts_to(frame: RawReceivedFrame, now_millis: u64, r: RadioFrame) -> bool {
    &&& r.psdu@ == frame.data@.subrange(1, frame.data@[0] + 1)
    &&& r.channel == frame.channel
    &&& r.radio_type == 1u8
    &&& r.rssi == frame.data@[frame.data@[0] - 1] as i8
    &&& r.lqi == spec_lqi_from_rssi(r.rssi)
    &&& r.timestamp == now_millis * 1000
}

/// Reformats one raw frame from the radio driver into the fixed layout the
/// engine expects.  The scratch payload is rebuilt on each call and must not
/// be retained across frames.
pub fn convert_received_frame(frame: &RawReceivedFrame, now_millis: u64) -> (r: RadioFrame)
    requires
        frame_wf(*frame),
        now_millis * 1000 <= u64::MAX,
    ensures
        converts_to(*frame, now_millis, r),
{
    let len = frame.data[0] as usize;
    let rssi = frame.data[len - 1] as i8;
    let mut psdu: Vec<u8> = Vec::new();
    let mut i: usize = 0;
    while i < len
        invariant
            i <= len,
            len == frame.data@[0],
            frame_wf(*frame),
            psdu@.len() == i,
            forall|j: int| 0 <= j < i ==> psdu@[j] == frame.data@[j + 1],
        decreases len - i,
    {
        psdu.push(frame.data[i + 1]);
        i += 1;
    }
    proof {
        assert(psdu@ =~= frame.data@.subrange(1, frame.data@[0] + 1));
    }
    RadioFrame {
        psdu,
        channel: frame.channel,
        radio_type: 1,
        rssi,
        lqi: rssi_to_lqi(rssi),
        timestamp: now_millis * 1000,
    }
}

} // verus!
