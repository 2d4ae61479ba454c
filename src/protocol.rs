//! Payload layouts of the single-frame device commands. A payload is built
//! unframed; the proxy wraps it with the frame codec before sending.
//! Integers inside payloads are little-endian and field names are ASCII
//! followed by a zero byte.

use crate::frame::{le32, le32_bytes};
use vstd::prelude::*;
use vstd::string::is_ascii_spec_bytes;

verus! {

/// The session id used until one is learned from traffic.
pub open spec fn default_session_id() -> Seq<u8> {
    seq![1u8, 1u8, 1u8, 1u8]
}

/// `x` reduced to a byte.
pub open spec fn wrap8(x: int) -> u8 {
    (x % 256) as u8
}

/// A field name as it stands in a payload: its ASCII bytes, then a zero.
pub open spec fn tag(name: Seq<char>) -> Seq<u8> {
    name.map_values(|c: char| c as u8).push(0u8)
}

/// Mute or unmute a channel output: `02` mutes, `03` unmutes.
pub open spec fn mute_payload(sid: Seq<u8>, fader: u8, on: bool) -> Seq<u8> {
    sid + seq![wrap8(0x1C + fader)] + tag("channelOutputMute"@) + seq![
        1u8,
        1u8,
        if on {
            2u8
        } else {
            3u8
        },
    ]
}

/// Select the input source of a channel.
pub open spec fn input_source_payload(sid: Seq<u8>, fader: u8, source: u32) -> Seq<u8> {
    sid + seq![wrap8(0x1C + fader)] + tag("channelInputSource"@) + seq![1u8, 5u8, 1u8] + le32(
        source,
    )
}

/// Select the microphone type of a channel.
pub open spec fn mic_type_payload(sid: Seq<u8>, fader: u8, mic_type: u32) -> Seq<u8> {
    sid + seq![wrap8(0x1C + fader)] + tag("inputMicrophoneType"@) + seq![1u8, 5u8, 1u8] + le32(
        mic_type,
    )
}

/// Set a fader level. This one carries a fixed preamble of its own in place
/// of the session id.
pub open spec fn level_payload(fader: u8, level: u32) -> Seq<u8> {
    seq![1u8, 1u8, 2u8, 0u8, 1u8, wrap8(4 + fader)] + tag("faderLevel"@) + seq![1u8, 5u8, 1u8]
        + le32(level)
}

/// Report a touch on the device screen.
pub open spec fn touch_payload(sid: Seq<u8>) -> Seq<u8> {
    sid + seq![7u8] + tag("screenTouched"@) + seq![1u8, 1u8, 2u8]
}

/// Appends a field name and its terminating zero.
pub(crate) fn push_tag(buf: &mut Vec<u8>, name: &str)
    requires
        name.is_ascii(),
    ensures
        final(buf)@ == old(buf)@ + tag(name@),
{
    broadcast use is_ascii_spec_bytes;

    let b = name.as_bytes();
    buf.extend_from_slice(b);
    buf.push(0);
    assert(final(buf)@ =~= old(buf)@ + tag(name@));
}

/// Appends a 32-bit value, least significant byte first.
pub(crate) fn push_le32(buf: &mut Vec<u8>, n: u32)
    ensures
        final(buf)@ == old(buf)@ + le32(n),
{
    buf.extend_from_slice(&le32_bytes(n));
}

/// A byte that counts from `base` by the fader index, modulo 256.
fn offset_byte(base: u8, index: u8) -> (r: u8)
    ensures
        r == wrap8(base + index),
{
    ((base as u32 + index as u32) % 256) as u8
}

/// A device command that fits in one payload.
pub trait RodeCommand {
    /// The payload built for a session id.
    spec fn spec_payload(&self, session_id: Seq<u8>) -> Seq<u8>;

    fn build_payload(&self, session_id: &[u8]) -> (r: Vec<u8>)
        ensures
            r@ == self.spec_payload(session_id@),
    ;
}

/// Mute or unmute the output of a channel.
pub struct ChannelOutputMute {
    pub fader_index: u8,
    pub mute: bool,
}

impl RodeCommand for ChannelOutputMute {
    open spec fn spec_payload(&self, session_id: Seq<u8>) -> Seq<u8> {
        mute_payload(session_id, self.fader_index, self.mute)
    }

    fn build_payload(&self, session_id: &[u8]) -> (r: Vec<u8>) {
        proof {
            reveal_strlit("channelOutputMute");
        }
        let mut payload: Vec<u8> = Vec::new();
        payload.extend_from_slice(session_id);
        payload.push(offset_byte(0x1C, self.fader_index));
        push_tag(&mut payload, "channelOutputMute");
        payload.push(0x01);
        payload.push(0x01);
        payload.push(if self.mute { 0x02 } else { 0x03 });
        assert(payload@ =~= mute_payload(session_id@, self.fader_index, self.mute));
        payload
    }
}

/// Choose the input source of a channel.
pub struct ChannelInputSource {
    pub fader_index: u8,
    pub source_id: u32,
}

impl RodeCommand for ChannelInputSource {
    open spec fn spec_payload(&self, session_id: Seq<u8>) -> Seq<u8> {
        input_source_payload(session_id, self.fader_index, self.source_id)
    }

    fn build_payload(&self, session_id: &[u8]) -> (r: Vec<u8>) {
        proof {
            reveal_strlit("channelInputSource");
        }
        let mut payload: Vec<u8> = Vec::new();
        payload.extend_from_slice(session_id);
        payload.push(offset_byte(0x1C, self.fader_index));
        push_tag(&mut payload, "channelInputSource");
        payload.push(0x01);
        payload.push(0x05);
        payload.push(0x01);
        push_le32(&mut payload, self.source_id);
        assert(payload@ =~= input_source_payload(session_id@, self.fader_index, self.source_id));
        payload
    }
}

/// Choose the microphone type of a channel.
pub struct InputMicrophoneType {
    pub fader_index: u8,
    pub mic_type: u32,
}

/// `x` read as an unsigned 32-bit value: negative values wrap around.
pub open spec fn unsigned_of(x: i32) -> u32 {
    if x >= 0 {
        x as u32
    } else {
        (x + 0x1_0000_0000) as u32
    }
}

impl InputMicrophoneType {
    /// Takes a signed type code; negative sentinels keep their bit pattern,
    /// so -1 becomes 0xFFFFFFFF.
    pub fn from_signed(fader_index: u8, mic_type: i32) -> (r: InputMicrophoneType)
        ensures
            r.fader_index == fader_index,
            r.mic_type == unsigned_of(mic_type),
    {
        let t: u32 = if mic_type >= 0 {
            mic_type as u32
        } else {
            (mic_type as i64 + 0x1_0000_0000i64) as u32
        };
        InputMicrophoneType { fader_index, mic_type: t }
    }
}

impl RodeCommand for InputMicrophoneType {
    open spec fn spec_payload(&self, session_id: Seq<u8>) -> Seq<u8> {
        mic_type_payload(session_id, self.fader_index, self.mic_type)
    }

    fn build_payload(&self, session_id: &[u8]) -> (r: Vec<u8>) {
        proof {
            reveal_strlit("inputMicrophoneType");
        }
        let mut payload: Vec<u8> = Vec::new();
        payload.extend_from_slice(session_id);
        payload.push(offset_byte(0x1C, self.fader_index));
        push_tag(&mut payload, "inputMicrophoneType");
        payload.push(0x01);
        payload.push(0x05);
        payload.push(0x01);
        push_le32(&mut payload, self.mic_type);
        assert(payload@ =~= mic_type_payload(session_id@, self.fader_index, self.mic_type));
        payload
    }
}

/// Move a fader to a level, 0 to 65535 for the unit interval.
pub struct FaderLevel {
    pub fader_index: u8,
    pub level: u32,
}

impl RodeCommand for FaderLevel {
    open spec fn spec_payload(&self, session_id: Seq<u8>) -> Seq<u8> {
        level_payload(self.fader_index, self.level)
    }

    fn build_payload(&self, session_id: &[u8]) -> (r: Vec<u8>) {
        proof {
            reveal_strlit("faderLevel");
        }
        let mut payload: Vec<u8> = Vec::new();
        payload.push(0x01);
        payload.push(0x01);
        payload.push(0x02);
        payload.push(0x00);
        payload.push(0x01);
        payload.push(offset_byte(0x04, self.fader_index));
        push_tag(&mut payload, "faderLevel");
        payload.push(0x01);
        payload.push(0x05);
        payload.push(0x01);
        push_le32(&mut payload, self.level);
        assert(payload@ =~= level_payload(self.fader_index, self.level));
        payload
    }
}

/// A touch on the device screen.
pub struct ScreenTouched;

impl RodeCommand for ScreenTouched {
    open spec fn spec_payload(&self, session_id: Seq<u8>) -> Seq<u8> {
        touch_payload(session_id)
    }

    fn build_payload(&self, session_id: &[u8]) -> (r: Vec<u8>) {
        proof {
            reveal_strlit("screenTouched");
        }
        let mut payload: Vec<u8> = Vec::new();
        payload.extend_from_slice(session_id);
        payload.push(0x07);
        push_tag(&mut payload, "screenTouched");
        payload.push(0x01);
        payload.push(0x01);
        payload.push(0x02);
        assert(payload@ =~= touch_payload(session_id@));
        payload
    }
}

/// The session id used until one is learned from traffic: `01 01 01 01`.
pub fn default_session() -> (r: Vec<u8>)
    ensures
        r@ == default_session_id(),
{
    let r: Vec<u8> = vec![1, 1, 1, 1];
    assert(r@ =~= default_session_id());
    r
}

/// The mute payload for a fader, bound to the default session id.
pub fn build_channel_output_mute(fader_index: u8, mute: bool) -> (r: Vec<u8>)
    ensures
        r@ == mute_payload(default_session_id(), fader_index, mute),
{
    let sid = default_session();
    ChannelOutputMute { fader_index, mute }.build_payload(sid.as_slice())
}

} // verus!
