//! Binary encoding of the configuration record.
//!
//! The record is a compact, versioned, fixed-size layout: one version byte,
//! then the three axes in order (roll, pitch, yaw). Each axis contributes
//! its six gains and its trim as little-endian 32-bit words; the trim is
//! stored biased by [`TRIM_LIMIT`] so every word on the wire is unsigned.
//! Decoding rejects a wrong length, a wrong version byte, or any field
//! outside its declared bounds, so whatever decodes successfully is a
//! well-formed configuration.

use vstd::prelude::*;
use vstd::bytes::{
    lemma_auto_spec_u32_to_from_le_bytes, spec_u32_from_le_bytes, spec_u32_to_le_bytes,
    u32_from_le_bytes, u32_to_le_bytes,
};
use vstd::assert_seqs_equal;
use vstd::slice::slice_subrange;
use crate::config::{
    AxisConfig, AxisGains, CONFIG_VERSION, Configuration, GAIN_MAX, TRIM_LIMIT,
};

verus! {

/// Size of the serialized record in bytes: a version byte plus three axes
/// of seven 32-bit words each.
pub const RECORD_BYTES: usize = 85;

/// The trim value as it appears on the wire, biased to be unsigned.
pub open spec fn spec_trim_raw(trim: i32) -> u32
    recommends
        -TRIM_LIMIT <= trim <= TRIM_LIMIT,
{
    (trim + TRIM_LIMIT) as u32
}

/// Encoding of one loop's gains: three little-endian words.
pub open spec fn spec_encode_gains(g: AxisGains) -> Seq<u8> {
    spec_u32_to_le_bytes(g.kp) + spec_u32_to_le_bytes(g.ki) + spec_u32_to_le_bytes(g.kd)
}

/// Encoding of one axis: both loops' gains, then the biased trim.
pub open spec fn spec_encode_axis(a: AxisConfig) -> Seq<u8> {
    spec_encode_gains(a.orientation) + spec_encode_gains(a.rate) + spec_u32_to_le_bytes(
        spec_trim_raw(a.trim),
    )
}

/// Encoding of the whole record.
pub open spec fn spec_serialize(c: Configuration) -> Seq<u8> {
    seq![c.version] + spec_encode_axis(c.roll) + spec_encode_axis(c.pitch) + spec_encode_axis(
        c.yaw,
    )
}

/// Decoding of one loop's gains; rejects any gain over [`GAIN_MAX`].
pub open spec fn spec_decode_gains(s: Seq<u8>) -> Option<AxisGains>
    recommends
        s.len() == 12,
{
    let kp = spec_u32_from_le_bytes(s.subrange(0, 4));
    let ki = spec_u32_from_le_bytes(s.subrange(4, 8));
    let kd = spec_u32_from_le_bytes(s.subrange(8, 12));
    if kp <= GAIN_MAX && ki <= GAIN_MAX && kd <= GAIN_MAX {
        Some(AxisGains { kp, ki, kd })
    } else {
        None
    }
}

/// Decoding of one axis; rejects a biased trim outside `[0, 2 * TRIM_LIMIT]`.
pub open spec fn spec_decode_axis(s: Seq<u8>) -> Option<AxisConfig>
    recommends
        s.len() == 28,
{
    let orientation = spec_decode_gains(s.subrange(0, 12));
    let rate = spec_decode_gains(s.subrange(12, 24));
    let trim_raw = spec_u32_from_le_bytes(s.subrange(24, 28));
    if orientation is Some && rate is Some && trim_raw <= 2 * TRIM_LIMIT as u32 {
        Some(
            AxisConfig {
                orientation: orientation->Some_0,
                rate: rate->Some_0,
                trim: (trim_raw as int - TRIM_LIMIT as int) as i32,
            },
        )
    } else {
        None
    }
}

/// Decoding of the whole record; rejects a wrong length or version byte.
pub open spec fn spec_deserialize(s: Seq<u8>) -> Option<Configuration> {
    if s.len() == RECORD_BYTES && s[0] == CONFIG_VERSION {
        let roll = spec_decode_axis(s.subrange(1, 29));
        let pitch = spec_decode_axis(s.subrange(29, 57));
        let yaw = spec_decode_axis(s.subrange(57, 85));
        if roll is Some && pitch is Some && yaw is Some {
            Some(
                Configuration {
                    version: s[0],
                    roll: roll->Some_0,
                    pitch: pitch->Some_0,
                    yaw: yaw->Some_0,
                },
            )
        } else {
            None
        }
    } else {
        None
    }
}

/// Whatever decodes successfully is a well-formed configuration.
pub proof fn lemma_decoded_wf(s: Seq<u8>)
    requires
        spec_deserialize(s) is Some,
    ensures
        spec_deserialize(s)->Some_0.wf(),
{
}

/// Appends one little-endian word to the output record.
fn encode_u32(out: &mut Vec<u8>, v: u32)
    ensures
        final(out)@ == old(out)@ + spec_u32_to_le_bytes(v),
{
    let mut bytes = u32_to_le_bytes(v);
    out.append(&mut bytes);
}

/// Appends one loop's gains to the output record.
fn encode_gains(out: &mut Vec<u8>, g: &AxisGains)
    ensures
        final(out)@ == old(out)@ + spec_encode_gains(*g),
{
    encode_u32(out, g.kp);
    encode_u32(out, g.ki);
    encode_u32(out, g.kd);
    proof {
        assert_seqs_equal!(out@ == old(out)@ + spec_encode_gains(*g));
    }
}

/// Appends one axis to the output record.
fn encode_axis(out: &mut Vec<u8>, a: &AxisConfig)
    requires
        a.wf(),
    ensures
        final(out)@ == old(out)@ + spec_encode_axis(*a),
{
    encode_gains(out, &a.orientation);
    encode_gains(out, &a.rate);
    encode_u32(out, (a.trim + TRIM_LIMIT) as u32);
    proof {
        assert_seqs_equal!(out@ == old(out)@ + spec_encode_axis(*a));
    }
}

/// Serializes a configuration into its fixed-size binary record.
pub fn serialize(c: &Configuration) -> (out: Vec<u8>)
    requires
        c.wf(),
    ensures
        out@ == spec_serialize(*c),
        out@.len() == RECORD_BYTES,
{
    let mut out: Vec<u8> = Vec::new();
    out.push(c.version);
    encode_axis(&mut out, &c.roll);
    encode_axis(&mut out, &c.pitch);
    encode_axis(&mut out, &c.yaw);
    proof {
        lemma_auto_spec_u32_to_from_le_bytes();
        assert_seqs_equal!(out@ == spec_serialize(*c));
    }
    out
}

/// Reads one little-endian word out of the record.
fn decode_u32(s: &[u8], offset: usize) -> (v: u32)
    requires
        offset + 4 <= s@.len(),
    ensures
        v == spec_u32_from_le_bytes(s@.subrange(offset as int, offset as int + 4)),
{
    proof {
        vstd::slice::axiom_spec_len(s);
    }
    u32_from_le_bytes(slice_subrange(s, offset, offset + 4))
}

/// Decodes one loop's gains from a 12-byte field.
fn decode_gains(s: &[u8]) -> (r: Option<AxisGains>)
    requires
        s@.len() == 12,
    ensures
        r == spec_decode_gains(s@),
{
    let kp = decode_u32(s, 0);
    let ki = decode_u32(s, 4);
    let kd = decode_u32(s, 8);
    if kp <= GAIN_MAX && ki <= GAIN_MAX && kd <= GAIN_MAX {
        Some(AxisGains { kp, ki, kd })
    } else {
        None
    }
}

/// Decodes one axis from a 28-byte field.
fn decode_axis(s: &[u8]) -> (r: Option<AxisConfig>)
    requires
        s@.len() == 28,
    ensures
        r == spec_decode_axis(s@),
{
    let orientation = decode_gains(slice_subrange(s, 0, 12));
    let rate = decode_gains(slice_subrange(s, 12, 24));
    let trim_raw = decode_u32(s, 24);
    match (orientation, rate) {
        (Some(orientation), Some(rate)) if trim_raw <= 2 * (TRIM_LIMIT as u32) => {
            let trim = trim_raw as i32 - TRIM_LIMIT;
            Some(AxisConfig { orientation, rate, trim })
        },
        _ => None,
    }
}

/// Deserializes a binary record; `None` on a wrong length, a wrong version
/// byte, or any field outside its declared bounds.
pub fn deserialize(s: &[u8]) -> (r: Option<Configuration>)
    ensures
        r == spec_deserialize(s@),
{
    if s.len() != RECORD_BYTES {
        return None;
    }
    let version = *vstd::slice::slice_index_get(s, 0);
    if version != CONFIG_VERSION {
        return None;
    }
    let roll = decode_axis(slice_subrange(s, 1, 29));
    let pitch = decode_axis(slice_subrange(s, 29, 57));
    let yaw = decode_axis(slice_subrange(s, 57, 85));
    match (roll, pitch, yaw) {
        (Some(roll), Some(pitch), Some(yaw)) => Some(
            Configuration { version, roll, pitch, yaw },
        ),
        _ => None,
    }
}

/// Round-trip law for one loop's gains.
proof fn lemma_gains_round_trip(g: AxisGains)
    requires
        g.wf(),
    ensures
        spec_encode_gains(g).len() == 12,
        spec_decode_gains(spec_encode_gains(g)) == Some(g),
{
    lemma_auto_spec_u32_to_from_le_bytes();
    let s = spec_encode_gains(g);
    assert_seqs_equal!(s.subrange(0, 4) == spec_u32_to_le_bytes(g.kp));
    assert_seqs_equal!(s.subrange(4, 8) == spec_u32_to_le_bytes(g.ki));
    assert_seqs_equal!(s.subrange(8, 12) == spec_u32_to_le_bytes(g.kd));
}

/// Round-trip law for one axis.
proof fn lemma_axis_round_trip(a: AxisConfig)
    requires
        a.wf(),
    ensures
        spec_encode_axis(a).len() == 28,
        spec_decode_axis(spec_encode_axis(a)) == Some(a),
{
    lemma_auto_spec_u32_to_from_le_bytes();
    lemma_gains_round_trip(a.orientation);
    lemma_gains_round_trip(a.rate);
    let s = spec_encode_axis(a);
    assert_seqs_equal!(s.subrange(0, 12) == spec_encode_gains(a.orientation));
    assert_seqs_equal!(s.subrange(12, 24) == spec_encode_gains(a.rate));
    assert_seqs_equal!(s.subrange(24, 28) == spec_u32_to_le_bytes(spec_trim_raw(a.trim)));
}

/// Round-trip law: any well-formed configuration decodes back to itself.
pub proof fn lemma_round_trip(c: Configuration)
    requires
        c.wf(),
    ensures
        spec_deserialize(spec_serialize(c)) == Some(c),
{
    lemma_auto_spec_u32_to_from_le_bytes();
    lemma_axis_round_trip(c.roll);
    lemma_axis_round_trip(c.pitch);
    lemma_axis_round_trip(c.yaw);
    let s = spec_serialize(c);
    assert(s[0] == c.version);
    assert_seqs_equal!(s.subrange(1, 29) == spec_encode_axis(c.roll));
    assert_seqs_equal!(s.subrange(29, 57) == spec_encode_axis(c.pitch));
    assert_seqs_equal!(s.subrange(57, 85) == spec_encode_axis(c.yaw));
}

} // verus!
