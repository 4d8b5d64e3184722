//! Sensor-facing data: one attitude sample, the externally supplied
//! target attitude, and the integer layer of FIFO-frame decoding.
//!
//! The inertial sensor delivers one orientation-plus-rate frame of
//! [`FRAME_BYTES`] bytes at its drain cadence; its first sixteen bytes are
//! the orientation quaternion as four big-endian 32-bit words. Turning
//! those words into Euler angles is the sensor driver's floating-point
//! business; the core consumes the result as fixed-point angles and rates.

use vstd::prelude::*;
use crate::cascade::{ATTITUDE_LIMIT, RATE_LIMIT};

verus! {

/// Size of one orientation-plus-rate FIFO frame.
pub const FRAME_BYTES: usize = 28;

/// One decoded sensor sample: fixed-point Euler angles and angular rates.
#[derive(Clone, Copy, Debug, PartialEq, Eq, Structural)]
pub struct AttitudeSample {
    pub roll: i32,
    pub pitch: i32,
    pub yaw: i32,
    pub roll_rate: i32,
    pub pitch_rate: i32,
    pub yaw_rate: i32,
}

impl AttitudeSample {
    /// Angles and rates within the ranges the cascade accepts.
    pub open spec fn wf(self) -> bool {
        &&& -ATTITUDE_LIMIT <= self.roll <= ATTITUDE_LIMIT
        &&& -ATTITUDE_LIMIT <= self.pitch <= ATTITUDE_LIMIT
        &&& -ATTITUDE_LIMIT <= self.yaw <= ATTITUDE_LIMIT
        &&& -RATE_LIMIT <= self.roll_rate <= RATE_LIMIT
        &&& -RATE_LIMIT <= self.pitch_rate <= RATE_LIMIT
        &&& -RATE_LIMIT <= self.yaw_rate <= RATE_LIMIT
    }
}

/// The target attitude, externally supplied with latest-wins semantics.
#[derive(Clone, Copy, Debug, PartialEq, Eq, Structural)]
pub struct DesiredAttitude {
    pub roll: i32,
    pub pitch: i32,
    pub yaw: i32,
}

impl DesiredAttitude {
    /// Targets within the range the cascade accepts.
    pub open spec fn wf(self) -> bool {
        &&& -ATTITUDE_LIMIT <= self.roll <= ATTITUDE_LIMIT
        &&& -ATTITUDE_LIMIT <= self.pitch <= ATTITUDE_LIMIT
        &&& -ATTITUDE_LIMIT <= self.yaw <= ATTITUDE_LIMIT
    }

    /// The level attitude.
    pub open spec fn level_spec() -> DesiredAttitude {
        DesiredAttitude { roll: 0, pitch: 0, yaw: 0 }
    }
}

impl Default for DesiredAttitude {
    /// The default target when no command has arrived: level, zero yaw.
    fn default() -> (d: Self)
        ensures
            d == DesiredAttitude::level_spec(),
            d.wf(),
    {
        DesiredAttitude { roll: 0, pitch: 0, yaw: 0 }
    }
}

/// A big-endian 32-bit word read from four bytes, reinterpreted as signed.
pub open spec fn spec_i32_from_be(s: Seq<u8>) -> i32
    recommends
        s.len() == 4,
{
    (((s[0] as u32) << 24) | ((s[1] as u32) << 16) | ((s[2] as u32) << 8) | (s[3] as u32)) as i32
}

/// Extracts the four big-endian quaternion words from the head of one FIFO
/// frame. The fixed-point words are what the sensor's motion processor
/// actually emits; any conversion to floating point happens outside the
/// core.
pub fn quaternion_words(frame: &[u8]) -> (words: Vec<i32>)
    requires
        frame@.len() == FRAME_BYTES,
    ensures
        words@.len() == 4,
        forall|k: int|
            0 <= k < 4 ==> words@[k] == spec_i32_from_be(frame@.subrange(4 * k, 4 * k + 4)),
{
    let mut words: Vec<i32> = Vec::new();
    let mut k: usize = 0;
    while k < 4
        invariant
            k <= 4,
            frame@.len() == FRAME_BYTES,
            words@.len() == k,
            forall|j: int|
                0 <= j < k ==> words@[j] == spec_i32_from_be(frame@.subrange(4 * j, 4 * j + 4)),
        decreases 4 - k,
    {
        let b0 = *vstd::slice::slice_index_get(frame, 4 * k);
        let b1 = *vstd::slice::slice_index_get(frame, 4 * k + 1);
        let b2 = *vstd::slice::slice_index_get(frame, 4 * k + 2);
        let b3 = *vstd::slice::slice_index_get(frame, 4 * k + 3);
        let raw: u32 = ((b0 as u32) << 24) | ((b1 as u32) << 16) | ((b2 as u32) << 8) | (b3
            as u32);
        let word = #[verifier::truncate] (raw as i32);
        proof {
            let s = frame@.subrange(4 * k as int, 4 * k as int + 4);
            assert(s[0] == frame@[4 * k as int]);
            assert(s[1] == frame@[4 * k as int + 1]);
            assert(s[2] == frame@[4 * k as int + 2]);
            assert(s[3] == frame@[4 * k as int + 3]);
        }
        words.push(word);
        k += 1;
    }
    words
}

} // verus!
