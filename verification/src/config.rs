//! Tunable configuration: per-axis PID gains for both control loops, trim
//! offsets, and a schema version tag.
//!
//! Gains are fixed-point at [`crate::fixed::SCALE`]: a stored gain `g` stands
//! for `g / 1000`. Trims are fixed-point angles in the same scale as the
//! attitude inputs. Each parameter is addressable by a small integer tag so
//! that a command link can read and write fields without knowing the record
//! layout; tag `axis * 7 + field` selects axis 0..2 (roll, pitch, yaw) and
//! field 0..6 (orientation kp, ki, kd; rate kp, ki, kd; trim).

use vstd::prelude::*;

verus! {

/// Largest admissible gain (fixed-point, stands for a gain of 100.0).
pub const GAIN_MAX: u32 = 100_000;

/// Largest admissible trim magnitude (fixed-point angle units).
pub const TRIM_LIMIT: i32 = 10_000;

/// Version tag of the configuration schema this crate reads and writes.
pub const CONFIG_VERSION: u8 = 1;

/// Number of addressable parameter tags: seven fields on each of three axes.
pub const PARAM_TAG_COUNT: u8 = 21;

/// Error returned by tag-addressed parameter access.
#[derive(Clone, Copy, Debug, PartialEq, Eq, Structural)]
pub enum ParamError {
    /// The tag names no parameter of this schema.
    Unsupported,
    /// The value violates the parameter's declared bounds.
    OutOfRange,
}

/// The three PID gains of one control loop on one axis.
#[derive(Clone, Copy, Debug, PartialEq, Eq, Structural)]
pub struct AxisGains {
    pub kp: u32,
    pub ki: u32,
    pub kd: u32,
}

/// Everything the controller needs for one axis: gains for the outer
/// (orientation) and inner (rate) loop, and a trim offset added to the
/// desired angle.
#[derive(Clone, Copy, Debug, PartialEq, Eq, Structural)]
pub struct AxisConfig {
    pub orientation: AxisGains,
    pub rate: AxisGains,
    pub trim: i32,
}

/// The complete tunable record. Fixed, bounded binary size; owned by the
/// active `Copter` instance and immutable while armed.
#[derive(Clone, Copy, Debug, PartialEq, Eq, Structural)]
pub struct Configuration {
    pub version: u8,
    pub roll: AxisConfig,
    pub pitch: AxisConfig,
    pub yaw: AxisConfig,
}

impl AxisGains {
    /// All gains within their declared bounds.
    pub open spec fn wf(self) -> bool {
        self.kp <= GAIN_MAX && self.ki <= GAIN_MAX && self.kd <= GAIN_MAX
    }
}

impl AxisConfig {
    /// Both loops' gains and the trim within their declared bounds.
    pub open spec fn wf(self) -> bool {
        &&& self.orientation.wf()
        &&& self.rate.wf()
        &&& -TRIM_LIMIT <= self.trim <= TRIM_LIMIT
    }
}

impl Configuration {
    /// The record carries the current schema version and every field is
    /// within its declared bounds.
    pub open spec fn wf(self) -> bool {
        &&& self.version == CONFIG_VERSION
        &&& self.roll.wf()
        &&& self.pitch.wf()
        &&& self.yaw.wf()
    }
}

/// The documented default gains: 0.5 for every term of every loop.
pub open spec fn default_gains() -> AxisGains {
    AxisGains { kp: 500, ki: 500, kd: 500 }
}

/// The documented default per-axis record: default gains, zero trim.
pub open spec fn default_axis() -> AxisConfig {
    AxisConfig { orientation: default_gains(), rate: default_gains(), trim: 0 }
}

/// The documented default configuration, substituted whenever persistent
/// storage cannot supply a valid record.
pub open spec fn default_configuration() -> Configuration {
    Configuration {
        version: CONFIG_VERSION,
        roll: default_axis(),
        pitch: default_axis(),
        yaw: default_axis(),
    }
}

impl Default for Configuration {
    /// Builds the documented default configuration.
    fn default() -> (c: Self)
        ensures
            c == default_configuration(),
            c.wf(),
    {
        let gains = AxisGains { kp: 500, ki: 500, kd: 500 };
        let axis = AxisConfig { orientation: gains, rate: gains, trim: 0 };
        Configuration { version: CONFIG_VERSION, roll: axis, pitch: axis, yaw: axis }
    }
}

/// Whether a tag names a parameter of this schema.
pub open spec fn tag_supported(tag: u8) -> bool {
    tag < PARAM_TAG_COUNT
}

/// Whether a tag names a trim field (as opposed to a gain).
pub open spec fn tag_is_trim(tag: u8) -> bool {
    tag % 7 == 6
}

/// The declared lower bound of the parameter a tag names.
pub open spec fn param_min(tag: u8) -> int {
    if tag_is_trim(tag) {
        -TRIM_LIMIT as int
    } else {
        0
    }
}

/// The declared upper bound of the parameter a tag names.
pub open spec fn param_max(tag: u8) -> int {
    if tag_is_trim(tag) {
        TRIM_LIMIT as int
    } else {
        GAIN_MAX as int
    }
}

/// Whether a value respects the declared bounds of the parameter a tag names.
pub open spec fn param_in_range(tag: u8, value: int) -> bool {
    param_min(tag) <= value <= param_max(tag)
}

/// The field a tag's low part selects within one axis.
pub open spec fn axis_field(a: AxisConfig, field: u8) -> int
    recommends
        field < 7,
{
    if field == 0 {
        a.orientation.kp as int
    } else if field == 1 {
        a.orientation.ki as int
    } else if field == 2 {
        a.orientation.kd as int
    } else if field == 3 {
        a.rate.kp as int
    } else if field == 4 {
        a.rate.ki as int
    } else if field == 5 {
        a.rate.kd as int
    } else {
        a.trim as int
    }
}

/// One axis record with the selected field replaced by `value`.
pub open spec fn axis_with_field(a: AxisConfig, field: u8, value: int) -> AxisConfig
    recommends
        field < 7,
        param_in_range((field % 7) as u8, value),
{
    if field == 0 {
        AxisConfig { orientation: AxisGains { kp: value as u32, ..a.orientation }, ..a }
    } else if field == 1 {
        AxisConfig { orientation: AxisGains { ki: value as u32, ..a.orientation }, ..a }
    } else if field == 2 {
        AxisConfig { orientation: AxisGains { kd: value as u32, ..a.orientation }, ..a }
    } else if field == 3 {
        AxisConfig { rate: AxisGains { kp: value as u32, ..a.rate }, ..a }
    } else if field == 4 {
        AxisConfig { rate: AxisGains { ki: value as u32, ..a.rate }, ..a }
    } else if field == 5 {
        AxisConfig { rate: AxisGains { kd: value as u32, ..a.rate }, ..a }
    } else {
        AxisConfig { trim: value as i32, ..a }
    }
}

/// The axis a tag's high part selects.
pub open spec fn axis_of(c: Configuration, tag: u8) -> AxisConfig
    recommends
        tag_supported(tag),
{
    if tag / 7 == 0 {
        c.roll
    } else if tag / 7 == 1 {
        c.pitch
    } else {
        c.yaw
    }
}

/// The value of the parameter a tag names.
pub open spec fn spec_param(c: Configuration, tag: u8) -> int
    recommends
        tag_supported(tag),
{
    axis_field(axis_of(c, tag), (tag % 7) as u8)
}

/// The configuration with the parameter a tag names replaced by `value`.
pub open spec fn spec_with_param(c: Configuration, tag: u8, value: int) -> Configuration
    recommends
        tag_supported(tag),
        param_in_range(tag, value),
{
    if tag / 7 == 0 {
        Configuration { roll: axis_with_field(c.roll, (tag % 7) as u8, value), ..c }
    } else if tag / 7 == 1 {
        Configuration { pitch: axis_with_field(c.pitch, (tag % 7) as u8, value), ..c }
    } else {
        Configuration { yaw: axis_with_field(c.yaw, (tag % 7) as u8, value), ..c }
    }
}

impl AxisConfig {
    /// Reads the field a tag's low part selects.
    fn read_field(&self, field: u8) -> (r: i64)
        requires
            field < 7,
        ensures
            r == axis_field(*self, field),
    {
        if field == 0 {
            self.orientation.kp as i64
        } else if field == 1 {
            self.orientation.ki as i64
        } else if field == 2 {
            self.orientation.kd as i64
        } else if field == 3 {
            self.rate.kp as i64
        } else if field == 4 {
            self.rate.ki as i64
        } else if field == 5 {
            self.rate.kd as i64
        } else {
            self.trim as i64
        }
    }

    /// Replaces the field a tag's low part selects; the value must already
    /// have passed the range check for that field.
    fn write_field(&mut self, field: u8, value: i64)
        requires
            field < 7,
            param_in_range(field, value as int),
        ensures
            *final(self) == axis_with_field(*old(self), field, value as int),
    {
        if field == 0 {
            self.orientation.kp = value as u32;
        } else if field == 1 {
            self.orientation.ki = value as u32;
        } else if field == 2 {
            self.orientation.kd = value as u32;
        } else if field == 3 {
            self.rate.kp = value as u32;
        } else if field == 4 {
            self.rate.ki = value as u32;
        } else if field == 5 {
            self.rate.kd = value as u32;
        } else {
            self.trim = value as i32;
        }
    }
}

impl Configuration {
    /// Reads the parameter a tag names; `Unsupported` for a tag this schema
    /// does not define.
    pub fn read_parameter(&self, tag: u8) -> (r: Result<i64, ParamError>)
        ensures
            tag_supported(tag) ==> r == Ok::<i64, ParamError>(spec_param(*self, tag) as i64),
            !tag_supported(tag) ==> r == Err::<i64, ParamError>(ParamError::Unsupported),
    {
        if tag >= PARAM_TAG_COUNT {
            return Err(ParamError::Unsupported);
        }
        let axis = if tag / 7 == 0 {
            &self.roll
        } else if tag / 7 == 1 {
            &self.pitch
        } else {
            &self.yaw
        };
        Ok(axis.read_field(tag % 7))
    }

    /// Writes the parameter a tag names; `Unsupported` for a tag this schema
    /// does not define, `OutOfRange` for a value outside the parameter's
    /// declared bounds. On either error the record is unchanged.
    pub fn write_parameter(&mut self, tag: u8, value: i64) -> (r: Result<(), ParamError>)
        ensures
            !tag_supported(tag) ==> r == Err::<(), ParamError>(ParamError::Unsupported)
                && *final(self) == *old(self),
            tag_supported(tag) && !param_in_range(tag, value as int) ==> r == Err::<(),
                ParamError,
            >(ParamError::OutOfRange) && *final(self) == *old(self),
            tag_supported(tag) && param_in_range(tag, value as int) ==> r == Ok::<(),
                ParamError,
            >(()) && *final(self) == spec_with_param(*old(self), tag, value as int),
            old(self).wf() ==> final(self).wf(),
    {
        if tag >= PARAM_TAG_COUNT {
            return Err(ParamError::Unsupported);
        }
        let field = tag % 7;
        let lo: i64 = if field == 6 {
            -TRIM_LIMIT as i64
        } else {
            0
        };
        let hi: i64 = if field == 6 {
            TRIM_LIMIT as i64
        } else {
            GAIN_MAX as i64
        };
        if value < lo || value > hi {
            return Err(ParamError::OutOfRange);
        }
        if tag / 7 == 0 {
            self.roll.write_field(field, value);
        } else if tag / 7 == 1 {
            self.pitch.write_field(field, value);
        } else {
            self.yaw.write_field(field, value);
        }
        Ok(())
    }
}

/// Reading back a parameter just written returns the written value.
pub proof fn lemma_param_round_trip(c: Configuration, tag: u8, value: int)
    requires
        tag_supported(tag),
        param_in_range(tag, value),
    ensures
        spec_param(spec_with_param(c, tag, value), tag) == value,
{
}

} // verus!
