use cute_copter::config::{Configuration, ParamError, GAIN_MAX, PARAM_TAG_COUNT, TRIM_LIMIT};

#[test]
fn default_configuration_values() {
    let c = Configuration::default();
    assert_eq!(c.version, 1);
    assert_eq!(c.roll.orientation.kp, 500);
    assert_eq!(c.roll.orientation.ki, 500);
    assert_eq!(c.roll.orientation.kd, 500);
    assert_eq!(c.roll.rate.kp, 500);
    assert_eq!(c.pitch.rate.ki, 500);
    assert_eq!(c.yaw.rate.kd, 500);
    assert_eq!(c.roll.trim, 0);
    assert_eq!(c.pitch.trim, 0);
    assert_eq!(c.yaw.trim, 0);
}

#[test]
fn write_then_read_gain() {
    let mut c = Configuration::default();
    assert_eq!(c.write_parameter(0, 750), Ok(()));
    assert_eq!(c.read_parameter(0), Ok(750));
    assert_eq!(c.roll.orientation.kp, 750);
    // The neighbouring fields are untouched.
    assert_eq!(c.read_parameter(1), Ok(500));
    assert_eq!(c.read_parameter(7), Ok(500));
}

#[test]
fn write_then_read_every_tag() {
    let mut c = Configuration::default();
    for tag in 0..PARAM_TAG_COUNT {
        let value = if tag % 7 == 6 { -5 - tag as i64 } else { 600 + tag as i64 };
        assert_eq!(c.write_parameter(tag, value), Ok(()));
        assert_eq!(c.read_parameter(tag), Ok(value));
    }
    // A second pass confirms no later write clobbered an earlier field.
    for tag in 0..PARAM_TAG_COUNT {
        let value = if tag % 7 == 6 { -5 - tag as i64 } else { 600 + tag as i64 };
        assert_eq!(c.read_parameter(tag), Ok(value));
    }
}

#[test]
fn unsupported_tag_is_rejected() {
    let mut c = Configuration::default();
    assert_eq!(c.read_parameter(PARAM_TAG_COUNT), Err(ParamError::Unsupported));
    assert_eq!(c.read_parameter(255), Err(ParamError::Unsupported));
    assert_eq!(c.write_parameter(PARAM_TAG_COUNT, 0), Err(ParamError::Unsupported));
    assert_eq!(c, Configuration::default());
}

#[test]
fn out_of_range_value_is_rejected() {
    let mut c = Configuration::default();
    // A gain must lie in [0, GAIN_MAX].
    assert_eq!(c.write_parameter(0, -1), Err(ParamError::OutOfRange));
    assert_eq!(c.write_parameter(0, GAIN_MAX as i64 + 1), Err(ParamError::OutOfRange));
    // A trim must lie in [-TRIM_LIMIT, TRIM_LIMIT].
    assert_eq!(c.write_parameter(6, TRIM_LIMIT as i64 + 1), Err(ParamError::OutOfRange));
    assert_eq!(c.write_parameter(6, -(TRIM_LIMIT as i64) - 1), Err(ParamError::OutOfRange));
    assert_eq!(c, Configuration::default());
}

#[test]
fn boundary_values_are_accepted() {
    let mut c = Configuration::default();
    assert_eq!(c.write_parameter(0, 0), Ok(()));
    assert_eq!(c.write_parameter(1, GAIN_MAX as i64), Ok(()));
    assert_eq!(c.write_parameter(6, TRIM_LIMIT as i64), Ok(()));
    assert_eq!(c.write_parameter(13, -(TRIM_LIMIT as i64)), Ok(()));
    assert_eq!(c.read_parameter(0), Ok(0));
    assert_eq!(c.read_parameter(1), Ok(GAIN_MAX as i64));
    assert_eq!(c.read_parameter(6), Ok(TRIM_LIMIT as i64));
    assert_eq!(c.read_parameter(13), Ok(-(TRIM_LIMIT as i64)));
}
