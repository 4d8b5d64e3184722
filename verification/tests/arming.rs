use cute_copter::config::{Configuration, ParamError};
use cute_copter::state_machine::Copter;
use cute_copter::storage::{
    load_from_flash, RamStorage, StoreError, CONFIG_OFFSET, ERASE_BLOCK_BYTES,
};

const MEDIA_BYTES: usize = CONFIG_OFFSET + ERASE_BLOCK_BYTES;

#[test]
fn arm_persists_and_transitions() {
    let mut store = RamStorage::new(MEDIA_BYTES);
    let copter = Copter::from_config(Configuration::default());
    let armed = match copter.arm(&mut store) {
        Ok(armed) => armed,
        Err((_, e)) => panic!("arming against a healthy store failed: {:?}", e),
    };
    // The configuration was persisted as part of the transition.
    assert_eq!(load_from_flash(&store), Configuration::default());
    assert_eq!(*armed.config(), Configuration::default());
}

#[test]
fn arm_write_failure_returns_unchanged_copter() {
    let mut store = RamStorage::new(MEDIA_BYTES);
    let mut copter = Copter::from_config(Configuration::default());
    copter.set_parameter(2, 800).unwrap();
    let before = *copter.config();

    store.fail_write = true;
    let (copter, err) = match copter.arm(&mut store) {
        Ok(_) => panic!("arming must not succeed when the store rejects the write"),
        Err(pair) => pair,
    };
    assert_eq!(err, StoreError::WriteFailed);
    assert_eq!(*copter.config(), before);

    // The same copter can retry once the medium recovers.
    store.fail_write = false;
    let armed = copter.arm(&mut store).map_err(|(_, e)| e).unwrap();
    assert_eq!(*armed.config(), before);
    assert_eq!(load_from_flash(&store), before);
}

#[test]
fn arm_erase_failure_returns_unchanged_copter() {
    let mut store = RamStorage::new(MEDIA_BYTES);
    store.fail_erase = true;
    let copter = Copter::from_config(Configuration::default());
    let (copter, err) = copter.arm(&mut store).err().unwrap();
    assert_eq!(err, StoreError::EraseFailed);
    assert_eq!(*copter.config(), Configuration::default());
}

#[test]
fn disarm_restores_parameter_access() {
    let mut store = RamStorage::new(MEDIA_BYTES);
    let copter = Copter::from_config(Configuration::default());
    let armed = copter.arm(&mut store).map_err(|(_, e)| e).unwrap();
    // `Copter<Armed>` has no parameter methods at all — writing while armed
    // is rejected by the type system, not at runtime. After disarming, the
    // capability is back.
    let mut copter = armed.disarm();
    assert_eq!(copter.set_parameter(0, 900), Ok(()));
    assert_eq!(copter.read(0), Ok(900));
}

#[test]
fn parameter_errors_surface_on_the_copter() {
    let mut copter = Copter::from_config(Configuration::default());
    assert_eq!(copter.set_parameter(99, 1), Err(ParamError::Unsupported));
    assert_eq!(copter.set_parameter(0, -1), Err(ParamError::OutOfRange));
    assert_eq!(copter.read(99), Err(ParamError::Unsupported));
    assert_eq!(*copter.config(), Configuration::default());
}

#[test]
fn configuration_survives_reboot() {
    let mut store = RamStorage::new(MEDIA_BYTES);
    let mut copter = Copter::from_config(Configuration::default());
    copter.set_parameter(4, 725).unwrap();
    copter.set_parameter(20, -42).unwrap();
    let persisted = *copter.config();
    let _armed = copter.arm(&mut store).map_err(|(_, e)| e).unwrap();

    // Power loss: only the storage medium survives. The next boot loads
    // the configuration the vehicle last armed with.
    let rebooted = Copter::from_config(load_from_flash(&store));
    assert_eq!(*rebooted.config(), persisted);
}
