use std::cell::Cell;

use openfx_playground::lifecycle::{
    OnceSlot, SetHostError, SharedSlot, additional_shared_data, api_version_string, check_host,
    install_host, read_api_version, require_instance_data, require_suite,
};
use openfx_playground::status::{
    kOfxStatErrBadHandle, kOfxStatErrFatal, kOfxStatErrMissingHostFeature,
};

#[test]
fn host_checks_in_order() {
    assert_eq!(check_host(false, false, false), Err(SetHostError::NullHostStruct));
    assert_eq!(check_host(true, false, false), Err(SetHostError::NullHost));
    assert_eq!(check_host(true, true, false), Err(SetHostError::NullFetchSuite));
    assert_eq!(check_host(true, true, true), Ok(()));
}

#[test]
fn host_error_messages() {
    assert_eq!(SetHostError::NullHostStruct.message(), "`host_struct` should not be null.");
    assert_eq!(SetHostError::NullHost.message(), "`host_struct.host` should not be null.");
    assert_eq!(
        SetHostError::NullFetchSuite.message(),
        "`host_struct.fetchSuite` should not be null."
    );
    assert_eq!(
        SetHostError::AlreadySet.message(),
        "`HOST_STRUCT` has already been initialized before."
    );
}

#[test]
fn host_is_registered_once() {
    let mut slot: OnceSlot<u32> = OnceSlot::new();
    assert_eq!(slot.get(), None);
    assert_eq!(install_host(&mut slot, Err(SetHostError::NullHost)), Err(SetHostError::NullHost));
    assert_eq!(slot.get(), None);
    assert_eq!(install_host(&mut slot, Ok(1)), Ok(()));
    assert_eq!(slot.get(), Some(&1));
    assert_eq!(install_host(&mut slot, Ok(2)), Err(SetHostError::AlreadySet));
    assert_eq!(slot.get(), Some(&1));
    assert_eq!(slot.set(3), Err(3));
}

#[test]
fn load_then_unload() {
    let mut slot: SharedSlot<&str> = SharedSlot::new();
    assert!(!slot.is_loaded());
    assert_eq!(slot.get(), Err(kOfxStatErrFatal));
    assert_eq!(slot.load("data"), Ok(()));
    assert_eq!(slot.get(), Ok(&"data"));
    assert_eq!(slot.unload(), Ok(()));
    assert!(!slot.is_loaded());
}

#[test]
fn loading_twice_is_fatal_and_keeps_the_first() {
    let mut slot: SharedSlot<u8> = SharedSlot::new();
    assert_eq!(slot.load(1), Ok(()));
    assert_eq!(slot.load(2), Err(kOfxStatErrFatal));
    assert_eq!(slot.get(), Ok(&1));
}

#[test]
fn unloading_without_load_is_fatal() {
    let mut slot: SharedSlot<u8> = SharedSlot::new();
    assert_eq!(slot.unload(), Err(kOfxStatErrFatal));
    assert_eq!(slot.load(5), Ok(()));
    assert_eq!(slot.unload(), Ok(()));
    assert_eq!(slot.unload(), Err(kOfxStatErrFatal));
}

#[test]
fn load_with_makes_data_only_when_empty() {
    let mut slot: SharedSlot<u8> = SharedSlot::new();
    let made = Cell::new(0);
    assert_eq!(slot.load_with(|| Err(kOfxStatErrMissingHostFeature)), Err(kOfxStatErrMissingHostFeature));
    assert!(!slot.is_loaded());
    assert_eq!(
        slot.load_with(|| {
            made.set(made.get() + 1);
            Ok(4)
        }),
        Ok(())
    );
    assert_eq!(
        slot.load_with(|| {
            made.set(made.get() + 1);
            Ok(5)
        }),
        Err(kOfxStatErrFatal)
    );
    assert_eq!(made.get(), 1);
    assert_eq!(slot.get(), Ok(&4));
}

#[test]
fn missing_suite_is_a_missing_host_feature() {
    assert_eq!(require_suite(Some(3)), Ok(3));
    assert_eq!(require_suite::<u8>(None), Err(kOfxStatErrMissingHostFeature));
}

#[test]
fn api_version_reads() {
    assert_eq!(read_api_version(1, || Ok(2), || Ok([9, 9])), Ok([2, 0]));
    assert_eq!(read_api_version(1, || Err(kOfxStatErrBadHandle), || Ok([9, 9])), Err(kOfxStatErrBadHandle));
    assert_eq!(read_api_version(2, || Ok(2), || Ok([1, 4])), Ok([1, 4]));
    assert_eq!(read_api_version(0, || Ok(2), || Err(7)), Err(7));
}

#[test]
fn old_hosts_are_refused() {
    assert!(matches!(additional_shared_data([1, 0], || Ok(1)), Err(e) if e == kOfxStatErrMissingHostFeature));
    assert!(matches!(additional_shared_data([1, 1], || Ok(1)), Err(e) if e == kOfxStatErrMissingHostFeature));
    let d = additional_shared_data([1, 2], || Ok(1)).unwrap();
    assert_eq!(d.api_version, [1, 2]);
    assert!(d.host_supports_multi_res);
    assert!(!additional_shared_data([1, 4], || Ok(0)).unwrap().host_supports_multi_res);
    assert!(!additional_shared_data([2, 0], || Err(3)).unwrap().host_supports_multi_res);
    assert!(!additional_shared_data([0, 9], || Ok(2)).unwrap().host_supports_multi_res);
    let read = std::cell::Cell::new(false);
    let r = additional_shared_data([1, 1], || {
        read.set(true);
        Ok(1)
    });
    assert!(matches!(r, Err(e) if e == kOfxStatErrMissingHostFeature));
    assert!(!read.get());
}

#[test]
fn api_version_strings() {
    assert_eq!(api_version_string([1, 4]), "1.4");
    assert_eq!(api_version_string([10, 0]), "10.0");
    assert_eq!(api_version_string([-3, 123]), "-3.123");
    assert_eq!(api_version_string([i32::MIN, i32::MAX]), format!("{}.{}", i32::MIN, i32::MAX));
}

#[test]
fn missing_instance_data_is_fatal() {
    assert_eq!(require_instance_data(Some(5)), Ok(5));
    assert_eq!(require_instance_data::<u8>(None), Err(kOfxStatErrFatal));
}
