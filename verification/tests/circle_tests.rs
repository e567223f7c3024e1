use std::cell::Cell;

use openfx_playground::circle::{growing_rod, region_of_definition_grows};
use openfx_playground::status::kOfxStatReplyDefault;

#[test]
fn grow_rod_is_off_without_its_parameter() {
    assert_eq!(growing_rod::<u8, _>(None, |_| Ok(1)), Ok(false));
    assert_eq!(growing_rod(Some(7u8), |p| Ok(p as i32)), Ok(true));
    assert_eq!(growing_rod(Some(0u8), |p| Ok(p as i32)), Ok(false));
    assert_eq!(growing_rod(Some(7u8), |_| Err(3)), Err(3));
}

#[test]
fn region_grows_only_on_multi_resolution_hosts_with_grow_rod_on() {
    let read = Cell::new(false);
    let r = region_of_definition_grows(false, || {
        read.set(true);
        Ok(true)
    });
    assert_eq!(r, Err(kOfxStatReplyDefault));
    assert!(!read.get());
    assert_eq!(region_of_definition_grows(true, || Ok(true)), Ok(()));
    assert_eq!(region_of_definition_grows(true, || Ok(false)), Err(kOfxStatReplyDefault));
    assert_eq!(region_of_definition_grows(true, || Err(2)), Err(2));
}
