//! The circle plugin's decisions on whether the output's region of
//! definition grows to hold the circle; the circle itself is float work.

use vstd::prelude::*;
use crate::status::{OfxResult, kOfxStatReplyDefault};

verus! {

/// Whether the grow-RoD parameter is on: it is off on hosts where it was
/// not defined, and on when its value is not zero.
pub fn growing_rod<P, F: FnOnce(P) -> OfxResult<i32>>(grow_rod_param: Option<P>, read: F) -> (r:
    OfxResult<bool>)
    requires
        grow_rod_param matches Some(p) ==> read.requires((p,)),
    ensures
        grow_rod_param is None ==> r == Ok::<bool, i32>(false),
        grow_rod_param matches Some(p) ==> exists|v: OfxResult<i32>|
            #![trigger read.ensures((p,), v)]
            read.ensures((p,), v) && r == match v {
                Ok(x) => Ok::<bool, i32>(x != 0),
                Err(e) => Err(e),
            },
{
    match grow_rod_param {
        None => Ok(false),
        Some(p) => match read(p) {
            Ok(x) => Ok(x != 0),
            Err(e) => Err(e),
        },
    }
}

/// Whether the plugin sets the output's region of definition itself: only
/// on hosts that support multiple resolutions, and only when the grow-RoD
/// parameter, read by `read_growing`, is on; otherwise the host's default
/// region is kept (`kOfxStatReplyDefault`).
pub fn region_of_definition_grows<F: FnOnce() -> OfxResult<bool>>(
    host_supports_multi_res: bool,
    read_growing: F,
) -> (r: OfxResult<()>)
    requires
        host_supports_multi_res ==> read_growing.requires(()),
    ensures
        !host_supports_multi_res ==> r == Err::<(), i32>(kOfxStatReplyDefault),
        host_supports_multi_res ==> exists|g: OfxResult<bool>|
            #![trigger read_growing.ensures((), g)]
            read_growing.ensures((), g) && r == match g {
                Ok(true) => Ok::<(), i32>(()),
                Ok(false) => Err(kOfxStatReplyDefault),
                Err(e) => Err(e),
            },
{
    if !host_supports_multi_res {
        return Err(kOfxStatReplyDefault);
    }
    match read_growing() {
        Ok(true) => Ok(()),
        Ok(false) => Err(kOfxStatReplyDefault),
        Err(e) => Err(e),
    }
}

} // verus!
