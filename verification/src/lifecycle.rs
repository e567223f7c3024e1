//! The plugin's life cycle: the host is registered once, the shared data is
//! loaded once and unloaded once, and what is learnt of the host on load.

use vstd::prelude::*;
use crate::status::{OfxResult, kOfxStatErrFatal, kOfxStatErrMissingHostFeature};
use crate::text::{i32_to_decimal, int_decimal};
use vstd::string::*;

verus! {

/// Why registering the host failed.
#[derive(Clone, Copy, Debug, PartialEq, Eq, Structural)]
pub enum SetHostError {
    NullHostStruct,
    NullHost,
    NullFetchSuite,
    AlreadySet,
}

pub open spec fn spec_set_host_message(e: SetHostError) -> Seq<char> {
    match e {
        SetHostError::NullHostStruct => "`host_struct` should not be null."@,
        SetHostError::NullHost => "`host_struct.host` should not be null."@,
        SetHostError::NullFetchSuite => "`host_struct.fetchSuite` should not be null."@,
        SetHostError::AlreadySet => "`HOST_STRUCT` has already been initialized before."@,
    }
}

impl SetHostError {
    /// The message that is logged when registering the host failed.
    pub fn message(&self) -> (r: &'static str)
        ensures
            r@ == spec_set_host_message(*self),
    {
        match self {
            SetHostError::NullHostStruct => "`host_struct` should not be null.",
            SetHostError::NullHost => "`host_struct.host` should not be null.",
            SetHostError::NullFetchSuite => "`host_struct.fetchSuite` should not be null.",
            SetHostError::AlreadySet => "`HOST_STRUCT` has already been initialized before.",
        }
    }
}

/// The checks on the structure the host hands to `setHost`, in order: the
/// structure, its property set, and its suite-fetching function must be set.
pub fn check_host(host_struct_present: bool, host_present: bool, fetch_suite_present: bool) -> (r:
    Result<(), SetHostError>)
    ensures
        r == if !host_struct_present {
            Err(SetHostError::NullHostStruct)
        } else if !host_present {
            Err(SetHostError::NullHost)
        } else if !fetch_suite_present {
            Err(SetHostError::NullFetchSuite)
        } else {
            Ok(())
        },
{
    if !host_struct_present {
        Err(SetHostError::NullHostStruct)
    } else if !host_present {
        Err(SetHostError::NullHost)
    } else if !fetch_suite_present {
        Err(SetHostError::NullFetchSuite)
    } else {
        Ok(())
    }
}

/// A value that is set at most once.
pub struct OnceSlot<T> {
    value: Option<T>,
}

impl<T> View for OnceSlot<T> {
    type V = Option<T>;

    closed spec fn view(&self) -> Option<T> {
        self.value
    }
}

impl<T> OnceSlot<T> {
    pub fn new() -> (s: Self)
        ensures
            s@ is None,
    {
        OnceSlot { value: None }
    }

    /// Sets the value unless it was set before, in which case the value
    /// offered is handed back.
    pub fn set(&mut self, v: T) -> (r: Result<(), T>)
        ensures
            old(self)@ is None ==> r is Ok && final(self)@ == Some(v),
            old(self)@ is Some ==> r == Err::<(), T>(v) && final(self)@ == old(self)@,
    {
        if self.value.is_some() {
            Err(v)
        } else {
            self.value = Some(v);
            Ok(())
        }
    }

    pub fn get(&self) -> (r: Option<&T>)
        ensures
            match self@ {
                Some(v) => r == Some(&v),
                None => r is None,
            },
    {
        match &self.value {
            Some(v) => Some(v),
            None => None,
        }
    }
}

/// Registers the host: the structure's checks, then the one-time slot.
pub fn install_host<T>(slot: &mut OnceSlot<T>, checked: Result<T, SetHostError>) -> (r: Result<
    (),
    SetHostError,
>)
    ensures
        match checked {
            Err(e) => r == Err::<(), SetHostError>(e) && final(slot)@ == old(slot)@,
            Ok(v) => if old(slot)@ is None {
                r is Ok && final(slot)@ == Some(v)
            } else {
                r == Err::<(), SetHostError>(SetHostError::AlreadySet) && final(slot)@ == old(
                    slot,
                )@
            },
        },
{
    match checked {
        Err(e) => Err(e),
        Ok(v) => match slot.set(v) {
            Ok(()) => Ok(()),
            Err(_) => Err(SetHostError::AlreadySet),
        },
    }
}

/// The state and result after a load: loading twice is fatal.
pub open spec fn spec_load<T>(state: Option<T>, data: T) -> (Option<T>, OfxResult<()>) {
    match state {
        Some(_) => (state, Err(kOfxStatErrFatal)),
        None => (Some(data), Ok(())),
    }
}

/// The state and result after an unload: unloading what was not loaded is
/// fatal.
pub open spec fn spec_unload<T>(state: Option<T>) -> (Option<T>, OfxResult<()>) {
    match state {
        Some(_) => (None, Ok(())),
        None => (None, Err(kOfxStatErrFatal)),
    }
}

/// The data a plugin keeps between its load and its unload.
pub struct SharedSlot<T> {
    data: Option<T>,
}

impl<T> View for SharedSlot<T> {
    type V = Option<T>;

    closed spec fn view(&self) -> Option<T> {
        self.data
    }
}

impl<T> SharedSlot<T> {
    pub fn new() -> (s: Self)
        ensures
            s@ is None,
    {
        SharedSlot { data: None }
    }

    pub fn is_loaded(&self) -> (r: bool)
        ensures
            r == self@ is Some,
    {
        self.data.is_some()
    }

    /// Stores the data of a load.
    pub fn load(&mut self, data: T) -> (r: OfxResult<()>)
        ensures
            (final(self)@, r) == spec_load(old(self)@, data),
    {
        if self.data.is_some() {
            Err(kOfxStatErrFatal)
        } else {
            self.data = Some(data);
            Ok(())
        }
    }

    /// Stores the data of a load that is made only when nothing is loaded
    /// yet; a failure to make it is the load's failure.
    pub fn load_with<F: FnOnce() -> OfxResult<T>>(&mut self, make: F) -> (r: OfxResult<()>)
        requires
            old(self)@ is None ==> make.requires(()),
        ensures
            old(self)@ is Some ==> r == Err::<(), i32>(kOfxStatErrFatal) && final(self)@ == old(
                self,
            )@,
            old(self)@ is None ==> exists|made: OfxResult<T>|
                #![trigger make.ensures((), made)]
                make.ensures((), made) && match made {
                    Ok(data) => r is Ok && final(self)@ == Some(data),
                    Err(e) => r == Err::<(), i32>(e) && final(self)@ is None,
                },
    {
        if self.data.is_some() {
            return Err(kOfxStatErrFatal);
        }
        let made = make();
        match made {
            Ok(data) => {
                self.data = Some(data);
                Ok(())
            },
            Err(e) => Err(e),
        }
    }

    /// Drops the data of the last load.
    pub fn unload(&mut self) -> (r: OfxResult<()>)
        ensures
            (final(self)@, r) == spec_unload(old(self)@),
    {
        match self.data.take() {
            Some(_) => Ok(()),
            None => Err(kOfxStatErrFatal),
        }
    }

    /// The loaded data; it is fatal to ask before a load.
    pub fn get(&self) -> (r: OfxResult<&T>)
        ensures
            match self@ {
                Some(d) => r == Ok::<&T, i32>(&d),
                None => r == Err::<&T, i32>(kOfxStatErrFatal),
            },
    {
        match &self.data {
            Some(d) => Ok(d),
            None => Err(kOfxStatErrFatal),
        }
    }
}

/// A load followed by an unload succeeds twice and leaves nothing loaded.
pub proof fn lemma_load_then_unload<T>(data: T)
    ensures
        spec_load(None, data).1 is Ok,
        spec_unload(spec_load(None, data).0) == (None::<T>, Ok::<(), i32>(())),
{
}

/// A second load fails with `kOfxStatErrFatal` and keeps the first data.
pub proof fn lemma_load_twice<T>(first: T, second: T)
    ensures
        spec_load(spec_load(None, first).0, second) == (Some(first), Err::<(), i32>(kOfxStatErrFatal)),
{
}

/// An unload without a load fails with `kOfxStatErrFatal`, and so does a
/// second unload after a load.
pub proof fn lemma_unload_without_load<T>(data: T)
    ensures
        spec_unload(None::<T>) == (None::<T>, Err::<(), i32>(kOfxStatErrFatal)),
        spec_unload(spec_unload(spec_load(None, data).0).0) == (None::<T>, Err::<(), i32>(
            kOfxStatErrFatal,
        )),
{
}

/// A suite that the host returned, or `kOfxStatErrMissingHostFeature` when it
/// returned none.
pub fn require_suite<S>(suite: Option<S>) -> (r: OfxResult<S>)
    ensures
        match suite {
            Some(s) => r == Ok::<S, i32>(s),
            None => r == Err::<S, i32>(kOfxStatErrMissingHostFeature),
        },
{
    match suite {
        Some(s) => Ok(s),
        None => Err(kOfxStatErrMissingHostFeature),
    }
}

/// What a plugin learns of the host when it loads.
#[derive(Clone, Copy, Debug)]
pub struct AdditionalSharedData {
    pub api_version: [i32; 2],
    pub host_supports_multi_res: bool,
}

/// The host's OpenFX version, read as one number (the major version, with
/// minor version 0) when the version property has one value, or as two
/// otherwise.
pub fn read_api_version<F1: FnOnce() -> OfxResult<i32>, F2: FnOnce() -> OfxResult<[i32; 2]>>(
    dimension: i32,
    read_major: F1,
    read_both: F2,
) -> (r: OfxResult<[i32; 2]>)
    requires
        dimension == 1 ==> read_major.requires(()),
        dimension != 1 ==> read_both.requires(()),
    ensures
        dimension == 1 ==> exists|m: OfxResult<i32>|
            #![trigger read_major.ensures((), m)]
            read_major.ensures((), m) && match m {
                Ok(v) => (r matches Ok(a) && a@ == seq![v, 0i32]),
                Err(e) => r == Err::<[i32; 2], i32>(e),
            },
        dimension != 1 ==> exists|b: OfxResult<[i32; 2]>|
            #![trigger read_both.ensures((), b)]
            read_both.ensures((), b) && r == b,
{
    if dimension == 1 {
        match read_major() {
            Ok(v) => {
                let a = [v, 0];
                assert(a@ =~= seq![v, 0i32]);
                Ok(a)
            },
            Err(e) => Err(e),
        }
    } else {
        read_both()
    }
}

/// Whether the host's OpenFX version is supported: version 1.0 and 1.1 are
/// not.
pub open spec fn spec_api_version_supported(v: Seq<i32>) -> bool {
    !(v[0] == 1 && v[1] < 2)
}

/// What the circle plugin keeps from the host's properties: its version,
/// which must be 1.2 or later, and whether it supports multiple resolutions,
/// which it does only when the property reads as 1 (a failed read counts as
/// 0). The property is read only for a supported version.
pub fn additional_shared_data<F: FnOnce() -> OfxResult<i32>>(
    api_version: [i32; 2],
    read_multi_res: F,
) -> (r: OfxResult<AdditionalSharedData>)
    requires
        spec_api_version_supported(api_version@) ==> read_multi_res.requires(()),
    ensures
        spec_api_version_supported(api_version@) ==> exists|m: OfxResult<i32>|
            #![trigger read_multi_res.ensures((), m)]
            read_multi_res.ensures((), m) && (r matches Ok(d) && d.api_version == api_version
                && d.host_supports_multi_res == (m == Ok::<i32, i32>(1))),
        !spec_api_version_supported(api_version@) ==> r == Err::<AdditionalSharedData, i32>(
            kOfxStatErrMissingHostFeature,
        ),
{
    if api_version[0] == 1 && api_version[1] < 2 {
        return Err(kOfxStatErrMissingHostFeature);
    }
    let m = read_multi_res();
    let multi = match m {
        Ok(v) => v,
        Err(_) => 0,
    };
    Ok(AdditionalSharedData { api_version, host_supports_multi_res: multi == 1 })
}

/// The host's OpenFX version as the inspect-info plugin shows it:
/// `major.minor` in decimal.
pub fn api_version_string(api_version: [i32; 2]) -> (r: String)
    ensures
        r@ == int_decimal(api_version@[0] as int) + seq!['.'] + int_decimal(api_version@[1] as int),
{
    let mut s = i32_to_decimal(api_version[0]);
    proof {
        reveal_strlit(".");
    }
    s.append(".");
    let minor = i32_to_decimal(api_version[1]);
    s.append(minor.as_str());
    s
}

/// The data an instance keeps, once read from its properties: an instance
/// without data was never created by the plugin, which is fatal.
pub fn require_instance_data<T>(data: Option<T>) -> (r: OfxResult<T>)
    ensures
        match data {
            Some(d) => r == Ok::<T, i32>(d),
            None => r == Err::<T, i32>(kOfxStatErrFatal),
        },
{
    match data {
        Some(d) => Ok(d),
        None => Err(kOfxStatErrFatal),
    }
}

/// Every host of OpenFX 1.2 or later is supported, and so is every host
/// whose major version is not 1; only OpenFX 1.0 and 1.1 are refused.
pub proof fn lemma_supported_versions(major: i32, minor: i32)
    ensures
        major == 1 && minor >= 2 ==> spec_api_version_supported(seq![major, minor]),
        major != 1 ==> spec_api_version_supported(seq![major, minor]),
        major == 1 && minor < 2 ==> !spec_api_version_supported(seq![major, minor]),
        spec_api_version_supported(seq![1i32, 0i32]) == false,
        spec_api_version_supported(seq![1i32, 1i32]) == false,
{
}

} // verus!
