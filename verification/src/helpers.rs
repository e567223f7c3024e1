//! Handles on the host's suites and on the property and parameter sets they
//! act on. The suites' function tables are the host's; these helpers only
//! carry them together with the handle an operation applies to.

use vstd::prelude::*;

verus! {

/// The host's property suite.
pub struct PropertySuiteHelper<'data, S> {
    property_suite: &'data S,
}

impl<'data, S> PropertySuiteHelper<'data, S> {
    pub closed spec fn suite(&self) -> &'data S {
        self.property_suite
    }

    pub fn new(property_suite: &'data S) -> (r: Self)
        ensures
            r.suite() == property_suite,
    {
        PropertySuiteHelper { property_suite }
    }

    /// The suite's function table.
    pub fn inner(&self) -> (r: &S)
        ensures
            r == self.suite(),
    {
        self.property_suite
    }

    /// The property set `handle`, to be acted on with this suite.
    pub fn make_property_set_helper<H: Copy>(&self, handle: H) -> (r: PropertySetHelper<'data, S, H>)
        ensures
            r.suite() == self.suite(),
            r.props() == handle,
    {
        PropertySetHelper {
            property_suite_helper: PropertySuiteHelper { property_suite: self.property_suite },
            props: handle,
        }
    }
}

/// A property set together with the suite that acts on it.
pub struct PropertySetHelper<'data, S, H> {
    property_suite_helper: PropertySuiteHelper<'data, S>,
    props: H,
}

impl<'data, S, H: Copy> PropertySetHelper<'data, S, H> {
    pub closed spec fn suite(&self) -> &'data S {
        self.property_suite_helper.property_suite
    }

    pub closed spec fn spec_props(&self) -> H {
        self.props
    }

    #[verifier::when_used_as_spec(spec_props)]
    pub fn props(&self) -> (r: H)
        ensures
            r == self.spec_props(),
    {
        self.props
    }

    /// The property suite this set is acted on with.
    pub fn property_suite_helper(&self) -> (r: &PropertySuiteHelper<'data, S>)
        ensures
            r.suite() == self.suite(),
    {
        &self.property_suite_helper
    }
}

/// The host's image effect suite.
pub struct ImageEffectSuiteHelper<'data, S> {
    image_effect_suite: &'data S,
}

impl<'data, S> ImageEffectSuiteHelper<'data, S> {
    pub closed spec fn suite(&self) -> &'data S {
        self.image_effect_suite
    }

    pub fn new(image_effect_suite: &'data S) -> (r: Self)
        ensures
            r.suite() == image_effect_suite,
    {
        ImageEffectSuiteHelper { image_effect_suite }
    }

    /// The suite's function table.
    pub fn inner(&self) -> (r: &S)
        ensures
            r == self.suite(),
    {
        self.image_effect_suite
    }
}

/// The host's parameter suite.
pub struct ParameterSuiteHelper<'data, S> {
    parameter_suite: &'data S,
}

impl<'data, S> ParameterSuiteHelper<'data, S> {
    pub closed spec fn suite(&self) -> &'data S {
        self.parameter_suite
    }

    pub fn new(parameter_suite: &'data S) -> (r: Self)
        ensures
            r.suite() == parameter_suite,
    {
        ParameterSuiteHelper { parameter_suite }
    }

    /// The suite's function table.
    pub fn inner(&self) -> (r: &S)
        ensures
            r == self.suite(),
    {
        self.parameter_suite
    }

    /// The parameter set `handle`, to be acted on with this suite.
    pub fn make_param_set_helper<H: Copy>(&self, handle: H) -> (r: ParamSetHelper<'data, S, H>)
        ensures
            r.suite() == self.suite(),
            r.param_set() == handle,
    {
        ParamSetHelper {
            parameter_suite_helper: ParameterSuiteHelper { parameter_suite: self.parameter_suite },
            param_set: handle,
        }
    }
}

/// A parameter set together with the suite that acts on it.
pub struct ParamSetHelper<'data, S, H> {
    parameter_suite_helper: ParameterSuiteHelper<'data, S>,
    param_set: H,
}

impl<'data, S, H: Copy> ParamSetHelper<'data, S, H> {
    pub closed spec fn suite(&self) -> &'data S {
        self.parameter_suite_helper.parameter_suite
    }

    pub closed spec fn spec_param_set(&self) -> H {
        self.param_set
    }

    #[verifier::when_used_as_spec(spec_param_set)]
    pub fn param_set(&self) -> (r: H)
        ensures
            r == self.spec_param_set(),
    {
        self.param_set
    }

    /// The parameter suite this set is acted on with.
    pub fn parameter_suite_helper(&self) -> (r: &ParameterSuiteHelper<'data, S>)
        ensures
            r.suite() == self.suite(),
    {
        &self.parameter_suite_helper
    }
}

} // verus!
