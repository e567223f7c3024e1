//! The OpenFX names that the plugins compare against or hand to the host.
#![allow(non_upper_case_globals)]

use vstd::prelude::*;

verus! {

pub const kOfxActionLoad: &'static str = "OfxActionLoad";
pub const kOfxActionUnload: &'static str = "OfxActionUnload";
pub const kOfxActionDescribe: &'static str = "OfxActionDescribe";
pub const kOfxActionCreateInstance: &'static str = "OfxActionCreateInstance";
pub const kOfxActionDestroyInstance: &'static str = "OfxActionDestroyInstance";
pub const kOfxImageEffectActionDescribeInContext: &'static str = "OfxImageEffectActionDescribeInContext";
pub const kOfxImageEffectActionIsIdentity: &'static str = "OfxImageEffectActionIsIdentity";
pub const kOfxImageEffectActionRender: &'static str = "OfxImageEffectActionRender";
pub const kOfxImageEffectActionGetRegionOfDefinition: &'static str =
    "OfxImageEffectActionGetRegionOfDefinition";

pub const kOfxBitDepthByte: &'static str = "OfxBitDepthByte";
pub const kOfxBitDepthShort: &'static str = "OfxBitDepthShort";
pub const kOfxBitDepthFloat: &'static str = "OfxBitDepthFloat";

pub const kOfxImageComponentRGBA: &'static str = "OfxImageComponentRGBA";
pub const kOfxImageComponentRGB: &'static str = "OfxImageComponentRGB";
pub const kOfxImageComponentAlpha: &'static str = "OfxImageComponentAlpha";

pub const kOfxImageEffectContextFilter: &'static str = "OfxImageEffectContextFilter";
pub const kOfxImageEffectContextGeneral: &'static str = "OfxImageEffectContextGeneral";

pub const kOfxPropLabel: &'static str = "OfxPropLabel";
pub const kOfxPropName: &'static str = "OfxPropName";
pub const kOfxImageEffectPluginPropGrouping: &'static str = "OfxImageEffectPluginPropGrouping";
pub const kOfxImageEffectPropSupportedContexts: &'static str = "OfxImageEffectPropSupportedContexts";
pub const kOfxImageEffectPropSupportedPixelDepths: &'static str =
    "OfxImageEffectPropSupportedPixelDepths";
pub const kOfxImageEffectPropSupportedComponents: &'static str =
    "OfxImageEffectPropSupportedComponents";
pub const kOfxImageEffectPluginRenderThreadSafety: &'static str =
    "OfxImageEffectPluginRenderThreadSafety";
pub const kOfxImageEffectRenderFullySafe: &'static str = "OfxImageEffectRenderFullySafe";
pub const kOfxImageEffectPluginPropHostFrameThreading: &'static str =
    "OfxImageEffectPluginPropHostFrameThreading";
pub const kOfxImageClipPropOptional: &'static str = "OfxImageClipPropOptional";
pub const kOfxImageClipPropIsMask: &'static str = "OfxImageClipPropIsMask";

pub const kOfxParamTypeBoolean: &'static str = "OfxParamTypeBoolean";
pub const kOfxParamPropDefault: &'static str = "OfxParamPropDefault";
pub const kOfxParamPropHint: &'static str = "OfxParamPropHint";
pub const kOfxParamPropEnabled: &'static str = "OfxParamPropEnabled";
pub const kOfxParamTypeString: &'static str = "OfxParamTypeString";

} // verus!
