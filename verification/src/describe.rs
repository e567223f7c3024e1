//! What each plugin tells the host about itself: the properties it sets when
//! described, and the clips it defines when described in a context.

use vstd::prelude::*;
use crate::action::Plugin;
use crate::names::{
    kOfxBitDepthByte, kOfxBitDepthFloat, kOfxBitDepthShort, kOfxImageClipPropIsMask,
    kOfxImageClipPropOptional, kOfxImageComponentAlpha, kOfxImageComponentRGB,
    kOfxImageComponentRGBA, kOfxImageEffectContextFilter, kOfxImageEffectContextGeneral,
    kOfxImageEffectPluginPropGrouping, kOfxImageEffectPluginPropHostFrameThreading,
    kOfxImageEffectPluginRenderThreadSafety, kOfxImageEffectPropSupportedComponents,
    kOfxImageEffectPropSupportedContexts, kOfxImageEffectPropSupportedPixelDepths,
    kOfxImageEffectRenderFullySafe, kOfxParamPropDefault, kOfxParamPropEnabled, kOfxParamPropHint,
    kOfxParamTypeBoolean, kOfxParamTypeString, kOfxPropLabel,
};
use crate::lifecycle::api_version_string;
use crate::text::int_decimal;

verus! {

/// One step of a description, carried out on the property set that the
/// steps before it selected (the effect's own at the start).
#[derive(Clone, Debug, PartialEq, Eq)]
pub enum Step {
    /// Defines a clip; the steps after it set the clip's properties.
    DefineClip(&'static str),
    /// Defines a parameter of a type and a name; the steps after it set the
    /// parameter's properties.
    DefineParam(&'static str, &'static str),
    /// Sets a string property at an index.
    SetString(&'static str, i32, &'static str),
    /// Sets a string property at an index to text made at run time.
    SetText(&'static str, i32, String),
    /// Sets an integer property at an index.
    SetInt(&'static str, i32, i32),
    /// Sets all the values of a string property at once.
    SetStrings(&'static str, &'static str, &'static str, Option<&'static str>),
}

pub open spec fn label(p: Plugin) -> &'static str {
    match p {
        Plugin::BasicMachinery => "OFX Basics Example",
        Plugin::Invert => "OFX Invert Example",
        Plugin::Saturation => "OFX Saturation Example",
        Plugin::Circle => "OFX Circle Example",
        Plugin::InspectInfo => "Inspect Info",
    }
}

pub open spec fn grouping(p: Plugin) -> &'static str {
    match p {
        Plugin::InspectInfo => "Umaĵo: Messing",
        _ => "OFX Example",
    }
}

/// The steps after the label and grouping: the supported contexts, and for
/// every plugin but the basic one the pixel depths (float, short, byte), full
/// render thread safety, and frame threading by the host.
pub open spec fn spec_describe_plan(p: Plugin) -> Seq<Step> {
    let head = seq![
        Step::SetString(kOfxPropLabel, 0, label(p)),
        Step::SetString(kOfxImageEffectPluginPropGrouping, 0, grouping(p)),
        Step::SetString(kOfxImageEffectPropSupportedContexts, 0, kOfxImageEffectContextFilter),
    ];
    let contexts = if p is Saturation {
        seq![Step::SetString(kOfxImageEffectPropSupportedContexts, 1, kOfxImageEffectContextGeneral)]
    } else {
        seq![]
    };
    let rest = seq![
        Step::SetString(kOfxImageEffectPropSupportedPixelDepths, 0, kOfxBitDepthFloat),
        Step::SetString(kOfxImageEffectPropSupportedPixelDepths, 1, kOfxBitDepthShort),
        Step::SetString(kOfxImageEffectPropSupportedPixelDepths, 2, kOfxBitDepthByte),
        Step::SetString(kOfxImageEffectPluginRenderThreadSafety, 0, kOfxImageEffectRenderFullySafe),
        Step::SetInt(kOfxImageEffectPluginPropHostFrameThreading, 0, 1),
    ];
    if p is BasicMachinery {
        head
    } else {
        head + contexts + rest
    }
}

/// The properties a plugin sets on its descriptor when described.
pub fn describe_plan(p: Plugin) -> (r: Vec<Step>)
    ensures
        r@ == spec_describe_plan(p),
{
    let l = match p {
        Plugin::BasicMachinery => "OFX Basics Example",
        Plugin::Invert => "OFX Invert Example",
        Plugin::Saturation => "OFX Saturation Example",
        Plugin::Circle => "OFX Circle Example",
        Plugin::InspectInfo => "Inspect Info",
    };
    let g = match p {
        Plugin::InspectInfo => "Umaĵo: Messing",
        _ => "OFX Example",
    };
    let mut v: Vec<Step> = Vec::new();
    v.push(Step::SetString(kOfxPropLabel, 0, l));
    v.push(Step::SetString(kOfxImageEffectPluginPropGrouping, 0, g));
    v.push(Step::SetString(kOfxImageEffectPropSupportedContexts, 0, kOfxImageEffectContextFilter));
    if matches!(p, Plugin::BasicMachinery) {
        assert(v@ =~= spec_describe_plan(p));
        return v;
    }
    if matches!(p, Plugin::Saturation) {
        v.push(
            Step::SetString(kOfxImageEffectPropSupportedContexts, 1, kOfxImageEffectContextGeneral),
        );
    }
    v.push(Step::SetString(kOfxImageEffectPropSupportedPixelDepths, 0, kOfxBitDepthFloat));
    v.push(Step::SetString(kOfxImageEffectPropSupportedPixelDepths, 1, kOfxBitDepthShort));
    v.push(Step::SetString(kOfxImageEffectPropSupportedPixelDepths, 2, kOfxBitDepthByte));
    v.push(
        Step::SetString(kOfxImageEffectPluginRenderThreadSafety, 0, kOfxImageEffectRenderFullySafe),
    );
    v.push(Step::SetInt(kOfxImageEffectPluginPropHostFrameThreading, 0, 1));
    assert(v@ =~= spec_describe_plan(p));
    v
}

/// The component steps of one clip of a plugin.
pub open spec fn clip_components(p: Plugin) -> Seq<Step> {
    let prop = kOfxImageEffectPropSupportedComponents;
    match p {
        Plugin::BasicMachinery => seq![
            Step::SetString(prop, 0, kOfxImageComponentRGBA),
            Step::SetString(prop, 1, kOfxImageComponentAlpha),
        ],
        Plugin::Invert => seq![
            Step::SetString(prop, 0, kOfxImageComponentRGBA),
            Step::SetString(prop, 1, kOfxImageComponentAlpha),
            Step::SetString(prop, 2, kOfxImageComponentRGB),
        ],
        Plugin::Saturation => seq![
            Step::SetString(prop, 0, kOfxImageComponentRGBA),
            Step::SetString(prop, 1, kOfxImageComponentRGB),
        ],
        Plugin::Circle => seq![
            Step::SetStrings(prop, kOfxImageComponentRGBA, kOfxImageComponentAlpha, Some(kOfxImageComponentRGB)),
        ],
        Plugin::InspectInfo => seq![
            Step::SetStrings(prop, kOfxImageComponentRGBA, kOfxImageComponentRGB, None),
        ],
    }
}

/// The clips a plugin defines when described in a context: an output and a
/// source clip with the components it supports, and, for the saturation
/// plugin in the general context, an optional alpha mask clip.
pub open spec fn spec_clip_plan(p: Plugin, general_context: bool) -> Seq<Step> {
    let clips = seq![Step::DefineClip("Output")] + clip_components(p) + seq![Step::DefineClip("Source")]
        + clip_components(p);
    if p is Saturation && general_context {
        clips + seq![
            Step::DefineClip("Mask"),
            Step::SetString(kOfxImageEffectPropSupportedComponents, 0, kOfxImageComponentAlpha),
            Step::SetInt(kOfxImageClipPropOptional, 0, 1),
            Step::SetInt(kOfxImageClipPropIsMask, 0, 1),
        ]
    } else {
        clips
    }
}

fn push_clip_components(v: &mut Vec<Step>, p: Plugin)
    ensures
        final(v)@ == old(v)@ + clip_components(p),
{
    let prop = kOfxImageEffectPropSupportedComponents;
    let ghost start = v@;
    match p {
        Plugin::BasicMachinery => {
            v.push(Step::SetString(prop, 0, kOfxImageComponentRGBA));
            v.push(Step::SetString(prop, 1, kOfxImageComponentAlpha));
        },
        Plugin::Invert => {
            v.push(Step::SetString(prop, 0, kOfxImageComponentRGBA));
            v.push(Step::SetString(prop, 1, kOfxImageComponentAlpha));
            v.push(Step::SetString(prop, 2, kOfxImageComponentRGB));
        },
        Plugin::Saturation => {
            v.push(Step::SetString(prop, 0, kOfxImageComponentRGBA));
            v.push(Step::SetString(prop, 1, kOfxImageComponentRGB));
        },
        Plugin::Circle => {
            v.push(
                Step::SetStrings(
                    prop,
                    kOfxImageComponentRGBA,
                    kOfxImageComponentAlpha,
                    Some(kOfxImageComponentRGB),
                ),
            );
        },
        Plugin::InspectInfo => {
            v.push(Step::SetStrings(prop, kOfxImageComponentRGBA, kOfxImageComponentRGB, None));
        },
    }
    assert(v@ =~= start + clip_components(p));
}

/// The clips a plugin defines when described in a context.
pub fn clip_plan(p: Plugin, general_context: bool) -> (r: Vec<Step>)
    ensures
        r@ == spec_clip_plan(p, general_context),
{
    let mut v: Vec<Step> = Vec::new();
    v.push(Step::DefineClip("Output"));
    push_clip_components(&mut v, p);
    v.push(Step::DefineClip("Source"));
    push_clip_components(&mut v, p);
    let ghost clips = v@;
    assert(clips =~= seq![Step::DefineClip("Output")] + clip_components(p) + seq![
        Step::DefineClip("Source"),
    ] + clip_components(p));
    if matches!(p, Plugin::Saturation) && general_context {
        v.push(Step::DefineClip("Mask"));
        v.push(Step::SetString(kOfxImageEffectPropSupportedComponents, 0, kOfxImageComponentAlpha));
        v.push(Step::SetInt(kOfxImageClipPropOptional, 0, 1));
        v.push(Step::SetInt(kOfxImageClipPropIsMask, 0, 1));
    }
    assert(v@ =~= spec_clip_plan(p, general_context));
    v
}

/// The circle plugin's parameter that grows the output's region of
/// definition: a boolean, off by default, defined only on hosts that support
/// multiple resolutions.
pub open spec fn spec_grow_rod_param_plan(host_supports_multi_res: bool) -> Seq<Step> {
    if host_supports_multi_res {
        seq![
            Step::DefineParam(kOfxParamTypeBoolean, "growRoD"),
            Step::SetInt(kOfxParamPropDefault, 0, 0),
            Step::SetString(kOfxPropLabel, 0, "Grow RoD"),
            Step::SetString(
                kOfxParamPropHint,
                0,
                "Whether to grow the output's Region of Definition to include the circle.",
            ),
        ]
    } else {
        seq![]
    }
}

/// The steps that define the circle plugin's grow-RoD parameter.
pub fn grow_rod_param_plan(host_supports_multi_res: bool) -> (r: Vec<Step>)
    ensures
        r@ == spec_grow_rod_param_plan(host_supports_multi_res),
{
    let mut v: Vec<Step> = Vec::new();
    if host_supports_multi_res {
        v.push(Step::DefineParam(kOfxParamTypeBoolean, "growRoD"));
        v.push(Step::SetInt(kOfxParamPropDefault, 0, 0));
        v.push(Step::SetString(kOfxPropLabel, 0, "Grow RoD"));
        v.push(
            Step::SetString(
                kOfxParamPropHint,
                0,
                "Whether to grow the output's Region of Definition to include the circle.",
            ),
        );
    }
    assert(v@ =~= spec_grow_rod_param_plan(host_supports_multi_res));
    v
}

/// The text of a host's OpenFX version: `major.minor` in decimal.
pub open spec fn version_text(api_version: Seq<i32>) -> Seq<char> {
    int_decimal(api_version[0] as int) + seq!['.'] + int_decimal(api_version[1] as int)
}

/// The inspect-info plugin's parameter that shows the host's OpenFX
/// version: a string whose default is the version text, labelled, with a
/// hint, and disabled so that it cannot be edited.
pub open spec fn version_param_plan_ok(plan: Seq<Step>, api_version: Seq<i32>) -> bool {
    &&& plan.len() == 5
    &&& plan[0] == Step::DefineParam(kOfxParamTypeString, "version")
    &&& plan[1] matches Step::SetText(p, i, t) && p == kOfxParamPropDefault && i == 0 && t@
        == version_text(api_version)
    &&& plan[2] == Step::SetString(kOfxPropLabel, 0, "OpenFX Version")
    &&& plan[3] == Step::SetString(kOfxParamPropHint, 0, "The Version of OpenFX the host supports.")
    &&& plan[4] == Step::SetInt(kOfxParamPropEnabled, 0, 0)
}

/// The steps that define the inspect-info plugin's version parameter.
pub fn version_param_plan(api_version: [i32; 2]) -> (r: Vec<Step>)
    ensures
        version_param_plan_ok(r@, api_version@),
{
    let mut v: Vec<Step> = Vec::new();
    v.push(Step::DefineParam(kOfxParamTypeString, "version"));
    v.push(Step::SetText(kOfxParamPropDefault, 0, api_version_string(api_version)));
    v.push(Step::SetString(kOfxPropLabel, 0, "OpenFX Version"));
    v.push(Step::SetString(kOfxParamPropHint, 0, "The Version of OpenFX the host supports."));
    v.push(Step::SetInt(kOfxParamPropEnabled, 0, 0));
    v
}

/// The clips each plugin defines when described in a context: an "Output"
/// and a "Source" clip, each supporting RGBA and alpha images for the basic
/// plugin, RGBA, alpha and RGB images for the invert plugin, RGBA and RGB
/// images for the saturation plugin (set one at a time), RGBA, alpha and RGB
/// for the circle plugin and RGBA and RGB for the inspect-info plugin (set
/// all at once); in the general context the saturation plugin adds an
/// optional alpha "Mask" clip.
pub proof fn lemma_clip_plans(general: bool)
    ensures
        spec_clip_plan(Plugin::BasicMachinery, general) == seq![
            Step::DefineClip("Output"),
            Step::SetString(kOfxImageEffectPropSupportedComponents, 0, kOfxImageComponentRGBA),
            Step::SetString(kOfxImageEffectPropSupportedComponents, 1, kOfxImageComponentAlpha),
            Step::DefineClip("Source"),
            Step::SetString(kOfxImageEffectPropSupportedComponents, 0, kOfxImageComponentRGBA),
            Step::SetString(kOfxImageEffectPropSupportedComponents, 1, kOfxImageComponentAlpha),
        ],
        spec_clip_plan(Plugin::Invert, general) == seq![
            Step::DefineClip("Output"),
            Step::SetString(kOfxImageEffectPropSupportedComponents, 0, kOfxImageComponentRGBA),
            Step::SetString(kOfxImageEffectPropSupportedComponents, 1, kOfxImageComponentAlpha),
            Step::SetString(kOfxImageEffectPropSupportedComponents, 2, kOfxImageComponentRGB),
            Step::DefineClip("Source"),
            Step::SetString(kOfxImageEffectPropSupportedComponents, 0, kOfxImageComponentRGBA),
            Step::SetString(kOfxImageEffectPropSupportedComponents, 1, kOfxImageComponentAlpha),
            Step::SetString(kOfxImageEffectPropSupportedComponents, 2, kOfxImageComponentRGB),
        ],
        spec_clip_plan(Plugin::Saturation, false) == seq![
            Step::DefineClip("Output"),
            Step::SetString(kOfxImageEffectPropSupportedComponents, 0, kOfxImageComponentRGBA),
            Step::SetString(kOfxImageEffectPropSupportedComponents, 1, kOfxImageComponentRGB),
            Step::DefineClip("Source"),
            Step::SetString(kOfxImageEffectPropSupportedComponents, 0, kOfxImageComponentRGBA),
            Step::SetString(kOfxImageEffectPropSupportedComponents, 1, kOfxImageComponentRGB),
        ],
        spec_clip_plan(Plugin::Saturation, true) == seq![
            Step::DefineClip("Output"),
            Step::SetString(kOfxImageEffectPropSupportedComponents, 0, kOfxImageComponentRGBA),
            Step::SetString(kOfxImageEffectPropSupportedComponents, 1, kOfxImageComponentRGB),
            Step::DefineClip("Source"),
            Step::SetString(kOfxImageEffectPropSupportedComponents, 0, kOfxImageComponentRGBA),
            Step::SetString(kOfxImageEffectPropSupportedComponents, 1, kOfxImageComponentRGB),
            Step::DefineClip("Mask"),
            Step::SetString(kOfxImageEffectPropSupportedComponents, 0, kOfxImageComponentAlpha),
            Step::SetInt(kOfxImageClipPropOptional, 0, 1),
            Step::SetInt(kOfxImageClipPropIsMask, 0, 1),
        ],
        spec_clip_plan(Plugin::Circle, general) == seq![
            Step::DefineClip("Output"),
            Step::SetStrings(
                kOfxImageEffectPropSupportedComponents,
                kOfxImageComponentRGBA,
                kOfxImageComponentAlpha,
                Some(kOfxImageComponentRGB),
            ),
            Step::DefineClip("Source"),
            Step::SetStrings(
                kOfxImageEffectPropSupportedComponents,
                kOfxImageComponentRGBA,
                kOfxImageComponentAlpha,
                Some(kOfxImageComponentRGB),
            ),
        ],
        spec_clip_plan(Plugin::InspectInfo, general) == seq![
            Step::DefineClip("Output"),
            Step::SetStrings(
                kOfxImageEffectPropSupportedComponents,
                kOfxImageComponentRGBA,
                kOfxImageComponentRGB,
                None,
            ),
            Step::DefineClip("Source"),
            Step::SetStrings(
                kOfxImageEffectPropSupportedComponents,
                kOfxImageComponentRGBA,
                kOfxImageComponentRGB,
                None,
            ),
        ],
{
    assert(spec_clip_plan(Plugin::BasicMachinery, general) =~= seq![
        Step::DefineClip("Output"),
        Step::SetString(kOfxImageEffectPropSupportedComponents, 0, kOfxImageComponentRGBA),
        Step::SetString(kOfxImageEffectPropSupportedComponents, 1, kOfxImageComponentAlpha),
        Step::DefineClip("Source"),
        Step::SetString(kOfxImageEffectPropSupportedComponents, 0, kOfxImageComponentRGBA),
        Step::SetString(kOfxImageEffectPropSupportedComponents, 1, kOfxImageComponentAlpha),
    ]);
    assert(spec_clip_plan(Plugin::Invert, general) =~= seq![
        Step::DefineClip("Output"),
        Step::SetString(kOfxImageEffectPropSupportedComponents, 0, kOfxImageComponentRGBA),
        Step::SetString(kOfxImageEffectPropSupportedComponents, 1, kOfxImageComponentAlpha),
        Step::SetString(kOfxImageEffectPropSupportedComponents, 2, kOfxImageComponentRGB),
        Step::DefineClip("Source"),
        Step::SetString(kOfxImageEffectPropSupportedComponents, 0, kOfxImageComponentRGBA),
        Step::SetString(kOfxImageEffectPropSupportedComponents, 1, kOfxImageComponentAlpha),
        Step::SetString(kOfxImageEffectPropSupportedComponents, 2, kOfxImageComponentRGB),
    ]);
    assert(spec_clip_plan(Plugin::Saturation, false) =~= seq![
        Step::DefineClip("Output"),
        Step::SetString(kOfxImageEffectPropSupportedComponents, 0, kOfxImageComponentRGBA),
        Step::SetString(kOfxImageEffectPropSupportedComponents, 1, kOfxImageComponentRGB),
        Step::DefineClip("Source"),
        Step::SetString(kOfxImageEffectPropSupportedComponents, 0, kOfxImageComponentRGBA),
        Step::SetString(kOfxImageEffectPropSupportedComponents, 1, kOfxImageComponentRGB),
    ]);
    assert(spec_clip_plan(Plugin::Saturation, true) =~= seq![
        Step::DefineClip("Output"),
        Step::SetString(kOfxImageEffectPropSupportedComponents, 0, kOfxImageComponentRGBA),
        Step::SetString(kOfxImageEffectPropSupportedComponents, 1, kOfxImageComponentRGB),
        Step::DefineClip("Source"),
        Step::SetString(kOfxImageEffectPropSupportedComponents, 0, kOfxImageComponentRGBA),
        Step::SetString(kOfxImageEffectPropSupportedComponents, 1, kOfxImageComponentRGB),
        Step::DefineClip("Mask"),
        Step::SetString(kOfxImageEffectPropSupportedComponents, 0, kOfxImageComponentAlpha),
        Step::SetInt(kOfxImageClipPropOptional, 0, 1),
        Step::SetInt(kOfxImageClipPropIsMask, 0, 1),
    ]);
    assert(spec_clip_plan(Plugin::Circle, general) =~= seq![
        Step::DefineClip("Output"),
        Step::SetStrings(
            kOfxImageEffectPropSupportedComponents,
            kOfxImageComponentRGBA,
            kOfxImageComponentAlpha,
            Some(kOfxImageComponentRGB),
        ),
        Step::DefineClip("Source"),
        Step::SetStrings(
            kOfxImageEffectPropSupportedComponents,
            kOfxImageComponentRGBA,
            kOfxImageComponentAlpha,
            Some(kOfxImageComponentRGB),
        ),
    ]);
    assert(spec_clip_plan(Plugin::InspectInfo, general) =~= seq![
        Step::DefineClip("Output"),
        Step::SetStrings(kOfxImageEffectPropSupportedComponents, kOfxImageComponentRGBA, kOfxImageComponentRGB, None),
        Step::DefineClip("Source"),
        Step::SetStrings(kOfxImageEffectPropSupportedComponents, kOfxImageComponentRGBA, kOfxImageComponentRGB, None),
    ]);
}

/// What each plugin sets on its descriptor: its label, the "OFX Example"
/// grouping (the inspect-info plugin's own grouping for it), and the filter
/// context; the saturation plugin adds the general context; every plugin but
/// the basic one then lists the float, short and byte pixel depths, full
/// render thread safety and frame threading by the host.
pub proof fn lemma_describe_plans()
    ensures
        spec_describe_plan(Plugin::BasicMachinery) == seq![
            Step::SetString(kOfxPropLabel, 0, "OFX Basics Example"),
            Step::SetString(kOfxImageEffectPluginPropGrouping, 0, "OFX Example"),
            Step::SetString(kOfxImageEffectPropSupportedContexts, 0, kOfxImageEffectContextFilter),
        ],
        spec_describe_plan(Plugin::Invert) == seq![
            Step::SetString(kOfxPropLabel, 0, "OFX Invert Example"),
            Step::SetString(kOfxImageEffectPluginPropGrouping, 0, "OFX Example"),
            Step::SetString(kOfxImageEffectPropSupportedContexts, 0, kOfxImageEffectContextFilter),
            Step::SetString(kOfxImageEffectPropSupportedPixelDepths, 0, kOfxBitDepthFloat),
            Step::SetString(kOfxImageEffectPropSupportedPixelDepths, 1, kOfxBitDepthShort),
            Step::SetString(kOfxImageEffectPropSupportedPixelDepths, 2, kOfxBitDepthByte),
            Step::SetString(
                kOfxImageEffectPluginRenderThreadSafety,
                0,
                kOfxImageEffectRenderFullySafe,
            ),
            Step::SetInt(kOfxImageEffectPluginPropHostFrameThreading, 0, 1),
        ],
        spec_describe_plan(Plugin::Saturation) == seq![
            Step::SetString(kOfxPropLabel, 0, "OFX Saturation Example"),
            Step::SetString(kOfxImageEffectPluginPropGrouping, 0, "OFX Example"),
            Step::SetString(kOfxImageEffectPropSupportedContexts, 0, kOfxImageEffectContextFilter),
            Step::SetString(kOfxImageEffectPropSupportedContexts, 1, kOfxImageEffectContextGeneral),
            Step::SetString(kOfxImageEffectPropSupportedPixelDepths, 0, kOfxBitDepthFloat),
            Step::SetString(kOfxImageEffectPropSupportedPixelDepths, 1, kOfxBitDepthShort),
            Step::SetString(kOfxImageEffectPropSupportedPixelDepths, 2, kOfxBitDepthByte),
            Step::SetString(
                kOfxImageEffectPluginRenderThreadSafety,
                0,
                kOfxImageEffectRenderFullySafe,
            ),
            Step::SetInt(kOfxImageEffectPluginPropHostFrameThreading, 0, 1),
        ],
        spec_describe_plan(Plugin::Circle) == seq![
            Step::SetString(kOfxPropLabel, 0, "OFX Circle Example"),
            Step::SetString(kOfxImageEffectPluginPropGrouping, 0, "OFX Example"),
            Step::SetString(kOfxImageEffectPropSupportedContexts, 0, kOfxImageEffectContextFilter),
            Step::SetString(kOfxImageEffectPropSupportedPixelDepths, 0, kOfxBitDepthFloat),
            Step::SetString(kOfxImageEffectPropSupportedPixelDepths, 1, kOfxBitDepthShort),
            Step::SetString(kOfxImageEffectPropSupportedPixelDepths, 2, kOfxBitDepthByte),
            Step::SetString(
                kOfxImageEffectPluginRenderThreadSafety,
                0,
                kOfxImageEffectRenderFullySafe,
            ),
            Step::SetInt(kOfxImageEffectPluginPropHostFrameThreading, 0, 1),
        ],
        spec_describe_plan(Plugin::InspectInfo) == seq![
            Step::SetString(kOfxPropLabel, 0, "Inspect Info"),
            Step::SetString(kOfxImageEffectPluginPropGrouping, 0, "Umaĵo: Messing"),
            Step::SetString(kOfxImageEffectPropSupportedContexts, 0, kOfxImageEffectContextFilter),
            Step::SetString(kOfxImageEffectPropSupportedPixelDepths, 0, kOfxBitDepthFloat),
            Step::SetString(kOfxImageEffectPropSupportedPixelDepths, 1, kOfxBitDepthShort),
            Step::SetString(kOfxImageEffectPropSupportedPixelDepths, 2, kOfxBitDepthByte),
            Step::SetString(
                kOfxImageEffectPluginRenderThreadSafety,
                0,
                kOfxImageEffectRenderFullySafe,
            ),
            Step::SetInt(kOfxImageEffectPluginPropHostFrameThreading, 0, 1),
        ],
{
    assert(spec_describe_plan(Plugin::BasicMachinery) =~= seq![
            Step::SetString(kOfxPropLabel, 0, "OFX Basics Example"),
            Step::SetString(kOfxImageEffectPluginPropGrouping, 0, "OFX Example"),
            Step::SetString(kOfxImageEffectPropSupportedContexts, 0, kOfxImageEffectContextFilter),
    ]);
    assert(spec_describe_plan(Plugin::Invert) =~= seq![
            Step::SetString(kOfxPropLabel, 0, "OFX Invert Example"),
            Step::SetString(kOfxImageEffectPluginPropGrouping, 0, "OFX Example"),
            Step::SetString(kOfxImageEffectPropSupportedContexts, 0, kOfxImageEffectContextFilter),
            Step::SetString(kOfxImageEffectPropSupportedPixelDepths, 0, kOfxBitDepthFloat),
            Step::SetString(kOfxImageEffectPropSupportedPixelDepths, 1, kOfxBitDepthShort),
            Step::SetString(kOfxImageEffectPropSupportedPixelDepths, 2, kOfxBitDepthByte),
            Step::SetString(
                kOfxImageEffectPluginRenderThreadSafety,
                0,
                kOfxImageEffectRenderFullySafe,
            ),
            Step::SetInt(kOfxImageEffectPluginPropHostFrameThreading, 0, 1),
    ]);
    assert(spec_describe_plan(Plugin::Saturation) =~= seq![
            Step::SetString(kOfxPropLabel, 0, "OFX Saturation Example"),
            Step::SetString(kOfxImageEffectPluginPropGrouping, 0, "OFX Example"),
            Step::SetString(kOfxImageEffectPropSupportedContexts, 0, kOfxImageEffectContextFilter),
            Step::SetString(kOfxImageEffectPropSupportedContexts, 1, kOfxImageEffectContextGeneral),
            Step::SetString(kOfxImageEffectPropSupportedPixelDepths, 0, kOfxBitDepthFloat),
            Step::SetString(kOfxImageEffectPropSupportedPixelDepths, 1, kOfxBitDepthShort),
            Step::SetString(kOfxImageEffectPropSupportedPixelDepths, 2, kOfxBitDepthByte),
            Step::SetString(
                kOfxImageEffectPluginRenderThreadSafety,
                0,
                kOfxImageEffectRenderFullySafe,
            ),
            Step::SetInt(kOfxImageEffectPluginPropHostFrameThreading, 0, 1),
    ]);
    assert(spec_describe_plan(Plugin::Circle) =~= seq![
            Step::SetString(kOfxPropLabel, 0, "OFX Circle Example"),
            Step::SetString(kOfxImageEffectPluginPropGrouping, 0, "OFX Example"),
            Step::SetString(kOfxImageEffectPropSupportedContexts, 0, kOfxImageEffectContextFilter),
            Step::SetString(kOfxImageEffectPropSupportedPixelDepths, 0, kOfxBitDepthFloat),
            Step::SetString(kOfxImageEffectPropSupportedPixelDepths, 1, kOfxBitDepthShort),
            Step::SetString(kOfxImageEffectPropSupportedPixelDepths, 2, kOfxBitDepthByte),
            Step::SetString(
                kOfxImageEffectPluginRenderThreadSafety,
                0,
                kOfxImageEffectRenderFullySafe,
            ),
            Step::SetInt(kOfxImageEffectPluginPropHostFrameThreading, 0, 1),
    ]);
    assert(spec_describe_plan(Plugin::InspectInfo) =~= seq![
            Step::SetString(kOfxPropLabel, 0, "Inspect Info"),
            Step::SetString(kOfxImageEffectPluginPropGrouping, 0, "Umaĵo: Messing"),
            Step::SetString(kOfxImageEffectPropSupportedContexts, 0, kOfxImageEffectContextFilter),
            Step::SetString(kOfxImageEffectPropSupportedPixelDepths, 0, kOfxBitDepthFloat),
            Step::SetString(kOfxImageEffectPropSupportedPixelDepths, 1, kOfxBitDepthShort),
            Step::SetString(kOfxImageEffectPropSupportedPixelDepths, 2, kOfxBitDepthByte),
            Step::SetString(
                kOfxImageEffectPluginRenderThreadSafety,
                0,
                kOfxImageEffectRenderFullySafe,
            ),
            Step::SetInt(kOfxImageEffectPluginPropHostFrameThreading, 0, 1),
    ]);
}

/// The grow-RoD parameter is defined, as a boolean "growRoD" that is off,
/// labelled "Grow RoD", exactly on hosts that support multiple resolutions.
pub proof fn lemma_grow_rod_param_plans()
    ensures
        spec_grow_rod_param_plan(false).len() == 0,
        spec_grow_rod_param_plan(true).len() == 4,
        spec_grow_rod_param_plan(true)[0] == Step::DefineParam(kOfxParamTypeBoolean, "growRoD"),
        spec_grow_rod_param_plan(true)[1] == Step::SetInt(kOfxParamPropDefault, 0, 0),
        spec_grow_rod_param_plan(true)[2] == Step::SetString(kOfxPropLabel, 0, "Grow RoD"),
        spec_grow_rod_param_plan(true)[3] matches Step::SetString(p, 0, _) && p == kOfxParamPropHint,
{
}

} // verus!
