use openfx_playground::action::Plugin;
use openfx_playground::describe::{
    Step, clip_plan, describe_plan, grow_rod_param_plan, version_param_plan,
};

#[test]
fn basic_plugin_describes_label_grouping_context() {
    assert_eq!(
        describe_plan(Plugin::BasicMachinery),
        vec![
            Step::SetString("OfxPropLabel", 0, "OFX Basics Example"),
            Step::SetString("OfxImageEffectPluginPropGrouping", 0, "OFX Example"),
            Step::SetString("OfxImageEffectPropSupportedContexts", 0, "OfxImageEffectContextFilter"),
        ]
    );
}

#[test]
fn invert_plugin_describes_depths_and_threading() {
    assert_eq!(
        describe_plan(Plugin::Invert),
        vec![
            Step::SetString("OfxPropLabel", 0, "OFX Invert Example"),
            Step::SetString("OfxImageEffectPluginPropGrouping", 0, "OFX Example"),
            Step::SetString("OfxImageEffectPropSupportedContexts", 0, "OfxImageEffectContextFilter"),
            Step::SetString("OfxImageEffectPropSupportedPixelDepths", 0, "OfxBitDepthFloat"),
            Step::SetString("OfxImageEffectPropSupportedPixelDepths", 1, "OfxBitDepthShort"),
            Step::SetString("OfxImageEffectPropSupportedPixelDepths", 2, "OfxBitDepthByte"),
            Step::SetString(
                "OfxImageEffectPluginRenderThreadSafety",
                0,
                "OfxImageEffectRenderFullySafe"
            ),
            Step::SetInt("OfxImageEffectPluginPropHostFrameThreading", 0, 1),
        ]
    );
}

#[test]
fn saturation_supports_general_context() {
    let plan = describe_plan(Plugin::Saturation);
    assert_eq!(plan.len(), 9);
    assert_eq!(plan[0], Step::SetString("OfxPropLabel", 0, "OFX Saturation Example"));
    assert_eq!(
        plan[3],
        Step::SetString("OfxImageEffectPropSupportedContexts", 1, "OfxImageEffectContextGeneral")
    );
}

#[test]
fn inspect_info_has_its_own_grouping() {
    let plan = describe_plan(Plugin::InspectInfo);
    assert_eq!(plan.len(), 8);
    assert_eq!(plan[0], Step::SetString("OfxPropLabel", 0, "Inspect Info"));
    assert_eq!(plan[1], Step::SetString("OfxImageEffectPluginPropGrouping", 0, "Umaĵo: Messing"));
    assert_eq!(describe_plan(Plugin::Circle)[0], Step::SetString("OfxPropLabel", 0, "OFX Circle Example"));
}

#[test]
fn clips_of_the_invert_plugin() {
    let c = "OfxImageEffectPropSupportedComponents";
    assert_eq!(
        clip_plan(Plugin::Invert, false),
        vec![
            Step::DefineClip("Output"),
            Step::SetString(c, 0, "OfxImageComponentRGBA"),
            Step::SetString(c, 1, "OfxImageComponentAlpha"),
            Step::SetString(c, 2, "OfxImageComponentRGB"),
            Step::DefineClip("Source"),
            Step::SetString(c, 0, "OfxImageComponentRGBA"),
            Step::SetString(c, 1, "OfxImageComponentAlpha"),
            Step::SetString(c, 2, "OfxImageComponentRGB"),
        ]
    );
}

#[test]
fn saturation_defines_a_mask_only_in_the_general_context() {
    assert_eq!(clip_plan(Plugin::Saturation, false).len(), 6);
    let plan = clip_plan(Plugin::Saturation, true);
    assert_eq!(plan.len(), 10);
    assert_eq!(plan[6], Step::DefineClip("Mask"));
    assert_eq!(plan[7], Step::SetString("OfxImageEffectPropSupportedComponents", 0, "OfxImageComponentAlpha"));
    assert_eq!(plan[8], Step::SetInt("OfxImageClipPropOptional", 0, 1));
    assert_eq!(plan[9], Step::SetInt("OfxImageClipPropIsMask", 0, 1));
    assert_eq!(clip_plan(Plugin::Invert, true).len(), 8);
}

#[test]
fn circle_and_inspect_set_components_at_once() {
    let c = "OfxImageEffectPropSupportedComponents";
    assert_eq!(
        clip_plan(Plugin::Circle, false)[1],
        Step::SetStrings(c, "OfxImageComponentRGBA", "OfxImageComponentAlpha", Some("OfxImageComponentRGB"))
    );
    assert_eq!(
        clip_plan(Plugin::InspectInfo, false),
        vec![
            Step::DefineClip("Output"),
            Step::SetStrings(c, "OfxImageComponentRGBA", "OfxImageComponentRGB", None),
            Step::DefineClip("Source"),
            Step::SetStrings(c, "OfxImageComponentRGBA", "OfxImageComponentRGB", None),
        ]
    );
    assert_eq!(clip_plan(Plugin::BasicMachinery, false).len(), 6);
}

#[test]
fn grow_rod_parameter_only_with_multiple_resolutions() {
    assert!(grow_rod_param_plan(false).is_empty());
    assert_eq!(
        grow_rod_param_plan(true),
        vec![
            Step::DefineParam("OfxParamTypeBoolean", "growRoD"),
            Step::SetInt("OfxParamPropDefault", 0, 0),
            Step::SetString("OfxPropLabel", 0, "Grow RoD"),
            Step::SetString(
                "OfxParamPropHint",
                0,
                "Whether to grow the output's Region of Definition to include the circle.",
            ),
        ]
    );
}

#[test]
fn version_parameter_shows_the_host_version_read_only() {
    assert_eq!(
        version_param_plan([1, 4]),
        vec![
            Step::DefineParam("OfxParamTypeString", "version"),
            Step::SetText("OfxParamPropDefault", 0, "1.4".to_string()),
            Step::SetString("OfxPropLabel", 0, "OpenFX Version"),
            Step::SetString("OfxParamPropHint", 0, "The Version of OpenFX the host supports."),
            Step::SetInt("OfxParamPropEnabled", 0, 0),
        ]
    );
    assert_eq!(version_param_plan([-1, 20])[1], Step::SetText("OfxParamPropDefault", 0, "-1.20".to_string()));
}
