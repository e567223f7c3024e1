use openfx_playground::action::{
    Action, Dispatch, Plugin, action_from_name, dispatch, entry_status, has_plugin,
};
use openfx_playground::status::{kOfxStatErrFatal, kOfxStatOK, kOfxStatReplyDefault};

const ALL_PLUGINS: [Plugin; 5] = [
    Plugin::BasicMachinery,
    Plugin::Invert,
    Plugin::Saturation,
    Plugin::Circle,
    Plugin::InspectInfo,
];

#[test]
fn action_names_are_recognised() {
    assert_eq!(action_from_name("OfxActionLoad"), Some(Action::Load));
    assert_eq!(action_from_name("OfxActionUnload"), Some(Action::Unload));
    assert_eq!(action_from_name("OfxActionDescribe"), Some(Action::Describe));
    assert_eq!(
        action_from_name("OfxImageEffectActionDescribeInContext"),
        Some(Action::DescribeInContext)
    );
    assert_eq!(action_from_name("OfxActionCreateInstance"), Some(Action::CreateInstance));
    assert_eq!(action_from_name("OfxActionDestroyInstance"), Some(Action::DestroyInstance));
    assert_eq!(action_from_name("OfxImageEffectActionIsIdentity"), Some(Action::IsIdentity));
    assert_eq!(action_from_name("OfxImageEffectActionRender"), Some(Action::Render));
    assert_eq!(
        action_from_name("OfxImageEffectActionGetRegionOfDefinition"),
        Some(Action::GetRegionOfDefinition)
    );
}

#[test]
fn unknown_names_are_not_actions() {
    assert_eq!(action_from_name(""), None);
    assert_eq!(action_from_name("OfxActionLoa"), None);
    assert_eq!(action_from_name("OfxActionLoadX"), None);
    assert_eq!(action_from_name("ofxactionload"), None);
    assert_eq!(action_from_name("OfxActionPurgeCaches"), None);
}

#[test]
fn missing_or_unknown_action_replies_default() {
    for p in ALL_PLUGINS {
        assert_eq!(dispatch(p, None), Dispatch::Reply(kOfxStatReplyDefault));
        assert_eq!(dispatch(p, Some("NotAnAction")), Dispatch::Reply(kOfxStatReplyDefault));
    }
}

#[test]
fn life_cycle_actions_run_on_every_plugin() {
    for p in ALL_PLUGINS {
        assert_eq!(dispatch(p, Some("OfxActionLoad")), Dispatch::Run(Action::Load));
        assert_eq!(dispatch(p, Some("OfxActionUnload")), Dispatch::Run(Action::Unload));
        assert_eq!(dispatch(p, Some("OfxActionDescribe")), Dispatch::Run(Action::Describe));
        assert_eq!(
            dispatch(p, Some("OfxImageEffectActionDescribeInContext")),
            Dispatch::Run(Action::DescribeInContext)
        );
    }
}

#[test]
fn invert_accepts_instances_without_handlers() {
    assert_eq!(
        dispatch(Plugin::Invert, Some("OfxActionCreateInstance")),
        Dispatch::Reply(kOfxStatOK)
    );
    assert_eq!(
        dispatch(Plugin::Invert, Some("OfxActionDestroyInstance")),
        Dispatch::Reply(kOfxStatOK)
    );
    assert_eq!(
        dispatch(Plugin::Invert, Some("OfxImageEffectActionRender")),
        Dispatch::Run(Action::Render)
    );
    assert_eq!(
        dispatch(Plugin::Invert, Some("OfxImageEffectActionIsIdentity")),
        Dispatch::Reply(kOfxStatReplyDefault)
    );
}

#[test]
fn handlers_per_plugin() {
    let render = Some("OfxImageEffectActionRender");
    let rod = Some("OfxImageEffectActionGetRegionOfDefinition");
    let identity = Some("OfxImageEffectActionIsIdentity");
    assert_eq!(dispatch(Plugin::BasicMachinery, render), Dispatch::Reply(kOfxStatReplyDefault));
    assert_eq!(dispatch(Plugin::BasicMachinery, identity), Dispatch::Run(Action::IsIdentity));
    assert_eq!(dispatch(Plugin::InspectInfo, render), Dispatch::Reply(kOfxStatReplyDefault));
    assert_eq!(dispatch(Plugin::Saturation, render), Dispatch::Run(Action::Render));
    assert_eq!(dispatch(Plugin::Saturation, rod), Dispatch::Reply(kOfxStatReplyDefault));
    assert_eq!(dispatch(Plugin::Circle, rod), Dispatch::Run(Action::GetRegionOfDefinition));
    assert_eq!(
        dispatch(Plugin::Circle, Some("OfxActionCreateInstance")),
        Dispatch::Run(Action::CreateInstance)
    );
}

#[test]
fn entry_status_reports_reply_or_handler_result() {
    assert_eq!(entry_status(Dispatch::Reply(kOfxStatReplyDefault), Ok(())), kOfxStatReplyDefault);
    assert_eq!(entry_status(Dispatch::Run(Action::Load), Ok(())), kOfxStatOK);
    assert_eq!(
        entry_status(Dispatch::Run(Action::Load), Err(kOfxStatErrFatal)),
        kOfxStatErrFatal
    );
}

#[test]
fn only_plugin_zero_exists() {
    assert!(has_plugin(0));
    assert!(!has_plugin(1));
    assert!(!has_plugin(-1));
}
