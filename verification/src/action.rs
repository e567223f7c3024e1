//! The actions a host sends to a plugin's main entry, and which of them each
//! plugin of this project handles.

use vstd::prelude::*;
use crate::names::{
    kOfxActionCreateInstance, kOfxActionDescribe, kOfxActionDestroyInstance, kOfxActionLoad,
    kOfxActionUnload, kOfxImageEffectActionDescribeInContext,
    kOfxImageEffectActionGetRegionOfDefinition, kOfxImageEffectActionIsIdentity,
    kOfxImageEffectActionRender,
};
use crate::status::{
    OfxResult, OfxStatus, kOfxStatOK, kOfxStatReplyDefault, spec_status_from_result,
    status_from_result,
};
use crate::text::str_eq;

verus! {

/// An action that the plugins of this project know.
#[derive(Clone, Copy, Debug, PartialEq, Eq, Structural)]
pub enum Action {
    Load,
    Unload,
    Describe,
    DescribeInContext,
    CreateInstance,
    DestroyInstance,
    IsIdentity,
    Render,
    GetRegionOfDefinition,
}

/// The name by which the host sends an action.
pub open spec fn action_name(a: Action) -> Seq<char> {
    match a {
        Action::Load => kOfxActionLoad@,
        Action::Unload => kOfxActionUnload@,
        Action::Describe => kOfxActionDescribe@,
        Action::DescribeInContext => kOfxImageEffectActionDescribeInContext@,
        Action::CreateInstance => kOfxActionCreateInstance@,
        Action::DestroyInstance => kOfxActionDestroyInstance@,
        Action::IsIdentity => kOfxImageEffectActionIsIdentity@,
        Action::Render => kOfxImageEffectActionRender@,
        Action::GetRegionOfDefinition => kOfxImageEffectActionGetRegionOfDefinition@,
    }
}

/// The action a name stands for, if any.
pub open spec fn spec_action_from_name(name: Seq<char>) -> Option<Action> {
    if name == kOfxActionLoad@ {
        Some(Action::Load)
    } else if name == kOfxActionUnload@ {
        Some(Action::Unload)
    } else if name == kOfxActionDescribe@ {
        Some(Action::Describe)
    } else if name == kOfxImageEffectActionDescribeInContext@ {
        Some(Action::DescribeInContext)
    } else if name == kOfxActionCreateInstance@ {
        Some(Action::CreateInstance)
    } else if name == kOfxActionDestroyInstance@ {
        Some(Action::DestroyInstance)
    } else if name == kOfxImageEffectActionIsIdentity@ {
        Some(Action::IsIdentity)
    } else if name == kOfxImageEffectActionRender@ {
        Some(Action::Render)
    } else if name == kOfxImageEffectActionGetRegionOfDefinition@ {
        Some(Action::GetRegionOfDefinition)
    } else {
        None
    }
}

/// Recognises an action by its name.
pub fn action_from_name(name: &str) -> (r: Option<Action>)
    ensures
        r == spec_action_from_name(name@),
{
    if str_eq(name, kOfxActionLoad) {
        Some(Action::Load)
    } else if str_eq(name, kOfxActionUnload) {
        Some(Action::Unload)
    } else if str_eq(name, kOfxActionDescribe) {
        Some(Action::Describe)
    } else if str_eq(name, kOfxImageEffectActionDescribeInContext) {
        Some(Action::DescribeInContext)
    } else if str_eq(name, kOfxActionCreateInstance) {
        Some(Action::CreateInstance)
    } else if str_eq(name, kOfxActionDestroyInstance) {
        Some(Action::DestroyInstance)
    } else if str_eq(name, kOfxImageEffectActionIsIdentity) {
        Some(Action::IsIdentity)
    } else if str_eq(name, kOfxImageEffectActionRender) {
        Some(Action::Render)
    } else if str_eq(name, kOfxImageEffectActionGetRegionOfDefinition) {
        Some(Action::GetRegionOfDefinition)
    } else {
        None
    }
}

/// Every action is recognised by its own name.
pub proof fn lemma_action_name_round_trip(a: Action)
    ensures
        spec_action_from_name(action_name(a)) == Some(a),
{
    // The names have pairwise different lengths.
    reveal_strlit("OfxActionLoad");
    assert(kOfxActionLoad@.len() == 13);
    reveal_strlit("OfxActionUnload");
    assert(kOfxActionUnload@.len() == 15);
    reveal_strlit("OfxActionDescribe");
    assert(kOfxActionDescribe@.len() == 17);
    reveal_strlit("OfxImageEffectActionDescribeInContext");
    assert(kOfxImageEffectActionDescribeInContext@.len() == 37);
    reveal_strlit("OfxActionCreateInstance");
    assert(kOfxActionCreateInstance@.len() == 23);
    reveal_strlit("OfxActionDestroyInstance");
    assert(kOfxActionDestroyInstance@.len() == 24);
    reveal_strlit("OfxImageEffectActionIsIdentity");
    assert(kOfxImageEffectActionIsIdentity@.len() == 30);
    reveal_strlit("OfxImageEffectActionRender");
    assert(kOfxImageEffectActionRender@.len() == 26);
    reveal_strlit("OfxImageEffectActionGetRegionOfDefinition");
    assert(kOfxImageEffectActionGetRegionOfDefinition@.len() == 41);
}

/// The plugins of this project, one per plugin library.
#[derive(Clone, Copy, Debug, PartialEq, Eq, Structural)]
pub enum Plugin {
    /// The basic machinery example: describes itself and is always an identity.
    BasicMachinery,
    /// The invert example.
    Invert,
    /// The saturation example, with an optional mask.
    Saturation,
    /// The circle example, which may grow the region of definition.
    Circle,
    /// The plugin that reports the host's OpenFX version.
    InspectInfo,
}

/// Whether a plugin's main entry has a handler of its own for an action.
pub open spec fn handles(p: Plugin, a: Action) -> bool {
    match p {
        Plugin::BasicMachinery | Plugin::InspectInfo => !(a is Render || a is GetRegionOfDefinition),
        Plugin::Invert => !(a is IsIdentity || a is GetRegionOfDefinition),
        Plugin::Saturation => !(a is GetRegionOfDefinition),
        Plugin::Circle => true,
    }
}

/// What the main entry does with an incoming action: answer at once with a
/// status, or run the plugin's handler for the action.
#[derive(Clone, Copy, Debug, PartialEq, Eq, Structural)]
pub enum Dispatch {
    Reply(OfxStatus),
    Run(Action),
}

/// How a plugin's main entry treats the action name it was given (`None` when
/// the host passed no name): a missing or unknown name, or an action without
/// a handler, is answered with `kOfxStatReplyDefault`; the invert plugin
/// accepts instance creation and destruction without doing anything.
pub open spec fn spec_dispatch(p: Plugin, name: Option<Seq<char>>) -> Dispatch {
    match name {
        None => Dispatch::Reply(kOfxStatReplyDefault),
        Some(n) => match spec_action_from_name(n) {
            None => Dispatch::Reply(kOfxStatReplyDefault),
            Some(a) => if !handles(p, a) {
                Dispatch::Reply(kOfxStatReplyDefault)
            } else if p is Invert && (a is CreateInstance || a is DestroyInstance) {
                Dispatch::Reply(kOfxStatOK)
            } else {
                Dispatch::Run(a)
            },
        },
    }
}

/// Decides what a plugin's main entry does with the action it was given.
pub fn dispatch(plugin: Plugin, action: Option<&str>) -> (r: Dispatch)
    ensures
        r == spec_dispatch(
            plugin,
            match action {
                Some(s) => Some(s@),
                None => None,
            },
        ),
{
    let name = match action {
        None => return Dispatch::Reply(kOfxStatReplyDefault),
        Some(n) => n,
    };
    let a = match action_from_name(name) {
        None => return Dispatch::Reply(kOfxStatReplyDefault),
        Some(a) => a,
    };
    let handled = match plugin {
        Plugin::BasicMachinery | Plugin::InspectInfo => !(matches!(a, Action::Render)
            || matches!(a, Action::GetRegionOfDefinition)),
        Plugin::Invert => !(matches!(a, Action::IsIdentity) || matches!(
            a,
            Action::GetRegionOfDefinition
        )),
        Plugin::Saturation => !matches!(a, Action::GetRegionOfDefinition),
        Plugin::Circle => true,
    };
    if !handled {
        Dispatch::Reply(kOfxStatReplyDefault)
    } else if matches!(plugin, Plugin::Invert) && (matches!(a, Action::CreateInstance) || matches!(
        a,
        Action::DestroyInstance
    )) {
        Dispatch::Reply(kOfxStatOK)
    } else {
        Dispatch::Run(a)
    }
}

/// The status a main entry returns: the reply it decided on, or the status
/// of the handler's result when it ran one.
pub fn entry_status(dispatched: Dispatch, handler_result: OfxResult<()>) -> (s: OfxStatus)
    ensures
        s == match dispatched {
            Dispatch::Reply(status) => status,
            Dispatch::Run(_) => spec_status_from_result(handler_result),
        },
{
    match dispatched {
        Dispatch::Reply(status) => status,
        Dispatch::Run(_) => status_from_result(handler_result),
    }
}

/// Whether a plugin library has a plugin at index `nth`: each has exactly one.
pub fn has_plugin(nth: i32) -> (r: bool)
    ensures
        r == (nth == 0),
{
    nth == 0
}

/// A main entry that was given no action name answers `kOfxStatReplyDefault`.
pub proof fn lemma_missing_action_replies_default(p: Plugin)
    ensures
        spec_dispatch(p, None) == Dispatch::Reply(kOfxStatReplyDefault),
{
}

/// A main entry that was given a name that is no known action answers
/// `kOfxStatReplyDefault`.
pub proof fn lemma_unknown_action_replies_default(p: Plugin, name: Seq<char>)
    requires
        spec_action_from_name(name) is None,
    ensures
        spec_dispatch(p, Some(name)) == Dispatch::Reply(kOfxStatReplyDefault),
{
}

/// Every plugin runs its own handler for loading, unloading and both
/// describe actions.
pub proof fn lemma_life_cycle_actions_run(p: Plugin, a: Action)
    requires
        a is Load || a is Unload || a is Describe || a is DescribeInContext,
    ensures
        spec_dispatch(p, Some(action_name(a))) == Dispatch::Run(a),
{
    lemma_action_name_round_trip(a);
}

/// An action a plugin has no handler for is answered with
/// `kOfxStatReplyDefault`, whatever its name.
pub proof fn lemma_unhandled_action_replies_default(p: Plugin, a: Action)
    requires
        !handles(p, a),
    ensures
        spec_dispatch(p, Some(action_name(a))) == Dispatch::Reply(kOfxStatReplyDefault),
{
    lemma_action_name_round_trip(a);
}

/// What each plugin does with each action it can be sent, by the action's
/// name: every plugin runs the load, unload, describe and
/// describe-in-context actions; the invert plugin answers instance creation
/// and destruction with `kOfxStatOK` and has no identity check; the basic
/// and inspect-info plugins do not render; the invert, saturation and circle
/// plugins render; only the circle plugin computes a region of definition.
/// An action a plugin does not handle is answered with
/// `kOfxStatReplyDefault`.
pub proof fn lemma_dispatch_table(p: Plugin)
    ensures
        spec_dispatch(p, Some("OfxActionLoad"@)) == Dispatch::Run(Action::Load),
        spec_dispatch(p, Some("OfxActionUnload"@)) == Dispatch::Run(Action::Unload),
        spec_dispatch(p, Some("OfxActionDescribe"@)) == Dispatch::Run(Action::Describe),
        spec_dispatch(p, Some("OfxImageEffectActionDescribeInContext"@)) == Dispatch::Run(
            Action::DescribeInContext,
        ),
        spec_dispatch(p, Some("OfxActionCreateInstance"@)) == if p == Plugin::Invert {
            Dispatch::Reply(kOfxStatOK)
        } else {
            Dispatch::Run(Action::CreateInstance)
        },
        spec_dispatch(p, Some("OfxActionDestroyInstance"@)) == if p == Plugin::Invert {
            Dispatch::Reply(kOfxStatOK)
        } else {
            Dispatch::Run(Action::DestroyInstance)
        },
        spec_dispatch(p, Some("OfxImageEffectActionIsIdentity"@)) == if p == Plugin::Invert {
            Dispatch::Reply(kOfxStatReplyDefault)
        } else {
            Dispatch::Run(Action::IsIdentity)
        },
        spec_dispatch(p, Some("OfxImageEffectActionRender"@)) == if p == Plugin::Invert || p
            == Plugin::Saturation || p == Plugin::Circle {
            Dispatch::Run(Action::Render)
        } else {
            Dispatch::Reply(kOfxStatReplyDefault)
        },
        spec_dispatch(p, Some("OfxImageEffectActionGetRegionOfDefinition"@)) == if p
            == Plugin::Circle {
            Dispatch::Run(Action::GetRegionOfDefinition)
        } else {
            Dispatch::Reply(kOfxStatReplyDefault)
        },
        spec_dispatch(p, Some("OfxActionPurgeCaches"@)) == Dispatch::Reply(kOfxStatReplyDefault),
{
    reveal_strlit("OfxActionLoad");
    reveal_strlit("OfxActionUnload");
    reveal_strlit("OfxActionDescribe");
    reveal_strlit("OfxImageEffectActionDescribeInContext");
    reveal_strlit("OfxActionCreateInstance");
    reveal_strlit("OfxActionDestroyInstance");
    reveal_strlit("OfxImageEffectActionIsIdentity");
    reveal_strlit("OfxImageEffectActionRender");
    reveal_strlit("OfxImageEffectActionGetRegionOfDefinition");
    reveal_strlit("OfxActionPurgeCaches");
    assert(kOfxActionLoad@ == "OfxActionLoad"@);
    assert(kOfxActionUnload@ == "OfxActionUnload"@);
    assert(kOfxActionDescribe@ == "OfxActionDescribe"@);
    assert(kOfxImageEffectActionDescribeInContext@ == "OfxImageEffectActionDescribeInContext"@);
    assert(kOfxActionCreateInstance@ == "OfxActionCreateInstance"@);
    assert(kOfxActionDestroyInstance@ == "OfxActionDestroyInstance"@);
    assert(kOfxImageEffectActionIsIdentity@ == "OfxImageEffectActionIsIdentity"@);
    assert(kOfxImageEffectActionRender@ == "OfxImageEffectActionRender"@);
    assert(kOfxImageEffectActionGetRegionOfDefinition@
        == "OfxImageEffectActionGetRegionOfDefinition"@);
    assert("OfxActionLoad"@.len() == 13);
    assert("OfxActionUnload"@.len() == 15);
    assert("OfxActionDescribe"@.len() == 17);
    assert("OfxImageEffectActionDescribeInContext"@.len() == 37);
    assert("OfxActionCreateInstance"@.len() == 23);
    assert("OfxActionDestroyInstance"@.len() == 24);
    assert("OfxImageEffectActionIsIdentity"@.len() == 30);
    assert("OfxImageEffectActionRender"@.len() == 26);
    assert("OfxImageEffectActionGetRegionOfDefinition"@.len() == 41);
    assert("OfxActionPurgeCaches"@.len() == 20);
}

} // verus!
