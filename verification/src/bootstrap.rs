//! The startup sequence itself: register every plugin, resolve the main
//! window, apply the platform styling, attach the debug log sink, start the
//! event loop.  The sequence is a pure function of the compile-time
//! configuration, the registration order, the window list and the host's
//! replies; it yields the end state and the trace of actions attempted.

use vstd::prelude::*;

use crate::model::{
    AbortReason, Action, BuildConfig, BuildMode, HostReplies, Outcome, Plugin,
};
use crate::plan::{
    find_window, has_label, log_plan, main_window_label, spec_log_plan, spec_styling_plan,
    styling_plan, styling_required,
};

verus! {

/// The end state of the startup.  Registration failures are not independently
/// observable — they surface only when the event loop fails to start — so the
/// order in which the plugins are registered cannot affect the end state.
pub open spec fn spec_outcome(
    c: BuildConfig,
    order: Seq<Plugin>,
    windows: Seq<String>,
    host: HostReplies,
) -> Outcome {
    if !has_label(windows, "main"@) {
        Outcome::FatalAbort(AbortReason::WindowMissing)
    } else if styling_required(c.platform) && !host.style_ok {
        Outcome::FatalAbort(AbortReason::StyleFailed)
    } else if spec_log_plan(c.build) is Some && !host.log_attach_ok {
        Outcome::SetupError
    } else if !host.loop_starts {
        Outcome::FatalAbort(AbortReason::EventLoopFailed)
    } else {
        Outcome::Running
    }
}

/// The registration prefix of the trace: one action per plugin, in order.
pub open spec fn registration_actions(order: Seq<Plugin>) -> Seq<Action> {
    order.map_values(|p: Plugin| Action::RegisterPlugin(p))
}

/// The styling attempt for the given platform: one action where the platform
/// has a styling step, none elsewhere.
pub open spec fn styling_actions(p: crate::model::Platform) -> Seq<Action> {
    match spec_styling_plan(p) {
        Some(a) => seq![a],
        None => seq![],
    }
}

/// The logging attempt for the given build mode.
pub open spec fn log_actions(b: BuildMode) -> Seq<Action> {
    match spec_log_plan(b) {
        Some(l) => seq![Action::AttachLogPlugin(l)],
        None => seq![],
    }
}

/// The actions of the setup hook and the launch, truncated at the first
/// failure: a missing window stops the sequence before styling, a styling
/// failure stops it before logging, a logging failure stops it before the
/// event loop is started.
pub open spec fn setup_actions(
    c: BuildConfig,
    windows: Seq<String>,
    host: HostReplies,
) -> Seq<Action> {
    seq![Action::LookupWindow] + if !has_label(windows, "main"@) {
        seq![]
    } else {
        styling_actions(c.platform) + if styling_required(c.platform) && !host.style_ok {
            seq![]
        } else {
            log_actions(c.build) + if spec_log_plan(c.build) is Some && !host.log_attach_ok {
                seq![]
            } else {
                seq![Action::StartEventLoop]
            }
        }
    }
}

/// Every action the startup attempts, in order: the registrations, then the
/// setup hook and the launch.
pub open spec fn spec_trace(
    c: BuildConfig,
    order: Seq<Plugin>,
    windows: Seq<String>,
    host: HostReplies,
) -> Seq<Action> {
    registration_actions(order) + setup_actions(c, windows, host)
}

/// When the startup attempts a given action: the closed form of membership
/// in `spec_trace`, proved equivalent in `laws::lemma_trace_action`.  A
/// plugin is registered exactly when it is in the order; the lookup is always
/// attempted; the styling attempt needs the right platform and a resolved
/// window; the logging attempt additionally needs a debug build and a styling
/// step that did not fail; the event loop is started once everything before
/// it went through.
pub open spec fn action_attempted(
    c: BuildConfig,
    order: Seq<Plugin>,
    windows: Seq<String>,
    host: HostReplies,
    x: Action,
) -> bool {
    match x {
        Action::RegisterPlugin(p) => order.contains(p),
        Action::LookupWindow => true,
        Action::ApplyVibrancy(m) => c.platform == crate::model::Platform::MacOs
            && has_label(windows, "main"@) && m == crate::model::Material::HudWindow,
        Action::ApplyAcrylic(t) => c.platform == crate::model::Platform::Windows
            && has_label(windows, "main"@) && t == crate::plan::spec_acrylic_tint(),
        Action::AttachLogPlugin(l) => c.build == BuildMode::Debug
            && has_label(windows, "main"@)
            && (!styling_required(c.platform) || host.style_ok)
            && l == crate::model::LogLevel::Info,
        Action::StartEventLoop => has_label(windows, "main"@)
            && (!styling_required(c.platform) || host.style_ok)
            && (c.build != BuildMode::Debug || host.log_attach_ok),
    }
}

/// What one run of the startup did: where it ended, and every action it
/// attempted, in order.
#[derive(Debug)]
pub struct BootReport {
    pub outcome: Outcome,
    pub actions: Vec<Action>,
}

/// Run the startup sequence over the host's replies: register the plugins in
/// the given order, resolve the window named "main", apply the platform
/// styling, attach the debug log sink, start the event loop.  The report's
/// end state and trace are exactly the ones the specification assigns to
/// these inputs.
pub fn bootstrap(
    config: BuildConfig,
    order: &Vec<Plugin>,
    windows: &Vec<String>,
    host: HostReplies,
) -> (r: BootReport)
    ensures
        r.outcome == spec_outcome(config, order@, windows@, host),
        r.actions@ == spec_trace(config, order@, windows@, host),
{
    let mut actions: Vec<Action> = Vec::new();
    let mut i: usize = 0;
    while i < order.len()
        invariant
            i <= order@.len(),
            actions@ == registration_actions(order@.take(i as int)),
        decreases order@.len() - i,
    {
        actions.push(Action::RegisterPlugin(order[i]));
        i = i + 1;
        proof {
            assert(actions@ =~= registration_actions(order@.take(i as int)));
        }
    }
    proof {
        assert(order@.take(order@.len() as int) =~= order@);
    }
    actions.push(Action::LookupWindow);
    let label = main_window_label();
    let found = find_window(windows, &label);
    if found.is_none() {
        proof {
            assert(actions@ =~= spec_trace(config, order@, windows@, host));
        }
        return BootReport { outcome: Outcome::FatalAbort(AbortReason::WindowMissing), actions };
    }
    if let Some(style) = styling_plan(config.platform) {
        actions.push(style);
        if !host.style_ok {
            proof {
                assert(actions@ =~= spec_trace(config, order@, windows@, host));
            }
            return BootReport { outcome: Outcome::FatalAbort(AbortReason::StyleFailed), actions };
        }
    }
    if let Some(level) = log_plan(config.build) {
        actions.push(Action::AttachLogPlugin(level));
        if !host.log_attach_ok {
            proof {
                assert(actions@ =~= spec_trace(config, order@, windows@, host));
            }
            return BootReport { outcome: Outcome::SetupError, actions };
        }
    }
    actions.push(Action::StartEventLoop);
    proof {
        assert(actions@ =~= spec_trace(config, order@, windows@, host));
    }
    if !host.loop_starts {
        return BootReport {
            outcome: Outcome::FatalAbort(AbortReason::EventLoopFailed),
            actions,
        };
    }
    BootReport { outcome: Outcome::Running, actions }
}

} // verus!
