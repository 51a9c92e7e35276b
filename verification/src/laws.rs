//! The properties of the startup sequence, proved against the specification
//! in `bootstrap`: a valid configuration reaches the running state; each
//! platform- or build-conditional effect is attempted exactly on its own
//! platform or build, with its fixed parameters; a missing main window aborts
//! the startup; and the plugin registration order cannot change the end
//! state.

use vstd::prelude::*;

use crate::bootstrap::{
    action_attempted, log_actions, registration_actions, setup_actions, spec_outcome, spec_trace,
    styling_actions,
};
use crate::model::{
    AbortReason, Action, BuildConfig, BuildMode, HostReplies, LogLevel, Material, Outcome,
    Platform, Plugin, Tint,
};
use crate::plan::{has_label, spec_acrylic_tint, styling_required};

verus! {

proof fn lemma_concat_contains<A>(a: Seq<A>, b: Seq<A>, x: A)
    ensures
        (a + b).contains(x) <==> a.contains(x) || b.contains(x),
{
    if a.contains(x) {
        let i = choose|i: int| 0 <= i < a.len() && a[i] == x;
        assert((a + b)[i] == x);
    }
    if b.contains(x) {
        let i = choose|i: int| 0 <= i < b.len() && b[i] == x;
        assert((a + b)[a.len() + i] == x);
    }
    if (a + b).contains(x) {
        let i = choose|i: int| 0 <= i < (a + b).len() && (a + b)[i] == x;
        if i < a.len() {
            assert(a[i] == x);
        } else {
            assert(b[i - a.len()] == x);
        }
    }
}

proof fn lemma_singleton_contains<A>(a: A, x: A)
    ensures
        seq![a].contains(x) <==> x == a,
{
    if x == a {
        assert(seq![a][0] == x);
    }
    if seq![a].contains(x) {
        let i = choose|i: int| 0 <= i < seq![a].len() && seq![a][i] == x;
        assert(i == 0);
    }
}

proof fn lemma_registration_contains(order: Seq<Plugin>, x: Action)
    ensures
        registration_actions(order).contains(x) <==> (x matches Action::RegisterPlugin(p)
            && order.contains(p)),
{
    let regs = registration_actions(order);
    if regs.contains(x) {
        let i = choose|i: int| 0 <= i < regs.len() && regs[i] == x;
        assert(regs[i] == Action::RegisterPlugin(order[i]));
        assert(order.contains(order[i]));
    }
    match x {
        Action::RegisterPlugin(p) => {
            if order.contains(p) {
                let i = choose|i: int| 0 <= i < order.len() && order[i] == p;
                assert(regs[i] == x);
            }
        },
        _ => {},
    }
}

/// The trace contains an action exactly when the startup attempts it: the
/// membership characterization every law below draws on.
pub proof fn lemma_trace_action(
    c: BuildConfig,
    order: Seq<Plugin>,
    windows: Seq<String>,
    host: HostReplies,
    x: Action,
)
    ensures
        spec_trace(c, order, windows, host).contains(x) == action_attempted(
            c,
            order,
            windows,
            host,
            x,
        ),
{
    let setup = setup_actions(c, windows, host);
    lemma_concat_contains(registration_actions(order), setup, x);
    lemma_registration_contains(order, x);
    let after_lookup = if !has_label(windows, "main"@) {
        seq![]
    } else {
        styling_actions(c.platform) + if styling_required(c.platform) && !host.style_ok {
            seq![]
        } else {
            log_actions(c.build) + if crate::plan::spec_log_plan(c.build) is Some
                && !host.log_attach_ok {
                seq![]
            } else {
                seq![Action::StartEventLoop]
            }
        }
    };
    lemma_concat_contains(seq![Action::LookupWindow], after_lookup, x);
    lemma_singleton_contains(Action::LookupWindow, x);
    if has_label(windows, "main"@) {
        let after_styling = if styling_required(c.platform) && !host.style_ok {
            seq![]
        } else {
            log_actions(c.build) + if crate::plan::spec_log_plan(c.build) is Some
                && !host.log_attach_ok {
                seq![]
            } else {
                seq![Action::StartEventLoop]
            }
        };
        lemma_concat_contains(styling_actions(c.platform), after_styling, x);
        match c.platform {
            Platform::MacOs => lemma_singleton_contains(
                Action::ApplyVibrancy(Material::HudWindow),
                x,
            ),
            Platform::Windows => lemma_singleton_contains(
                Action::ApplyAcrylic(spec_acrylic_tint()),
                x,
            ),
            Platform::Other => {},
        }
        if !(styling_required(c.platform) && !host.style_ok) {
            let after_log = if crate::plan::spec_log_plan(c.build) is Some
                && !host.log_attach_ok {
                seq![]
            } else {
                seq![Action::StartEventLoop]
            };
            lemma_concat_contains(log_actions(c.build), after_log, x);
            match c.build {
                BuildMode::Debug => lemma_singleton_contains(
                    Action::AttachLogPlugin(LogLevel::Info),
                    x,
                ),
                BuildMode::Release => {},
            }
            lemma_singleton_contains(Action::StartEventLoop, x);
        }
    }
}

/// On every platform and in either build mode, a window configuration that
/// contains a window labeled "main", on a host that applies the styling,
/// attaches the log sink and starts the event loop, brings the startup to
/// the running state.
pub proof fn lemma_valid_setup_reaches_running(
    c: BuildConfig,
    order: Seq<Plugin>,
    windows: Seq<String>,
    host: HostReplies,
)
    requires
        has_label(windows, "main"@),
        host.style_ok,
        host.log_attach_ok,
        host.loop_starts,
    ensures
        spec_outcome(c, order, windows, host) == Outcome::Running,
{
}

/// The vibrancy effect is attempted exactly on a macOS build whose main
/// window was resolved, and then with the HUD material; no other build
/// ever attempts it.
pub proof fn lemma_vibrancy_macos_only(
    c: BuildConfig,
    order: Seq<Plugin>,
    windows: Seq<String>,
    host: HostReplies,
)
    ensures
        (c.platform == Platform::MacOs && has_label(windows, "main"@)) ==> spec_trace(
            c,
            order,
            windows,
            host,
        ).contains(Action::ApplyVibrancy(Material::HudWindow)),
        forall|m: Material|
            #[trigger] spec_trace(c, order, windows, host).contains(Action::ApplyVibrancy(m))
                ==> c.platform == Platform::MacOs && has_label(windows, "main"@)
                && m == Material::HudWindow,
{
    lemma_trace_action(c, order, windows, host, Action::ApplyVibrancy(Material::HudWindow));
    assert forall|m: Material|
        #[trigger] spec_trace(c, order, windows, host).contains(Action::ApplyVibrancy(m))
            implies c.platform == Platform::MacOs && has_label(windows, "main"@)
            && m == Material::HudWindow by {
        lemma_trace_action(c, order, windows, host, Action::ApplyVibrancy(m));
    }
}

/// The acrylic effect is attempted exactly on a Windows build whose main
/// window was resolved, and then with the fixed tint of red 18, green 18,
/// blue 18, alpha 20; no other build ever attempts it.
pub proof fn lemma_acrylic_windows_only(
    c: BuildConfig,
    order: Seq<Plugin>,
    windows: Seq<String>,
    host: HostReplies,
)
    ensures
        (c.platform == Platform::Windows && has_label(windows, "main"@)) ==> spec_trace(
            c,
            order,
            windows,
            host,
        ).contains(Action::ApplyAcrylic((Tint { red: 18, green: 18, blue: 18, alpha: 20 }))),
        forall|t: Tint|
            #[trigger] spec_trace(c, order, windows, host).contains(Action::ApplyAcrylic(t))
                ==> c.platform == Platform::Windows && has_label(windows, "main"@)
                && t == (Tint { red: 18, green: 18, blue: 18, alpha: 20 }),
{
    lemma_trace_action(c, order, windows, host, Action::ApplyAcrylic(spec_acrylic_tint()));
    assert forall|t: Tint|
        #[trigger] spec_trace(c, order, windows, host).contains(Action::ApplyAcrylic(t))
            implies c.platform == Platform::Windows && has_label(windows, "main"@)
            && t == (Tint { red: 18, green: 18, blue: 18, alpha: 20 }) by {
        lemma_trace_action(c, order, windows, host, Action::ApplyAcrylic(t));
    }
}

/// A debug build whose setup hook reaches the logging step attaches the log
/// sink at minimum severity Info; a release build never attaches one, at any
/// severity.
pub proof fn lemma_log_sink_debug_only(
    c: BuildConfig,
    order: Seq<Plugin>,
    windows: Seq<String>,
    host: HostReplies,
)
    ensures
        (c.build == BuildMode::Debug && has_label(windows, "main"@) && (!styling_required(
            c.platform,
        ) || host.style_ok)) ==> spec_trace(c, order, windows, host).contains(
            Action::AttachLogPlugin(LogLevel::Info),
        ),
        forall|l: LogLevel|
            #[trigger] spec_trace(c, order, windows, host).contains(Action::AttachLogPlugin(l))
                ==> c.build == BuildMode::Debug && l == LogLevel::Info,
        c.build == BuildMode::Release ==> forall|l: LogLevel|
            !(#[trigger] spec_trace(c, order, windows, host).contains(Action::AttachLogPlugin(l))),
{
    lemma_trace_action(c, order, windows, host, Action::AttachLogPlugin(LogLevel::Info));
    assert forall|l: LogLevel|
        #[trigger] spec_trace(c, order, windows, host).contains(Action::AttachLogPlugin(l))
            implies c.build == BuildMode::Debug && l == LogLevel::Info by {
        lemma_trace_action(c, order, windows, host, Action::AttachLogPlugin(l));
    }
}

/// When no window carries the label "main" the startup aborts: the end state
/// is a fatal abort naming the missing window — never the running state —
/// and the sequence stops at the lookup, attempting no styling, logging or
/// event-loop action after it.
pub proof fn lemma_missing_window_aborts(
    c: BuildConfig,
    order: Seq<Plugin>,
    windows: Seq<String>,
    host: HostReplies,
)
    requires
        !has_label(windows, "main"@),
    ensures
        spec_outcome(c, order, windows, host) == Outcome::FatalAbort(AbortReason::WindowMissing),
        spec_outcome(c, order, windows, host) != Outcome::Running,
        spec_trace(c, order, windows, host) == registration_actions(order) + seq![
            Action::LookupWindow,
        ],
        !spec_trace(c, order, windows, host).contains(Action::StartEventLoop),
{
    assert(spec_trace(c, order, windows, host) =~= registration_actions(order) + seq![
        Action::LookupWindow,
    ]);
    lemma_trace_action(c, order, windows, host, Action::StartEventLoop);
}

/// Every plugin registration precedes the start of the event loop in the
/// trace: the full registration list is in place before the application can
/// begin accepting events.
pub proof fn lemma_registrations_precede_launch(
    c: BuildConfig,
    order: Seq<Plugin>,
    windows: Seq<String>,
    host: HostReplies,
)
    ensures
        forall|i: int, j: int|
            0 <= i < spec_trace(c, order, windows, host).len() && 0 <= j < spec_trace(
                c,
                order,
                windows,
                host,
            ).len() && (#[trigger] spec_trace(c, order, windows, host)[i]) is RegisterPlugin
                && (#[trigger] spec_trace(c, order, windows, host)[j])
                == Action::StartEventLoop ==> i < j,
{
}

/// Registering the plugins in any permutation of the same list yields the
/// same end state, and the same registrations appear in the trace.
pub proof fn lemma_registration_order_irrelevant(
    c: BuildConfig,
    first_order: Seq<Plugin>,
    second_order: Seq<Plugin>,
    windows: Seq<String>,
    host: HostReplies,
)
    requires
        first_order.to_multiset() == second_order.to_multiset(),
    ensures
        spec_outcome(c, first_order, windows, host) == spec_outcome(
            c,
            second_order,
            windows,
            host,
        ),
        forall|p: Plugin|
            #[trigger] spec_trace(c, first_order, windows, host).contains(
                Action::RegisterPlugin(p),
            ) <==> spec_trace(c, second_order, windows, host).contains(
                Action::RegisterPlugin(p),
            ),
{
    assert forall|p: Plugin|
        #[trigger] spec_trace(c, first_order, windows, host).contains(Action::RegisterPlugin(p))
            <==> spec_trace(c, second_order, windows, host).contains(
            Action::RegisterPlugin(p),
        ) by {
        lemma_trace_action(c, first_order, windows, host, Action::RegisterPlugin(p));
        lemma_trace_action(c, second_order, windows, host, Action::RegisterPlugin(p));
        first_order.to_multiset_ensures();
        second_order.to_multiset_ensures();
        assert(first_order.contains(p) <==> first_order.to_multiset().count(p) > 0);
        assert(second_order.contains(p) <==> second_order.to_multiset().count(p) > 0);
    }
}

} // verus!
