//! The individual decisions of the startup sequence: the fixed plugin
//! registration list, the platform-conditional styling step, the
//! build-conditional logging step, and window resolution by name.

use vstd::prelude::*;

use crate::model::{Action, BuildMode, LogLevel, Material, Platform, Plugin, Tint};

verus! {

/// The fixed registration list: shell execution, filesystem access, native
/// dialogs, HTTP client, auto-updater, process control.
pub open spec fn spec_plugin_order() -> Seq<Plugin> {
    seq![
        Plugin::Shell,
        Plugin::FileSystem,
        Plugin::Dialog,
        Plugin::Http,
        Plugin::Updater,
        Plugin::Process,
    ]
}

/// The plugins in the order the shell registers them.
pub fn plugin_order() -> (r: Vec<Plugin>)
    ensures
        r@ == spec_plugin_order(),
{
    let mut r: Vec<Plugin> = Vec::new();
    r.push(Plugin::Shell);
    r.push(Plugin::FileSystem);
    r.push(Plugin::Dialog);
    r.push(Plugin::Http);
    r.push(Plugin::Updater);
    r.push(Plugin::Process);
    proof {
        assert(r@ =~= spec_plugin_order());
    }
    r
}

/// The fixed tint of the Windows acrylic effect.
pub open spec fn spec_acrylic_tint() -> Tint {
    Tint { red: 18, green: 18, blue: 18, alpha: 20 }
}

/// The tint the shell hands to the acrylic call.
pub fn acrylic_tint() -> (t: Tint)
    ensures
        t == spec_acrylic_tint(),
{
    Tint { red: 18, green: 18, blue: 18, alpha: 20 }
}

/// The styling step selected by the platform: vibrancy with the HUD material
/// on macOS, acrylic with the fixed tint on Windows, nothing elsewhere.
pub open spec fn spec_styling_plan(p: Platform) -> Option<Action> {
    match p {
        Platform::MacOs => Some(Action::ApplyVibrancy(Material::HudWindow)),
        Platform::Windows => Some(Action::ApplyAcrylic(spec_acrylic_tint())),
        Platform::Other => None,
    }
}

/// Whether the platform has a styling step at all.
pub open spec fn styling_required(p: Platform) -> bool {
    spec_styling_plan(p) is Some
}

/// The styling action for the given platform, if it has one.
pub fn styling_plan(p: Platform) -> (r: Option<Action>)
    ensures
        r == spec_styling_plan(p),
{
    match p {
        Platform::MacOs => Some(Action::ApplyVibrancy(Material::HudWindow)),
        Platform::Windows => Some(Action::ApplyAcrylic(acrylic_tint())),
        Platform::Other => None,
    }
}

/// The logging step selected by the build mode: a sink at minimum severity
/// `Info` in debug builds, none in release builds.
pub open spec fn spec_log_plan(b: BuildMode) -> Option<LogLevel> {
    match b {
        BuildMode::Debug => Some(LogLevel::Info),
        BuildMode::Release => None,
    }
}

/// The log sink's minimum severity for the given build mode, if one is
/// attached at all.
pub fn log_plan(b: BuildMode) -> (r: Option<LogLevel>)
    ensures
        r == spec_log_plan(b),
{
    match b {
        BuildMode::Debug => Some(LogLevel::Info),
        BuildMode::Release => None,
    }
}

/// Whether some window in the list carries the given label.
pub open spec fn has_label(windows: Seq<String>, label: Seq<char>) -> bool {
    exists|j: int| 0 <= j < windows.len() && windows[j]@ == label
}

/// The name under which the shell resolves its one window.
pub fn main_window_label() -> (s: String)
    ensures
        s@ == "main"@,
{
    "main".to_owned()
}

/// Resolve a window by label: the index of the first window whose label
/// matches, or `None` when no window carries the label.
pub fn find_window(windows: &Vec<String>, label: &String) -> (r: Option<usize>)
    ensures
        match r {
            Some(i) => i < windows@.len() && windows@[i as int]@ == label@
                && (forall|j: int| 0 <= j < i ==> windows@[j]@ != label@),
            None => !has_label(windows@, label@),
        },
{
    let mut i: usize = 0;
    while i < windows.len()
        invariant
            i <= windows@.len(),
            forall|j: int| 0 <= j < i ==> windows@[j]@ != label@,
        decreases windows@.len() - i,
    {
        if windows[i].eq(label) {
            return Some(i);
        }
        i = i + 1;
    }
    None
}

} // verus!
