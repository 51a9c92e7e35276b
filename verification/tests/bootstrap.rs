use app_bootstrap::bootstrap::{bootstrap, BootReport};
use app_bootstrap::model::{
    AbortReason, Action, BuildConfig, BuildMode, HostReplies, LogLevel, Material, Outcome,
    Platform, Plugin, Tint,
};
use app_bootstrap::plan::{
    acrylic_tint, find_window, log_plan, main_window_label, plugin_order, styling_plan,
};

fn obliging_host() -> HostReplies {
    HostReplies { style_ok: true, log_attach_ok: true, loop_starts: true }
}

fn main_only() -> Vec<String> {
    vec!["main".to_string()]
}

fn registrations() -> Vec<Action> {
    vec![
        Action::RegisterPlugin(Plugin::Shell),
        Action::RegisterPlugin(Plugin::FileSystem),
        Action::RegisterPlugin(Plugin::Dialog),
        Action::RegisterPlugin(Plugin::Http),
        Action::RegisterPlugin(Plugin::Updater),
        Action::RegisterPlugin(Plugin::Process),
    ]
}

#[test]
fn plugin_order_is_the_six_capabilities() {
    assert_eq!(
        plugin_order(),
        vec![
            Plugin::Shell,
            Plugin::FileSystem,
            Plugin::Dialog,
            Plugin::Http,
            Plugin::Updater,
            Plugin::Process,
        ]
    );
}

#[test]
fn acrylic_tint_is_fixed() {
    assert_eq!(acrylic_tint(), Tint { red: 18, green: 18, blue: 18, alpha: 20 });
}

#[test]
fn styling_plan_macos_is_hud_vibrancy() {
    assert_eq!(
        styling_plan(Platform::MacOs),
        Some(Action::ApplyVibrancy(Material::HudWindow))
    );
}

#[test]
fn styling_plan_windows_is_acrylic_with_tint() {
    assert_eq!(
        styling_plan(Platform::Windows),
        Some(Action::ApplyAcrylic(Tint { red: 18, green: 18, blue: 18, alpha: 20 }))
    );
}

#[test]
fn styling_plan_other_is_none() {
    assert_eq!(styling_plan(Platform::Other), None);
}

#[test]
fn log_plan_debug_is_info() {
    assert_eq!(log_plan(BuildMode::Debug), Some(LogLevel::Info));
}

#[test]
fn log_plan_release_is_none() {
    assert_eq!(log_plan(BuildMode::Release), None);
}

#[test]
fn main_window_label_is_main() {
    assert_eq!(main_window_label(), "main");
}

#[test]
fn find_window_resolves_main() {
    let windows = vec!["settings".to_string(), "main".to_string()];
    assert_eq!(find_window(&windows, &"main".to_string()), Some(1));
}

#[test]
fn find_window_missing_is_none() {
    let windows = vec!["settings".to_string(), "about".to_string()];
    assert_eq!(find_window(&windows, &"main".to_string()), None);
    assert_eq!(find_window(&Vec::new(), &"main".to_string()), None);
}

#[test]
fn find_window_returns_first_match() {
    let windows = vec!["main".to_string(), "main".to_string()];
    assert_eq!(find_window(&windows, &"main".to_string()), Some(0));
}

#[test]
fn bootstrap_reaches_running_on_macos_release() {
    let config = BuildConfig { platform: Platform::MacOs, build: BuildMode::Release };
    let r: BootReport = bootstrap(config, &plugin_order(), &main_only(), obliging_host());
    assert_eq!(r.outcome, Outcome::Running);
    let mut expected = registrations();
    expected.push(Action::LookupWindow);
    expected.push(Action::ApplyVibrancy(Material::HudWindow));
    expected.push(Action::StartEventLoop);
    assert_eq!(r.actions, expected);
}

#[test]
fn bootstrap_reaches_running_on_windows_debug() {
    let config = BuildConfig { platform: Platform::Windows, build: BuildMode::Debug };
    let r = bootstrap(config, &plugin_order(), &main_only(), obliging_host());
    assert_eq!(r.outcome, Outcome::Running);
    let mut expected = registrations();
    expected.push(Action::LookupWindow);
    expected.push(Action::ApplyAcrylic(Tint { red: 18, green: 18, blue: 18, alpha: 20 }));
    expected.push(Action::AttachLogPlugin(LogLevel::Info));
    expected.push(Action::StartEventLoop);
    assert_eq!(r.actions, expected);
}

#[test]
fn bootstrap_reaches_running_on_other_platform_without_styling() {
    let config = BuildConfig { platform: Platform::Other, build: BuildMode::Release };
    let r = bootstrap(config, &plugin_order(), &main_only(), obliging_host());
    assert_eq!(r.outcome, Outcome::Running);
    for a in &r.actions {
        assert!(!matches!(a, Action::ApplyVibrancy(_)));
        assert!(!matches!(a, Action::ApplyAcrylic(_)));
    }
}

#[test]
fn bootstrap_missing_window_aborts_before_setup() {
    let config = BuildConfig { platform: Platform::MacOs, build: BuildMode::Debug };
    let windows = vec!["settings".to_string()];
    let r = bootstrap(config, &plugin_order(), &windows, obliging_host());
    assert_eq!(r.outcome, Outcome::FatalAbort(AbortReason::WindowMissing));
    let mut expected = registrations();
    expected.push(Action::LookupWindow);
    assert_eq!(r.actions, expected);
}

#[test]
fn bootstrap_styling_failure_aborts() {
    let config = BuildConfig { platform: Platform::MacOs, build: BuildMode::Debug };
    let host = HostReplies { style_ok: false, log_attach_ok: true, loop_starts: true };
    let r = bootstrap(config, &plugin_order(), &main_only(), host);
    assert_eq!(r.outcome, Outcome::FatalAbort(AbortReason::StyleFailed));
    assert_eq!(r.actions.last(), Some(&Action::ApplyVibrancy(Material::HudWindow)));
    for a in &r.actions {
        assert!(!matches!(a, Action::AttachLogPlugin(_)));
        assert_ne!(a, &Action::StartEventLoop);
    }
}

#[test]
fn bootstrap_log_attach_failure_is_setup_error_in_debug() {
    let config = BuildConfig { platform: Platform::Other, build: BuildMode::Debug };
    let host = HostReplies { style_ok: true, log_attach_ok: false, loop_starts: true };
    let r = bootstrap(config, &plugin_order(), &main_only(), host);
    assert_eq!(r.outcome, Outcome::SetupError);
    assert_eq!(r.actions.last(), Some(&Action::AttachLogPlugin(LogLevel::Info)));
    for a in &r.actions {
        assert_ne!(a, &Action::StartEventLoop);
    }
}

#[test]
fn bootstrap_log_attach_reply_is_ignored_in_release() {
    let config = BuildConfig { platform: Platform::Other, build: BuildMode::Release };
    let host = HostReplies { style_ok: true, log_attach_ok: false, loop_starts: true };
    let r = bootstrap(config, &plugin_order(), &main_only(), host);
    assert_eq!(r.outcome, Outcome::Running);
    for a in &r.actions {
        assert!(!matches!(a, Action::AttachLogPlugin(_)));
    }
}

#[test]
fn bootstrap_event_loop_failure_aborts() {
    let config = BuildConfig { platform: Platform::Windows, build: BuildMode::Release };
    let host = HostReplies { style_ok: true, log_attach_ok: true, loop_starts: false };
    let r = bootstrap(config, &plugin_order(), &main_only(), host);
    assert_eq!(r.outcome, Outcome::FatalAbort(AbortReason::EventLoopFailed));
    assert_eq!(r.actions.last(), Some(&Action::StartEventLoop));
}

#[test]
fn bootstrap_registration_order_does_not_change_the_outcome() {
    let config = BuildConfig { platform: Platform::MacOs, build: BuildMode::Debug };
    let reversed = vec![
        Plugin::Process,
        Plugin::Updater,
        Plugin::Http,
        Plugin::Dialog,
        Plugin::FileSystem,
        Plugin::Shell,
    ];
    let rotated = vec![
        Plugin::Dialog,
        Plugin::Http,
        Plugin::Updater,
        Plugin::Process,
        Plugin::Shell,
        Plugin::FileSystem,
    ];
    let baseline = bootstrap(config, &plugin_order(), &main_only(), obliging_host());
    for order in [reversed, rotated] {
        let r = bootstrap(config, &order, &main_only(), obliging_host());
        assert_eq!(r.outcome, baseline.outcome);
        assert_eq!(r.outcome, Outcome::Running);
    }
    let missing = vec!["settings".to_string()];
    let b2 = bootstrap(config, &plugin_order(), &missing, obliging_host());
    let r2 = bootstrap(
        config,
        &vec![
            Plugin::Process,
            Plugin::Updater,
            Plugin::Http,
            Plugin::Dialog,
            Plugin::FileSystem,
            Plugin::Shell,
        ],
        &missing,
        obliging_host(),
    );
    assert_eq!(r2.outcome, b2.outcome);
}
