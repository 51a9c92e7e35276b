//! The data the startup sequence decides over: target platform, build mode,
//! the capability plugins, styling parameters, the actions the shell performs
//! against the host, the host's replies, and the end state.

use vstd::prelude::*;

verus! {

/// Target operating system of the build.  The styling step is selected by the
/// platform at compile time, never by a runtime branch, so a single value of
/// this type describes one build of the shell.
#[derive(Clone, Copy, PartialEq, Eq, Structural, Debug)]
pub enum Platform {
    MacOs,
    Windows,
    Other,
}

/// Whether the shell was compiled with debug assertions.  Debug builds attach
/// a log sink during setup; release builds do not.
#[derive(Clone, Copy, PartialEq, Eq, Structural, Debug)]
pub enum BuildMode {
    Debug,
    Release,
}

/// The six capability plugins the shell registers before the event loop
/// starts.  Each is an opaque registrable unit granting one capability.
#[derive(Clone, Copy, PartialEq, Eq, Structural, Debug)]
pub enum Plugin {
    Shell,
    FileSystem,
    Dialog,
    Http,
    Updater,
    Process,
}

/// Minimum severity accepted by the log sink.
#[derive(Clone, Copy, PartialEq, Eq, Structural, Debug)]
pub enum LogLevel {
    Off,
    Error,
    Warn,
    Info,
    Debug,
    Trace,
}

/// Translucency material for the macOS vibrancy effect.
#[derive(Clone, Copy, PartialEq, Eq, Structural, Debug)]
pub enum Material {
    Titlebar,
    Selection,
    Menu,
    Popover,
    Sidebar,
    HeaderView,
    Sheet,
    WindowBackground,
    HudWindow,
    FullScreenUI,
    Tooltip,
    ContentBackground,
    UnderWindowBackground,
    UnderPageBackground,
}

/// RGBA tint for the Windows acrylic effect.
#[derive(Clone, Copy, PartialEq, Eq, Structural, Debug)]
pub struct Tint {
    pub red: u8,
    pub green: u8,
    pub blue: u8,
    pub alpha: u8,
}

/// One effect the shell asks the host to perform, in the order the startup
/// sequence attempts them.  An action records the attempt; whether it
/// succeeded is the host's reply, not part of the action.
#[derive(Clone, Copy, PartialEq, Eq, Structural, Debug)]
pub enum Action {
    /// Register one capability plugin with the application under construction.
    RegisterPlugin(Plugin),
    /// Resolve the window named "main" from the application instance.
    LookupWindow,
    /// Apply the vibrancy effect with the given material to the main window.
    ApplyVibrancy(Material),
    /// Apply the acrylic effect with the given tint to the main window.
    ApplyAcrylic(Tint),
    /// Attach the log sink at the given minimum severity.
    AttachLogPlugin(LogLevel),
    /// Start the blocking event loop.
    StartEventLoop,
}

/// Why the startup aborted before the event loop was running.
#[derive(Clone, Copy, PartialEq, Eq, Structural, Debug)]
pub enum AbortReason {
    /// No window named "main" existed at setup time.
    WindowMissing,
    /// The platform styling effect could not be applied.
    StyleFailed,
    /// The event loop failed to start.
    EventLoopFailed,
}

/// End state of the startup sequence.  `Running` means the event loop
/// started; the two failure states are the only other exits, and neither is
/// recoverable.
#[derive(Clone, Copy, PartialEq, Eq, Structural, Debug)]
pub enum Outcome {
    /// The event loop is active.
    Running,
    /// Startup terminated the process with a diagnostic.
    FatalAbort(AbortReason),
    /// The setup hook reported an error through its result channel; the
    /// event loop never started.
    SetupError,
}

/// Compile-time configuration of one build of the shell.
#[derive(Clone, Copy, PartialEq, Eq, Structural, Debug)]
pub struct BuildConfig {
    pub platform: Platform,
    pub build: BuildMode,
}

/// The host's replies to the effects the startup attempts: whether the
/// styling call succeeded, whether the log sink attached, and whether the
/// event loop started.  Each is consulted only if the corresponding action
/// is attempted at all.
#[derive(Clone, Copy, PartialEq, Eq, Structural, Debug)]
pub struct HostReplies {
    pub style_ok: bool,
    pub log_attach_ok: bool,
    pub loop_starts: bool,
}

} // verus!
