//! The operating systems the capture core knows, and what differs between them.
use vstd::prelude::*;

verus! {

/// The operating system that the process targets.
#[derive(Clone, Copy, Debug, PartialEq, Eq, Structural)]
pub enum PlatformKind {
    MacOS,
    Windows,
    Unsupported,
}

/// How a line break is typed into the focused application.
#[derive(Clone, Copy, Debug, PartialEq, Eq, Structural)]
pub enum LineBreakStyle {
    /// A single carriage return, which terminals and editors on macOS expect.
    CarriageReturn,
    /// Carriage return then line feed, as on Windows.
    CarriageReturnLineFeed,
}

pub open spec fn line_break_style_of(p: PlatformKind) -> Option<LineBreakStyle> {
    match p {
        PlatformKind::MacOS => Some(LineBreakStyle::CarriageReturn),
        PlatformKind::Windows => Some(LineBreakStyle::CarriageReturnLineFeed),
        PlatformKind::Unsupported => None,
    }
}

impl PlatformKind {
    /// The line-break convention of the platform; none where injection is unsupported.
    pub fn line_break_style(self) -> (r: Option<LineBreakStyle>)
        ensures
            r == line_break_style_of(self),
    {
        match self {
            PlatformKind::MacOS => Some(LineBreakStyle::CarriageReturn),
            PlatformKind::Windows => Some(LineBreakStyle::CarriageReturnLineFeed),
            PlatformKind::Unsupported => None,
        }
    }
}

/// macOS: the trigger is the Fn modifier, and injection types carriage returns.
#[derive(Clone, Copy, Debug)]
pub struct MacOSPlatform;

impl MacOSPlatform {
    pub fn kind(&self) -> (r: PlatformKind)
        ensures
            r == PlatformKind::MacOS,
    {
        PlatformKind::MacOS
    }

    pub fn name(&self) -> (r: &'static str)
        ensures
            r@ == "macos"@,
    {
        "macos"
    }

    /// The global shortcut used when none is configured.
    pub fn default_hotkey(&self) -> (r: &'static str)
        ensures
            r@ == "F13"@,
    {
        "F13"
    }
}

/// Windows: the trigger is Right Alt or F24, and injection types CR LF.
#[derive(Clone, Copy, Debug)]
pub struct WindowsPlatform;

impl WindowsPlatform {
    pub fn kind(&self) -> (r: PlatformKind)
        ensures
            r == PlatformKind::Windows,
    {
        PlatformKind::Windows
    }

    pub fn name(&self) -> (r: &'static str)
        ensures
            r@ == "windows"@,
    {
        "windows"
    }

    /// The global shortcut used when none is configured.
    pub fn default_hotkey(&self) -> (r: &'static str)
        ensures
            r@ == "Control+Space"@,
    {
        "Control+Space"
    }

    /// Windows gates neither low-level hooks nor synthetic input behind a prompt.
    pub fn is_accessibility_trusted(&self) -> (r: bool)
        ensures
            r,
    {
        true
    }

    /// There is nothing to ask for on Windows: permission is already there.
    pub fn request_accessibility_permission(&self) -> (r: bool)
        ensures
            r,
    {
        true
    }
}

} // verus!
