//! The canonical vocabulary of the windowing layer: keys, buttons,
//! modifiers, window options and the errors that window calls report.

use vstd::prelude::*;
use crate::dimen::{IVec2, LogicalPosition, ScaleFactor, UVec2};
use crate::window_internal_quad::UserEventSenderQuad;

verus! {

/// A key of the keyboard, whatever the platform calls it.
///
/// `Wake` doubles as the code for every key that has no name of its own
/// here.
#[derive(Clone, Copy, Debug, PartialEq, Eq, Hash, Structural)]
pub enum VirtualKeyCode {
    Key1,
    Key2,
    Key3,
    Key4,
    Key5,
    Key6,
    Key7,
    Key8,
    Key9,
    Key0,
    A,
    B,
    C,
    D,
    E,
    F,
    G,
    H,
    I,
    J,
    K,
    L,
    M,
    N,
    O,
    P,
    Q,
    R,
    S,
    T,
    U,
    V,
    W,
    X,
    Y,
    Z,
    Escape,
    F1,
    F2,
    F3,
    F4,
    F5,
    F6,
    F7,
    F8,
    F9,
    F10,
    F11,
    F12,
    F13,
    F14,
    F15,
    F16,
    F17,
    F18,
    F19,
    F20,
    F21,
    F22,
    F23,
    F24,
    PauseBreak,
    Insert,
    Home,
    Delete,
    End,
    PageDown,
    PageUp,
    Left,
    Up,
    Right,
    Down,
    Backspace,
    Return,
    Space,
    Numpad0,
    Numpad1,
    Numpad2,
    Numpad3,
    Numpad4,
    Numpad5,
    Numpad6,
    Numpad7,
    Numpad8,
    Numpad9,
    NumpadAdd,
    NumpadDivide,
    NumpadDecimal,
    NumpadEnter,
    NumpadEquals,
    NumpadMultiply,
    NumpadSubtract,
    Apostrophe,
    Backslash,
    Comma,
    Equals,
    Grave,
    LAlt,
    LBracket,
    LControl,
    LShift,
    Minus,
    Period,
    RAlt,
    RBracket,
    RControl,
    RShift,
    Semicolon,
    Slash,
    Tab,
    Wake,
}

/// A button of the mouse. `Other` carries the number of a button that has no
/// name here.
#[derive(Clone, Copy, Debug, PartialEq, Eq, Hash, Structural)]
pub enum MouseButton {
    Left,
    Middle,
    Right,
    Other(u16),
}

/// Which modifier keys are held down.
#[derive(Clone, Copy, Debug, PartialEq, Eq, Hash, Structural)]
pub struct ModifiersState {
    pub ctrl: bool,
    pub alt: bool,
    pub shift: bool,
    pub logo: bool,
}

impl ModifiersState {
    /// No modifier is held.
    pub fn none() -> (m: Self)
        ensures
            m == (ModifiersState { ctrl: false, alt: false, shift: false, logo: false }),
    {
        ModifiersState { ctrl: false, alt: false, shift: false, logo: false }
    }
}

/// Why a window could not be created.
#[derive(Clone, Copy, Debug, PartialEq, Eq, Hash, Structural)]
pub enum WindowCreationError {
    PrimaryMonitorNotFound,
    SuitableContextNotFound,
    MakeContextCurrentFailed,
    RendererCreationFailed,
}

/// Why an event could not be posted to the loop.
#[derive(Clone, Copy, Debug, PartialEq, Eq, Hash, Structural)]
pub enum EventLoopSendError {
    /// The loop has stopped: nothing receives events any more.
    EventLoopNoLongerExists,
}

/// What the loop does once the current tick is over.
#[derive(Clone, Copy, Debug, PartialEq, Eq, Hash, Structural)]
pub enum WindowEventLoopAction {
    Continue,
    Exit,
}

/// Whether the window covers the screen.
#[derive(Clone, Copy, Debug, PartialEq, Eq, Hash, Structural)]
pub enum WindowFullscreenMode {
    Windowed,
    FullscreenBorderless,
}

/// The size asked for a new window.
#[derive(Clone, Copy, Debug, PartialEq, Eq)]
pub enum WindowSize {
    /// In physical pixels.
    PhysicalPixels(UVec2),
    /// In logical pixels, to be multiplied by the scale factor.
    ScaledPixels(UVec2),
    /// The monitor's size less a margin of so many physical pixels on each
    /// side.
    MarginPhysicalPixels(u32),
}

/// Where a new window is placed.
#[derive(Clone, Copy, Debug, PartialEq, Eq)]
pub enum WindowPosition {
    Center,
    PrimaryMonitorPixelsFromTopLeft(IVec2),
}

/// Whether a new window is an ordinary window or covers the screen.
#[derive(Clone, Copy, Debug, PartialEq, Eq)]
pub enum WindowCreationMode {
    Windowed { size: WindowSize, position: Option<WindowPosition> },
    FullscreenBorderless,
}

/// The options a window is created with.
#[derive(Clone, Copy, Debug, PartialEq, Eq)]
pub struct WindowCreationOptions {
    pub mode: WindowCreationMode,
    pub multisampling: u16,
    pub vsync: bool,
    pub always_on_top: bool,
    pub resizable: bool,
    pub maximized: bool,
    pub decorations: bool,
}

impl WindowCreationOptions {
    /// The options of an ordinary window of the given size and position,
    /// everything else at its default.
    pub fn new_windowed(size: WindowSize, position: Option<WindowPosition>) -> (o: Self)
        ensures
            o == Self::spec_with_mode(WindowCreationMode::Windowed { size, position }),
    {
        Self::new(WindowCreationMode::Windowed { size, position })
    }

    /// The options of a window that covers the primary monitor.
    pub fn new_fullscreen_borderless() -> (o: Self)
        ensures
            o == Self::spec_with_mode(WindowCreationMode::FullscreenBorderless),
    {
        Self::new(WindowCreationMode::FullscreenBorderless)
    }

    /// The default options for `mode`: multisampling 16, vertical sync on,
    /// resizable and decorated, neither always on top nor maximized.
    pub open spec fn spec_with_mode(mode: WindowCreationMode) -> Self {
        WindowCreationOptions {
            mode,
            multisampling: 16,
            vsync: true,
            always_on_top: false,
            resizable: true,
            maximized: false,
            decorations: true,
        }
    }

    fn new(mode: WindowCreationMode) -> (o: Self)
        ensures
            o == Self::spec_with_mode(mode),
    {
        WindowCreationOptions {
            mode,
            multisampling: 16,
            vsync: true,
            always_on_top: false,
            resizable: true,
            maximized: false,
            decorations: true,
        }
    }

    /// The same options with another multisampling level.
    pub fn with_multisampling(self, multisampling: u16) -> (o: Self)
        ensures
            o == (WindowCreationOptions { multisampling, ..self }),
    {
        WindowCreationOptions { multisampling, ..self }
    }

    /// The same options with vertical sync switched on or off.
    pub fn with_vsync(self, vsync: bool) -> (o: Self)
        ensures
            o == (WindowCreationOptions { vsync, ..self }),
    {
        WindowCreationOptions { vsync, ..self }
    }

    /// The same options for a window that can or cannot be resized.
    pub fn with_resizable(self, resizable: bool) -> (o: Self)
        ensures
            o == (WindowCreationOptions { resizable, ..self }),
    {
        WindowCreationOptions { resizable, ..self }
    }

    /// The same options for a window that does or does not stay on top.
    pub fn with_always_on_top(self, always_on_top: bool) -> (o: Self)
        ensures
            o == (WindowCreationOptions { always_on_top, ..self }),
    {
        WindowCreationOptions { always_on_top, ..self }
    }

    /// The same options for a window that does or does not start maximized.
    pub fn with_maximized(self, maximized: bool) -> (o: Self)
        ensures
            o == (WindowCreationOptions { maximized, ..self }),
    {
        WindowCreationOptions { maximized, ..self }
    }

    /// The same options for a window with or without a title bar and border.
    pub fn with_decorations(self, decorations: bool) -> (o: Self)
        ensures
            o == (WindowCreationOptions { decorations, ..self }),
    {
        WindowCreationOptions { decorations, ..self }
    }
}

/// What the handler is told when the loop starts.
#[derive(Clone, Copy, Debug, PartialEq, Eq)]
pub struct WindowStartupInfo {
    pub viewport_size_pixels: UVec2,
    pub scale_factor: ScaleFactor,
}

impl WindowStartupInfo {
    pub fn new(viewport_size_pixels: UVec2, scale_factor: ScaleFactor) -> (info: Self)
        ensures
            info.viewport_size_pixels == viewport_size_pixels,
            info.scale_factor == scale_factor,
    {
        WindowStartupInfo { viewport_size_pixels, scale_factor }
    }
}

/// Why a request to the window was not taken.
#[derive(Clone, Copy, Debug, PartialEq, Eq, Hash, Structural)]
pub enum WindowActionError {
    /// The icon's buffer does not hold width times height pixels of four
    /// bytes each.
    InvalidIconData,
}

/// A request to the window that the backend is to carry out, as a value of
/// specifications.
pub enum WindowActionModel {
    SetSizePixels(UVec2),
    SetSizeScaledPixels(UVec2),
    SetPositionPixels(IVec2),
    SetPositionScaledPixels(IVec2),
    SetFullscreenMode(WindowFullscreenMode),
    SetCursorVisible(bool),
    SetCursorGrab(bool),
    SetResizable(bool),
    SetTitle(Seq<char>),
    SetIcon(Seq<u8>, UVec2),
}

/// A request to the window that the backend is to carry out.
#[derive(Clone, Debug, PartialEq, Eq)]
pub enum WindowAction {
    SetSizePixels(UVec2),
    SetSizeScaledPixels(UVec2),
    SetPositionPixels(IVec2),
    SetPositionScaledPixels(IVec2),
    SetFullscreenMode(WindowFullscreenMode),
    SetCursorVisible(bool),
    SetCursorGrab(bool),
    SetResizable(bool),
    SetTitle(String),
    /// The icon's pixels, four bytes each, and its size.
    SetIcon(Vec<u8>, UVec2),
}

impl View for WindowAction {
    type V = WindowActionModel;

    open spec fn view(&self) -> WindowActionModel {
        match self {
            WindowAction::SetSizePixels(s) => WindowActionModel::SetSizePixels(*s),
            WindowAction::SetSizeScaledPixels(s) => WindowActionModel::SetSizeScaledPixels(*s),
            WindowAction::SetPositionPixels(p) => WindowActionModel::SetPositionPixels(*p),
            WindowAction::SetPositionScaledPixels(p) => WindowActionModel::SetPositionScaledPixels(
                *p,
            ),
            WindowAction::SetFullscreenMode(m) => WindowActionModel::SetFullscreenMode(*m),
            WindowAction::SetCursorVisible(v) => WindowActionModel::SetCursorVisible(*v),
            WindowAction::SetCursorGrab(g) => WindowActionModel::SetCursorGrab(*g),
            WindowAction::SetResizable(r) => WindowActionModel::SetResizable(*r),
            WindowAction::SetTitle(t) => WindowActionModel::SetTitle(t@),
            WindowAction::SetIcon(d, s) => WindowActionModel::SetIcon(d@, *s),
        }
    }
}

/// The views of a list of requests.
pub open spec fn action_views(actions: Seq<WindowAction>) -> Seq<WindowActionModel> {
    Seq::new(actions.len(), |i: int| actions[i]@)
}

/// An event as the handler sees it, whatever the platform. Sizes and
/// positions are in logical pixels.
#[derive(Debug, PartialEq)]
pub enum CanonicalEvent<UserEventType> {
    /// The loop has started.
    Start(WindowStartupInfo),
    /// The window has the given new logical size.
    Resize(UVec2),
    ScaleFactorChanged(ScaleFactor),
    /// A frame is to be drawn.
    Draw,
    /// An event that the application posted to the loop.
    UserEvent(UserEventType),
    /// The mouse is at the position, which is exact to the part of a pixel.
    MouseMove(LogicalPosition),
    MouseButtonDown(MouseButton),
    MouseButtonUp(MouseButton),
    KeyDown(Option<VirtualKeyCode>, u32),
    KeyUp(Option<VirtualKeyCode>, u32),
    KeyboardChar(char),
    ModifiersChanged(ModifiersState),
}

/// A handle that posts user events to the loop from any thread.
#[verifier::reject_recursive_types(UserEventType)]
pub struct UserEventSender<UserEventType: 'static> {
    inner: UserEventSenderQuad<UserEventType>,
}

impl<UserEventType> Clone for UserEventSender<UserEventType> {
    fn clone(&self) -> (other: Self) {
        UserEventSender { inner: self.inner.clone() }
    }
}

impl<UserEventType> UserEventSender<UserEventType> {
    /// The backend's sender that this handle posts through.
    pub closed spec fn spec_inner(&self) -> UserEventSenderQuad<UserEventType> {
        self.inner
    }

    /// A handle that posts through `inner`: it holds `inner` and nothing
    /// else.
    pub(crate) fn new(inner: UserEventSenderQuad<UserEventType>) -> (sender: Self)
        ensures
            sender.spec_inner() == inner,
    {
        UserEventSender { inner }
    }

    /// Posts `event` to the loop. The only error is that the loop no longer
    /// exists; whether it does is decided elsewhere.
    pub fn send_event(&self, event: UserEventType) -> (r: Result<(), EventLoopSendError>)
        ensures
            r == Ok::<(), EventLoopSendError>(()) || r == Err::<(), EventLoopSendError>(
                EventLoopSendError::EventLoopNoLongerExists,
            ),
    {
        self.inner.send_event(event)
    }
}

} // verus!
