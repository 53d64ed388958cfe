//! The window behind the backend: its control handle, the loop's stage, and
//! the tables that give each key, button and modifier of the backend its
//! canonical name.

use vstd::prelude::*;
use vstd::std_specs::convert::FromSpecImpl;
use miniquad::{KeyCode, KeyMods};
use miniquad::MouseButton as BackendButton;
use std::sync::mpsc::{Receiver, SendError, Sender};
use crate::dimen::{
    is_exact_logical, scaled_down, IVec2, LogicalPosition, ScaleFactor, UVec2, Vector2,
};
use crate::error::BacktraceError;
use crate::image::{byte_length, is_byte_length, ImageDataType};
use crate::window::{
    action_views, CanonicalEvent, EventLoopSendError, ModifiersState, MouseButton,
    UserEventSender, VirtualKeyCode, WindowAction, WindowActionError, WindowActionModel,
    WindowCreationError, WindowCreationMode, WindowCreationOptions, WindowEventLoopAction,
    WindowFullscreenMode, WindowSize, WindowStartupInfo,
};

verus! {

/// `miniquad::KeyCode`, the backend's keys: an enum without fields, taken
/// with the variants that the backend declares.
#[verifier::external_type_specification]
pub struct ExKeyCode(miniquad::KeyCode);

/// `miniquad::MouseButton`, the backend's mouse buttons: an enum without
/// fields, taken with the variants that the backend declares.
#[verifier::external_type_specification]
pub struct ExPointerButton(BackendButton);

/// `miniquad::KeyMods`, the backend's modifier flags: four public booleans,
/// taken as the backend declares them.
#[verifier::external_type_specification]
pub struct ExKeyMods(miniquad::KeyMods);

/// The backend keys that have no canonical name and are reported as
/// [`VirtualKeyCode::Wake`].
pub open spec fn is_unnamed_key(key: KeyCode) -> bool {
    key == KeyCode::CapsLock
    || key == KeyCode::World1
    || key == KeyCode::World2
    || key == KeyCode::ScrollLock
    || key == KeyCode::NumLock
    || key == KeyCode::PrintScreen
    || key == KeyCode::F25
    || key == KeyCode::LeftSuper
    || key == KeyCode::RightSuper
    || key == KeyCode::Menu
    || key == KeyCode::Back
    || key == KeyCode::Unknown
}

/// The table of keys. It is total: a key without a canonical
/// name falls back to `Wake`.
pub open spec fn virtual_key_of(key: KeyCode) -> VirtualKeyCode {
    match key {
        KeyCode::Key1 => VirtualKeyCode::Key1,
        KeyCode::Key2 => VirtualKeyCode::Key2,
        KeyCode::Key3 => VirtualKeyCode::Key3,
        KeyCode::Key4 => VirtualKeyCode::Key4,
        KeyCode::Key5 => VirtualKeyCode::Key5,
        KeyCode::Key6 => VirtualKeyCode::Key6,
        KeyCode::Key7 => VirtualKeyCode::Key7,
        KeyCode::Key8 => VirtualKeyCode::Key8,
        KeyCode::Key9 => VirtualKeyCode::Key9,
        KeyCode::Key0 => VirtualKeyCode::Key0,
        KeyCode::A => VirtualKeyCode::A,
        KeyCode::B => VirtualKeyCode::B,
        KeyCode::C => VirtualKeyCode::C,
        KeyCode::D => VirtualKeyCode::D,
        KeyCode::E => VirtualKeyCode::E,
        KeyCode::F => VirtualKeyCode::F,
        KeyCode::G => VirtualKeyCode::G,
        KeyCode::H => VirtualKeyCode::H,
        KeyCode::I => VirtualKeyCode::I,
        KeyCode::J => VirtualKeyCode::J,
        KeyCode::K => VirtualKeyCode::K,
        KeyCode::L => VirtualKeyCode::L,
        KeyCode::M => VirtualKeyCode::M,
        KeyCode::N => VirtualKeyCode::N,
        KeyCode::O => VirtualKeyCode::O,
        KeyCode::P => VirtualKeyCode::P,
        KeyCode::Q => VirtualKeyCode::Q,
        KeyCode::R => VirtualKeyCode::R,
        KeyCode::S => VirtualKeyCode::S,
        KeyCode::T => VirtualKeyCode::T,
        KeyCode::U => VirtualKeyCode::U,
        KeyCode::V => VirtualKeyCode::V,
        KeyCode::W => VirtualKeyCode::W,
        KeyCode::X => VirtualKeyCode::X,
        KeyCode::Y => VirtualKeyCode::Y,
        KeyCode::Z => VirtualKeyCode::Z,
        KeyCode::Escape => VirtualKeyCode::Escape,
        KeyCode::F1 => VirtualKeyCode::F1,
        KeyCode::F2 => VirtualKeyCode::F2,
        KeyCode::F3 => VirtualKeyCode::F3,
        KeyCode::F4 => VirtualKeyCode::F4,
        KeyCode::F5 => VirtualKeyCode::F5,
        KeyCode::F6 => VirtualKeyCode::F6,
        KeyCode::F7 => VirtualKeyCode::F7,
        KeyCode::F8 => VirtualKeyCode::F8,
        KeyCode::F9 => VirtualKeyCode::F9,
        KeyCode::F10 => VirtualKeyCode::F10,
        KeyCode::F11 => VirtualKeyCode::F11,
        KeyCode::F12 => VirtualKeyCode::F12,
        KeyCode::F13 => VirtualKeyCode::F13,
        KeyCode::F14 => VirtualKeyCode::F14,
        KeyCode::F15 => VirtualKeyCode::F15,
        KeyCode::F16 => VirtualKeyCode::F16,
        KeyCode::F17 => VirtualKeyCode::F17,
        KeyCode::F18 => VirtualKeyCode::F18,
        KeyCode::F19 => VirtualKeyCode::F19,
        KeyCode::F20 => VirtualKeyCode::F20,
        KeyCode::F21 => VirtualKeyCode::F21,
        KeyCode::F22 => VirtualKeyCode::F22,
        KeyCode::F23 => VirtualKeyCode::F23,
        KeyCode::F24 => VirtualKeyCode::F24,
        KeyCode::Pause => VirtualKeyCode::PauseBreak,
        KeyCode::Insert => VirtualKeyCode::Insert,
        KeyCode::Home => VirtualKeyCode::Home,
        KeyCode::Delete => VirtualKeyCode::Delete,
        KeyCode::End => VirtualKeyCode::End,
        KeyCode::PageDown => VirtualKeyCode::PageDown,
        KeyCode::PageUp => VirtualKeyCode::PageUp,
        KeyCode::Left => VirtualKeyCode::Left,
        KeyCode::Up => VirtualKeyCode::Up,
        KeyCode::Right => VirtualKeyCode::Right,
        KeyCode::Down => VirtualKeyCode::Down,
        KeyCode::Backspace => VirtualKeyCode::Backspace,
        KeyCode::Enter => VirtualKeyCode::Return,
        KeyCode::Space => VirtualKeyCode::Space,
        KeyCode::Kp0 => VirtualKeyCode::Numpad0,
        KeyCode::Kp1 => VirtualKeyCode::Numpad1,
        KeyCode::Kp2 => VirtualKeyCode::Numpad2,
        KeyCode::Kp3 => VirtualKeyCode::Numpad3,
        KeyCode::Kp4 => VirtualKeyCode::Numpad4,
        KeyCode::Kp5 => VirtualKeyCode::Numpad5,
        KeyCode::Kp6 => VirtualKeyCode::Numpad6,
        KeyCode::Kp7 => VirtualKeyCode::Numpad7,
        KeyCode::Kp8 => VirtualKeyCode::Numpad8,
        KeyCode::Kp9 => VirtualKeyCode::Numpad9,
        KeyCode::KpAdd => VirtualKeyCode::NumpadAdd,
        KeyCode::KpDivide => VirtualKeyCode::NumpadDivide,
        KeyCode::KpDecimal => VirtualKeyCode::NumpadDecimal,
        KeyCode::KpEnter => VirtualKeyCode::NumpadEnter,
        KeyCode::KpEqual => VirtualKeyCode::NumpadEquals,
        KeyCode::KpMultiply => VirtualKeyCode::NumpadMultiply,
        KeyCode::KpSubtract => VirtualKeyCode::NumpadSubtract,
        KeyCode::Apostrophe => VirtualKeyCode::Apostrophe,
        KeyCode::Backslash => VirtualKeyCode::Backslash,
        KeyCode::Comma => VirtualKeyCode::Comma,
        KeyCode::Equal => VirtualKeyCode::Equals,
        KeyCode::GraveAccent => VirtualKeyCode::Grave,
        KeyCode::LeftAlt => VirtualKeyCode::LAlt,
        KeyCode::LeftBracket => VirtualKeyCode::LBracket,
        KeyCode::LeftControl => VirtualKeyCode::LControl,
        KeyCode::LeftShift => VirtualKeyCode::LShift,
        KeyCode::Minus => VirtualKeyCode::Minus,
        KeyCode::Period => VirtualKeyCode::Period,
        KeyCode::RightAlt => VirtualKeyCode::RAlt,
        KeyCode::RightBracket => VirtualKeyCode::RBracket,
        KeyCode::RightControl => VirtualKeyCode::RControl,
        KeyCode::RightShift => VirtualKeyCode::RShift,
        KeyCode::Semicolon => VirtualKeyCode::Semicolon,
        KeyCode::Slash => VirtualKeyCode::Slash,
        KeyCode::Tab => VirtualKeyCode::Tab,
        _ => VirtualKeyCode::Wake,
    }
}

impl FromSpecImpl<KeyCode> for VirtualKeyCode {
    open spec fn obeys_from_spec() -> bool {
        true
    }

    open spec fn from_spec(key: KeyCode) -> Self {
        virtual_key_of(key)
    }
}

impl From<KeyCode> for VirtualKeyCode {
    /// The canonical key for a backend key, by the table [`virtual_key_of`].
    fn from(virtual_key_code: KeyCode) -> (code: Self) {
        match virtual_key_code {
            KeyCode::Key1 => VirtualKeyCode::Key1,
            KeyCode::Key2 => VirtualKeyCode::Key2,
            KeyCode::Key3 => VirtualKeyCode::Key3,
            KeyCode::Key4 => VirtualKeyCode::Key4,
            KeyCode::Key5 => VirtualKeyCode::Key5,
            KeyCode::Key6 => VirtualKeyCode::Key6,
            KeyCode::Key7 => VirtualKeyCode::Key7,
            KeyCode::Key8 => VirtualKeyCode::Key8,
            KeyCode::Key9 => VirtualKeyCode::Key9,
            KeyCode::Key0 => VirtualKeyCode::Key0,
            KeyCode::A => VirtualKeyCode::A,
            KeyCode::B => VirtualKeyCode::B,
            KeyCode::C => VirtualKeyCode::C,
            KeyCode::D => VirtualKeyCode::D,
            KeyCode::E => VirtualKeyCode::E,
            KeyCode::F => VirtualKeyCode::F,
            KeyCode::G => VirtualKeyCode::G,
            KeyCode::H => VirtualKeyCode::H,
            KeyCode::I => VirtualKeyCode::I,
            KeyCode::J => VirtualKeyCode::J,
            KeyCode::K => VirtualKeyCode::K,
            KeyCode::L => VirtualKeyCode::L,
            KeyCode::M => VirtualKeyCode::M,
            KeyCode::N => VirtualKeyCode::N,
            KeyCode::O => VirtualKeyCode::O,
            KeyCode::P => VirtualKeyCode::P,
            KeyCode::Q => VirtualKeyCode::Q,
            KeyCode::R => VirtualKeyCode::R,
            KeyCode::S => VirtualKeyCode::S,
            KeyCode::T => VirtualKeyCode::T,
            KeyCode::U => VirtualKeyCode::U,
            KeyCode::V => VirtualKeyCode::V,
            KeyCode::W => VirtualKeyCode::W,
            KeyCode::X => VirtualKeyCode::X,
            KeyCode::Y => VirtualKeyCode::Y,
            KeyCode::Z => VirtualKeyCode::Z,
            KeyCode::Escape => VirtualKeyCode::Escape,
            KeyCode::F1 => VirtualKeyCode::F1,
            KeyCode::F2 => VirtualKeyCode::F2,
            KeyCode::F3 => VirtualKeyCode::F3,
            KeyCode::F4 => VirtualKeyCode::F4,
            KeyCode::F5 => VirtualKeyCode::F5,
            KeyCode::F6 => VirtualKeyCode::F6,
            KeyCode::F7 => VirtualKeyCode::F7,
            KeyCode::F8 => VirtualKeyCode::F8,
            KeyCode::F9 => VirtualKeyCode::F9,
            KeyCode::F10 => VirtualKeyCode::F10,
            KeyCode::F11 => VirtualKeyCode::F11,
            KeyCode::F12 => VirtualKeyCode::F12,
            KeyCode::F13 => VirtualKeyCode::F13,
            KeyCode::F14 => VirtualKeyCode::F14,
            KeyCode::F15 => VirtualKeyCode::F15,
            KeyCode::F16 => VirtualKeyCode::F16,
            KeyCode::F17 => VirtualKeyCode::F17,
            KeyCode::F18 => VirtualKeyCode::F18,
            KeyCode::F19 => VirtualKeyCode::F19,
            KeyCode::F20 => VirtualKeyCode::F20,
            KeyCode::F21 => VirtualKeyCode::F21,
            KeyCode::F22 => VirtualKeyCode::F22,
            KeyCode::F23 => VirtualKeyCode::F23,
            KeyCode::F24 => VirtualKeyCode::F24,
            KeyCode::Pause => VirtualKeyCode::PauseBreak,
            KeyCode::Insert => VirtualKeyCode::Insert,
            KeyCode::Home => VirtualKeyCode::Home,
            KeyCode::Delete => VirtualKeyCode::Delete,
            KeyCode::End => VirtualKeyCode::End,
            KeyCode::PageDown => VirtualKeyCode::PageDown,
            KeyCode::PageUp => VirtualKeyCode::PageUp,
            KeyCode::Left => VirtualKeyCode::Left,
            KeyCode::Up => VirtualKeyCode::Up,
            KeyCode::Right => VirtualKeyCode::Right,
            KeyCode::Down => VirtualKeyCode::Down,
            KeyCode::Backspace => VirtualKeyCode::Backspace,
            KeyCode::Enter => VirtualKeyCode::Return,
            KeyCode::Space => VirtualKeyCode::Space,
            KeyCode::Kp0 => VirtualKeyCode::Numpad0,
            KeyCode::Kp1 => VirtualKeyCode::Numpad1,
            KeyCode::Kp2 => VirtualKeyCode::Numpad2,
            KeyCode::Kp3 => VirtualKeyCode::Numpad3,
            KeyCode::Kp4 => VirtualKeyCode::Numpad4,
            KeyCode::Kp5 => VirtualKeyCode::Numpad5,
            KeyCode::Kp6 => VirtualKeyCode::Numpad6,
            KeyCode::Kp7 => VirtualKeyCode::Numpad7,
            KeyCode::Kp8 => VirtualKeyCode::Numpad8,
            KeyCode::Kp9 => VirtualKeyCode::Numpad9,
            KeyCode::KpAdd => VirtualKeyCode::NumpadAdd,
            KeyCode::KpDivide => VirtualKeyCode::NumpadDivide,
            KeyCode::KpDecimal => VirtualKeyCode::NumpadDecimal,
            KeyCode::KpEnter => VirtualKeyCode::NumpadEnter,
            KeyCode::KpEqual => VirtualKeyCode::NumpadEquals,
            KeyCode::KpMultiply => VirtualKeyCode::NumpadMultiply,
            KeyCode::KpSubtract => VirtualKeyCode::NumpadSubtract,
            KeyCode::Apostrophe => VirtualKeyCode::Apostrophe,
            KeyCode::Backslash => VirtualKeyCode::Backslash,
            KeyCode::Comma => VirtualKeyCode::Comma,
            KeyCode::Equal => VirtualKeyCode::Equals,
            KeyCode::GraveAccent => VirtualKeyCode::Grave,
            KeyCode::LeftAlt => VirtualKeyCode::LAlt,
            KeyCode::LeftBracket => VirtualKeyCode::LBracket,
            KeyCode::LeftControl => VirtualKeyCode::LControl,
            KeyCode::LeftShift => VirtualKeyCode::LShift,
            KeyCode::Minus => VirtualKeyCode::Minus,
            KeyCode::Period => VirtualKeyCode::Period,
            KeyCode::RightAlt => VirtualKeyCode::RAlt,
            KeyCode::RightBracket => VirtualKeyCode::RBracket,
            KeyCode::RightControl => VirtualKeyCode::RControl,
            KeyCode::RightShift => VirtualKeyCode::RShift,
            KeyCode::Semicolon => VirtualKeyCode::Semicolon,
            KeyCode::Slash => VirtualKeyCode::Slash,
            KeyCode::Tab => VirtualKeyCode::Tab,
            KeyCode::CapsLock => VirtualKeyCode::Wake,
            KeyCode::World1 => VirtualKeyCode::Wake,
            KeyCode::World2 => VirtualKeyCode::Wake,
            KeyCode::ScrollLock => VirtualKeyCode::Wake,
            KeyCode::NumLock => VirtualKeyCode::Wake,
            KeyCode::PrintScreen => VirtualKeyCode::Wake,
            KeyCode::F25 => VirtualKeyCode::Wake,
            KeyCode::LeftSuper => VirtualKeyCode::Wake,
            KeyCode::RightSuper => VirtualKeyCode::Wake,
            KeyCode::Menu => VirtualKeyCode::Wake,
            KeyCode::Back => VirtualKeyCode::Wake,
            KeyCode::Unknown => VirtualKeyCode::Wake,
        }
    }
}

/// A key is reported as `Wake` exactly when it has no canonical name.
pub proof fn lemma_fallback_keys(key: KeyCode)
    ensures
        virtual_key_of(key) == VirtualKeyCode::Wake <==> is_unnamed_key(key),
{
}

/// Two keys that have a canonical name are told apart: the table is
/// one-to-one away from the fallback.
pub proof fn lemma_named_keys_distinct(a: KeyCode, b: KeyCode)
    requires
        !is_unnamed_key(a),
        virtual_key_of(a) == virtual_key_of(b),
    ensures
        a == b,
{
}

/// The table of mouse buttons.
pub open spec fn mouse_button_of(button: BackendButton) -> MouseButton {
    match button {
        BackendButton::Left => MouseButton::Left,
        BackendButton::Right => MouseButton::Right,
        BackendButton::Middle => MouseButton::Middle,
        BackendButton::Unknown => MouseButton::Other(0),
    }
}

impl FromSpecImpl<BackendButton> for MouseButton {
    open spec fn obeys_from_spec() -> bool {
        true
    }

    open spec fn from_spec(button: BackendButton) -> Self {
        mouse_button_of(button)
    }
}

impl From<BackendButton> for MouseButton {
    /// The canonical button for a backend button; one without a name becomes
    /// `Other(0)`.
    fn from(button: BackendButton) -> (b: Self) {
        match button {
            BackendButton::Left => MouseButton::Left,
            BackendButton::Right => MouseButton::Right,
            BackendButton::Middle => MouseButton::Middle,
            BackendButton::Unknown => MouseButton::Other(0),
        }
    }
}

/// The canonical modifier flags for the backend's.
pub open spec fn modifiers_of(state: KeyMods) -> ModifiersState {
    ModifiersState { ctrl: state.ctrl, alt: state.alt, shift: state.shift, logo: state.logo }
}

impl FromSpecImpl<KeyMods> for ModifiersState {
    open spec fn obeys_from_spec() -> bool {
        true
    }

    open spec fn from_spec(state: KeyMods) -> Self {
        modifiers_of(state)
    }
}

impl From<KeyMods> for ModifiersState {
    /// Copies the four modifier flags.
    fn from(state: KeyMods) -> (m: Self) {
        ModifiersState { ctrl: state.ctrl, alt: state.alt, shift: state.shift, logo: state.logo }
    }
}

/// A handle that posts user events to the loop. It can be cloned, and each
/// clone can be handed to another thread.
#[verifier::reject_recursive_types(UserEventType)]
pub struct UserEventSenderQuad<UserEventType: 'static> {
    event_proxy: Sender<UserEventType>,
}

impl<UserEventType> Clone for UserEventSenderQuad<UserEventType> {
    fn clone(&self) -> (other: Self) {
        UserEventSenderQuad { event_proxy: self.event_proxy.clone() }
    }
}

/// What a sender reports for a post that the channel did or did not take.
pub open spec fn send_outcome(delivered: bool) -> Result<(), EventLoopSendError> {
    if delivered {
        Ok(())
    } else {
        Err(EventLoopSendError::EventLoopNoLongerExists)
    }
}

/// What the sender reports for the channel's answer to a post: success where
/// the channel took the event, and that the loop no longer exists where it
/// gave the event back.
pub fn report_sent<UserEventType>(answer: Result<(), SendError<UserEventType>>) -> (r: Result<
    (),
    EventLoopSendError,
>)
    ensures
        r == send_outcome(answer is Ok),
{
    match answer {
        Ok(()) => Ok(()),
        Err(_) => Err(EventLoopSendError::EventLoopNoLongerExists),
    }
}

impl<UserEventType> UserEventSenderQuad<UserEventType> {
    /// The sending end of the channel that this sender posts to.
    pub closed spec fn spec_event_proxy(&self) -> Sender<UserEventType> {
        self.event_proxy
    }

    /// A sender that posts to the channel behind `ep`: it holds `ep` and
    /// nothing else.
    pub fn new(ep: Sender<UserEventType>) -> (sender: Self)
        ensures
            sender.spec_event_proxy() == ep,
    {
        Self { event_proxy: ep }
    }

    /// Posts `event` to the loop: hands it to the channel and reports the
    /// channel's answer as [`report_sent`] gives it. Whether the loop still
    /// exists is decided elsewhere, so either outcome is possible for any
    /// event; the only error is that the loop is gone.
    pub fn send_event(&self, event: UserEventType) -> (r: Result<(), EventLoopSendError>)
        ensures
            r == send_outcome(true) || r == send_outcome(false),
    {
        report_sent(self.event_proxy.send(event))
    }
}

/// The window's state as a value of specifications.
pub struct WindowStateModel {
    /// Whether a frame is to be drawn at the next chance.
    pub redraw_requested: bool,
    /// Whether the loop is to stop once the current tick is over.
    pub terminate_requested: bool,
    pub physical_size: UVec2,
    pub scale_factor: ScaleFactor,
    pub mouse_grabbed: bool,
    /// The requests to the backend that are not yet handed over.
    pub actions: Seq<WindowActionModel>,
}

impl WindowStateModel {
    /// The state with one more request to the backend.
    pub open spec fn with_action(self, action: WindowActionModel) -> Self {
        WindowStateModel { actions: self.actions.push(action), ..self }
    }

    /// The size in logical pixels: the physical size divided by the scale
    /// factor, rounded down.
    pub open spec fn logical_size(self) -> UVec2 {
        Vector2 {
            x: scaled_down(
                self.physical_size.x as int,
                self.scale_factor.spec_numerator(),
                self.scale_factor.spec_denominator(),
            ) as u32,
            y: scaled_down(
                self.physical_size.y as int,
                self.scale_factor.spec_numerator(),
                self.scale_factor.spec_denominator(),
            ) as u32,
        }
    }
}

/// The control handle: the one way in which the callbacks of a handler read
/// and change the window's state.
#[verifier::reject_recursive_types(UserEventType)]
pub struct WindowHelperQuad<UserEventType: 'static> {
    event_proxy: Sender<UserEventType>,
    redraw_requested: bool,
    terminate_requested: bool,
    physical_size: UVec2,
    scale_factor: ScaleFactor,
    is_mouse_grabbed: bool,
    actions: Vec<WindowAction>,
}

impl<UserEventType> View for WindowHelperQuad<UserEventType> {
    type V = WindowStateModel;

    closed spec fn view(&self) -> WindowStateModel {
        WindowStateModel {
            redraw_requested: self.redraw_requested,
            terminate_requested: self.terminate_requested,
            physical_size: self.physical_size,
            scale_factor: self.scale_factor,
            mouse_grabbed: self.is_mouse_grabbed,
            actions: action_views(self.actions@),
        }
    }
}

impl<UserEventType> WindowHelperQuad<UserEventType> {
    /// The handle of a window of the given physical size and scale factor:
    /// no redraw is pending, termination is not requested, the mouse is not
    /// grabbed and nothing is asked of the backend. Only the loop makes a
    /// handle: a callback is lent one and cannot put another in its place.
    pub(crate) fn new(
        initial_physical_size: UVec2,
        scale_factor: ScaleFactor,
        ep: Sender<UserEventType>,
    ) -> (helper: Self)
        ensures
            helper@ == (WindowStateModel {
                redraw_requested: false,
                terminate_requested: false,
                physical_size: initial_physical_size,
                scale_factor,
                mouse_grabbed: false,
                actions: Seq::empty(),
            }),
    {
        let helper = WindowHelperQuad {
            event_proxy: ep,
            redraw_requested: false,
            terminate_requested: false,
            physical_size: initial_physical_size,
            scale_factor,
            is_mouse_grabbed: false,
            actions: Vec::new(),
        };
        assert(helper@.actions =~= Seq::empty());
        helper
    }

    fn push_action(&mut self, action: WindowAction)
        ensures
            final(self)@ == old(self)@.with_action(action@),
    {
        let ghost before = self.actions@;
        self.actions.push(action);
        assert(action_views(self.actions@) =~= action_views(before).push(action@));
    }

    /// Whether a redraw is pending.
    #[must_use]
    pub fn is_redraw_requested(&self) -> (requested: bool)
        ensures
            requested == self@.redraw_requested,
    {
        self.redraw_requested
    }

    /// Sets or clears the pending redraw.
    pub fn set_redraw_requested(&mut self, redraw_requested: bool)
        ensures
            final(self)@ == (WindowStateModel { redraw_requested, ..old(self)@ }),
    {
        self.redraw_requested = redraw_requested;
    }

    /// What the loop is to do at the end of the tick: exit where termination
    /// was requested, else go on.
    pub fn get_event_loop_action(&self) -> (action: WindowEventLoopAction)
        ensures
            action == if self@.terminate_requested {
                WindowEventLoopAction::Exit
            } else {
                WindowEventLoopAction::Continue
            },
    {
        match self.terminate_requested {
            true => WindowEventLoopAction::Exit,
            false => WindowEventLoopAction::Continue,
        }
    }

    /// Requests that the loop stops once the current tick is over. The
    /// request cannot be taken back.
    pub fn terminate_loop(&mut self)
        ensures
            final(self)@ == (WindowStateModel { terminate_requested: true, ..old(self)@ }),
    {
        self.terminate_requested = true;
    }

    /// Asks for the window's icon to be set from pixels of four bytes each.
    /// The request is refused, and nothing changes, unless `data` holds
    /// exactly `size.x * size.y` pixels.
    pub fn set_icon_from_rgba_pixels(&mut self, data: Vec<u8>, size: UVec2) -> (r: Result<
        (),
        BacktraceError<WindowActionError>,
    >)
        ensures
            r.is_ok() <==> data@.len() == byte_length(size, ImageDataType::RGBA),
            r.is_ok() ==> final(self)@ == old(self)@.with_action(
                WindowActionModel::SetIcon(data@, size),
            ),
            r matches Err(e) ==> final(self)@ == old(self)@ && e.spec_error()
                == WindowActionError::InvalidIconData && e.spec_causes().len() == 0,
    {
        if is_byte_length(data.len(), size, ImageDataType::RGBA) {
            self.push_action(WindowAction::SetIcon(data, size));
            Ok(())
        } else {
            Err(BacktraceError::new(WindowActionError::InvalidIconData))
        }
    }

    /// Asks for the cursor to be shown or hidden.
    pub fn set_cursor_visible(&mut self, visible: bool)
        ensures
            final(self)@ == old(self)@.with_action(WindowActionModel::SetCursorVisible(visible)),
    {
        self.push_action(WindowAction::SetCursorVisible(visible));
    }

    /// Asks for the cursor to be confined to the window, or set free. The
    /// request is always taken. The grab on record does not change until
    /// the backend confirms it.
    pub fn set_cursor_grab(&mut self, grabbed: bool) -> (r: Result<
        (),
        BacktraceError<WindowActionError>,
    >)
        ensures
            r.is_ok(),
            final(self)@ == old(self)@.with_action(WindowActionModel::SetCursorGrab(grabbed)),
    {
        self.push_action(WindowAction::SetCursorGrab(grabbed));
        Ok(())
    }

    /// Asks for the window to be made resizable or not.
    pub fn set_resizable(&mut self, resizable: bool)
        ensures
            final(self)@ == old(self)@.with_action(WindowActionModel::SetResizable(resizable)),
    {
        self.push_action(WindowAction::SetResizable(resizable));
    }

    /// Requests a redraw. Asking twice is asking once.
    pub fn request_redraw(&mut self)
        ensures
            final(self)@ == (WindowStateModel { redraw_requested: true, ..old(self)@ }),
    {
        self.redraw_requested = true;
    }

    /// Asks for the window's title to be changed.
    pub fn set_title(&mut self, title: &str)
        ensures
            final(self)@ == old(self)@.with_action(WindowActionModel::SetTitle(title@)),
    {
        self.push_action(WindowAction::SetTitle(title.to_owned()));
    }

    /// Asks for the window to cover the screen, or to stop doing so.
    pub fn set_fullscreen_mode(&mut self, mode: WindowFullscreenMode)
        ensures
            final(self)@ == old(self)@.with_action(WindowActionModel::SetFullscreenMode(mode)),
    {
        self.push_action(WindowAction::SetFullscreenMode(mode));
    }

    /// Asks for the window to be given a size in physical pixels. The size
    /// on record changes only when the backend reports the resize.
    pub fn set_size_pixels(&mut self, size: UVec2)
        ensures
            final(self)@ == old(self)@.with_action(WindowActionModel::SetSizePixels(size)),
    {
        self.push_action(WindowAction::SetSizePixels(size));
    }

    /// The window's size in logical pixels.
    pub fn get_size_pixels(&self) -> (size: UVec2)
        ensures
            size == self@.logical_size(),
    {
        self.scale_factor.size_to_logical(self.physical_size)
    }

    /// The window's size in physical pixels.
    pub fn get_physical_size_pixels(&self) -> (size: UVec2)
        ensures
            size == self@.physical_size,
    {
        self.physical_size
    }

    /// Asks for the window to be given a size in logical pixels.
    pub fn set_size_scaled_pixels(&mut self, size: UVec2)
        ensures
            final(self)@ == old(self)@.with_action(WindowActionModel::SetSizeScaledPixels(size)),
    {
        self.push_action(WindowAction::SetSizeScaledPixels(size));
    }

    /// Asks for the window to be moved to a position in physical pixels.
    pub fn set_position_pixels(&mut self, position: IVec2)
        ensures
            final(self)@ == old(self)@.with_action(WindowActionModel::SetPositionPixels(position)),
    {
        self.push_action(WindowAction::SetPositionPixels(position));
    }

    /// Asks for the window to be moved to a position in logical pixels.
    pub fn set_position_scaled_pixels(&mut self, position: IVec2)
        ensures
            final(self)@ == old(self)@.with_action(
                WindowActionModel::SetPositionScaledPixels(position),
            ),
    {
        self.push_action(WindowAction::SetPositionScaledPixels(position));
    }

    /// The number of physical pixels per logical pixel.
    #[must_use]
    pub fn get_scale_factor(&self) -> (scale: ScaleFactor)
        ensures
            scale == self@.scale_factor,
    {
        self.scale_factor
    }

    /// Whether the cursor is confined to the window, as the backend last
    /// confirmed it.
    pub fn is_mouse_grabbed(&self) -> (grabbed: bool)
        ensures
            grabbed == self@.mouse_grabbed,
    {
        self.is_mouse_grabbed
    }

    /// A new handle that posts user events to this window's loop.
    pub fn create_user_event_sender(&self) -> (sender: UserEventSender<UserEventType>) {
        UserEventSender::new(UserEventSenderQuad::new(self.event_proxy.clone()))
    }

    /// Hands over the requests to the backend made since the last call, in
    /// the order in which they were made.
    pub fn take_actions(&mut self) -> (actions: Vec<WindowAction>)
        ensures
            action_views(actions@) == old(self)@.actions,
            final(self)@ == (WindowStateModel { actions: Seq::empty(), ..old(self)@ }),
    {
        let mut actions: Vec<WindowAction> = Vec::new();
        std::mem::swap(&mut actions, &mut self.actions);
        assert(action_views(self.actions@) =~= Seq::empty());
        actions
    }

    pub(crate) fn record_size(&mut self, physical_size: UVec2)
        ensures
            final(self)@ == (WindowStateModel {
                physical_size,
                redraw_requested: true,
                ..old(self)@
            }),
    {
        self.physical_size = physical_size;
        self.redraw_requested = true;
    }

    pub(crate) fn record_mouse_grab(&mut self, grabbed: bool)
        ensures
            final(self)@ == (WindowStateModel { mouse_grabbed: grabbed, ..old(self)@ }),
    {
        self.is_mouse_grabbed = grabbed;
    }

    pub(crate) fn record_scale_factor(&mut self, scale_factor: ScaleFactor)
        ensures
            final(self)@ == (WindowStateModel { scale_factor, ..old(self)@ }),
    {
        self.scale_factor = scale_factor;
    }
}

/// The side of the window asked of the backend where the options name no
/// size in pixels.
pub const DEFAULT_WINDOW_SIDE: i32 = 1200;

/// What the backend is asked when the window is opened.
#[derive(Clone, Debug)]
pub struct BackendConfig {
    pub window_title: String,
    pub window_width: i32,
    pub window_height: i32,
    pub high_dpi: bool,
    pub fullscreen: bool,
    pub window_resizable: bool,
    pub sample_count: i32,
}

/// A length in pixels as the backend takes it: no more than `i32::MAX`.
pub open spec fn backend_length(pixels: u32) -> i32 {
    if pixels > i32::MAX as u32 {
        i32::MAX
    } else {
        pixels as i32
    }
}

/// The width and height asked of the backend for a creation mode: the size
/// that the mode names in pixels, and the default side otherwise.
pub open spec fn backend_size(mode: WindowCreationMode) -> (i32, i32) {
    match mode {
        WindowCreationMode::Windowed { size: WindowSize::PhysicalPixels(s), .. } => (
            backend_length(s.x),
            backend_length(s.y),
        ),
        WindowCreationMode::Windowed { size: WindowSize::ScaledPixels(s), .. } => (
            backend_length(s.x),
            backend_length(s.y),
        ),
        _ => (DEFAULT_WINDOW_SIDE, DEFAULT_WINDOW_SIDE),
    }
}

fn to_backend_length(pixels: u32) -> (length: i32)
    ensures
        length == backend_length(pixels),
{
    if pixels > i32::MAX as u32 {
        i32::MAX
    } else {
        pixels as i32
    }
}

/// A window that is not yet open: its title, its options, and the channel
/// on which user events will reach its loop.
#[verifier::reject_recursive_types(UserEventType)]
pub struct WindowQuad<UserEventType: 'static> {
    title: String,
    options: WindowCreationOptions,
    event_proxy: Sender<UserEventType>,
    user_events: Receiver<UserEventType>,
}

impl<UserEventType: 'static> WindowQuad<UserEventType> {
    pub closed spec fn spec_title(&self) -> Seq<char> {
        self.title@
    }

    pub closed spec fn spec_options(&self) -> WindowCreationOptions {
        self.options
    }

    /// A window with the given title and options. This cannot fail.
    pub fn new(title: &str, options: WindowCreationOptions) -> (r: Result<
        WindowQuad<UserEventType>,
        BacktraceError<WindowCreationError>,
    >)
        ensures
            r matches Ok(w) && w.spec_title() == title@ && w.spec_options() == options,
    {
        let (event_proxy, user_events) = std::sync::mpsc::channel();
        return Ok(WindowQuad { title: title.to_owned(), options: options, event_proxy, user_events });
    }

    /// A new handle that posts user events to this window's loop.
    pub fn create_user_event_sender(&self) -> (sender: UserEventSender<UserEventType>) {
        UserEventSender::new(UserEventSenderQuad::new(self.event_proxy.clone()))
    }

    /// The window's title.
    pub fn title(&self) -> (t: &str)
        ensures
            t@ == self.spec_title(),
    {
        self.title.as_str()
    }

    /// The options that the window was made with.
    pub fn options(&self) -> (o: WindowCreationOptions)
        ensures
            o == self.spec_options(),
    {
        self.options
    }

    /// What to ask of the backend when the window is opened: the title, the
    /// size by [`backend_size`], high resolution, and from the options
    /// whether the window covers the screen, whether it can be resized, and
    /// the multisampling level.
    pub fn backend_config(&self) -> (config: BackendConfig)
        ensures
            config.window_title@ == self.spec_title(),
            (config.window_width, config.window_height) == backend_size(self.spec_options().mode),
            config.high_dpi,
            config.fullscreen == (self.spec_options().mode
                is FullscreenBorderless),
            config.window_resizable == self.spec_options().resizable,
            config.sample_count == self.spec_options().multisampling,
    {
        let (window_width, window_height, fullscreen) = match self.options.mode {
            WindowCreationMode::Windowed { size: WindowSize::PhysicalPixels(s), position: _ } => (
                to_backend_length(s.x),
                to_backend_length(s.y),
                false,
            ),
            WindowCreationMode::Windowed { size: WindowSize::ScaledPixels(s), position: _ } => (
                to_backend_length(s.x),
                to_backend_length(s.y),
                false,
            ),
            WindowCreationMode::Windowed { size: WindowSize::MarginPhysicalPixels(_), position: _ } => (
                DEFAULT_WINDOW_SIDE,
                DEFAULT_WINDOW_SIDE,
                false,
            ),
            WindowCreationMode::FullscreenBorderless => (
                DEFAULT_WINDOW_SIDE,
                DEFAULT_WINDOW_SIDE,
                true,
            ),
        };
        BackendConfig {
            window_title: self.title.clone(),
            window_width,
            window_height,
            high_dpi: true,
            fullscreen,
            window_resizable: self.options.resizable,
            sample_count: self.options.multisampling as i32,
        }
    }

    /// Starts the loop for a window that the backend has opened with the
    /// given physical size and scale factor. The result is the running
    /// stage and what the handler is to be told at the start.
    pub fn run_loop(self, initial_physical_size: UVec2, scale_factor: ScaleFactor) -> (started: (
        Stage<UserEventType>,
        WindowStartupInfo,
    ))
        ensures
            started.0@ == StageModel::started(initial_physical_size, scale_factor),
            started.1 == (WindowStartupInfo {
                viewport_size_pixels: initial_physical_size,
                scale_factor,
            }),
    {
        let helper = WindowHelperQuad::new(initial_physical_size, scale_factor, self.event_proxy);
        let stage = Stage::new(helper, self.user_events);
        (stage, WindowStartupInfo::new(initial_physical_size, scale_factor))
    }
}

/// Where the loop stands.
#[derive(Clone, Copy, Debug, PartialEq, Eq, Hash, Structural)]
pub enum LoopPhase {
    /// The window exists, the loop has not started.
    Created,
    /// The loop is running.
    Running,
    /// The loop is running its last tick.
    TerminationRequested,
    /// The loop has stopped for good.
    Stopped,
}

/// The running loop as a value of specifications.
pub struct StageModel {
    pub window: WindowStateModel,
    pub modifiers: ModifiersState,
    /// Whether termination was found requested when the control handle was
    /// last lent out or the last tick ended. Once true, it stays true.
    pub termination_seen: bool,
    pub stopped: bool,
}

impl StageModel {
    /// The loop at its start.
    pub open spec fn started(physical_size: UVec2, scale_factor: ScaleFactor) -> Self {
        StageModel {
            window: WindowStateModel {
                redraw_requested: false,
                terminate_requested: false,
                physical_size,
                scale_factor,
                mouse_grabbed: false,
                actions: Seq::empty(),
            },
            modifiers: ModifiersState { ctrl: false, alt: false, shift: false, logo: false },
            termination_seen: false,
            stopped: false,
        }
    }

    /// Whether termination is requested: it was seen requested before, or
    /// the window's state says so now.
    pub open spec fn termination_requested(self) -> bool {
        self.termination_seen || self.window.terminate_requested
    }

    /// Where the loop stands: stopped once a tick has ended with termination
    /// requested, on its last tick from the request until then, and running
    /// otherwise.
    pub open spec fn phase(self) -> LoopPhase {
        if self.stopped {
            LoopPhase::Stopped
        } else if self.termination_requested() {
            LoopPhase::TerminationRequested
        } else {
            LoopPhase::Running
        }
    }

    /// The loop at the moment the control handle is lent out: a request for
    /// termination that stands in the window's state is put on record, where
    /// whoever has the handle cannot reach it.
    pub open spec fn lent(self) -> Self {
        StageModel { termination_seen: self.termination_requested(), ..self }
    }

    /// The loop after the mouse grab was confirmed on or off.
    pub open spec fn grab_confirmed(self, grabbed: bool) -> Self {
        StageModel { window: WindowStateModel { mouse_grabbed: grabbed, ..self.window }, ..self }
    }

    /// The loop after the backend has reported a new physical size: the
    /// size is on record and a redraw is pending.
    pub open spec fn resized(self, physical_size: UVec2) -> Self {
        StageModel {
            window: WindowStateModel { physical_size, redraw_requested: true, ..self.window },
            ..self
        }
    }

    /// The loop after the backend has reported a new scale factor.
    pub open spec fn rescaled(self, scale_factor: ScaleFactor) -> Self {
        StageModel { window: WindowStateModel { scale_factor, ..self.window }, ..self }
    }

    /// The loop after the draw step of a tick: no redraw is pending.
    pub open spec fn drawn(self) -> Self {
        StageModel { window: WindowStateModel { redraw_requested: false, ..self.window }, ..self }
    }

    /// The loop after the end of a tick: stopped where termination was
    /// requested.
    pub open spec fn tick_ended(self) -> Self {
        StageModel {
            termination_seen: self.termination_requested(),
            stopped: self.stopped || self.termination_requested(),
            ..self
        }
    }

    /// Whether `logical` is the position in physical pixels divided by the
    /// scale factor, exactly, on both axes.
    pub open spec fn is_logical_position(self, logical: LogicalPosition, physical: IVec2) -> bool {
        &&& is_exact_logical(
            logical.pixel.x as int,
            logical.part.x as int,
            logical.per as int,
            physical.x as int,
            self.window.scale_factor.spec_numerator(),
            self.window.scale_factor.spec_denominator(),
        )
        &&& is_exact_logical(
            logical.pixel.y as int,
            logical.part.y as int,
            logical.per as int,
            physical.y as int,
            self.window.scale_factor.spec_numerator(),
            self.window.scale_factor.spec_denominator(),
        )
    }
}

/// The events of a tick for the payloads that came off the channel: one user
/// event for each payload, in the order in which they came.
pub open spec fn spec_user_events_of<UserEventType>(payloads: Seq<UserEventType>) -> Seq<
    CanonicalEvent<UserEventType>,
> {
    Seq::new(payloads.len(), |i: int| CanonicalEvent::UserEvent(payloads[i]))
}

/// The events to hand to the handler for the payloads that came off the
/// channel: every payload, once, as a user event, in the order in which they
/// came.
pub fn user_events_of<UserEventType>(payloads: Vec<UserEventType>) -> (events: Vec<
    CanonicalEvent<UserEventType>,
>)
    ensures
        events@ == spec_user_events_of(payloads@),
        events@.len() == payloads@.len(),
        forall|i: int|
            0 <= i < payloads@.len() ==> events@[i] == CanonicalEvent::UserEvent(payloads@[i]),
{
    let ghost all = payloads@;
    let mut payloads = payloads;
    // A payload can only be moved out from the back. So the payloads are
    // first moved onto a stack, which turns them round, and from there into
    // the events, which turns them round again.
    let mut stack: Vec<UserEventType> = Vec::new();
    while payloads.len() > 0
        invariant
            payloads@.len() + stack@.len() == all.len(),
            payloads@ == all.subrange(0, payloads@.len() as int),
            forall|j: int| 0 <= j < stack@.len() ==> stack@[j] == all[all.len() - 1 - j],
        decreases payloads@.len(),
    {
        match payloads.pop() {
            Some(payload) => {
                assert(payload == all[payloads@.len() as int]);
                stack.push(payload);
                assert(payloads@ =~= all.subrange(0, payloads@.len() as int));
            },
            None => {},
        }
    }
    let mut events: Vec<CanonicalEvent<UserEventType>> = Vec::new();
    while stack.len() > 0
        invariant
            events@.len() + stack@.len() == all.len(),
            forall|j: int| 0 <= j < stack@.len() ==> stack@[j] == all[all.len() - 1 - j],
            forall|j: int|
                0 <= j < events@.len() ==> events@[j] == CanonicalEvent::UserEvent(all[j]),
        decreases stack@.len(),
    {
        match stack.pop() {
            Some(payload) => {
                assert(payload == all[events@.len() as int]);
                events.push(CanonicalEvent::UserEvent(payload));
            },
            None => {},
        }
    }
    assert(events@ =~= spec_user_events_of(all));
    events
}

/// The running loop: the window's state behind its control handle, the
/// receiving end of the user events, and the modifiers last seen.
///
/// Each method takes what the backend reports and gives the canonical event
/// to hand to the handler, if any. Once the loop has stopped nothing is
/// handed out any more and nothing changes.
#[verifier::reject_recursive_types(UserEventType)]
pub struct Stage<UserEventType: 'static> {
    helper: WindowHelperQuad<UserEventType>,
    user_events: Receiver<UserEventType>,
    modifiers: ModifiersState,
    termination_seen: bool,
    stopped: bool,
}

impl<UserEventType> View for Stage<UserEventType> {
    type V = StageModel;

    closed spec fn view(&self) -> StageModel {
        StageModel {
            window: self.helper@,
            modifiers: self.modifiers,
            termination_seen: self.termination_seen,
            stopped: self.stopped,
        }
    }
}

impl<UserEventType> Stage<UserEventType> {
    /// A running loop around the given control handle and channel.
    pub(crate) fn new(
        helper: WindowHelperQuad<UserEventType>,
        user_events: Receiver<UserEventType>,
    ) -> (stage: Self)
        ensures
            stage@ == (StageModel {
                window: helper@,
                modifiers: ModifiersState { ctrl: false, alt: false, shift: false, logo: false },
                termination_seen: false,
                stopped: false,
            }),
    {
        Stage {
            helper: helper,
            user_events: user_events,
            modifiers: ModifiersState::none(),
            termination_seen: false,
            stopped: false,
        }
    }

    /// Where the loop stands.
    pub fn phase(&self) -> (phase: LoopPhase)
        ensures
            phase == self@.phase(),
    {
        if self.stopped {
            LoopPhase::Stopped
        } else if self.termination_seen || self.helper.terminate_requested {
            LoopPhase::TerminationRequested
        } else {
            LoopPhase::Running
        }
    }

    /// The control handle, to read the window's state.
    pub fn helper(&self) -> (helper: &WindowHelperQuad<UserEventType>)
        ensures
            helper@ == self@.window,
    {
        &self.helper
    }

    /// The control handle, to lend to a callback of the handler. What the
    /// callback does to the handle is done to the window's state; the rest
    /// of the loop is out of its reach. That includes a request for
    /// termination made before: it is put on record first, so that nothing
    /// done with the handle takes it back.
    pub fn helper_mut(&mut self) -> (helper: &mut WindowHelperQuad<UserEventType>)
        ensures
            helper@ == old(self)@.window,
            final(self)@ == (StageModel { window: final(helper)@, ..old(self)@.lent() }),
    {
        if self.helper.terminate_requested {
            self.termination_seen = true;
        }
        &mut self.helper
    }

    /// The backend confirms that the mouse is now grabbed, or no longer.
    /// Only this puts the grab on record: asking for it does not.
    pub fn mouse_grab_status_changed(&mut self, grabbed: bool)
        ensures
            final(self)@ == old(self)@.grab_confirmed(grabbed),
    {
        self.helper.record_mouse_grab(grabbed);
    }

    /// The backend reports a new physical size. The size is recorded and a
    /// redraw becomes pending; the handler is told the new logical size.
    pub fn resize_event(&mut self, physical_size: UVec2) -> (event: Option<
        CanonicalEvent<UserEventType>,
    >)
        ensures
            old(self)@.stopped ==> event.is_none() && final(self)@ == old(self)@,
            !old(self)@.stopped ==> final(self)@ == old(self)@.resized(physical_size) && event
                == Some(CanonicalEvent::<UserEventType>::Resize(final(self)@.window.logical_size())),
    {
        if self.stopped {
            return None;
        }
        self.helper.record_size(physical_size);
        Some(CanonicalEvent::Resize(self.helper.get_size_pixels()))
    }

    /// The backend reports a new scale factor, which is recorded. The
    /// physical size stays as it is.
    pub fn scale_factor_changed_event(&mut self, scale_factor: ScaleFactor) -> (event: Option<
        CanonicalEvent<UserEventType>,
    >)
        ensures
            old(self)@.stopped ==> event.is_none() && final(self)@ == old(self)@,
            !old(self)@.stopped ==> final(self)@ == old(self)@.rescaled(scale_factor) && event
                == Some(CanonicalEvent::<UserEventType>::ScaleFactorChanged(scale_factor)),
    {
        if self.stopped {
            return None;
        }
        self.helper.record_scale_factor(scale_factor);
        Some(CanonicalEvent::ScaleFactorChanged(scale_factor))
    }

    /// The mouse has moved to a position given in whole physical pixels.
    /// The handler is told the position in logical pixels: the physical
    /// position divided by the scale factor, without loss.
    pub fn mouse_motion_event(&mut self, position: IVec2) -> (event: Option<
        CanonicalEvent<UserEventType>,
    >)
        ensures
            final(self)@ == old(self)@,
            old(self)@.stopped ==> event.is_none(),
            !old(self)@.stopped ==> (event matches Some(CanonicalEvent::MouseMove(logical))
                && old(self)@.is_logical_position(logical, position)),
    {
        if self.stopped {
            return None;
        }
        Some(
            CanonicalEvent::MouseMove(self.helper.scale_factor.position_to_logical_exact(position)),
        )
    }

    /// A mouse button went down.
    pub fn mouse_button_down_event(&mut self, btn: BackendButton) -> (event: Option<
        CanonicalEvent<UserEventType>,
    >)
        ensures
            final(self)@ == old(self)@,
            event == if old(self)@.stopped {
                None
            } else {
                Some(CanonicalEvent::<UserEventType>::MouseButtonDown(mouse_button_of(btn)))
            },
    {
        if self.stopped {
            return None;
        }
        Some(CanonicalEvent::MouseButtonDown(MouseButton::from(btn)))
    }

    /// A mouse button went up.
    pub fn mouse_button_up_event(&mut self, btn: BackendButton) -> (event: Option<
        CanonicalEvent<UserEventType>,
    >)
        ensures
            final(self)@ == old(self)@,
            event == if old(self)@.stopped {
                None
            } else {
                Some(CanonicalEvent::<UserEventType>::MouseButtonUp(mouse_button_of(btn)))
            },
    {
        if self.stopped {
            return None;
        }
        Some(CanonicalEvent::MouseButtonUp(MouseButton::from(btn)))
    }

    /// A character was typed.
    pub fn char_event(&mut self, character: char) -> (event: Option<CanonicalEvent<UserEventType>>)
        ensures
            final(self)@ == old(self)@,
            event == if old(self)@.stopped {
                None
            } else {
                Some(CanonicalEvent::<UserEventType>::KeyboardChar(character))
            },
    {
        if self.stopped {
            return None;
        }
        Some(CanonicalEvent::KeyboardChar(character))
    }

    /// A key went down. The handler is told the canonical key; the backend
    /// gives no scancode, so that is zero.
    pub fn key_down_event(&mut self, keycode: KeyCode) -> (event: Option<
        CanonicalEvent<UserEventType>,
    >)
        ensures
            final(self)@ == old(self)@,
            event == if old(self)@.stopped {
                None
            } else {
                Some(CanonicalEvent::<UserEventType>::KeyDown(Some(virtual_key_of(keycode)), 0))
            },
    {
        if self.stopped {
            return None;
        }
        Some(CanonicalEvent::KeyDown(Some(VirtualKeyCode::from(keycode)), 0))
    }

    /// A key went up.
    pub fn key_up_event(&mut self, keycode: KeyCode) -> (event: Option<
        CanonicalEvent<UserEventType>,
    >)
        ensures
            final(self)@ == old(self)@,
            event == if old(self)@.stopped {
                None
            } else {
                Some(CanonicalEvent::<UserEventType>::KeyUp(Some(virtual_key_of(keycode)), 0))
            },
    {
        if self.stopped {
            return None;
        }
        Some(CanonicalEvent::KeyUp(Some(VirtualKeyCode::from(keycode)), 0))
    }

    /// The backend reports the modifiers that are held. The handler is told
    /// only where they differ from those last seen, which are then replaced.
    pub fn modifiers_event(&mut self, modifiers: KeyMods) -> (event: Option<
        CanonicalEvent<UserEventType>,
    >)
        ensures
            old(self)@.stopped || modifiers_of(modifiers) == old(self)@.modifiers ==> event.is_none()
                && final(self)@ == old(self)@,
            !old(self)@.stopped && modifiers_of(modifiers) != old(self)@.modifiers ==> event
                == Some(CanonicalEvent::<UserEventType>::ModifiersChanged(modifiers_of(modifiers)))
                && final(self)@ == (StageModel {
                modifiers: modifiers_of(modifiers),
                ..old(self)@
            }),
    {
        if self.stopped {
            return None;
        }
        let state = ModifiersState::from(modifiers);
        if state == self.modifiers {
            None
        } else {
            self.modifiers = state;
            Some(CanonicalEvent::ModifiersChanged(state))
        }
    }

    /// The update step of a tick: takes the payloads that are waiting on the
    /// channel, `limit` of them at most, without ever waiting, and hands
    /// them out as [`user_events_of`] gives them: each one once, as a user
    /// event, in the order in which the channel handed them out. The
    /// window's state does not change. What is waiting depends on the
    /// senders.
    pub fn update(&mut self, limit: usize) -> (events: Vec<CanonicalEvent<UserEventType>>)
        ensures
            final(self)@ == old(self)@,
            events@.len() <= limit,
            old(self)@.stopped ==> events@.len() == 0,
            forall|i: int| 0 <= i < events@.len() ==> (#[trigger] events@[i]) is UserEvent,
    {
        let mut payloads: Vec<UserEventType> = Vec::new();
        if !self.stopped {
            while payloads.len() < limit
                invariant
                    payloads@.len() <= limit,
                decreases limit - payloads@.len(),
            {
                match self.user_events.try_recv() {
                    Ok(payload) => {
                        payloads.push(payload);
                    },
                    Err(_) => {
                        break;
                    },
                }
            }
        }
        user_events_of(payloads)
    }

    /// The draw step of a tick: a frame is drawn exactly when a redraw is
    /// pending, and then none is pending any more.
    pub fn draw(&mut self) -> (event: Option<CanonicalEvent<UserEventType>>)
        ensures
            event.is_some() <==> !old(self)@.stopped && old(self)@.window.redraw_requested,
            event matches Some(e) ==> e is Draw && final(self)@ == old(self)@.drawn(),
            event.is_none() ==> final(self)@ == old(self)@,
    {
        if !self.stopped && self.helper.is_redraw_requested() {
            self.helper.set_redraw_requested(false);
            Some(CanonicalEvent::Draw)
        } else {
            None
        }
    }

    /// The end of a tick, and the only place where the loop stops: it stops
    /// exactly when termination was requested by now.
    pub fn end_tick(&mut self) -> (action: WindowEventLoopAction)
        ensures
            final(self)@ == old(self)@.tick_ended(),
            action == if final(self)@.stopped {
                WindowEventLoopAction::Exit
            } else {
                WindowEventLoopAction::Continue
            },
    {
        if self.helper.terminate_requested {
            self.termination_seen = true;
        }
        if self.termination_seen {
            self.stopped = true;
        }
        if self.stopped {
            WindowEventLoopAction::Exit
        } else {
            WindowEventLoopAction::Continue
        }
    }
}

} // verus!
