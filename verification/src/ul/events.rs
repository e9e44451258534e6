//! Input events, created host-side and fired into views or renderers.

use vstd::prelude::*;
use vstd::string::StringSliceAdditionalSpecFns;
use crate::handle::Handle;
use crate::native::CallView;
use crate::native::NativeCall;
use crate::native::NativeHost;
use crate::native::ObjState;
use crate::native::ObjView;
use crate::ul::error::Error;
use crate::ul::raw::ULGamepadEventType;
use crate::ul::raw::ULKeyEventType;
use crate::ul::raw::ULMouseButton;
use crate::ul::raw::ULMouseEventType;
use crate::ul::raw::ULScrollEventType;

verus! {

/// An owning wrapper around one native keyboard event.
pub struct KeyEvent {
    handle: Handle,
}

impl KeyEvent {
    /// The native address of this event.
    pub closed spec fn addr(self) -> u64 {
        self.handle.raw_addr()
    }

    /// Create a keyboard event with the given parameters.
    ///
    /// Text with embedded NUL bytes is rejected with `InvalidArgument`
    /// before any native call.
    pub fn new(host: &mut NativeHost, event_type: ULKeyEventType, modifiers: u32, virtual_key_code: i32, native_key_code: i32, text: &str, unmodified_text: &str, is_keypad: bool, is_auto_repeat: bool, is_system_key: bool) -> (r: Result<KeyEvent, Error>)
        ensures
            r is Ok <==> !text.spec_bytes().contains(0u8) && !unmodified_text.spec_bytes().contains(0u8) && old(host).create_succeeds(),
            r matches Ok(e) ==> {
                &&& e.addr() != 0
                &&& !old(host).live(e.addr())
                &&& final(host).obj(e.addr()) == Some(ObjView::KeyEvent {
                    ev_type: event_type.spec_code(),
                    modifiers,
                    virtual_key_code,
                    native_key_code,
                    text: text.spec_bytes(),
                    unmodified_text: unmodified_text.spec_bytes(),
                    is_keypad,
                    is_auto_repeat,
                    is_system_key,
                })
                &&& final(host).calls() == old(host).calls().push(CallView::CreateKeyEvent { addr: e.addr() })
                &&& final(host).objs_same_except(*old(host), e.addr())
            },
            (text.spec_bytes().contains(0u8) || unmodified_text.spec_bytes().contains(0u8)) ==> {
                &&& r == Err::<KeyEvent, Error>(Error::InvalidArgument("Event text contains null bytes"))
                &&& *final(host) == *old(host)
            },
    {
        let text_bytes = text.as_bytes();
        let unmodified_bytes = unmodified_text.as_bytes();
        if crate::native::contains_nul(text_bytes) || crate::native::contains_nul(unmodified_bytes) {
            return Err(Error::InvalidArgument("Event text contains null bytes"));
        }
        let raw = host.create_event(
            ObjState::KeyEvent {
                ev_type: event_type.code(),
                modifiers,
                virtual_key_code,
                native_key_code,
                text: vstd::slice::slice_to_vec(text_bytes),
                unmodified_text: vstd::slice::slice_to_vec(unmodified_bytes),
                is_keypad,
                is_auto_repeat,
                is_system_key,
            });
        match Handle::owning(raw) {
            Some(handle) => Ok(KeyEvent { handle }),
            None => Err(Error::CreationFailed("Failed to create key event")),
        }
    }

    /// The raw native address, for handing back across the boundary.
    pub fn raw(&self) -> (r: u64)
        ensures
            r == self.addr(),
            r != 0,
    {
        self.handle.raw()
    }

    /// Destroy the native event; exactly one destroy call.
    pub fn destroy(self, host: &mut NativeHost)
        ensures
            final(host).calls() == old(host).calls().push(CallView::DestroyKeyEvent { addr: self.addr() }),
            final(host).obj(self.addr()) is None,
            final(host).objs_same_except(*old(host), self.addr()),
            final(host).allocated() == old(host).allocated(),
    {
        let addr = self.handle.raw();
        host.destroy_event(addr, NativeCall::DestroyKeyEvent { addr });
    }
}

/// An owning wrapper around one native mouse event.
pub struct MouseEvent {
    handle: Handle,
}

impl MouseEvent {
    /// The native address of this event.
    pub closed spec fn addr(self) -> u64 {
        self.handle.raw_addr()
    }

    /// Create a mouse event.
    pub fn new(host: &mut NativeHost, event_type: ULMouseEventType, x: i32, y: i32, button: ULMouseButton) -> (r: Result<MouseEvent, Error>)
        ensures
            r is Ok <==> old(host).create_succeeds(),
            r matches Ok(e) ==> {
                &&& e.addr() != 0
                &&& !old(host).live(e.addr())
                &&& final(host).obj(e.addr()) == Some(ObjView::MouseEvent {
                    ev_type: event_type.spec_code(),
                    x,
                    y,
                    button: button.spec_code(),
                })
                &&& final(host).calls() == old(host).calls().push(CallView::CreateMouseEvent { addr: e.addr() })
                &&& final(host).objs_same_except(*old(host), e.addr())
            },
            r is Err ==> r == Err::<MouseEvent, Error>(Error::CreationFailed("Failed to create mouse event")),
    {
        let raw = host.create_event(
            ObjState::MouseEvent { ev_type: event_type.code(), x, y, button: button.code() });
        match Handle::owning(raw) {
            Some(handle) => Ok(MouseEvent { handle }),
            None => Err(Error::CreationFailed("Failed to create mouse event")),
        }
    }

    /// The raw native address, for handing back across the boundary.
    pub fn raw(&self) -> (r: u64)
        ensures
            r == self.addr(),
            r != 0,
    {
        self.handle.raw()
    }

    /// Destroy the native event; exactly one destroy call.
    pub fn destroy(self, host: &mut NativeHost)
        ensures
            final(host).calls() == old(host).calls().push(CallView::DestroyMouseEvent { addr: self.addr() }),
            final(host).obj(self.addr()) is None,
            final(host).objs_same_except(*old(host), self.addr()),
            final(host).allocated() == old(host).allocated(),
    {
        let addr = self.handle.raw();
        host.destroy_event(addr, NativeCall::DestroyMouseEvent { addr });
    }
}

/// An owning wrapper around one native scroll event.
pub struct ScrollEvent {
    handle: Handle,
}

impl ScrollEvent {
    /// The native address of this event.
    pub closed spec fn addr(self) -> u64 {
        self.handle.raw_addr()
    }

    /// Create a scroll event.
    pub fn new(host: &mut NativeHost, event_type: ULScrollEventType, delta_x: i32, delta_y: i32) -> (r: Result<ScrollEvent, Error>)
        ensures
            r is Ok <==> old(host).create_succeeds(),
            r matches Ok(e) ==> {
                &&& e.addr() != 0
                &&& !old(host).live(e.addr())
                &&& final(host).obj(e.addr()) == Some(ObjView::ScrollEvent {
                    ev_type: event_type.spec_code(),
                    delta_x,
                    delta_y,
                })
                &&& final(host).calls() == old(host).calls().push(CallView::CreateScrollEvent { addr: e.addr() })
                &&& final(host).objs_same_except(*old(host), e.addr())
            },
            r is Err ==> r == Err::<ScrollEvent, Error>(Error::CreationFailed("Failed to create scroll event")),
    {
        let raw = host.create_event(
            ObjState::ScrollEvent { ev_type: event_type.code(), delta_x, delta_y });
        match Handle::owning(raw) {
            Some(handle) => Ok(ScrollEvent { handle }),
            None => Err(Error::CreationFailed("Failed to create scroll event")),
        }
    }

    /// The raw native address, for handing back across the boundary.
    pub fn raw(&self) -> (r: u64)
        ensures
            r == self.addr(),
            r != 0,
    {
        self.handle.raw()
    }

    /// Destroy the native event; exactly one destroy call.
    pub fn destroy(self, host: &mut NativeHost)
        ensures
            final(host).calls() == old(host).calls().push(CallView::DestroyScrollEvent { addr: self.addr() }),
            final(host).obj(self.addr()) is None,
            final(host).objs_same_except(*old(host), self.addr()),
            final(host).allocated() == old(host).allocated(),
    {
        let addr = self.handle.raw();
        host.destroy_event(addr, NativeCall::DestroyScrollEvent { addr });
    }
}

/// An owning wrapper around one native gamepad connection event.
pub struct GamepadEvent {
    handle: Handle,
}

impl GamepadEvent {
    /// The native address of this event.
    pub closed spec fn addr(self) -> u64 {
        self.handle.raw_addr()
    }

    /// Create a gamepad connection event.
    pub fn new(host: &mut NativeHost, index: u32, event_type: ULGamepadEventType) -> (r: Result<GamepadEvent, Error>)
        ensures
            r is Ok <==> old(host).create_succeeds(),
            r matches Ok(e) ==> {
                &&& e.addr() != 0
                &&& final(host).obj(e.addr()) == Some(ObjView::GamepadEvent { index, ev_type: event_type.spec_code() })
                &&& final(host).calls() == old(host).calls().push(CallView::CreateGamepadEvent { addr: e.addr() })
                &&& final(host).objs_same_except(*old(host), e.addr())
            },
            r is Err ==> r == Err::<GamepadEvent, Error>(Error::CreationFailed("Failed to create gamepad event")),
    {
        let raw = host.create_event(
            ObjState::GamepadEvent { index, ev_type: event_type.code() });
        match Handle::owning(raw) {
            Some(handle) => Ok(GamepadEvent { handle }),
            None => Err(Error::CreationFailed("Failed to create gamepad event")),
        }
    }

    /// The raw native address, for handing back across the boundary.
    pub fn raw(&self) -> (r: u64)
        ensures
            r == self.addr(),
            r != 0,
    {
        self.handle.raw()
    }

    /// Destroy the native event; exactly one destroy call.
    pub fn destroy(self, host: &mut NativeHost)
        ensures
            final(host).calls() == old(host).calls().push(CallView::DestroyGamepadEvent { addr: self.addr() }),
            final(host).obj(self.addr()) is None,
            final(host).objs_same_except(*old(host), self.addr()),
            final(host).allocated() == old(host).allocated(),
    {
        let addr = self.handle.raw();
        host.destroy_event(addr, NativeCall::DestroyGamepadEvent { addr });
    }
}

/// An owning wrapper around one native gamepad axis event. The axis value
/// itself stays native-side.
pub struct GamepadAxisEvent {
    handle: Handle,
}

impl GamepadAxisEvent {
    /// The native address of this event.
    pub closed spec fn addr(self) -> u64 {
        self.handle.raw_addr()
    }

    /// Create a gamepad axis event.
    pub fn new(host: &mut NativeHost, index: u32, axis_index: u32) -> (r: Result<GamepadAxisEvent, Error>)
        ensures
            r is Ok <==> old(host).create_succeeds(),
            r matches Ok(e) ==> {
                &&& e.addr() != 0
                &&& final(host).obj(e.addr()) == Some(ObjView::GamepadAxisEvent { index, axis_index })
                &&& final(host).calls() == old(host).calls().push(CallView::CreateGamepadAxisEvent { addr: e.addr() })
                &&& final(host).objs_same_except(*old(host), e.addr())
            },
            r is Err ==> r == Err::<GamepadAxisEvent, Error>(Error::CreationFailed("Failed to create gamepad axis event")),
    {
        let raw = host.create_event(
            ObjState::GamepadAxisEvent { index, axis_index });
        match Handle::owning(raw) {
            Some(handle) => Ok(GamepadAxisEvent { handle }),
            None => Err(Error::CreationFailed("Failed to create gamepad axis event")),
        }
    }

    /// The raw native address, for handing back across the boundary.
    pub fn raw(&self) -> (r: u64)
        ensures
            r == self.addr(),
            r != 0,
    {
        self.handle.raw()
    }

    /// Destroy the native event; exactly one destroy call.
    pub fn destroy(self, host: &mut NativeHost)
        ensures
            final(host).calls() == old(host).calls().push(CallView::DestroyGamepadAxisEvent { addr: self.addr() }),
            final(host).obj(self.addr()) is None,
            final(host).objs_same_except(*old(host), self.addr()),
            final(host).allocated() == old(host).allocated(),
    {
        let addr = self.handle.raw();
        host.destroy_event(addr, NativeCall::DestroyGamepadAxisEvent { addr });
    }
}

/// An owning wrapper around one native gamepad button event. The button
/// value itself stays native-side.
pub struct GamepadButtonEvent {
    handle: Handle,
}

impl GamepadButtonEvent {
    /// The native address of this event.
    pub closed spec fn addr(self) -> u64 {
        self.handle.raw_addr()
    }

    /// Create a gamepad button event.
    pub fn new(host: &mut NativeHost, index: u32, button_index: u32) -> (r: Result<GamepadButtonEvent, Error>)
        ensures
            r is Ok <==> old(host).create_succeeds(),
            r matches Ok(e) ==> {
                &&& e.addr() != 0
                &&& final(host).obj(e.addr()) == Some(ObjView::GamepadButtonEvent { index, button_index })
                &&& final(host).calls() == old(host).calls().push(CallView::CreateGamepadButtonEvent { addr: e.addr() })
                &&& final(host).objs_same_except(*old(host), e.addr())
            },
            r is Err ==> r == Err::<GamepadButtonEvent, Error>(Error::CreationFailed("Failed to create gamepad button event")),
    {
        let raw = host.create_event(
            ObjState::GamepadButtonEvent { index, button_index });
        match Handle::owning(raw) {
            Some(handle) => Ok(GamepadButtonEvent { handle }),
            None => Err(Error::CreationFailed("Failed to create gamepad button event")),
        }
    }

    /// The raw native address, for handing back across the boundary.
    pub fn raw(&self) -> (r: u64)
        ensures
            r == self.addr(),
            r != 0,
    {
        self.handle.raw()
    }

    /// Destroy the native event; exactly one destroy call.
    pub fn destroy(self, host: &mut NativeHost)
        ensures
            final(host).calls() == old(host).calls().push(CallView::DestroyGamepadButtonEvent { addr: self.addr() }),
            final(host).obj(self.addr()) is None,
            final(host).objs_same_except(*old(host), self.addr()),
            final(host).allocated() == old(host).allocated(),
    {
        let addr = self.handle.raw();
        host.destroy_event(addr, NativeCall::DestroyGamepadButtonEvent { addr });
    }
}

} // verus!
