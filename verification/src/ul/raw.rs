//! Value enums of the native API, carried across the boundary by code.

use vstd::prelude::*;

verus! {

/// The source of a console message.
#[allow(non_camel_case_types)]
#[derive(Debug, Clone, Copy, PartialEq, Eq, Structural)]
pub enum ULMessageSource {
    kMessageSource_XML,
    kMessageSource_JS,
    kMessageSource_Network,
    kMessageSource_ConsoleAPI,
    kMessageSource_Storage,
    kMessageSource_AppCache,
    kMessageSource_Rendering,
    kMessageSource_CSS,
    kMessageSource_Security,
    kMessageSource_ContentBlocker,
    kMessageSource_Media,
    kMessageSource_MediaSource,
    kMessageSource_WebRTC,
    kMessageSource_ITPDebug,
    kMessageSource_PrivateClickMeasurement,
    kMessageSource_PaymentRequest,
    kMessageSource_Other,
}

/// The severity of a console message.
#[allow(non_camel_case_types)]
#[derive(Debug, Clone, Copy, PartialEq, Eq, Structural)]
pub enum ULMessageLevel {
    kMessageLevel_Log,
    kMessageLevel_Warning,
    kMessageLevel_Error,
    kMessageLevel_Debug,
    kMessageLevel_Info,
}

/// The mouse cursor a page asks for.
#[allow(non_camel_case_types)]
#[derive(Debug, Clone, Copy, PartialEq, Eq, Structural)]
pub enum ULCursor {
    kCursor_Pointer,
    kCursor_Cross,
    kCursor_Hand,
    kCursor_IBeam,
    kCursor_Wait,
    kCursor_Help,
    kCursor_EastResize,
    kCursor_NorthResize,
    kCursor_NorthEastResize,
    kCursor_NorthWestResize,
    kCursor_SouthResize,
    kCursor_SouthEastResize,
    kCursor_SouthWestResize,
    kCursor_WestResize,
    kCursor_NorthSouthResize,
    kCursor_EastWestResize,
    kCursor_NorthEastSouthWestResize,
    kCursor_NorthWestSouthEastResize,
    kCursor_ColumnResize,
    kCursor_RowResize,
    kCursor_MiddlePanning,
    kCursor_EastPanning,
    kCursor_NorthPanning,
    kCursor_NorthEastPanning,
    kCursor_NorthWestPanning,
    kCursor_SouthPanning,
    kCursor_SouthEastPanning,
    kCursor_SouthWestPanning,
    kCursor_WestPanning,
    kCursor_Move,
    kCursor_VerticalText,
    kCursor_Cell,
    kCursor_ContextMenu,
    kCursor_Alias,
    kCursor_Progress,
    kCursor_NoDrop,
    kCursor_Copy,
    kCursor_None,
    kCursor_NotAllowed,
    kCursor_ZoomIn,
    kCursor_ZoomOut,
    kCursor_Grab,
    kCursor_Grabbing,
    kCursor_Custom,
}

/// The kind of a key event.
#[allow(non_camel_case_types)]
#[derive(Debug, Clone, Copy, PartialEq, Eq, Structural)]
pub enum ULKeyEventType {
    kKeyEventType_KeyDown,
    kKeyEventType_KeyUp,
    kKeyEventType_RawKeyDown,
    kKeyEventType_Char,
}

impl ULKeyEventType {
    /// The code crossing the boundary.
    pub open spec fn spec_code(self) -> u32 {
        match self {
            ULKeyEventType::kKeyEventType_KeyDown => 0u32,
            ULKeyEventType::kKeyEventType_KeyUp => 1u32,
            ULKeyEventType::kKeyEventType_RawKeyDown => 2u32,
            ULKeyEventType::kKeyEventType_Char => 3u32,
        }
    }

    /// The code crossing the boundary.
    pub fn code(&self) -> (r: u32)
        ensures
            r == self.spec_code(),
    {
        match self {
            ULKeyEventType::kKeyEventType_KeyDown => 0,
            ULKeyEventType::kKeyEventType_KeyUp => 1,
            ULKeyEventType::kKeyEventType_RawKeyDown => 2,
            ULKeyEventType::kKeyEventType_Char => 3,
        }
    }
}

/// The kind of a mouse event.
#[allow(non_camel_case_types)]
#[derive(Debug, Clone, Copy, PartialEq, Eq, Structural)]
pub enum ULMouseEventType {
    kMouseEventType_MouseMoved,
    kMouseEventType_MouseDown,
    kMouseEventType_MouseUp,
}

impl ULMouseEventType {
    /// The code crossing the boundary.
    pub open spec fn spec_code(self) -> u32 {
        match self {
            ULMouseEventType::kMouseEventType_MouseMoved => 0u32,
            ULMouseEventType::kMouseEventType_MouseDown => 1u32,
            ULMouseEventType::kMouseEventType_MouseUp => 2u32,
        }
    }

    /// The code crossing the boundary.
    pub fn code(&self) -> (r: u32)
        ensures
            r == self.spec_code(),
    {
        match self {
            ULMouseEventType::kMouseEventType_MouseMoved => 0,
            ULMouseEventType::kMouseEventType_MouseDown => 1,
            ULMouseEventType::kMouseEventType_MouseUp => 2,
        }
    }
}

/// A mouse button.
#[allow(non_camel_case_types)]
#[derive(Debug, Clone, Copy, PartialEq, Eq, Structural)]
pub enum ULMouseButton {
    kMouseButton_None,
    kMouseButton_Left,
    kMouseButton_Middle,
    kMouseButton_Right,
}

impl ULMouseButton {
    /// The code crossing the boundary.
    pub open spec fn spec_code(self) -> u32 {
        match self {
            ULMouseButton::kMouseButton_None => 0u32,
            ULMouseButton::kMouseButton_Left => 1u32,
            ULMouseButton::kMouseButton_Middle => 2u32,
            ULMouseButton::kMouseButton_Right => 3u32,
        }
    }

    /// The code crossing the boundary.
    pub fn code(&self) -> (r: u32)
        ensures
            r == self.spec_code(),
    {
        match self {
            ULMouseButton::kMouseButton_None => 0,
            ULMouseButton::kMouseButton_Left => 1,
            ULMouseButton::kMouseButton_Middle => 2,
            ULMouseButton::kMouseButton_Right => 3,
        }
    }
}

/// The kind of a scroll event.
#[allow(non_camel_case_types)]
#[derive(Debug, Clone, Copy, PartialEq, Eq, Structural)]
pub enum ULScrollEventType {
    kScrollEventType_ScrollByPixel,
    kScrollEventType_ScrollByPage,
}

impl ULScrollEventType {
    /// The code crossing the boundary.
    pub open spec fn spec_code(self) -> u32 {
        match self {
            ULScrollEventType::kScrollEventType_ScrollByPixel => 0u32,
            ULScrollEventType::kScrollEventType_ScrollByPage => 1u32,
        }
    }

    /// The code crossing the boundary.
    pub fn code(&self) -> (r: u32)
        ensures
            r == self.spec_code(),
    {
        match self {
            ULScrollEventType::kScrollEventType_ScrollByPixel => 0,
            ULScrollEventType::kScrollEventType_ScrollByPage => 1,
        }
    }
}

/// The kind of a gamepad event.
#[allow(non_camel_case_types)]
#[derive(Debug, Clone, Copy, PartialEq, Eq, Structural)]
pub enum ULGamepadEventType {
    kGamepadEventType_Connected,
    kGamepadEventType_Disconnected,
}

impl ULGamepadEventType {
    /// The code crossing the boundary.
    pub open spec fn spec_code(self) -> u32 {
        match self {
            ULGamepadEventType::kGamepadEventType_Connected => 0u32,
            ULGamepadEventType::kGamepadEventType_Disconnected => 1u32,
        }
    }

    /// The code crossing the boundary.
    pub fn code(&self) -> (r: u32)
        ensures
            r == self.spec_code(),
    {
        match self {
            ULGamepadEventType::kGamepadEventType_Connected => 0,
            ULGamepadEventType::kGamepadEventType_Disconnected => 1,
        }
    }
}

/// The winding order of front-facing triangles.
#[allow(non_camel_case_types)]
#[derive(Debug, Clone, Copy, PartialEq, Eq, Structural)]
pub enum ULFaceWinding {
    kFaceWinding_Clockwise,
    kFaceWinding_CounterClockwise,
}

/// The font hinting algorithm.
#[allow(non_camel_case_types)]
#[derive(Debug, Clone, Copy, PartialEq, Eq, Structural)]
pub enum ULFontHinting {
    kFontHinting_Smooth,
    kFontHinting_Normal,
    kFontHinting_Monochrome,
}

/// The severity of a log message.
#[allow(non_camel_case_types)]
#[derive(Debug, Clone, Copy, PartialEq, Eq, Structural)]
pub enum ULLogLevel {
    kLogLevel_Error,
    kLogLevel_Warning,
    kLogLevel_Info,
}

/// The layout of a vertex buffer.
#[allow(non_camel_case_types)]
#[derive(Debug, Clone, Copy, PartialEq, Eq, Structural)]
pub enum ULVertexBufferFormat {
    kVertexBufferFormat_2f_4ub_2f,
    kVertexBufferFormat_2f_4ub_2f_2f_28f,
}

/// The kind of a fill shader.
#[allow(non_camel_case_types)]
#[derive(Debug, Clone, Copy, PartialEq, Eq, Structural)]
pub enum ULShaderType {
    kShaderType_Fill,
    kShaderType_FillPath,
}

/// The kind of a GPU command.
#[allow(non_camel_case_types)]
#[derive(Debug, Clone, Copy, PartialEq, Eq, Structural)]
pub enum ULCommandType {
    kCommandType_ClearRenderBuffer,
    kCommandType_DrawGeometry,
}

} // verus!
