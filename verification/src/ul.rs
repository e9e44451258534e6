//! Wrappers for the renderer half of the native API: configuration,
//! renderers, sessions, views, surfaces, bitmaps, strings, and input events.

pub mod bitmap;
pub mod buffer;
pub mod config;
pub mod geometry;
pub mod image_source;
pub mod platform;
pub mod error;
pub mod events;
pub mod raw;
pub mod renderer;
pub mod session;
pub mod surface;
pub mod view;
pub mod view_config;
pub mod string;

pub use bitmap::Bitmap;
pub use buffer::Buffer;
pub use bitmap::ULBitmapFormat;
pub use bitmap::ULBitmapFormat as BitmapFormat;
pub use config::Config;
pub use geometry::IntRect;
pub use image_source::ImageSource;
pub use platform::Platform;
pub use error::Error;
pub use events::GamepadAxisEvent;
pub use events::GamepadButtonEvent;
pub use events::GamepadEvent;
pub use events::KeyEvent;
pub use events::MouseEvent;
pub use events::ScrollEvent;
pub use raw::ULCursor;
pub use raw::ULCursor as Cursor;
pub use raw::ULGamepadEventType;
pub use raw::ULGamepadEventType as GamepadEventType;
pub use raw::ULKeyEventType;
pub use raw::ULKeyEventType as KeyEventType;
pub use raw::ULMouseButton;
pub use raw::ULMouseButton as MouseButton;
pub use raw::ULMouseEventType;
pub use raw::ULMouseEventType as MouseEventType;
pub use raw::ULScrollEventType;
pub use raw::ULScrollEventType as ScrollEventType;
pub use raw::ULCommandType;
pub use raw::ULFaceWinding;
pub use raw::ULFontHinting;
pub use raw::ULLogLevel;
pub use raw::ULMessageLevel;
pub use raw::ULMessageSource;
pub use raw::ULShaderType;
pub use raw::ULVertexBufferFormat;
pub use renderer::Renderer;
pub use session::Session;
pub use surface::BitmapSurface;
pub use surface::LockedPixels;
pub use surface::Surface;
pub use view::AddConsoleMessageCallback;
pub use view::BeginLoadingCallback;
pub use view::ChangeCursorCallback;
pub use view::ChangeTitleCallback;
pub use view::ChangeTooltipCallback;
pub use view::ChangeURLCallback;
pub use view::CreateChildViewCallback;
pub use view::CreateInspectorViewCallback;
pub use view::DOMReadyCallback;
pub use view::FailLoadingCallback;
pub use view::FinishLoadingCallback;
pub use view::LockedJSContext;
pub use view::UpdateHistoryCallback;
pub use view::View;
pub use view::ViewRef;
pub use view::WindowObjectReadyCallback;
pub use view_config::ViewConfig;
pub use string::String;
