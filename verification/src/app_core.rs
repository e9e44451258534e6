//! Wrappers for the application-shell half of the native API: settings,
//! the application object, monitors, windows, and overlays.

pub mod app;
pub mod error;
pub mod monitor;
pub mod overlay;
pub mod settings;
pub mod window;

pub use app::App;
pub use app::UpdateCallback;
pub use error::Error;
pub use monitor::Monitor;
pub use overlay::Overlay;
pub use settings::Settings;
pub use window::CloseCallback;
pub use window::ResizeCallback;
pub use window::ULWindowFlags;
pub use window::Window;
pub use window::WindowView;
pub use window::WindowFlags;
