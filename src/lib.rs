//! Region selection over a captured screen frame: a drag-select state
//! machine, the dimming tiles around the selection, a cursor magnifier, and
//! cropping of the selected region for saving or copying.
pub mod frame;
pub mod geometry;
pub mod main_app;
pub mod screenshot_app;

pub use main_app::MainApp;
pub use screenshot_app::ScreenshotApp;
