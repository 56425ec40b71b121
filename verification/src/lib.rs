//! Verified control logic of an interactive 3D model viewer: which key does
//! what, how input events change the viewer's modes and what each event asks
//! the GUI to do, frame counting for the FPS display, the choice of the
//! triangles to rasterize, the size of the frame buffers and the help text.

pub mod controls;
pub mod frames;
pub mod help;
pub mod input;
pub mod scene;

pub use controls::{handle_event, ControlState, InputEvent, MouseButton, Response};
pub use frames::{FrameCounter, NANOS_PER_SECOND};
pub use help::{about_title, banner, help_text};
pub use input::{key_command, KeyCommand};
pub use scene::{blank_pixels, face_color, pixel_count, triangle_indices, Rgb, BYTES_PER_PIXEL};
