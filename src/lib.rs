//! A character-grid display: a verified cell compositor with clipping, the
//! render surface's lifecycle decisions, font loading and start-up settings.

pub mod builder;
pub mod colour;
pub mod driver;
pub mod error;
pub mod font;
pub mod grid;
pub mod present;
pub mod render;

pub use builder::{min_window_size, window_size, RogueBuilder};
pub use colour::{new_colour, Colour};
pub use driver::{key_command, KeyCommand, MouseState, SystemKey, TickResult};
pub use error::{RenderError, RenderResult, RogueError, RogueResult};
pub use font::{font_from_rgba, load_font_image, RogueFontData};
pub use present::{Char, Image, Point, PresentInput};
pub use render::{FrameAction, FrameOutcome, SurfaceLifecycle, SurfacePhase};
