//! A retained-mode UI and scene layer: labels, buttons, a keyed window with a
//! layout pass, and an ordered set of game objects. Drawing produces a list
//! of primitives for a host surface to execute.

pub mod draw;
pub mod geometry;
pub mod input;
pub mod key_order;
pub mod scene;
pub mod ui;
pub mod window;

pub use draw::{DrawCmd, DrawError, BLACK, RED, WHITE};
pub use geometry::{Point, Size};
pub use input::Keyboard;
pub use scene::{FpsObject, FrameContext, GameObject, Rect, Scene};
pub use ui::{Button, Label, Talign, Widget, UI};
pub use window::{Window, PADDING};
