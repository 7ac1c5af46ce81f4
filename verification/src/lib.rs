//! Camera physics for an interactive fractal viewer.
//!
//! The library models the view of a 2-D parameter plane: momentum-based
//! panning, rotation and zooming driven by discrete input events and a
//! monotonic clock. All arithmetic is exact fixed-point; the contracts
//! state, step by step, how every update moves the camera state.

pub mod axis;
pub mod clock;
pub mod complex;
pub mod direction;
pub mod fx;
pub mod rotation;
pub mod trig;
pub mod view;
pub mod zoom;

pub use direction::MoveDirection;
pub use direction::RotateDirection;
pub use direction::ZoomDirection;
pub use direction::ButtonState;
