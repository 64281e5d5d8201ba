use vstd::prelude::*;

pub mod capture;
pub mod fps_counter;
pub mod input;
pub mod rcs;

pub use capture::{CaptureError, DesktopCapture};
pub use fps_counter::{FPSCounter, FpsStats};
pub use input::InputHandler;
pub use rcs::{LoopAction, LoopState, RecoilControlSystem};

verus! {

} // verus!
