//! Input translation and frame scheduling for an immediate-mode GUI that is
//! fed by a native windowing system and presented through a swapchain.
//!
//! * [`event`] is the closed set of windowing events this crate consumes.
//! * [`keymap`] holds the key tables: modifiers and GUI key symbols.
//! * [`translate`] turns one event into the input calls it stands for.
//! * [`gui`] declares the parts of the GUI library that are called from here.
//! * [`platform`] makes the translated calls on the GUI library, or hands them
//!   out where only the owner of the GUI context can make them.
//! * [`frame`] decides when the swapchain is rebuilt and what each frame
//!   waits on.

pub mod event;
pub mod frame;
pub mod gui;
pub mod keymap;
pub mod platform;
pub mod translate;

pub use event::{InputEvent, LogicalKey, NamedKey, PointerButton, ScrollDirection, WindowMetrics};
pub use frame::{
    FatalError, FrameAction, FrameCompletionToken, FrameEvent, FrameScheduler, FrameState,
    LoopSignal, Phase, SwapchainState,
};
pub use keymap::Modifier;
pub use platform::{WaywinPlatform, PLATFORM_NAME};
pub use translate::{
    translate, Deferred, IoCall, Measure, SCALE_DENOMINATOR, SCROLL_UNITS_PER_NOTCH,
};
