//! The parts of the GUI library that this crate calls.
//!
//! Nothing here is proved: each item states what the rest of the crate takes
//! for granted about `imgui`.

use vstd::prelude::*;

verus! {

/// `imgui::Io`, the GUI library's input state. Its contents are not visible to
/// the proofs in this crate.
#[verifier::external_type_specification]
#[verifier::external_body]
pub struct ExIo(imgui::Io);

/// `imgui::Context`, the owner of the input state. Its contents are not
/// visible to the proofs in this crate.
#[verifier::external_type_specification]
#[verifier::external_body]
pub struct ExContext(imgui::Context);

/// `imgui::Ui`, the handle through which a frame's widgets are built. Its
/// contents are not visible to the proofs in this crate.
#[verifier::external_type_specification]
#[verifier::external_body]
pub struct ExUi(imgui::Ui);

/// `imgui::Key`, the GUI library's key symbols, with its variants as the
/// library declares them.
#[verifier::external_type_specification]
pub struct ExKey(imgui::Key);

/// `imgui::MouseButton`, the GUI library's five button slots, with its
/// variants as the library declares them.
#[verifier::external_type_specification]
pub struct ExMouseButton(imgui::MouseButton);

/// `imgui::Context::io_mut` hands out the context's input state. Nothing is
/// claimed about it.
pub assume_specification[ imgui::Context::io_mut ](ctx: &mut imgui::Context) -> (io:
    &mut imgui::Io)
;

/// `imgui::Io::add_input_character` queues one character of typed text. It
/// returns for every character; nothing is claimed about the state it leaves.
pub assume_specification[ imgui::Io::add_input_character ](io: &mut imgui::Io, character: char)
;

/// `imgui::Io::add_mouse_button_event` queues a button press or release. It
/// accepts each of the five button slots; nothing is claimed about the state
/// it leaves.
pub assume_specification[ imgui::Io::add_mouse_button_event ](
    io: &mut imgui::Io,
    button: imgui::MouseButton,
    down: bool,
)
;

/// Sets the public field `app_focus_lost` of `imgui::Io`, which tells the GUI
/// library to release held keys and buttons on its next frame. Nothing is
/// claimed about the state it leaves.
#[verifier::external_body]
pub(crate) fn set_focus_lost(io: &mut imgui::Io) {
    io.app_focus_lost = true;
}

/// Calls `imgui::Context::set_platform_name` with `Some(name)`. The call
/// returns for every string; nothing is claimed about the state it leaves.
#[verifier::external_body]
pub(crate) fn set_platform_name(ctx: &mut imgui::Context, name: String) {
    ctx.set_platform_name(Some(name));
}

} // verus!
