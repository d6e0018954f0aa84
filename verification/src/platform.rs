//! The bridge between translated calls and the GUI library's input state.
//!
//! Text, button and focus calls are made at once. Measures and key events are
//! queued on the platform instead: whoever owns the GUI context takes them
//! from the queue and makes them. Measures need the GUI library's number
//! format, and key events are only safe in a program that leaves the GUI
//! library's legacy key arrays alone, which this crate cannot see.

use vstd::prelude::*;
use crate::event::{InputEvent, WindowMetrics};
use crate::gui::{set_focus_lost, set_platform_name};
use crate::translate::{
    deferred, deferred_grow_by_call, deferred_of, only_deferred, queue_after, translate,
    translation, Deferred, IoCall, Measure,
};

verus! {

/// The name under which this platform registers with the GUI library.
pub const PLATFORM_NAME: &'static str = "imgui-waywin-support 0.1.0";

/// The platform side of the GUI library: feeds it the windowing system's
/// input.
pub struct WaywinPlatform {
    pending: Vec<Deferred>,
}

impl View for WaywinPlatform {
    type V = Seq<Deferred>;

    /// The calls queued and not yet taken, oldest first.
    closed spec fn view(&self) -> Seq<Deferred> {
        self.pending@
    }
}

/// The call that a new platform starts with: the display size, taken from
/// the window's physical size.
pub open spec fn initial_call(window: WindowMetrics) -> Deferred {
    Deferred::Measure(
        Measure::DisplaySize { width: window.physical_size.0, height: window.physical_size.1 },
    )
}

impl WaywinPlatform {
    /// Registers the platform with the GUI library under [`PLATFORM_NAME`]
    /// and queues the initial display size.
    pub fn new(ctx: &mut imgui::Context, window: &WindowMetrics) -> (platform: Self)
        ensures
            platform@ == seq![initial_call(*window)],
    {
        set_platform_name(ctx, PLATFORM_NAME.to_owned());
        let mut pending: Vec<Deferred> = Vec::new();
        pending.push(
            Deferred::Measure(
                Measure::DisplaySize {
                    width: window.physical_size.0,
                    height: window.physical_size.1,
                },
            ),
        );
        WaywinPlatform { pending }
    }

    /// Makes one call: a call that is handed out joins the queue and leaves
    /// the GUI library alone, any other call goes to the GUI library.
    fn apply(&mut self, ctx: &mut imgui::Context, call: IoCall)
        ensures
            final(self)@ == old(self)@ + deferred(seq![call]),
            deferred_of(call) is Some ==> *final(ctx) == *old(ctx),
    {
        proof {
            deferred_grow_by_call(Seq::empty(), call);
            assert(Seq::<IoCall>::empty().push(call) =~= seq![call]);
        }
        match call {
            IoCall::Measure(measure) => {
                self.pending.push(Deferred::Measure(measure));
            },
            IoCall::Modifier { modifier, down } => {
                self.pending.push(Deferred::Modifier { modifier, down });
            },
            IoCall::Key { key, down } => {
                self.pending.push(Deferred::Key { key, down });
            },
            IoCall::FocusLost => {
                set_focus_lost(ctx.io_mut());
            },
            IoCall::InputCharacter(character) => {
                ctx.io_mut().add_input_character(character);
            },
            IoCall::MouseButton { button, down } => {
                ctx.io_mut().add_mouse_button_event(button, down);
            },
        }
        assert(self.pending@ =~= old(self)@ + deferred(seq![call]));
    }

    /// Translates `event` and makes its calls in order: those that are handed
    /// out join the queue, the others go to the GUI library. Where the event
    /// has nothing to say that goes to the GUI library directly, the GUI
    /// library is left as it was.
    pub fn handle_event(
        &mut self,
        ctx: &mut imgui::Context,
        window: &WindowMetrics,
        event: InputEvent,
    )
        ensures
            final(self)@ == queue_after(old(self)@, *window, event),
            only_deferred(translation(*window, event)) ==> *final(ctx) == *old(ctx),
    {
        let calls: Vec<IoCall> = translate(window, &event);
        let ghost before: Seq<Deferred> = self@;
        let mut i: usize = 0;
        proof {
            deferred_grow_by_call(Seq::empty(), IoCall::FocusLost);
            assert(calls@.take(0) =~= Seq::<IoCall>::empty());
        }
        while i < calls.len()
            invariant
                i <= calls.len(),
                self@ == before + deferred(calls@.take(i as int)),
                only_deferred(calls@.take(i as int)) ==> *ctx == *old(ctx),
            decreases calls.len() - i,
        {
            self.apply(ctx, calls[i]);
            proof {
                let done = calls@.take(i as int);
                let call = calls@[i as int];
                deferred_grow_by_call(done, call);
                deferred_grow_by_call(Seq::empty(), call);
                assert(done.push(call) =~= calls@.take(i + 1));
                assert(Seq::<IoCall>::empty().push(call) =~= seq![call]);
                if only_deferred(done.push(call)) {
                    assert(deferred_of(done.push(call)[i as int]) is Some);
                    assert forall|k: int| 0 <= k < done.len() implies deferred_of(
                        #[trigger] done[k],
                    ) is Some by {
                        assert(deferred_of(done.push(call)[k]) is Some);
                    }
                }
            }
            i += 1;
        }
        assert(calls@.take(calls@.len() as int) =~= calls@);
    }

    /// Called before the GUI library starts a frame. Nothing is pending at
    /// that point that the platform would have to add: the queue and the GUI
    /// library stay as they are.
    pub fn prepare_frame(&mut self, ctx: &mut imgui::Context, window: &WindowMetrics)
        ensures
            final(self)@ == old(self)@,
            *final(ctx) == *old(ctx),
    {
    }

    /// Called once the frame's widgets are built and before they are drawn.
    /// The queue stays as it is.
    pub fn prepare_render(&mut self, ui: &imgui::Ui, window: &WindowMetrics)
        ensures
            final(self)@ == old(self)@,
    {
    }

    /// Takes the queued calls, oldest first, and leaves the queue empty.
    pub fn take_deferred(&mut self) -> (taken: Vec<Deferred>)
        ensures
            taken@ == old(self)@,
            final(self)@ == Seq::<Deferred>::empty(),
    {
        let mut taken: Vec<Deferred> = Vec::new();
        std::mem::swap(&mut self.pending, &mut taken);
        taken
    }
}

} // verus!
