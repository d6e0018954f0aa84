//! The event translator: from one windowing event to the input calls it
//! stands for.
//!
//! Translation is a function of the event and of the window's metrics alone.
//! It never fails: an event with nothing to say translates to no calls.

use vstd::prelude::*;
use crate::event::{
    InputEvent, LogicalKey, NamedKey, PointerButton, ScrollDirection, WindowMetrics,
};
use crate::keymap::{
    different_keys_have_different_symbols, is_mouse_alias, mirrored, modifier_ignores_side,
    modifier_of, symbol_of, Modifier,
};

verus! {

/// A scale factor of `n` stands for the ratio `n / SCALE_DENOMINATOR`.
pub const SCALE_DENOMINATOR: u32 = 120;

/// A scroll of `n` raw units stands for `n / SCROLL_UNITS_PER_NOTCH` wheel
/// notches.
pub const SCROLL_UNITS_PER_NOTCH: i32 = 26;

/// An update that carries a length, a position or a ratio. The GUI library
/// takes these as real numbers; here they are the integers those numbers are
/// formed from.
#[derive(Clone, Copy, Debug, PartialEq, Eq)]
pub enum Measure {
    /// The display size, in pixels.
    DisplaySize { width: u32, height: u32 },
    /// The framebuffer scale of each axis, as numerators over
    /// [`SCALE_DENOMINATOR`].
    FramebufferScale { horizontal_scale: u32, vertical_scale: u32 },
    /// An absolute pointer position, in the coordinates of the display size.
    MousePos { x: i32, y: i32 },
    /// A wheel movement, each axis as a numerator over
    /// [`SCROLL_UNITS_PER_NOTCH`].
    MouseWheel { horizontal: i32, vertical: i32 },
}

/// A call that the platform does not make itself but hands to whoever owns
/// the GUI context.
///
/// A measure has to be turned into real numbers first. A key event is taken
/// by the GUI library only from a program that leaves its legacy key arrays
/// alone, which is for the owner of the context to see to.
#[derive(Clone, Copy, Debug, PartialEq, Eq)]
pub enum Deferred {
    /// Set a size or scale, or queue a pointer or wheel movement.
    Measure(Measure),
    /// Queue a modifier going down or up.
    Modifier { modifier: Modifier, down: bool },
    /// Queue a key symbol going down or up.
    Key { key: imgui::Key, down: bool },
}

/// One update of the GUI library's input state.
#[derive(Clone, Copy, Debug, PartialEq, Eq)]
pub enum IoCall {
    /// Set a size or scale, or queue a pointer or wheel movement.
    Measure(Measure),
    /// Tell the GUI library that the application lost focus.
    FocusLost,
    /// Queue one character of typed text.
    InputCharacter(char),
    /// Queue a modifier going down or up.
    Modifier { modifier: Modifier, down: bool },
    /// Queue a key symbol going down or up.
    Key { key: imgui::Key, down: bool },
    /// Queue a mouse button going down or up.
    MouseButton { button: imgui::MouseButton, down: bool },
}

impl IoCall {
    /// Whether the call names a key the GUI library takes as a key event: a
    /// key call must not name a mouse alias or the shortcut modifier.
    pub open spec fn is_submittable(self) -> bool {
        self matches IoCall::Key { key, .. } ==> !is_mouse_alias(key) && key
            != imgui::Key::ModShortcut
    }
}

/// The form in which a call is handed out, if the platform does not make it
/// itself: measures and key events are handed out, text, buttons and the
/// focus flag are not.
pub open spec fn deferred_of(call: IoCall) -> Option<Deferred> {
    match call {
        IoCall::Measure(measure) => Some(Deferred::Measure(measure)),
        IoCall::Modifier { modifier, down } => Some(Deferred::Modifier { modifier, down }),
        IoCall::Key { key, down } => Some(Deferred::Key { key, down }),
        _ => None,
    }
}

/// The calls among `calls` that are handed out, in order.
pub open spec fn deferred(calls: Seq<IoCall>) -> Seq<Deferred> {
    calls.filter_map(|call: IoCall| deferred_of(call))
}

/// Whether every call among `calls` is handed out, so that none of them goes
/// to the GUI library directly.
pub open spec fn only_deferred(calls: Seq<IoCall>) -> bool {
    forall|i: int| 0 <= i < calls.len() ==> deferred_of(#[trigger] calls[i]) is Some
}

/// The queue that results from handling `event` with `queue` waiting: the
/// calls of the event that are handed out join it at the end.
pub open spec fn queue_after(
    queue: Seq<Deferred>,
    window: WindowMetrics,
    event: InputEvent,
) -> Seq<Deferred> {
    queue + deferred(translation(window, event))
}

/// The handed-out calls of a run of calls grow by each call added that is
/// handed out, and by nothing where the call added is made directly.
pub proof fn deferred_grow_by_call(calls: Seq<IoCall>, call: IoCall)
    ensures
        deferred(Seq::<IoCall>::empty()) == Seq::<Deferred>::empty(),
        deferred(calls.push(call)) == match deferred_of(call) {
            Some(handed) => deferred(calls).push(handed),
            None => deferred(calls),
        },
{
    let longer = calls.push(call);
    assert(longer.drop_last() =~= calls);
    assert(longer.last() == call);
    assert(deferred(longer) =~= match deferred_of(call) {
        Some(handed) => deferred(calls).push(handed),
        None => deferred(calls),
    });
}

/// The character at place `i` of `text`.
pub open spec fn character_at(text: Seq<char>, i: int) -> char {
    text[i]
}

/// The text calls of a key event: one call per character typed, in order.
pub open spec fn text_calls(text: Seq<char>) -> Seq<IoCall> {
    Seq::new(text.len(), |i: int| IoCall::InputCharacter(character_at(text, i)))
}

/// The modifier call of a key, if the key is a modifier.
pub open spec fn modifier_calls(key: LogicalKey, down: bool) -> Seq<IoCall> {
    match modifier_of(key) {
        Some(modifier) => seq![IoCall::Modifier { modifier, down }],
        None => Seq::empty(),
    }
}

/// The key-symbol call of a key, if the symbol table has an entry for it.
pub open spec fn symbol_calls(key: LogicalKey, down: bool) -> Seq<IoCall> {
    match symbol_of(key) {
        Some(symbol) => seq![IoCall::Key { key: symbol, down }],
        None => Seq::empty(),
    }
}

/// The GUI button slot of a pointer button: the three standard buttons map
/// to themselves, Back and Forward to the two extra slots, anything else to
/// nothing.
pub open spec fn button_slot(button: PointerButton) -> Option<imgui::MouseButton> {
    match button {
        PointerButton::Left => Some(imgui::MouseButton::Left),
        PointerButton::Right => Some(imgui::MouseButton::Right),
        PointerButton::Middle => Some(imgui::MouseButton::Middle),
        PointerButton::Forward => Some(imgui::MouseButton::Extra2),
        PointerButton::Back => Some(imgui::MouseButton::Extra1),
        PointerButton::Unknown(_) => None,
    }
}

/// The wheel movement of a scroll: the whole value on the axis scrolled, zero
/// on the other.
pub open spec fn wheel_of(direction: ScrollDirection, value: i32) -> Measure {
    match direction {
        ScrollDirection::Vertical => Measure::MouseWheel { horizontal: 0, vertical: value },
        ScrollDirection::Horizontal => Measure::MouseWheel { horizontal: value, vertical: 0 },
    }
}

/// The calls that one event stands for, in the order they are made.
///
/// * A resize sets the display size to the window's logical size.
/// * A new scale factor sets the framebuffer scale of both axes to it.
/// * Losing focus raises the focus-lost flag; gaining focus says nothing.
/// * A key forwards its text, then its modifier, then its symbol, each only
///   if there is one.
/// * Pointer motion forwards the position.
/// * A pointer button forwards its slot, if it has one.
/// * A scroll forwards a wheel movement on one axis.
/// * Close and redraw requests say nothing to the input state.
pub open spec fn translation(window: WindowMetrics, event: InputEvent) -> Seq<IoCall> {
    match event {
        InputEvent::Resize => seq![
            IoCall::Measure(
                Measure::DisplaySize {
                    width: window.logical_size.0,
                    height: window.logical_size.1,
                },
            ),
        ],
        InputEvent::ScaleFactorChanged => seq![
            IoCall::Measure(
                Measure::FramebufferScale {
                    horizontal_scale: window.scale,
                    vertical_scale: window.scale,
                },
            ),
        ],
        InputEvent::Focus(focused) => if focused {
            Seq::empty()
        } else {
            seq![IoCall::FocusLost]
        },
        InputEvent::Key { down, text, key } => text_calls(text@) + modifier_calls(key, down)
            + symbol_calls(key, down),
        InputEvent::PointerMoved { x, y } => seq![IoCall::Measure(Measure::MousePos { x, y })],
        InputEvent::PointerButton { down, button } => match button_slot(button) {
            Some(slot) => seq![IoCall::MouseButton { button: slot, down }],
            None => Seq::empty(),
        },
        InputEvent::Scroll { direction, value } => seq![
            IoCall::Measure(wheel_of(direction, value)),
        ],
        InputEvent::Close => Seq::empty(),
        InputEvent::RedrawRequested => Seq::empty(),
    }
}

/// The calls of a run of events against one window, event after event.
pub open spec fn translation_of_all(window: WindowMetrics, events: Seq<InputEvent>) -> Seq<IoCall>
    decreases events.len(),
{
    if events.len() == 0 {
        Seq::empty()
    } else {
        translation_of_all(window, events.drop_last()) + translation(window, events.last())
    }
}

/// The modifier call of a key does not depend on the side of the keyboard
/// the key sits on: the left and the right key emit the same call.
pub proof fn modifier_call_ignores_side(key: NamedKey, down: bool)
    ensures
        modifier_calls(LogicalKey::Named(mirrored(key)), down) == modifier_calls(
            LogicalKey::Named(key),
            down,
        ),
{
    modifier_ignores_side(key);
}

/// A key without an entry in the symbol table still forwards every
/// character of its text, and its modifier, and emits no key-symbol call.
pub proof fn unmapped_key_still_forwards_text(
    window: WindowMetrics,
    down: bool,
    text: String,
    key: LogicalKey,
)
    requires
        symbol_of(key) is None,
    ensures
        translation(window, InputEvent::Key { down, text, key }) == text_calls(text@)
            + modifier_calls(key, down),
        translation(window, InputEvent::Key { down, text, key }).len() >= text@.len(),
        forall|i: int|
            0 <= i < text@.len() ==> #[trigger] translation(
                window,
                InputEvent::Key { down, text, key },
            )[i] == IoCall::InputCharacter(text@[i]),
        forall|i: int|
            0 <= i < translation(window, InputEvent::Key { down, text, key }).len() ==> !(
            #[trigger] translation(window, InputEvent::Key { down, text, key })[i] is Key),
{
    assert(text_calls(text@) + modifier_calls(key, down) + symbol_calls(key, down)
        =~= text_calls(text@) + modifier_calls(key, down));
}

/// A key with an entry in the symbol table emits its key-symbol call last,
/// with the `down` flag as it came.
pub proof fn mapped_key_emits_its_symbol_last(
    window: WindowMetrics,
    down: bool,
    text: String,
    key: LogicalKey,
)
    requires
        symbol_of(key) is Some,
    ensures
        translation(window, InputEvent::Key { down, text, key }).len() > 0,
        translation(window, InputEvent::Key { down, text, key }).last() == (IoCall::Key {
            key: symbol_of(key)->0,
            down,
        }),
{
}

/// A pointer button without a slot says nothing: no call is emitted, so the
/// GUI library is not touched and nothing is queued.
pub proof fn unknown_button_says_nothing(window: WindowMetrics, down: bool, code: u32)
    ensures
        only_deferred(
            translation(
                window,
                InputEvent::PointerButton { down, button: PointerButton::Unknown(code) },
            ),
        ),
        translation(
            window,
            InputEvent::PointerButton { down, button: PointerButton::Unknown(code) },
        ) == Seq::<IoCall>::empty(),
        deferred(
            translation(
                window,
                InputEvent::PointerButton { down, button: PointerButton::Unknown(code) },
            ),
        ) == Seq::<Deferred>::empty(),
{
    deferred_grow_by_call(Seq::empty(), IoCall::FocusLost);
}

/// A scroll moves the wheel on the axis scrolled and on no other.
pub proof fn scroll_moves_one_axis(window: WindowMetrics, direction: ScrollDirection, value: i32)
    ensures
        translation(window, InputEvent::Scroll { direction, value }) == seq![
            IoCall::Measure(wheel_of(direction, value)),
        ],
        wheel_of(direction, value) matches Measure::MouseWheel { horizontal, vertical } && (
        match direction {
            ScrollDirection::Vertical => horizontal == 0 && vertical == value,
            ScrollDirection::Horizontal => horizontal == value && vertical == 0,
        }),
{
}

/// Two different keys of the symbol table never emit the same key-symbol
/// call: whatever else the two events have in common, their translations
/// differ in the last call.
pub proof fn different_keys_emit_different_symbols(
    window: WindowMetrics,
    down: bool,
    text: String,
    first: LogicalKey,
    second: LogicalKey,
)
    requires
        symbol_of(first) is Some,
        symbol_of(second) is Some,
        first@ != second@,
    ensures
        symbol_calls(first, down) != symbol_calls(second, down),
        translation(window, InputEvent::Key { down, text, key: first }).last() != translation(
            window,
            InputEvent::Key { down, text, key: second },
        ).last(),
{
    different_keys_have_different_symbols(first, second);
    assert(symbol_calls(first, down)[0] != symbol_calls(second, down)[0]);
}

/// The handed-out calls of two runs of calls, one after the other, are those
/// of the first followed by those of the second.
pub proof fn deferred_of_concatenation(first: Seq<IoCall>, second: Seq<IoCall>)
    ensures
        deferred(first + second) == deferred(first) + deferred(second),
    decreases second.len(),
{
    deferred_grow_by_call(first, IoCall::FocusLost);
    if second.len() == 0 {
        assert(first + second =~= first);
        assert(deferred(first) + deferred(second) =~= deferred(first));
    } else {
        let shorter = second.drop_last();
        deferred_of_concatenation(first, shorter);
        deferred_grow_by_call(first + shorter, second.last());
        deferred_grow_by_call(shorter, second.last());
        assert((first + shorter).push(second.last()) =~= first + second);
        assert(shorter.push(second.last()) =~= second);
        assert(deferred(first + second) =~= deferred(first) + deferred(second));
    }
}

/// Whether `queues` are the queues that handling `events` one after the other
/// may leave: one before the first event, and one after each event that
/// follows from the one before as handling that event says.
pub open spec fn is_replay(
    queues: Seq<Seq<Deferred>>,
    window: WindowMetrics,
    events: Seq<InputEvent>,
) -> bool {
    &&& queues.len() == events.len() + 1
    &&& forall|i: int|
        0 <= i < events.len() ==> #[trigger] queues[i + 1] == queue_after(
            queues[i],
            window,
            events[i],
        )
}

/// Handling a run of events leaves the starting queue followed by the
/// handed-out calls of all the events, in order.
pub proof fn replay_appends_the_deferred(
    queues: Seq<Seq<Deferred>>,
    window: WindowMetrics,
    events: Seq<InputEvent>,
)
    requires
        is_replay(queues, window, events),
    ensures
        queues.last() == queues[0] + deferred(translation_of_all(window, events)),
    decreases events.len(),
{
    deferred_grow_by_call(Seq::empty(), IoCall::FocusLost);
    if events.len() == 0 {
        assert(queues[0] + deferred(translation_of_all(window, events)) =~= queues[0]);
    } else {
        let earlier = events.drop_last();
        let before = queues.drop_last();
        assert forall|i: int| 0 <= i < earlier.len() implies #[trigger] before[i + 1]
            == queue_after(before[i], window, earlier[i]) by {
            assert(queues[i + 1] == queue_after(queues[i], window, events[i]));
        }
        replay_appends_the_deferred(before, window, earlier);
        deferred_of_concatenation(
            translation_of_all(window, earlier),
            translation(window, events.last()),
        );
        let n = events.len() as int;
        assert(queues[n - 1 + 1] == queue_after(queues[n - 1], window, events[n - 1]));
        assert(before.last() == queues[n - 1]);
        assert(before[0] == queues[0]);
        assert(queues.last() =~= queues[0] + deferred(translation_of_all(window, events)));
    }
}

/// Replaying is deterministic: two runs that start from the same queue and
/// handle the same events against the same window pass through the same
/// queues, whatever else differs between them.
pub proof fn replay_is_deterministic(
    first: Seq<Seq<Deferred>>,
    second: Seq<Seq<Deferred>>,
    window: WindowMetrics,
    events: Seq<InputEvent>,
)
    requires
        is_replay(first, window, events),
        is_replay(second, window, events),
        first[0] == second[0],
    ensures
        first == second,
    decreases events.len(),
{
    if events.len() == 0 {
        assert(first =~= second);
    } else {
        let earlier = events.drop_last();
        let n = events.len() as int;
        assert forall|i: int| 0 <= i < earlier.len() implies #[trigger] first.drop_last()[i + 1]
            == queue_after(first.drop_last()[i], window, earlier[i]) by {
            assert(first[i + 1] == queue_after(first[i], window, events[i]));
        }
        assert forall|i: int| 0 <= i < earlier.len() implies #[trigger] second.drop_last()[i + 1]
            == queue_after(second.drop_last()[i], window, earlier[i]) by {
            assert(second[i + 1] == queue_after(second[i], window, events[i]));
        }
        replay_is_deterministic(first.drop_last(), second.drop_last(), window, earlier);
        assert(first[n - 1] == first.drop_last()[n - 1]);
        assert(second[n - 1] == second.drop_last()[n - 1]);
        assert(first[n - 1 + 1] == queue_after(first[n - 1], window, events[n - 1]));
        assert(second[n - 1 + 1] == queue_after(second[n - 1], window, events[n - 1]));
        assert forall|i: int| 0 <= i < first.len() implies first[i] == second[i] by {
            if i < n {
                assert(first[i] == first.drop_last()[i]);
                assert(second[i] == second.drop_last()[i]);
            }
        }
        assert(first =~= second);
    }
}

impl PointerButton {
    /// The GUI button slot of this button, or `None` for a button without a
    /// slot.
    pub fn slot(self) -> (slot: Option<imgui::MouseButton>)
        ensures
            slot == button_slot(self),
    {
        match self {
            PointerButton::Left => Some(imgui::MouseButton::Left),
            PointerButton::Right => Some(imgui::MouseButton::Right),
            PointerButton::Middle => Some(imgui::MouseButton::Middle),
            PointerButton::Forward => Some(imgui::MouseButton::Extra2),
            PointerButton::Back => Some(imgui::MouseButton::Extra1),
            PointerButton::Unknown(_) => None,
        }
    }
}

impl ScrollDirection {
    /// The wheel movement of a scroll of `value` raw units along this axis.
    pub fn wheel(self, value: i32) -> (wheel: Measure)
        ensures
            wheel == wheel_of(self, value),
    {
        match self {
            ScrollDirection::Vertical => Measure::MouseWheel { horizontal: 0, vertical: value },
            ScrollDirection::Horizontal => Measure::MouseWheel { horizontal: value, vertical: 0 },
        }
    }
}

/// Appends one text call per character of `text` to `calls`.
fn push_text_calls(calls: &mut Vec<IoCall>, text: &str)
    ensures
        final(calls)@ == old(calls)@ + text_calls(text@),
{
    let ghost before: Seq<IoCall> = calls@;
    assert(calls@ =~= before + text_calls(text@.take(0)));
    for character in it: text.chars()
        invariant
            it.seq() == text@,
            calls@ == before + text_calls(text@.take(it.index() as int)),
    {
        assert(character == character_at(text@, it.index() as int));
        calls.push(IoCall::InputCharacter(character));
        assert(calls@ =~= before + text_calls(text@.take(it.index() + 1)));
    }
    assert(text@.take(text@.len() as int) =~= text@);
}

/// Translates a key event: its text, then its modifier, then its symbol.
fn translate_key(down: bool, text: &str, key: &LogicalKey) -> (calls: Vec<IoCall>)
    ensures
        calls@ == text_calls(text@) + modifier_calls(*key, down) + symbol_calls(*key, down),
        forall|i: int| 0 <= i < calls@.len() ==> (#[trigger] calls@[i]).is_submittable(),
{
    let mut calls: Vec<IoCall> = Vec::new();
    push_text_calls(&mut calls, text);
    assert(calls@ =~= text_calls(text@));
    if let Some(modifier) = key.modifier() {
        calls.push(IoCall::Modifier { modifier, down });
    }
    assert(calls@ =~= text_calls(text@) + modifier_calls(*key, down));
    if let Some(symbol) = key.symbol() {
        calls.push(IoCall::Key { key: symbol, down });
    }
    assert(calls@ =~= text_calls(text@) + modifier_calls(*key, down) + symbol_calls(*key, down));
    calls
}

/// Translates one event into the calls it stands for. No key call it
/// yields names a mouse alias or the shortcut modifier.
pub fn translate(window: &WindowMetrics, event: &InputEvent) -> (calls: Vec<IoCall>)
    ensures
        calls@ == translation(*window, *event),
        forall|i: int| 0 <= i < calls@.len() ==> (#[trigger] calls@[i]).is_submittable(),
{
    let mut calls: Vec<IoCall> = Vec::new();
    match event {
        InputEvent::Resize => {
            calls.push(
                IoCall::Measure(
                    Measure::DisplaySize {
                        width: window.logical_size.0,
                        height: window.logical_size.1,
                    },
                ),
            );
        },
        InputEvent::ScaleFactorChanged => {
            calls.push(
                IoCall::Measure(
                    Measure::FramebufferScale {
                        horizontal_scale: window.scale,
                        vertical_scale: window.scale,
                    },
                ),
            );
        },
        InputEvent::Focus(focused) => {
            if !*focused {
                calls.push(IoCall::FocusLost);
            }
        },
        InputEvent::Key { down, text, key } => {
            calls = translate_key(*down, text.as_str(), key);
        },
        InputEvent::PointerMoved { x, y } => {
            calls.push(IoCall::Measure(Measure::MousePos { x: *x, y: *y }));
        },
        InputEvent::PointerButton { down, button } => {
            if let Some(slot) = button.slot() {
                calls.push(IoCall::MouseButton { button: slot, down: *down });
            }
        },
        InputEvent::Scroll { direction, value } => {
            calls.push(IoCall::Measure(direction.wheel(*value)));
        },
        InputEvent::Close => {},
        InputEvent::RedrawRequested => {},
    }
    assert(calls@ =~= translation(*window, *event));
    calls
}

} // verus!
