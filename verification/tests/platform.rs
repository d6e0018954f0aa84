use imgui::{Context, Key};
use imgui_waywin_support::{
    Deferred, InputEvent, LogicalKey, Measure, Modifier, NamedKey, PointerButton, ScrollDirection,
    WaywinPlatform, WindowMetrics, PLATFORM_NAME,
};
use std::sync::{Mutex, MutexGuard};

/// The GUI library allows one context at a time in a process; every test
/// that makes one holds this lock while it does.
static CONTEXT: Mutex<()> = Mutex::new(());

fn one_context() -> MutexGuard<'static, ()> {
    CONTEXT.lock().unwrap_or_else(|poisoned| poisoned.into_inner())
}

fn window() -> WindowMetrics {
    WindowMetrics { physical_size: (1600, 1200), logical_size: (800, 600), scale: 240 }
}

fn key_event(down: bool, text: &str, key: LogicalKey) -> InputEvent {
    InputEvent::Key { down, text: text.to_string(), key }
}

fn ready_context() -> Context {
    let mut ctx = Context::create();
    ctx.set_ini_filename(None);
    ctx.io_mut().display_size = [800.0, 600.0];
    ctx.fonts().build_rgba32_texture();
    ctx
}

fn fresh_platform(ctx: &mut Context) -> WaywinPlatform {
    let mut platform = WaywinPlatform::new(ctx, &window());
    platform.take_deferred();
    platform
}

/// Makes the key calls among `calls` on the GUI library, as the owner of the
/// context does.
fn make_key_calls(ctx: &mut Context, calls: Vec<Deferred>) {
    for call in calls {
        match call {
            Deferred::Modifier { modifier, down } => {
                ctx.io_mut().add_key_event(modifier.symbol(), down)
            }
            Deferred::Key { key, down } => ctx.io_mut().add_key_event(key, down),
            Deferred::Measure(_) => {}
        }
    }
}

#[test]
fn new_registers_the_platform_name() {
    let _guard = one_context();
    let mut ctx = Context::create();
    let _platform = WaywinPlatform::new(&mut ctx, &window());
    assert_eq!(ctx.platform_name(), Some(PLATFORM_NAME));
    assert_eq!(ctx.platform_name(), Some("imgui-waywin-support 0.1.0"));
}

#[test]
fn new_queues_the_physical_size() {
    let _guard = one_context();
    let mut ctx = Context::create();
    let mut platform = WaywinPlatform::new(&mut ctx, &window());
    assert_eq!(
        platform.take_deferred(),
        vec![Deferred::Measure(Measure::DisplaySize { width: 1600, height: 1200 })]
    );
    assert_eq!(platform.take_deferred(), vec![]);
}

#[test]
fn measures_queue_in_order_until_taken() {
    let _guard = one_context();
    let mut ctx = Context::create();
    let mut platform = WaywinPlatform::new(&mut ctx, &window());
    platform.handle_event(&mut ctx, &window(), InputEvent::Resize);
    platform.handle_event(&mut ctx, &window(), InputEvent::ScaleFactorChanged);
    platform.handle_event(&mut ctx, &window(), InputEvent::PointerMoved { x: 40, y: 30 });
    platform.handle_event(
        &mut ctx,
        &window(),
        InputEvent::Scroll { direction: ScrollDirection::Vertical, value: 26 },
    );
    assert_eq!(
        platform.take_deferred(),
        vec![
            Deferred::Measure(Measure::DisplaySize { width: 1600, height: 1200 }),
            Deferred::Measure(Measure::DisplaySize { width: 800, height: 600 }),
            Deferred::Measure(Measure::FramebufferScale {
                horizontal_scale: 240,
                vertical_scale: 240
            }),
            Deferred::Measure(Measure::MousePos { x: 40, y: 30 }),
            Deferred::Measure(Measure::MouseWheel { horizontal: 0, vertical: 26 }),
        ]
    );
    assert_eq!(platform.take_deferred(), vec![]);
}

#[test]
fn key_calls_queue_in_order_until_taken() {
    let _guard = one_context();
    let mut ctx = ready_context();
    let mut platform = fresh_platform(&mut ctx);
    platform.handle_event(
        &mut ctx,
        &window(),
        key_event(true, "", LogicalKey::Named(NamedKey::LShift)),
    );
    platform.handle_event(
        &mut ctx,
        &window(),
        key_event(true, "A", LogicalKey::Character("a".to_string())),
    );
    platform.handle_event(&mut ctx, &window(), InputEvent::PointerMoved { x: 1, y: 2 });
    platform.handle_event(
        &mut ctx,
        &window(),
        key_event(false, "", LogicalKey::Named(NamedKey::Shift)),
    );
    assert_eq!(
        platform.take_deferred(),
        vec![
            Deferred::Modifier { modifier: Modifier::Shift, down: true },
            Deferred::Key { key: Key::LeftShift, down: true },
            Deferred::Key { key: Key::A, down: true },
            Deferred::Measure(Measure::MousePos { x: 1, y: 2 }),
            Deferred::Modifier { modifier: Modifier::Shift, down: false },
        ]
    );
    ctx.new_frame();
    assert_eq!(ctx.io().peek_input_characters(), "A");
}

#[test]
fn events_with_nothing_to_hand_out_leave_the_queue_alone() {
    let _guard = one_context();
    let mut ctx = ready_context();
    let mut platform = fresh_platform(&mut ctx);
    platform.handle_event(&mut ctx, &window(), InputEvent::Focus(true));
    platform.handle_event(&mut ctx, &window(), InputEvent::Focus(false));
    platform.handle_event(&mut ctx, &window(), InputEvent::Close);
    platform.handle_event(&mut ctx, &window(), InputEvent::RedrawRequested);
    platform.handle_event(
        &mut ctx,
        &window(),
        key_event(true, "é", LogicalKey::Character("é".to_string())),
    );
    platform.handle_event(
        &mut ctx,
        &window(),
        InputEvent::PointerButton { down: true, button: PointerButton::Left },
    );
    assert_eq!(platform.take_deferred(), vec![]);
}

#[test]
fn prepare_calls_change_nothing() {
    let _guard = one_context();
    let mut ctx = ready_context();
    let mut platform = WaywinPlatform::new(&mut ctx, &window());
    platform.prepare_frame(&mut ctx, &window());
    {
        let ui = ctx.new_frame();
        platform.prepare_render(ui, &window());
    }
    assert_eq!(
        platform.take_deferred(),
        vec![Deferred::Measure(Measure::DisplaySize { width: 1600, height: 1200 })]
    );
}

#[test]
fn typed_text_reaches_the_gui_library() {
    let _guard = one_context();
    let mut ctx = ready_context();
    let mut platform = fresh_platform(&mut ctx);
    platform.handle_event(
        &mut ctx,
        &window(),
        key_event(true, "hé!", LogicalKey::Named(NamedKey::Other)),
    );
    ctx.new_frame();
    assert_eq!(ctx.io().peek_input_characters(), "hé!");
}

#[test]
fn key_down_and_up_reach_the_gui_library_through_the_owner() {
    let _guard = one_context();
    let mut ctx = ready_context();
    let mut platform = fresh_platform(&mut ctx);
    platform.handle_event(
        &mut ctx,
        &window(),
        key_event(true, "", LogicalKey::Named(NamedKey::Tab)),
    );
    assert!(!ctx.new_frame().is_key_down(Key::Tab));
    ctx.render();
    make_key_calls(&mut ctx, platform.take_deferred());
    assert!(ctx.new_frame().is_key_down(Key::Tab));
    ctx.render();
    platform.handle_event(
        &mut ctx,
        &window(),
        key_event(false, "", LogicalKey::Named(NamedKey::Tab)),
    );
    make_key_calls(&mut ctx, platform.take_deferred());
    assert!(!ctx.new_frame().is_key_down(Key::Tab));
}

#[test]
fn either_ctrl_key_sets_the_ctrl_modifier() {
    let _guard = one_context();
    for key in [NamedKey::LCtrl, NamedKey::RCtrl, NamedKey::Ctrl] {
        let mut ctx = ready_context();
        let mut platform = fresh_platform(&mut ctx);
        platform.handle_event(&mut ctx, &window(), key_event(true, "", LogicalKey::Named(key)));
        make_key_calls(&mut ctx, platform.take_deferred());
        ctx.new_frame();
        assert!(ctx.io().key_ctrl);
        assert!(!ctx.io().key_shift);
        ctx.render();
        platform.handle_event(&mut ctx, &window(), key_event(false, "", LogicalKey::Named(key)));
        make_key_calls(&mut ctx, platform.take_deferred());
        ctx.new_frame();
        assert!(!ctx.io().key_ctrl);
        ctx.render();
        drop(ctx);
    }
}

#[test]
fn key_events_do_not_touch_the_gui_library_when_legacy_keys_are_in_use() {
    let _guard = one_context();
    let mut ctx = ready_context();
    let mut platform = fresh_platform(&mut ctx);
    ctx.io_mut()[Key::Tab] = 7;
    platform.handle_event(
        &mut ctx,
        &window(),
        key_event(true, "", LogicalKey::Named(NamedKey::Tab)),
    );
    platform.handle_event(
        &mut ctx,
        &window(),
        key_event(true, "", LogicalKey::Named(NamedKey::RCtrl)),
    );
    assert_eq!(
        platform.take_deferred(),
        vec![
            Deferred::Key { key: Key::Tab, down: true },
            Deferred::Modifier { modifier: Modifier::Ctrl, down: true },
            Deferred::Key { key: Key::RightCtrl, down: true },
        ]
    );
    assert_eq!(ctx.io()[Key::Tab], 7);
}

#[test]
fn unmapped_key_presses_no_key() {
    let _guard = one_context();
    let mut ctx = ready_context();
    let mut platform = fresh_platform(&mut ctx);
    platform.handle_event(
        &mut ctx,
        &window(),
        key_event(true, "é", LogicalKey::Character("é".to_string())),
    );
    assert_eq!(platform.take_deferred(), vec![]);
    {
        let ui = ctx.new_frame();
        for key in Key::VARIANTS {
            assert!(!ui.is_key_down(key));
        }
    }
    assert_eq!(ctx.io().peek_input_characters(), "é");
}

#[test]
fn pointer_buttons_reach_their_slots() {
    let _guard = one_context();
    let slots = [
        (PointerButton::Left, 0),
        (PointerButton::Right, 1),
        (PointerButton::Middle, 2),
        (PointerButton::Back, 3),
        (PointerButton::Forward, 4),
    ];
    for (button, slot) in slots {
        let mut ctx = ready_context();
        let mut platform = fresh_platform(&mut ctx);
        platform.handle_event(&mut ctx, &window(), InputEvent::PointerButton { down: true, button });
        ctx.new_frame();
        let mut expected = [false; 5];
        expected[slot] = true;
        assert_eq!(ctx.io().mouse_down, expected);
        ctx.render();
        drop(ctx);
    }
}

#[test]
fn unknown_pointer_button_changes_nothing() {
    let _guard = one_context();
    let mut ctx = ready_context();
    let mut platform = fresh_platform(&mut ctx);
    platform.handle_event(
        &mut ctx,
        &window(),
        InputEvent::PointerButton { down: true, button: PointerButton::Unknown(7) },
    );
    assert_eq!(platform.take_deferred(), vec![]);
    assert!(!ctx.io().app_focus_lost);
    {
        let ui = ctx.new_frame();
        for key in Key::VARIANTS {
            assert!(!ui.is_key_down(key));
        }
    }
    assert_eq!(ctx.io().mouse_down, [false; 5]);
}

#[test]
fn focus_lost_raises_the_flag_and_focus_gained_does_not() {
    let _guard = one_context();
    let mut ctx = ready_context();
    let mut platform = fresh_platform(&mut ctx);
    platform.handle_event(&mut ctx, &window(), InputEvent::Focus(true));
    assert!(!ctx.io().app_focus_lost);
    platform.handle_event(&mut ctx, &window(), InputEvent::Focus(false));
    assert!(ctx.io().app_focus_lost);
    platform.handle_event(&mut ctx, &window(), InputEvent::Focus(true));
    assert!(ctx.io().app_focus_lost);
}

#[test]
fn replaying_the_same_events_gives_the_same_result() {
    let _guard = one_context();
    let events = vec![
        InputEvent::Resize,
        InputEvent::ScaleFactorChanged,
        key_event(true, "a", LogicalKey::Character("a".to_string())),
        key_event(false, "", LogicalKey::Character("a".to_string())),
    ];
    let mut outcomes = Vec::new();
    for _ in 0..2 {
        let mut ctx = ready_context();
        let mut platform = WaywinPlatform::new(&mut ctx, &window());
        for event in events.iter() {
            platform.handle_event(&mut ctx, &window(), event.clone());
        }
        let queued = platform.take_deferred();
        ctx.new_frame();
        let typed = ctx.io().peek_input_characters();
        ctx.render();
        drop(ctx);
        outcomes.push((queued, typed));
    }
    assert_eq!(outcomes[0], outcomes[1]);
    assert_eq!(
        outcomes[0].0,
        vec![
            Deferred::Measure(Measure::DisplaySize { width: 1600, height: 1200 }),
            Deferred::Measure(Measure::DisplaySize { width: 800, height: 600 }),
            Deferred::Measure(Measure::FramebufferScale {
                horizontal_scale: 240,
                vertical_scale: 240
            }),
            Deferred::Key { key: Key::A, down: true },
            Deferred::Key { key: Key::A, down: false },
        ]
    );
    assert_eq!(outcomes[0].1, "a");
}
