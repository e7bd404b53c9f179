use rustgl::event::{
    effect_for, handle_window_event, Action, Effect, Key, Viewport, Window, WindowEvent,
};

fn fresh_window() -> Window {
    Window::new(Viewport { x: 0, y: 0, width: 800, height: 800 })
}

#[test]
fn new_window_is_not_asked_to_close() {
    let window = fresh_window();
    assert!(!window.should_close());
    assert_eq!(window.viewport, Viewport { x: 0, y: 0, width: 800, height: 800 });
}

#[test]
fn escape_press_sets_the_close_flag() {
    let mut window = fresh_window();
    let effect = handle_window_event(&mut window, WindowEvent::Key(Key::Escape, Action::Press));
    assert_eq!(effect, Effect::RequestClose);
    assert!(window.should_close());
    assert_eq!(window.viewport, Viewport { x: 0, y: 0, width: 800, height: 800 });
}

#[test]
fn escape_release_does_not_set_the_close_flag() {
    let mut window = fresh_window();
    let effect = handle_window_event(&mut window, WindowEvent::Key(Key::Escape, Action::Release));
    assert_eq!(effect, Effect::Nothing);
    assert!(!window.should_close());
}

#[test]
fn escape_repeat_does_not_set_the_close_flag() {
    let mut window = fresh_window();
    let effect = handle_window_event(&mut window, WindowEvent::Key(Key::Escape, Action::Repeat));
    assert_eq!(effect, Effect::Nothing);
    assert!(!window.should_close());
}

#[test]
fn other_keys_leave_the_close_flag_clear() {
    for code in [32, 65, 257, 256, -1, i32::MAX] {
        for action in [Action::Release, Action::Press, Action::Repeat] {
            let mut window = fresh_window();
            let effect = handle_window_event(&mut window, WindowEvent::Key(Key::Other(code), action));
            assert_eq!(effect, Effect::Nothing);
            assert_eq!(window, fresh_window());
        }
    }
}

#[test]
fn other_keys_leave_a_set_close_flag_set() {
    let mut window = fresh_window();
    window.set_should_close(true);
    let effect = handle_window_event(&mut window, WindowEvent::Key(Key::Other(65), Action::Press));
    assert_eq!(effect, Effect::Nothing);
    assert!(window.should_close());
}

#[test]
fn escape_release_leaves_a_set_close_flag_set() {
    let mut window = fresh_window();
    window.set_should_close(true);
    handle_window_event(&mut window, WindowEvent::Key(Key::Escape, Action::Release));
    assert!(window.should_close());
}

#[test]
fn resize_sets_the_viewport_to_the_whole_framebuffer() {
    for (width, height) in [(640, 480), (1920, 1080), (1, 1), (0, 0), (i32::MAX, i32::MAX)] {
        let mut window = fresh_window();
        let effect = handle_window_event(&mut window, WindowEvent::FramebufferSize(width, height));
        let expected = Viewport { x: 0, y: 0, width, height };
        assert_eq!(effect, Effect::SetViewport(expected));
        assert_eq!(window.viewport, expected);
        assert!(!window.should_close());
    }
}

#[test]
fn resize_keeps_the_close_flag() {
    let mut window = fresh_window();
    window.set_should_close(true);
    handle_window_event(&mut window, WindowEvent::FramebufferSize(300, 200));
    assert!(window.should_close());
    assert_eq!(window.viewport, Viewport { x: 0, y: 0, width: 300, height: 200 });
}

#[test]
fn other_events_change_nothing() {
    let mut window = fresh_window();
    let effect = handle_window_event(&mut window, WindowEvent::Other);
    assert_eq!(effect, Effect::Nothing);
    assert_eq!(window, fresh_window());
}

#[test]
fn effect_for_decides_without_a_window() {
    assert_eq!(effect_for(WindowEvent::Key(Key::Escape, Action::Press)), Effect::RequestClose);
    assert_eq!(effect_for(WindowEvent::Key(Key::Escape, Action::Release)), Effect::Nothing);
    assert_eq!(effect_for(WindowEvent::Key(Key::Other(81), Action::Press)), Effect::Nothing);
    assert_eq!(
        effect_for(WindowEvent::FramebufferSize(12, 34)),
        Effect::SetViewport(Viewport { x: 0, y: 0, width: 12, height: 34 })
    );
    assert_eq!(effect_for(WindowEvent::Other), Effect::Nothing);
}

#[test]
fn apply_carries_out_each_effect() {
    let mut window = fresh_window();
    window.apply(Effect::Nothing);
    assert_eq!(window, fresh_window());
    window.apply(Effect::SetViewport(Viewport { x: 0, y: 0, width: 5, height: 6 }));
    assert_eq!(window.viewport, Viewport { x: 0, y: 0, width: 5, height: 6 });
    assert!(!window.should_close());
    window.apply(Effect::RequestClose);
    assert!(window.should_close());
    assert_eq!(window.viewport, Viewport { x: 0, y: 0, width: 5, height: 6 });
}
