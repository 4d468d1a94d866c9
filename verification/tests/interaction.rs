use pagoda::collect_input;
use pagoda::do_blank_button;
use pagoda::Event;
use pagoda::KeyCode;
use pagoda::do_button;
use pagoda::inside_rect;
use pagoda::BlankButtonSpec;
use pagoda::ButtonSpec;
use pagoda::Point;
use pagoda::UIContext;

fn widget_seven() -> BlankButtonSpec {
    BlankButtonSpec { x: 0, y: 0, w: 10, h: 10, id: 7 }
}

fn inside_point() -> Point {
    Point { x: 1, y: 1 }
}

fn outside_point() -> Point {
    Point { x: 50, y: 50 }
}

#[test]
fn press_release_inside_fires_once() {
    // The pointer already rested on widget 7 last frame.
    let mut ctx = UIContext { hot: 0, active: 0, next_hot: 7 };

    ctx.frame_init();
    let press_frame = do_blank_button(&mut ctx, &widget_seven(), inside_point(), true, false);
    assert!(!press_frame);
    assert_eq!(ctx.active, 7);

    ctx.frame_init();
    let release_frame = do_blank_button(&mut ctx, &widget_seven(), inside_point(), false, true);
    assert!(release_frame);
    assert_eq!(ctx.active, 0);
}

#[test]
fn release_outside_fires_nothing_but_disarms() {
    let mut ctx = UIContext { hot: 0, active: 0, next_hot: 7 };

    ctx.frame_init();
    let press_frame = do_blank_button(&mut ctx, &widget_seven(), inside_point(), true, false);
    assert!(!press_frame);
    assert_eq!(ctx.active, 7);

    ctx.frame_init();
    let release_frame = do_blank_button(&mut ctx, &widget_seven(), outside_point(), false, true);
    assert!(!release_frame);
    assert_eq!(ctx.active, 0);
}

#[test]
fn second_evaluation_swallows_the_click() {
    let mut ctx = UIContext { hot: 7, active: 7, next_hot: 0 };
    let first = do_blank_button(&mut ctx, &widget_seven(), inside_point(), false, true);
    let second = do_blank_button(&mut ctx, &widget_seven(), inside_point(), false, true);
    assert!(first);
    assert!(!second);
}

#[test]
fn press_needs_hot_widget() {
    // The pointer jumped onto the widget in the very frame of the
    // press: the widget is not hot yet, so nothing is armed.
    let mut ctx = UIContext { hot: 0, active: 0, next_hot: 0 };
    ctx.frame_init();
    let fired = do_blank_button(&mut ctx, &widget_seven(), inside_point(), true, false);
    assert!(!fired);
    assert_eq!(ctx.active, 0);
    assert_eq!(ctx.next_hot, 7);
}

#[test]
fn another_active_widget_blocks_arming() {
    // Widget 9 is held, so frame-start never commits widget 7 as hot,
    // and a press over widget 7 cannot arm it.
    let mut ctx = UIContext { hot: 9, active: 9, next_hot: 7 };
    ctx.frame_init();
    assert_eq!(ctx.hot, 9);
    let fired = do_blank_button(&mut ctx, &widget_seven(), inside_point(), true, false);
    assert!(!fired);
    assert_eq!(ctx.active, 9);
}

#[test]
fn captioned_button_follows_same_protocol() {
    let spec = ButtonSpec { base: widget_seven(), text: String::from("New game") };
    let mut ctx = UIContext { hot: 7, active: 7, next_hot: 0 };
    let fired = do_button(&mut ctx, &spec, inside_point(), false, true);
    assert!(fired);
    assert_eq!(ctx.active, 0);
}

#[test]
fn frame_init_commits_next_hot_only_when_idle() {
    let mut ctx = UIContext { hot: 1, active: 0, next_hot: 5 };
    ctx.frame_init();
    assert_eq!(ctx, UIContext { hot: 5, active: 0, next_hot: 0 });

    let mut held = UIContext { hot: 1, active: 2, next_hot: 5 };
    held.frame_init();
    assert_eq!(held, UIContext { hot: 1, active: 2, next_hot: 0 });
}

#[test]
fn context_setters() {
    let mut ctx = UIContext::new();
    assert_eq!(ctx, UIContext { hot: 0, active: 0, next_hot: 0 });
    ctx.set_active(3);
    assert_eq!(ctx.active, 3);
    ctx.set_not_active();
    assert_eq!(ctx.active, 0);
    ctx.set_next_hot(4);
    assert_eq!(ctx.next_hot, 4);
    ctx.hot = 9;
    ctx.set_not_hot();
    assert_eq!(ctx.hot, 0);
}

#[test]
fn inside_rect_is_half_open() {
    assert!(inside_rect(Point { x: 0, y: 0 }, 0, 0, 10, 10));
    assert!(inside_rect(Point { x: 9, y: 9 }, 0, 0, 10, 10));
    assert!(!inside_rect(Point { x: 10, y: 9 }, 0, 0, 10, 10));
    assert!(!inside_rect(Point { x: 9, y: 10 }, 0, 0, 10, 10));
    assert!(!inside_rect(Point { x: -1, y: 5 }, 0, 0, 10, 10));
}

#[test]
fn collect_input_distills_flags() {
    let events = vec![
        Event::MouseMove { x: 3, y: 4 },
        Event::KeyPressed { key: KeyCode::MouseLeft, ctrl: false, shift: false },
        Event::KeyReleased { key: KeyCode::MouseLeft, ctrl: false, shift: true },
        Event::KeyPressed { key: KeyCode::R, ctrl: false, shift: false },
    ];
    let input = collect_input(&events);
    assert!(input.left_mouse_pressed);
    assert!(input.left_mouse_released);
    assert!(!input.quit);
    // R without ctrl is not the reset chord.
    assert!(!input.reset);

    let reset = collect_input(&vec![Event::KeyPressed {
        key: KeyCode::R,
        ctrl: true,
        shift: false,
    }]);
    assert!(reset.reset);

    let quit = collect_input(&vec![Event::KeyPressed {
        key: KeyCode::Escape,
        ctrl: false,
        shift: false,
    }]);
    assert!(quit.quit);
}
