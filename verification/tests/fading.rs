use led_fade::color::RGB;
use led_fade::fade::{needs_target, nudge, nudge_channel, step};

#[test]
fn fade_reaches_red_ten_in_exactly_ten_steps() {
    let target: RGB = RGB { green: 0, red: 10, blue: 0 };
    let mut current: RGB = RGB { green: 0, red: 0, blue: 0 };
    let mut goal: RGB = target;
    for taken in 1..=10u8 {
        assert_ne!(current, goal);
        let before: RGB = current;
        let next: (RGB, RGB) = step(current, goal, 77, 88, 99);
        current = next.0;
        goal = next.1;
        assert_eq!(goal, target);
        assert!(current.red >= before.red);
        assert_eq!(current.red, taken);
        assert_eq!(current.green, 0);
        assert_eq!(current.blue, 0);
    }
    assert_eq!(current, target);
}

#[test]
fn nudge_channel_moves_one_unit() {
    assert_eq!(nudge_channel(0, 10), 1);
    assert_eq!(nudge_channel(10, 0), 9);
    assert_eq!(nudge_channel(7, 7), 7);
    assert_eq!(nudge_channel(9, 10), 10);
    assert_eq!(nudge_channel(11, 10), 10);
}

#[test]
fn nudge_channel_at_the_ends_of_the_range() {
    assert_eq!(nudge_channel(0, 0), 0);
    assert_eq!(nudge_channel(255, 255), 255);
    assert_eq!(nudge_channel(0, 255), 1);
    assert_eq!(nudge_channel(255, 0), 254);
    assert_eq!(nudge_channel(254, 255), 255);
    assert_eq!(nudge_channel(1, 0), 0);
}

#[test]
fn nudge_moves_each_channel_on_its_own() {
    let current: RGB = RGB { green: 5, red: 9, blue: 0 };
    let target: RGB = RGB { green: 3, red: 9, blue: 2 };
    assert_eq!(nudge(current, target), RGB { green: 4, red: 9, blue: 1 });
    assert_eq!(nudge(target, target), target);
}

#[test]
fn fade_takes_as_long_as_the_farthest_channel() {
    let target: RGB = RGB { green: 200, red: 3, blue: 50 };
    let mut current: RGB = RGB { green: 190, red: 40, blue: 50 };
    let mut steps: u32 = 0;
    while current != target {
        current = nudge(current, target);
        steps += 1;
        assert!(steps <= 255);
    }
    assert_eq!(steps, 37);
}

#[test]
fn needs_target_only_on_the_target() {
    let color: RGB = RGB { green: 1, red: 2, blue: 3 };
    assert!(needs_target(color, color));
    assert!(!needs_target(color, RGB { green: 1, red: 2, blue: 4 }));
}

#[test]
fn step_draws_a_new_target_on_match() {
    let here: RGB = RGB { green: 100, red: 100, blue: 100 };
    let next: (RGB, RGB) = step(here, here, 255 + 7, 100, 254);
    assert_eq!(next.1, RGB { green: 7, red: 100, blue: 254 });
    assert_eq!(next.0, RGB { green: 99, red: 100, blue: 101 });
    assert!(next.1.green <= 254 && next.1.red <= 254 && next.1.blue <= 254);
}

#[test]
fn step_new_target_is_never_255() {
    let here: RGB = RGB { green: 0, red: 0, blue: 0 };
    let next: (RGB, RGB) = step(here, here, 255, u32::MAX, 254 + 255);
    assert_eq!(next.1, RGB { green: 0, red: 0, blue: 254 });
    assert_eq!(next.0, RGB { green: 0, red: 0, blue: 1 });
}

#[test]
fn step_stays_put_when_the_new_target_is_the_current_colour() {
    let here: RGB = RGB { green: 12, red: 34, blue: 56 };
    let next: (RGB, RGB) = step(here, here, 12, 34 + 255, 56 + 510);
    assert_eq!(next.0, here);
    assert_eq!(next.1, here);
}

#[test]
fn step_keeps_the_target_until_it_is_reached() {
    let current: RGB = RGB { green: 1, red: 1, blue: 1 };
    let target: RGB = RGB { green: 1, red: 1, blue: 3 };
    let first: (RGB, RGB) = step(current, target, 9, 9, 9);
    assert_eq!(first, (RGB { green: 1, red: 1, blue: 2 }, target));
    let second: (RGB, RGB) = step(first.0, first.1, 9, 9, 9);
    assert_eq!(second, (target, target));
    let third: (RGB, RGB) = step(second.0, second.1, 9, 9, 9);
    assert_eq!(third, (RGB { green: 2, red: 2, blue: 4 }, RGB { green: 9, red: 9, blue: 9 }));
}

#[test]
fn step_can_leave_a_channel_of_255() {
    let current: RGB = RGB { green: 255, red: 255, blue: 255 };
    let next: (RGB, RGB) = step(current, current, 0, 255, 254);
    assert_eq!(next.1, RGB { green: 0, red: 0, blue: 254 });
    assert_eq!(next.0, RGB { green: 254, red: 254, blue: 254 });
}
