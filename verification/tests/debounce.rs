use time_counter::debounce::{pressed_from_level, DebounceHistory};

fn resets(polls: &[bool]) -> Vec<bool> {
    let mut history = DebounceHistory::idle();
    let mut fired = Vec::new();
    for pressed in polls {
        fired.push(history.fires(*pressed));
        history = history.shift(*pressed);
    }
    fired
}

#[test]
fn idle_history_has_seen_no_press() {
    assert_eq!(DebounceHistory::idle(), DebounceHistory { older: false, newer: false });
}

#[test]
fn high_level_means_not_pressed() {
    assert!(!pressed_from_level(true));
    assert!(pressed_from_level(false));
}

#[test]
fn reset_rule_truth_table() {
    for older in [false, true] {
        for newer in [false, true] {
            for pressed in [false, true] {
                let history = DebounceHistory { older, newer };
                assert_eq!(history.fires(pressed), older && newer && !pressed);
            }
        }
    }
}

#[test]
fn shift_drops_the_oldest_sample() {
    let history = DebounceHistory { older: true, newer: false };
    assert_eq!(history.shift(true), DebounceHistory { older: false, newer: true });
    assert_eq!(history.shift(false), DebounceHistory { older: false, newer: false });
    let history = DebounceHistory { older: false, newer: true };
    assert_eq!(history.shift(true), DebounceHistory { older: true, newer: true });
    assert_eq!(history.shift(false), DebounceHistory { older: true, newer: false });
}

#[test]
fn two_presses_then_release_resets_on_third_poll() {
    assert_eq!(resets(&[true, true, false]), vec![false, false, true]);
}

#[test]
fn single_press_then_release_does_not_reset() {
    assert_eq!(resets(&[true, false, false]), vec![false, false, false]);
}

#[test]
fn one_gesture_gives_one_reset() {
    let polls = [false, true, true, true, true, false, false, false, true, true, false, false];
    let fired = resets(&polls);
    let expected = [
        false, false, false, false, false, true, false, false, false, false, true, false,
    ];
    assert_eq!(fired, expected);
}

#[test]
fn short_bounce_is_ignored() {
    assert_eq!(resets(&[true, false, true, false, true, false]), vec![false; 6]);
}

#[test]
fn reset_law_holds_for_every_short_poll_sequence() {
    for length in 0..=10usize {
        for code in 0..(1u32 << length) {
            let polls: Vec<bool> = (0..length).map(|bit| code & (1 << bit) != 0).collect();
            let fired = resets(&polls);
            for tick in 0..length {
                let expected = tick >= 2 && !polls[tick] && polls[tick - 1] && polls[tick - 2];
                assert_eq!(fired[tick], expected);
            }
        }
    }
}
