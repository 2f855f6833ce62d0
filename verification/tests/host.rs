use reimu::host::{key_for, Command, Host, Input, LAST_PAGE, PAGE_SIZE};
use reimu::util::ns_per_frame;

#[test]
fn keyboard_rows_map_to_keypad_rows() {
    let keyboard = ["1234", "qwer", "asdf", "zxcv"];
    let keypad: [[u8; 4]; 4] = [
        [0x1, 0x2, 0x3, 0xC],
        [0x4, 0x5, 0x6, 0xD],
        [0x7, 0x8, 0x9, 0xE],
        [0xA, 0x0, 0xB, 0xF],
    ];
    for (row, keys) in keyboard.iter().enumerate() {
        for (col, c) in keys.chars().enumerate() {
            assert_eq!(key_for(c), Some(keypad[row][col]));
        }
    }
}

#[test]
fn every_keypad_key_has_one_keyboard_key() {
    let mut count = [0; 16];
    for code in 0..=0x7Fu8 {
        if let Some(key) = key_for(code as char) {
            assert!(key < 16);
            count[key as usize] += 1;
        }
    }
    assert_eq!(count, [1; 16]);
}

#[test]
fn other_characters_are_no_keypad_keys() {
    for c in ['5', '0', 'Q', 'W', ' ', '\n', 'b', 'g', 'é', '\u{2588}'] {
        assert_eq!(key_for(c), None);
    }
}

#[test]
fn a_new_host_shows_the_first_page_and_the_panels() {
    let host = Host::new();
    assert!(host.show_debug());
    assert_eq!(host.mem_offset(), 0);
}

#[test]
fn inputs_ask_for_commands() {
    let mut host = Host::new();
    assert_eq!(host.handle(Input::Quit), Command::Exit);
    assert_eq!(host.handle(Input::Dump), Command::Dump);
    assert_eq!(host.handle(Input::Other), Command::Forward);
    assert_eq!(host.handle(Input::KeyDown('q')), Command::Key(0x4, true));
    assert_eq!(host.handle(Input::KeyUp('q')), Command::Key(0x4, false));
    assert_eq!(host.handle(Input::KeyDown('v')), Command::Key(0xF, true));
    assert_eq!(host.handle(Input::KeyDown('p')), Command::Ignore);
    assert_eq!(host.handle(Input::KeyUp('p')), Command::Ignore);
    assert_eq!(host.handle(Input::ToggleDebug), Command::Ignore);
    assert_eq!(host.handle(Input::PageDown), Command::Ignore);
    assert_eq!(host.handle(Input::PageUp), Command::Ignore);
}

#[test]
fn toggle_shows_and_hides_the_panels() {
    let mut host = Host::new();
    host.handle(Input::ToggleDebug);
    assert!(!host.show_debug());
    host.handle(Input::ToggleDebug);
    assert!(host.show_debug());
    host.handle(Input::KeyDown('1'));
    host.handle(Input::Quit);
    assert!(host.show_debug());
}

#[test]
fn paging_stops_at_both_ends() {
    assert_eq!((PAGE_SIZE, LAST_PAGE), (0x100, 0xF00));
    let mut host = Host::new();
    host.handle(Input::PageUp);
    assert_eq!(host.mem_offset(), 0);
    for page in 1..=15 {
        host.handle(Input::PageDown);
        assert_eq!(host.mem_offset(), page * 0x100);
    }
    host.handle(Input::PageDown);
    host.handle(Input::PageDown);
    assert_eq!(host.mem_offset(), 0xF00);
    host.handle(Input::PageUp);
    assert_eq!(host.mem_offset(), 0xE00);
    host.handle(Input::Other);
    assert_eq!(host.mem_offset(), 0xE00);
}

#[test]
fn a_tick_is_due_once_a_period_has_gone_by() {
    let period = ns_per_frame(60);
    let mut host = Host::new();
    assert!(!host.elapse(10_000_000, period));
    assert!(!host.elapse(6_666_666, period));
    assert!(host.elapse(1, period));
    assert!(!host.elapse(16_666_666, period));
    assert!(host.elapse(1, period));
}

#[test]
fn time_beyond_the_period_is_carried_over() {
    let mut host = Host::new();
    assert!(host.elapse(25, 10));
    assert!(host.elapse(0, 10));
    assert!(!host.elapse(0, 10));
    assert!(!host.elapse(4, 10));
    assert!(host.elapse(1, 10));
    assert!(!host.elapse(9, 10));
}

#[test]
fn sixty_ticks_in_a_second_of_short_frames() {
    let period = ns_per_frame(60);
    let mut host = Host::new();
    let mut ticks = 0;
    for _ in 0..1000 {
        if host.elapse(1_000_000, period) {
            ticks += 1;
        }
    }
    assert_eq!(ticks, 59);
    for _ in 0..17 {
        if host.elapse(1_000_000, period) {
            ticks += 1;
        }
    }
    assert_eq!(ticks, 61);
}

#[test]
fn gathered_time_saturates() {
    let mut host = Host::new();
    assert!(!host.elapse(u64::MAX - 1, u64::MAX));
    assert!(host.elapse(5, u64::MAX));
    assert!(!host.elapse(u64::MAX - 1, u64::MAX));
    assert!(host.elapse(u64::MAX, 1));
    assert!(host.elapse(0, u64::MAX - 1));
    assert!(!host.elapse(0, 1));
}

#[test]
fn a_period_of_zero_is_always_due() {
    let mut host = Host::new();
    assert!(host.elapse(0, 0));
    assert!(host.elapse(7, 0));
    assert!(host.elapse(0, 7));
    assert!(!host.elapse(0, 7));
}
