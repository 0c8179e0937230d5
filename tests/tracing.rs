use dbg_step::gate::{clamp_level, plan_step};
use dbg_step::panel::{command_of, press_key, Command, KeyPress, PanelState};
use dbg_step::text::{
    expand_line_endings, push_decimal, sentinel_name, sentinel_notice, status_line, trace_line,
    CLEAR_LINE,
};
use dbg_step::{get, off, on, Thresholds};

fn store(print: u8, pause: u8) -> Thresholds {
    let mut t = Thresholds::new();
    dbg_step::set(&mut t, print, pause, true);
    assert_eq!(get(&t), (print, pause));
    t
}

#[test]
fn new_store_is_all_on() {
    assert_eq!(get(&Thresholds::new()), (0, 0));
}

#[test]
fn on_and_off() {
    let mut t = store(4, 7);
    off(&mut t);
    assert_eq!(get(&t), (10, 10));
    on(&mut t);
    assert_eq!(get(&t), (0, 0));
}

#[test]
fn set_print_takes_precedence_raises_pause() {
    let mut t = Thresholds::new();
    assert_eq!(dbg_step::set(&mut t, 7, 3, true), (7, 7));
    assert_eq!(get(&t), (7, 7));
}

#[test]
fn set_pause_takes_precedence_lowers_print() {
    let mut t = Thresholds::new();
    assert_eq!(dbg_step::set(&mut t, 7, 3, false), (3, 3));
    assert_eq!(get(&t), (3, 3));
}

#[test]
fn set_keeps_consistent_pair() {
    let mut t = Thresholds::new();
    assert_eq!(dbg_step::set(&mut t, 2, 6, true), (2, 6));
    assert_eq!(dbg_step::set(&mut t, 2, 6, false), (2, 6));
}

#[test]
fn set_clamps_out_of_range_values() {
    let mut t = Thresholds::new();
    assert_eq!(dbg_step::set(&mut t, 20, 5, true), (10, 10));
    assert_eq!(dbg_step::set(&mut t, 3, 200, false), (3, 10));
    assert_eq!(dbg_step::set(&mut t, 255, 255, false), (10, 10));
    assert_eq!(dbg_step::set(&mut t, 11, 11, true), (10, 10));
    assert_eq!(get(&t), (10, 10));
}

#[test]
fn set_results_are_always_consistent() {
    let mut t = Thresholds::new();
    for print in 0..=12u8 {
        for pause in 0..=12u8 {
            for flag in [true, false] {
                let (p, q) = dbg_step::set(&mut t, print, pause, flag);
                assert!(p <= q && q <= 10);
                assert_eq!(get(&t), (p, q));
            }
        }
    }
}

#[test]
fn set_of_current_pair_changes_nothing() {
    for print in 0..=10u8 {
        for pause in print..=10u8 {
            let mut t = store(print, pause);
            let (p, q) = get(&t);
            assert_eq!(dbg_step::set(&mut t, p, q, true), (print, pause));
            assert_eq!(get(&t), (print, pause));
        }
    }
}

#[test]
fn clamp_level_caps_at_nine() {
    assert_eq!(clamp_level(0), 0);
    assert_eq!(clamp_level(9), 9);
    assert_eq!(clamp_level(10), 9);
    assert_eq!(clamp_level(255), 9);
}

#[test]
fn all_on_emits_and_pauses_every_level() {
    let mut t = Thresholds::new();
    on(&mut t);
    for level in 0..=9u8 {
        let plan = plan_step(&mut t, false, level);
        assert!(plan.emit && plan.pause);
    }
}

#[test]
fn all_off_emits_nothing() {
    let mut t = Thresholds::new();
    off(&mut t);
    for level in 0..=255u8 {
        let plan = plan_step(&mut t, false, level);
        assert!(!plan.emit && !plan.pause);
    }
    assert_eq!(get(&t), (10, 10));
}

#[test]
fn emission_and_pause_follow_the_thresholds() {
    for p in 0..=10u8 {
        for q in p..=10u8 {
            let mut t = store(p, q);
            for level in 0..=9u8 {
                let plan = plan_step(&mut t, false, level);
                assert_eq!(plan.emit, level >= p);
                if plan.emit {
                    assert_eq!(plan.pause, level >= q);
                } else {
                    assert!(!plan.pause);
                }
                assert_eq!(plan.thresholds, (p, q));
            }
        }
    }
}

#[test]
fn thresholds_five_eight_scenario() {
    let mut t = store(5, 8);
    let plan = plan_step(&mut t, false, 3);
    assert!(!plan.emit && !plan.pause);
    let plan = plan_step(&mut t, false, 6);
    assert!(plan.emit && !plan.pause);
    let plan = plan_step(&mut t, false, 9);
    assert!(plan.emit && plan.pause);
    assert_eq!(plan.level, 9);
    let plan = plan_step(&mut t, false, 12);
    assert!(plan.emit && plan.pause);
    assert_eq!(plan.level, 9);
}

#[test]
fn sentinel_turns_everything_on() {
    let mut t = store(10, 10);
    let plan = plan_step(&mut t, true, 4);
    assert_eq!(get(&t), (0, 0));
    assert!(plan.emit && plan.pause);
    assert_eq!(plan.thresholds, (0, 0));
    off(&mut t);
    let plan = plan_step(&mut t, false, 4);
    assert!(!plan.emit);
    assert_eq!(get(&t), (10, 10));
}

#[test]
fn pause_scenario_digit_then_space() {
    let mut t = Thresholds::new();
    let plan = plan_step(&mut t, false, 5);
    assert!(plan.emit && plan.pause);
    assert_eq!(trace_line(plan.level, "x"), "5:         x\n");
    assert_eq!(press_key(&mut t, &KeyPress::Char('3')), PanelState::AwaitingKey);
    assert_eq!(get(&t), (3, 3));
    assert_eq!(press_key(&mut t, &KeyPress::Char(' ')), PanelState::Done);
    assert_eq!(get(&t), (3, 3));
}

#[test]
fn quit_key_turns_everything_off() {
    let mut t = store(2, 4);
    assert_eq!(press_key(&mut t, &KeyPress::Char('q')), PanelState::Done);
    assert_eq!(get(&t), (10, 10));
    for level in 0..=255u8 {
        assert!(!plan_step(&mut t, false, level).emit);
    }
    let mut t = store(2, 4);
    assert_eq!(press_key(&mut t, &KeyPress::Ctrl('c')), PanelState::Done);
    assert_eq!(get(&t), (10, 10));
}

#[test]
fn enter_resumes_without_change() {
    let mut t = store(2, 4);
    assert_eq!(press_key(&mut t, &KeyPress::Char('\n')), PanelState::Done);
    assert_eq!(get(&t), (2, 4));
}

#[test]
fn digit_keys_set_print_threshold() {
    let mut t = store(2, 4);
    assert_eq!(press_key(&mut t, &KeyPress::Char('1')), PanelState::AwaitingKey);
    assert_eq!(get(&t), (1, 4));
    press_key(&mut t, &KeyPress::Char('7'));
    assert_eq!(get(&t), (7, 7));
    press_key(&mut t, &KeyPress::Char('0'));
    assert_eq!(get(&t), (0, 7));
    press_key(&mut t, &KeyPress::Char('9'));
    assert_eq!(get(&t), (9, 9));
}

#[test]
fn shifted_digit_keys_set_pause_threshold() {
    let keys = ['!', '@', '#', '$', '%', '^', '&', '*', '('];
    for (i, key) in keys.iter().enumerate() {
        let n = i as u8 + 1;
        assert_eq!(command_of(&KeyPress::Char(*key)), Command::Pause(n));
        let mut t = store(0, 0);
        assert_eq!(press_key(&mut t, &KeyPress::Char(*key)), PanelState::AwaitingKey);
        assert_eq!(get(&t), (0, n));
        let mut t = store(6, 9);
        press_key(&mut t, &KeyPress::Char(*key));
        assert_eq!(get(&t), (n.min(6), n));
    }
}

#[test]
fn other_keys_are_ignored() {
    let mut t = store(2, 4);
    for key in [
        KeyPress::Char('a'),
        KeyPress::Char(')'),
        KeyPress::Char('Q'),
        KeyPress::Ctrl('d'),
        KeyPress::Other,
    ] {
        assert_eq!(command_of(&key), Command::Ignore);
        assert_eq!(press_key(&mut t, &key), PanelState::AwaitingKey);
        assert_eq!(get(&t), (2, 4));
    }
}

#[test]
fn commands_of_keys() {
    assert_eq!(command_of(&KeyPress::Char('q')), Command::Quit);
    assert_eq!(command_of(&KeyPress::Ctrl('c')), Command::Quit);
    assert_eq!(command_of(&KeyPress::Char(' ')), Command::Resume);
    assert_eq!(command_of(&KeyPress::Char('\n')), Command::Resume);
    assert_eq!(command_of(&KeyPress::Char('4')), Command::Print(4));
}

#[test]
fn trace_line_indents_by_level() {
    assert_eq!(trace_line(9, "msg"), "9: msg\n");
    assert_eq!(trace_line(0, "m"), "0:                   m\n");
    assert_eq!(trace_line(8, ""), "8:   \n");
    assert_eq!(trace_line(40, "hi"), "9: hi\n");
}

#[test]
fn decimal_numerals() {
    let mut s = String::from("n=");
    push_decimal(&mut s, 0);
    assert_eq!(s, "n=0");
    let mut s = String::new();
    push_decimal(&mut s, 4294967295);
    assert_eq!(s, "4294967295");
    let mut s = String::new();
    push_decimal(&mut s, 1090);
    assert_eq!(s, "1090");
}

#[test]
fn sentinel_name_holds_process_id() {
    assert_eq!(sentinel_name(4242), "dbg_step_4242");
    assert_eq!(sentinel_name(7), "dbg_step_7");
}

#[test]
fn sentinel_notice_names_the_file() {
    assert_eq!(
        sentinel_notice("dbg_step_12"),
        "{*}: On because 'dbg_step_12' was found in the current working directory."
    );
}

#[test]
fn status_line_shows_thresholds_and_keys() {
    assert_eq!(
        status_line((3, 10), "dbg_step_9"),
        "\r3,10,dbg_step_9: Keys [0-9] set limit, \u{21E7}[0-9] set pause limit, 'q' quits, ' ' continues "
    );
}

#[test]
fn clear_line_returns_and_erases() {
    assert_eq!(CLEAR_LINE, "\r\x1B[2K");
}

#[test]
fn line_feeds_become_crlf() {
    assert_eq!(expand_line_endings(b"a\nb\n"), b"a\r\nb\r\n".to_vec());
    assert_eq!(expand_line_endings(b""), Vec::<u8>::new());
    assert_eq!(expand_line_endings(b"\r\x01z"), b"\r\x01z".to_vec());
    assert_eq!(expand_line_endings(b"\n\n"), b"\r\n\r\n".to_vec());
}
