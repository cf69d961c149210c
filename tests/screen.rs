use ferrif::grid::{CharGrid, CharStyle};
use ferrif::screen::{AbstractScreen, ScreenState, WindowLayout, ZCodeVersion, BACKSPACE};
use ferrif::wrap::WrapStyle;

// The screen's runs joined into one string
fn runs_to_str(screen: &AbstractScreen) -> String {
    let mut s = String::new();
    for (line, _) in screen.grid().grid_to_runs(false) {
        s.push_str(line.as_str());
    }
    s
}

fn rows(screen: &AbstractScreen) -> Vec<String> {
    runs_to_str(screen).split('\n').map(|r| r.trim_end().to_string()).collect()
}

fn small_screen(style: WrapStyle, width: usize, height: usize) -> AbstractScreen {
    let mut screen = AbstractScreen::create();
    screen.initialize(ZCodeVersion::V3);
    screen.validate_size = false;
    screen.set_wrap_style(style);
    screen.resize(width, height);
    screen
}

#[test]
fn test_wrapstyle_wrap() {
    let mut screen = AbstractScreen::create();
    screen.initialize(ZCodeVersion::V3);
    screen.validate_size = false;
    screen.set_wrap_style(WrapStyle::Wrap);
    screen.resize(20, 3);

    // Wrap whenever edge of screen is hit
    // Remember first line is status
    // And that lines start at the bottom and move up the screen
    assert_eq!(
        "                    \n                    \n                    ",
        runs_to_str(&screen).as_str()
    );

    // String is not longer that screen width, will appear on last line
    screen.print("01234567890123.");
    assert_eq!(
        "                    \n                    \n01234567890123.     ",
        runs_to_str(&screen).as_str()
    );

    // This print should wrap to next line and push previous line up.
    // Since setting is not word wrap, just wraps at the character
    screen.print("01234567890");
    assert_eq!(
        "                    \n01234567890123.01234\n567890              ",
        runs_to_str(&screen).as_str()
    );

    // Since using character wrap, period moves to next page
    screen.print(" 1234567 A Fox.");
    assert_eq!(
        "                    \n567890 1234567 A Fox\n.                   ",
        runs_to_str(&screen).as_str()
    );
}

#[test]
fn test_wrapstyle_wraponpunctuation() {
    let mut screen = AbstractScreen::create();
    screen.initialize(ZCodeVersion::V3);
    screen.validate_size = false;
    screen.set_wrap_style(WrapStyle::WrapOnPunctuation);
    screen.resize(20, 3);

    assert_eq!(
        "                    \n                    \n                    ",
        runs_to_str(&screen).as_str()
    );

    screen.print("01234567890123.");
    assert_eq!(
        "                    \n                    \n01234567890123.     ",
        runs_to_str(&screen).as_str()
    );

    // Since setting is punctuation wrap, should wrap on the period
    screen.print("01234567890");
    assert_eq!(
        "                    \n01234567890123.     \n01234567890         ",
        runs_to_str(&screen).as_str()
    );

    // With punctuation wrap on, period should "stick" to word when wrapping
    screen.print(" 123456 A Fox.");
    assert_eq!(
        "                    \n01234567890 123456 A\nFox.                ",
        runs_to_str(&screen).as_str()
    );

    // Punctuation should wrap correctly even if last character
    screen.print(" 123456 123 dog, cat.");
    assert_eq!(
        "                    \nFox. 123456 123     \ndog, cat.           ",
        runs_to_str(&screen).as_str()
    );
}

#[test]
fn resize_round_trip_restores_rendering() {
    let mut screen = small_screen(WrapStyle::WrapOnPunctuation, 20, 6);
    screen.print("The quick brown fox jumps over the lazy dog. Pack my box with five dozen jugs.");
    let before = runs_to_str(&screen);
    screen.resize(13, 9);
    assert_ne!(before, runs_to_str(&screen));
    screen.resize(31, 4);
    screen.resize(20, 6);
    assert_eq!(before, runs_to_str(&screen));
}

#[test]
fn hard_wrap_splits_at_width() {
    let mut screen = small_screen(WrapStyle::Wrap, 10, 4);
    // width + 3 plain characters
    screen.print("abcdefghijklm");
    let r = rows(&screen);
    assert_eq!(r[2], "abcdefghij");
    assert_eq!(r[3], "klm");
}

#[test]
fn hard_wrap_without_break_characters_on_word_wrap() {
    // No break character on the very first line: falls back to a hard wrap
    let mut screen = small_screen(WrapStyle::WrapOnPunctuation, 10, 4);
    screen.print("abcdefghijklm");
    let r = rows(&screen);
    assert_eq!(r[2], "abcdefghij");
    assert_eq!(r[3], "klm");
}

#[test]
fn word_wrap_keeps_words_together() {
    let mut screen = small_screen(WrapStyle::WrapOnPunctuation, 8, 4);
    screen.print("aaaa bbbb");
    let r = rows(&screen);
    assert_eq!(r[2], "aaaa");
    assert_eq!(r[3], "bbbb");
}

#[test]
fn more_pages_then_returns_to_output() {
    // A status row and three rows of lower region
    let mut screen = small_screen(WrapStyle::WrapOnPunctuation, 20, 4);
    screen.use_more(true);
    screen.print("1\n2\n3\n4\n5\n6\n7\n8");
    assert_eq!(screen.state, ScreenState::WaitingForMore);
    assert!(screen.waiting_for_input());
    assert_eq!(rows(&screen), vec!["", "1", "2", "[MORE]"]);

    // One page of the three-row lower region further on
    assert!(!screen.process_input(' '));
    assert_eq!(screen.state, ScreenState::WaitingForMore);
    assert_eq!(rows(&screen), vec!["", "4", "5", "[MORE]"]);

    assert!(!screen.process_input(' '));
    assert_eq!(screen.state, ScreenState::Output);
    assert_eq!(rows(&screen), vec!["", "6", "7", "8"]);
}

#[test]
fn more_then_line_waits_for_line_after_paging() {
    let mut screen = small_screen(WrapStyle::WrapOnPunctuation, 20, 4);
    screen.use_more(true);
    screen.print("1\n2\n3\n4\n5\n6\n7\n8");
    screen.wait_for_line(10);
    assert_eq!(screen.state, ScreenState::WaitingForMoreThenLine);
    screen.process_input(' ');
    screen.process_input(' ');
    assert_eq!(screen.state, ScreenState::WaitingForLine);
    assert!(screen.is_cursor_visible());
}

#[test]
fn line_input_collects_and_submits() {
    let mut screen = small_screen(WrapStyle::WrapOnPunctuation, 20, 4);
    screen.print(">");
    screen.wait_for_line(10);
    assert_eq!(screen.state, ScreenState::WaitingForLine);
    assert!(!screen.process_input('l'));
    assert!(!screen.process_input('o'));
    assert!(!screen.process_input('x'));
    assert!(!screen.process_input(BACKSPACE));
    assert!(!screen.process_input('o'));
    assert!(!screen.process_input('k'));
    assert_eq!(rows(&screen)[3], ">look");
    assert!(screen.process_input('\n'));
    assert_eq!(screen.last_input(), "look");
    assert_eq!(screen.state, ScreenState::Output);
    assert!(!screen.waiting_for_input());
}

#[test]
fn backspace_stops_at_input_start() {
    let mut screen = small_screen(WrapStyle::WrapOnPunctuation, 20, 4);
    screen.print("prompt>");
    screen.wait_for_line(10);
    screen.process_input(BACKSPACE);
    screen.process_input(BACKSPACE);
    assert_eq!(rows(&screen)[3], "prompt>");
    screen.process_input('a');
    screen.process_input(BACKSPACE);
    screen.process_input(BACKSPACE);
    assert_eq!(rows(&screen)[3], "prompt>");
    assert_eq!(screen.last_input(), "");
}

#[test]
fn input_stops_at_max_length() {
    let mut screen = small_screen(WrapStyle::WrapOnPunctuation, 20, 4);
    screen.wait_for_line(3);
    for c in "abcdef".chars() {
        screen.process_input(c);
    }
    assert_eq!(screen.last_input(), "abc");
    assert_eq!(rows(&screen)[3], "abc");
}

#[test]
fn stop_waiting_returns_to_output() {
    let mut screen = small_screen(WrapStyle::WrapOnPunctuation, 20, 4);
    screen.wait_for_line(10);
    screen.process_input('a');
    screen.stop_waiting_for_input();
    assert_eq!(screen.state, ScreenState::Output);
    assert_eq!(screen.last_input(), "");
    assert!(!screen.process_input('b'));
}

#[test]
fn status_truncates_left_and_aligns_right() {
    let mut screen = small_screen(WrapStyle::WrapOnPunctuation, 40, 5);
    screen.draw_status("A very long location name that overflows", "12/34");
    let r = runs_to_str(&screen);
    let first = r.split('\n').next().unwrap();
    assert_eq!(first, "A very long location nam...        12/34");
    let runs = screen.grid().grid_to_runs(false);
    assert_eq!(runs[0].1, CharStyle::Inverted);
}

#[test]
fn status_pads_short_left() {
    let mut screen = small_screen(WrapStyle::WrapOnPunctuation, 40, 5);
    screen.draw_status("Room", "Score: 10");
    let r = runs_to_str(&screen);
    let first = r.split('\n').next().unwrap();
    assert_eq!(first, "Room                           Score: 10");
}

#[test]
fn window_too_small_message() {
    let mut screen = AbstractScreen::create();
    screen.resize(20, 3);
    assert!(!screen.is_size_valid());
    assert_eq!(
        rows(&screen),
        vec!["WINDOW TOO SMALL.", "MINIMUM SIZE 60x14", "CURRENT SIZE 20x3"]
    );
}

#[test]
fn erase_chars_takes_back_text_and_newlines() {
    let mut screen = small_screen(WrapStyle::WrapOnPunctuation, 20, 4);
    screen.print("abc\nde");
    assert_eq!(rows(&screen)[1..], ["", "abc", "de"]);
    screen.erase_chars(3);
    assert_eq!(rows(&screen)[3], "abc");
    screen.erase_chars(1);
    assert_eq!(rows(&screen)[3], "ab");
    // Nothing left to take back: no change
    screen.erase_chars(10);
    screen.erase_chars(1);
    assert_eq!(rows(&screen)[3], "");
}

#[test]
fn erase_across_a_wrap() {
    let mut screen = small_screen(WrapStyle::Wrap, 5, 4);
    screen.print("abcdef");
    // The status row of so narrow a grid only holds a clipped ellipsis
    assert_eq!(rows(&screen)[1..], ["", "abcde", "f"]);
    screen.erase_chars(2);
    assert_eq!(rows(&screen)[3], "abcd");
    screen.print("XY");
    assert_eq!(rows(&screen)[2], "abcdX");
    assert_eq!(rows(&screen)[3], "Y");
}

#[test]
fn upper_window_prints_without_wrapping() {
    let mut screen = small_screen(WrapStyle::WrapOnPunctuation, 10, 6);
    screen.split_window(2);
    screen.set_window(WindowLayout::Upper);
    screen.print("Hello there\nAB\nCD");
    let r = rows(&screen);
    assert_eq!(r[1], "Hello ther");
    assert_eq!(r[2], "AB");
    screen.set_window(WindowLayout::Lower);
    screen.print("below");
    assert_eq!(rows(&screen)[5], "below");
}

#[test]
fn split_collapses_upper_window() {
    let mut screen = small_screen(WrapStyle::WrapOnPunctuation, 10, 6);
    screen.split_window(3);
    screen.split_window(0);
    screen.print("1\n2\n3\n4\n5\n6\n7");
    assert_eq!(rows(&screen)[1..], ["3", "4", "5", "6", "7"]);
}

#[test]
fn scroll_pages_up_and_down() {
    let mut screen = small_screen(WrapStyle::WrapOnPunctuation, 10, 4);
    screen.print("1\n2\n3\n4\n5\n6\n7\n8\n9");
    assert_eq!(rows(&screen)[1..], ["7", "8", "9"]);
    screen.scroll_page_up();
    assert_eq!(rows(&screen)[1..], ["4", "5", "6"]);
    screen.scroll_page_down();
    assert_eq!(rows(&screen)[1..], ["7", "8", "9"]);
}

#[test]
fn unprintable_characters_are_stored_as_question_marks() {
    let mut screen = small_screen(WrapStyle::WrapOnPunctuation, 10, 4);
    screen.print("a\tb\u{e9}");
    assert_eq!(rows(&screen)[3], "a?b?");
}

#[test]
fn runs_are_repeatable_and_group_styles() {
    let mut grid = CharGrid::create(4, 2);
    grid.addstr("ab");
    let a = grid.grid_to_runs(true);
    let b = grid.grid_to_runs(true);
    assert_eq!(a, b);
    // The cursor cell shows inverted
    assert_eq!(
        a,
        vec![
            ("ab".to_string(), CharStyle::Normal),
            (" ".to_string(), CharStyle::Inverted),
            (" \n    ".to_string(), CharStyle::Normal),
        ]
    );
}

#[test]
fn grid_put_move_and_clear() {
    let mut grid = CharGrid::create(5, 3);
    grid.mv(1, 2);
    assert_eq!(grid.get_cur_yx(), (1, 2));
    assert_eq!(grid.to_index(2, 1), 7);
    grid.addstr("xyz");
    grid.addch('\n');
    assert_eq!(grid.get_cur_yx(), (2, 0));
    let text: String = grid.grid_to_runs(false).into_iter().map(|r| r.0).collect();
    assert_eq!(text, "     \n  xyz\n     ");
    grid.mv(1, 3);
    grid.clrtoeol();
    let text: String = grid.grid_to_runs(false).into_iter().map(|r| r.0).collect();
    assert_eq!(text, "     \n  x  \n     ");
    grid.window_clear();
    let text: String = grid.grid_to_runs(false).into_iter().map(|r| r.0).collect();
    assert_eq!(text, "     \n     \n     ");
}

#[test]
fn writes_past_the_end_are_dropped() {
    let mut grid = CharGrid::create(2, 1);
    grid.addstr("abcd");
    let text: String = grid.grid_to_runs(false).into_iter().map(|r| r.0).collect();
    assert_eq!(text, "ab");
}

#[test]
fn state_string_for_debugging() {
    let mut screen = small_screen(WrapStyle::WrapOnPunctuation, 20, 4);
    screen.print("ab\nc");
    assert_eq!(screen.get_state_string(), "ln (4) idx (2) lastidx (3x1) Output");
    assert_eq!(screen.text_len(), 4);
    assert_eq!(screen.get_screen_width(), 20);
    assert_eq!(screen.get_screen_height(), 4);
}

#[test]
fn status_left_exactly_filling_its_field_is_kept() {
    let mut screen = small_screen(WrapStyle::WrapOnPunctuation, 40, 5);
    let left = "A".repeat(28);
    screen.draw_status(&left, "Score: 100 Moves: 5");
    let r = runs_to_str(&screen);
    let first = r.split('\n').next().unwrap();
    assert_eq!(first, format!("{}{}", left, "100 Moves: 5"));
}

#[test]
fn status_texts_survive_a_screen_too_small() {
    let mut screen = AbstractScreen::create();
    screen.initialize(ZCodeVersion::V3);
    screen.draw_status("Room", "1/2");
    screen.resize(20, 3);
    assert_eq!(rows(&screen)[0], "WINDOW TOO SMALL.");
    screen.resize(80, 20);
    let r = runs_to_str(&screen);
    let first = r.split('\n').next().unwrap();
    assert_eq!(first.trim_end(), format!("Room{}1/2", " ".repeat(64 + 9)));
}

#[test]
fn waiting_again_for_a_line_changes_nothing() {
    let mut screen = small_screen(WrapStyle::WrapOnPunctuation, 20, 4);
    screen.wait_for_line(10);
    screen.process_input('a');
    screen.wait_for_line(3);
    screen.process_input('b');
    assert!(screen.process_input('\n'));
    assert_eq!(screen.last_input(), "ab");
}
