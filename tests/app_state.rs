use stock::events::{on_events, on_tick, Input, Key};
use stock::feed::{apply_quotes, unwrap_feed, FetchOutcome, QuoteEntry, SERVER_ERROR};
use stock::{App, AppState, Stock};

fn codes(list: &[&str]) -> Vec<String> {
    list.iter().map(|c| c.to_string()).collect()
}

fn app_with(list: &[&str]) -> App {
    App::new(&codes(list), 0).0
}

fn code_list(app: &App) -> Vec<String> {
    app.stocks.iter().map(|s| s.code.clone()).collect()
}

fn key(c: char) -> Input {
    Input::Key(Key::Char(c))
}

fn entry(code: &str, name: Option<&str>, price: i64) -> QuoteEntry {
    QuoteEntry {
        code: code.to_string(),
        name: name.map(|n| n.to_string()),
        price,
        percent: price + 1,
        open: price + 2,
        yestclose: price + 3,
        high: price + 4,
        low: price + 5,
    }
}

fn quote_of(s: &Stock) -> [i64; 6] {
    [s.price, s.percent, s.open, s.yestclose, s.high, s.low]
}

#[test]
fn new_stock_has_defaults() {
    let s = Stock::new(&"600000".to_string());
    assert_eq!(s.code, "600000");
    assert_eq!(s.title, "600000");
    assert_eq!(quote_of(&s), [0; 6]);
}

#[test]
fn saved_codes_reload_in_order() {
    let app = app_with(&["600000", "000001"]);
    let saved = app.stock_codes();
    assert_eq!(saved, codes(&["600000", "000001"]));
    let (reloaded, first) = App::new(&saved, 5);
    assert_eq!(first, Some("600000,000001".to_string()));
    assert_eq!(reloaded.stocks.len(), 2);
    assert_eq!(reloaded.stocks[0].code, "600000");
    assert_eq!(reloaded.stocks[1].code, "000001");
    for s in &reloaded.stocks {
        assert_eq!(s.title, s.code);
        assert_eq!(quote_of(s), [0; 6]);
    }
    assert_eq!(reloaded.selected, None);
    assert_eq!(reloaded.last_refresh, 5);
}

#[test]
fn save_text_lists_codes() {
    let app = app_with(&["600000", "000001"]);
    let text = app.save_stocks();
    assert_eq!(text, r#"{"stocks":[{"code":"600000"},{"code":"000001"}]}"#);
    let empty = app_with(&[]);
    assert_eq!(empty.save_stocks(), r#"{"stocks":[]}"#);
}

#[test]
fn codes_are_comma_joined() {
    assert_eq!(app_with(&["600000", "000001", "1"]).get_codes(), "600000,000001,1");
    assert_eq!(app_with(&["600000"]).get_codes(), "600000");
    assert_eq!(app_with(&[]).get_codes(), "");
}

#[test]
fn refresh_needs_a_non_empty_list() {
    assert_eq!(app_with(&[]).refresh_stocks(), None);
    assert_eq!(app_with(&["a", "b"]).refresh_stocks(), Some("a,b".to_string()));
}

#[test]
fn typing_a_code_then_enter_adds_it() {
    let mut app = app_with(&[]);
    let eff = on_events(key('n'), &mut app);
    assert!(eff.fetch.is_none() && !eff.save);
    assert_eq!(app.state, AppState::Adding);
    for c in "600000".chars() {
        on_events(key(c), &mut app);
    }
    assert_eq!(app.input, "600000");
    let eff = on_events(Input::Key(Key::Enter), &mut app);
    assert_eq!(app.state, AppState::Normal);
    assert_eq!(app.input, "");
    assert_eq!(code_list(&app), codes(&["600000"]));
    assert_eq!(eff.fetch, Some("600000".to_string()));
    assert!(eff.save);
}

#[test]
fn enter_on_empty_buffer_adds_nothing() {
    let mut app = app_with(&["a"]);
    on_events(key('N'), &mut app);
    let eff = on_events(Input::Key(Key::Enter), &mut app);
    assert_eq!(app.state, AppState::Normal);
    assert_eq!(code_list(&app), codes(&["a"]));
    assert!(eff.fetch.is_none() && !eff.save);
}

#[test]
fn cancel_discards_the_buffer() {
    let mut app = app_with(&["a"]);
    on_events(key('n'), &mut app);
    on_events(key('6'), &mut app);
    on_events(key('0'), &mut app);
    let eff = on_events(Input::Key(Key::Esc), &mut app);
    assert_eq!(app.state, AppState::Normal);
    assert_eq!(app.input, "");
    assert_eq!(code_list(&app), codes(&["a"]));
    assert!(eff.fetch.is_none() && !eff.save);
}

#[test]
fn backspace_erases_last_character() {
    let mut app = app_with(&[]);
    on_events(key('n'), &mut app);
    on_events(Input::Key(Key::Backspace), &mut app);
    assert_eq!(app.input, "");
    on_events(key('1'), &mut app);
    on_events(key('2'), &mut app);
    on_events(Input::Key(Key::Backspace), &mut app);
    assert_eq!(app.input, "1");
    assert_eq!(app.state, AppState::Adding);
}

#[test]
fn letters_in_adding_mode_are_typed_not_commands() {
    let mut app = app_with(&["a"]);
    on_events(key('n'), &mut app);
    on_events(key('q'), &mut app);
    assert!(!app.should_exit);
    assert_eq!(app.input, "q");
}

#[test]
fn quit_in_either_case() {
    let mut app = app_with(&[]);
    on_events(key('Q'), &mut app);
    assert!(app.should_exit);
    let mut app = app_with(&[]);
    on_events(key('q'), &mut app);
    assert!(app.should_exit);
}

#[test]
fn refresh_key_dispatches_fetch() {
    let mut app = app_with(&["a", "b"]);
    let eff = on_events(key('R'), &mut app);
    assert_eq!(eff.fetch, Some("a,b".to_string()));
    assert!(!eff.save);
    let mut empty = app_with(&[]);
    assert_eq!(on_events(key('r'), &mut empty).fetch, None);
}

#[test]
fn delete_without_selection_is_noop() {
    let mut app = app_with(&["a", "b"]);
    assert!(!app.delete_selected());
    assert!(!app.move_selected_up());
    assert!(!app.move_selected_down());
    assert_eq!(code_list(&app), codes(&["a", "b"]));
    assert_eq!(app.selected, None);
    app.selected = Some(5);
    assert!(!app.delete_selected());
    assert!(!app.move_selected_up());
    assert!(!app.move_selected_down());
    assert_eq!(code_list(&app), codes(&["a", "b"]));
    assert_eq!(app.selected, Some(5));
    let eff = on_events(key('d'), &mut app);
    assert!(!eff.save);
    assert_eq!(code_list(&app), codes(&["a", "b"]));
}

#[test]
fn delete_removes_selected_and_clears_cursor() {
    let mut app = app_with(&["a", "b", "c"]);
    app.select_by_position(1);
    let eff = on_events(key('D'), &mut app);
    assert!(eff.save);
    assert_eq!(code_list(&app), codes(&["a", "c"]));
    assert_eq!(app.selected, None);
}

#[test]
fn reorder_moves_cursor_with_item() {
    let mut app = app_with(&["a", "b", "c"]);
    app.select_by_position(1);
    assert!(on_events(key('u'), &mut app).save);
    assert_eq!(code_list(&app), codes(&["b", "a", "c"]));
    assert_eq!(app.selected, Some(0));
    assert!(!on_events(key('U'), &mut app).save);
    assert_eq!(code_list(&app), codes(&["b", "a", "c"]));
    assert!(on_events(key('j'), &mut app).save);
    assert!(on_events(key('J'), &mut app).save);
    assert_eq!(code_list(&app), codes(&["a", "c", "b"]));
    assert_eq!(app.selected, Some(2));
    assert!(!on_events(key('j'), &mut app).save);
    assert_eq!(app.selected, Some(2));
}

#[test]
fn cursor_down_stops_at_last_row() {
    let mut app = app_with(&["a", "b"]);
    app.move_selection_down();
    assert_eq!(app.selected, Some(1));
    app.move_selection_down();
    app.move_selection_down();
    assert_eq!(app.selected, Some(1));
}

#[test]
fn cursor_up_stops_at_first_row() {
    let mut app = app_with(&["a", "b"]);
    app.move_selection_up();
    assert_eq!(app.selected, Some(0));
    app.move_selection_up();
    assert_eq!(app.selected, Some(0));
    on_events(Input::Key(Key::Down), &mut app);
    assert_eq!(app.selected, Some(1));
    on_events(Input::Key(Key::Up), &mut app);
    assert_eq!(app.selected, Some(0));
}

#[test]
fn cursor_moves_do_nothing_on_empty_list() {
    let mut app = app_with(&[]);
    app.move_selection_down();
    app.move_selection_up();
    on_events(Input::Key(Key::Down), &mut app);
    assert_eq!(app.selected, None);
}

#[test]
fn stale_cursor_is_clamped() {
    let mut app = app_with(&["a", "b"]);
    app.selected = Some(7);
    app.move_selection_down();
    assert_eq!(app.selected, Some(1));
    app.selected = Some(7);
    app.move_selection_up();
    assert_eq!(app.selected, Some(1));
}

#[test]
fn click_selects_row_in_range() {
    let mut app = app_with(&["a", "b"]);
    on_events(Input::MouseUp { row: 3 }, &mut app);
    assert_eq!(app.selected, Some(1));
    on_events(Input::MouseUp { row: 4 }, &mut app);
    assert_eq!(app.selected, Some(1));
    on_events(Input::MouseUp { row: 1 }, &mut app);
    assert_eq!(app.selected, Some(1));
    on_events(Input::MouseUp { row: 2 }, &mut app);
    assert_eq!(app.selected, Some(0));
    app.select_by_position(9);
    assert_eq!(app.selected, Some(0));
}

#[test]
fn unknown_input_is_ignored() {
    let mut app = app_with(&["a"]);
    let eff = on_events(Input::Other, &mut app);
    assert!(eff.fetch.is_none() && !eff.save);
    on_events(Input::Key(Key::Other), &mut app);
    on_events(key('z'), &mut app);
    assert_eq!(code_list(&app), codes(&["a"]));
    assert_eq!(app.state, AppState::Normal);
}

#[test]
fn every_sixtieth_tick_refreshes_in_normal_mode() {
    let mut app = app_with(&["a"]);
    let mut fetches = 0;
    for _ in 0..120 {
        if on_tick(&mut app).is_some() {
            fetches += 1;
        }
    }
    assert_eq!(fetches, 2);
    assert_eq!(app.tick_count, 120);
    for _ in 0..59 {
        assert_eq!(on_tick(&mut app), None);
    }
    assert_eq!(on_tick(&mut app), Some("a".to_string()));
}

#[test]
fn ticks_in_adding_mode_never_refresh() {
    let mut app = app_with(&["a"]);
    on_events(key('n'), &mut app);
    for _ in 0..180 {
        assert_eq!(on_tick(&mut app), None);
    }
    assert_eq!(app.tick_count, 180);
}

#[test]
fn missing_code_keeps_previous_quote() {
    let mut app = app_with(&["600000", "999999", "000001"]);
    app.finish_refresh(FetchOutcome::Quotes(vec![entry("999999", Some("Old"), 7)]), 1);
    app.finish_refresh(
        FetchOutcome::Quotes(vec![
            entry("600000", Some("Bank"), 100),
            entry("000001", None, 200),
        ]),
        42,
    );
    assert_eq!(app.stocks[0].title, "Bank");
    assert_eq!(quote_of(&app.stocks[0]), [100, 101, 102, 103, 104, 105]);
    assert_eq!(app.stocks[1].title, "Old");
    assert_eq!(quote_of(&app.stocks[1]), [7, 8, 9, 10, 11, 12]);
    assert_eq!(app.stocks[2].title, "000001");
    assert_eq!(quote_of(&app.stocks[2]), [200, 201, 202, 203, 204, 205]);
    assert_eq!(app.error, "");
    assert_eq!(app.last_refresh, 42);
}

#[test]
fn first_entry_for_a_code_wins() {
    let mut stocks = vec![Stock::new(&"a".to_string()), Stock::new(&"a".to_string())];
    apply_quotes(&mut stocks, &vec![entry("a", None, 1), entry("a", None, 9)]);
    assert_eq!(stocks[0].price, 1);
    assert_eq!(stocks[1].price, 1);
}

#[test]
fn malformed_body_reports_error_and_keeps_quotes() {
    let mut app = app_with(&["600000"]);
    app.finish_refresh(FetchOutcome::Quotes(vec![entry("600000", None, 3)]), 10);
    assert_eq!(unwrap_feed("<html>oops</html>"), None);
    app.finish_refresh(FetchOutcome::Malformed, 20);
    assert_eq!(app.error, SERVER_ERROR);
    assert!(!app.error.is_empty());
    assert_eq!(quote_of(&app.stocks[0]), [3, 4, 5, 6, 7, 8]);
    assert_eq!(app.last_refresh, 10);
}

#[test]
fn transport_failure_reports_reason() {
    let mut app = app_with(&["600000"]);
    app.finish_refresh(FetchOutcome::Failed("timed out".to_string()), 20);
    assert_eq!(app.error, "timed out");
    assert_eq!(quote_of(&app.stocks[0]), [0; 6]);
    assert_eq!(app.last_refresh, 0);
}

#[test]
fn feed_envelope_is_stripped() {
    assert_eq!(
        unwrap_feed("_ntes_quote_callback({\"a\":1});"),
        Some("{\"a\":1}".to_string())
    );
    assert_eq!(unwrap_feed("_ntes_quote_callback();"), Some(String::new()));
    assert_eq!(unwrap_feed("_ntes_quote_callback("), None);
    assert_eq!(unwrap_feed("_ntes_quote_callback({});x"), None);
    assert_eq!(unwrap_feed(""), None);
}

#[test]
fn new_dispatches_fetch_only_for_non_empty_list() {
    assert_eq!(App::new(&codes(&[]), 0).1, None);
    assert_eq!(App::new(&codes(&["a"]), 0).1, Some("a".to_string()));
}

#[test]
fn reload_keeps_cursor() {
    let mut app = app_with(&["a", "b"]);
    app.select_by_position(1);
    app.load_stocks(&codes(&["x", "y", "z"]));
    assert_eq!(app.selected, Some(1));
    assert_eq!(code_list(&app), codes(&["x", "y", "z"]));
    for s in &app.stocks {
        assert_eq!(quote_of(s), [0; 6]);
    }
}
