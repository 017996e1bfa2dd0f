use vstd::prelude::*;

use crate::cursor_down;
use crate::cursor_up;
use crate::joined_codes;
use crate::swapped;
use crate::text::pop_char;
use crate::text::push_char;
use crate::App;
use crate::AppState;
use crate::Stock;

verus! {

/// Ticks between two periodic refreshes.
pub const REFRESH_TICKS: u128 = 60;

/// The screen row that shows the first record of the list.
pub const LIST_FIRST_ROW: u16 = 2;

/// The keys that the dashboard tells apart.
#[derive(PartialEq, Eq, Structural, Clone, Copy, Debug)]
pub enum Key {
    Char(char),
    Enter,
    Esc,
    Backspace,
    Up,
    Down,
    Other,
}

/// One input event.
#[derive(PartialEq, Eq, Structural, Clone, Copy, Debug)]
pub enum Input {
    Key(Key),
    /// A mouse button was released over screen row `row`.
    MouseUp { row: u16 },
    Other,
}

/// What the caller has to do after an event: start a fetch for these codes, and write
/// the code list to disk.
pub struct Effect {
    pub fetch: Option<String>,
    pub save: bool,
}

/// `ev` is the letter key `lower`, in either case.
pub open spec fn is_command(ev: Input, lower: char, upper: char) -> bool {
    ev matches Input::Key(Key::Char(c)) && (c == lower || c == upper)
}

/// `fetch` is what a refresh of `stocks` dispatches.
pub open spec fn fetches(fetch: Option<String>, stocks: Seq<Stock>) -> bool {
    match fetch {
        Some(c) => stocks.len() > 0 && c@ == joined_codes(stocks),
        None => stocks.len() == 0,
    }
}

/// Nothing to do.
pub open spec fn is_quiet(eff: Effect) -> bool {
    eff.fetch is None && !eff.save
}

/// Only the input buffer and the mode may differ between `a` and `b`.
pub open spec fn same_but_input(a: App, b: App) -> bool {
    &&& b.should_exit == a.should_exit
    &&& b.error == a.error
    &&& b.stocks == a.stocks
    &&& b.selected == a.selected
    &&& b.last_refresh == a.last_refresh
    &&& b.tick_count == a.tick_count
}

/// The step from `a` to `b`, with effect `eff`, that `ev` causes in normal mode.
pub open spec fn normal_step(a: App, ev: Input, b: App, eff: Effect) -> bool {
    let sel = a.cursor();
    let n = a.stocks@.len();
    if is_command(ev, 'q', 'Q') {
        b == (App { should_exit: true, ..a }) && is_quiet(eff)
    } else if is_command(ev, 'r', 'R') {
        b == a && fetches(eff.fetch, a.stocks@) && !eff.save
    } else if is_command(ev, 'n', 'N') {
        &&& same_but_input(a, b)
        &&& b.state == AppState::Adding
        &&& b.input@.len() == 0
        &&& is_quiet(eff)
    } else if is_command(ev, 'd', 'D') && a.has_valid_selection() {
        &&& b.same_ui(a)
        &&& b.stocks@ == a.stocks@.remove(sel)
        &&& b.selected is None
        &&& eff.save && eff.fetch is None
    } else if is_command(ev, 'u', 'U') && a.has_valid_selection() && sel > 0 {
        &&& b.same_ui(a)
        &&& b.stocks@ == swapped(a.stocks@, sel, sel - 1)
        &&& b.selected == Some((sel - 1) as usize)
        &&& eff.save && eff.fetch is None
    } else if is_command(ev, 'j', 'J') && a.has_valid_selection() && sel + 1 < n {
        &&& b.same_ui(a)
        &&& b.stocks@ == swapped(a.stocks@, sel, sel + 1)
        &&& b.selected == Some((sel + 1) as usize)
        &&& eff.save && eff.fetch is None
    } else if ev == Input::Key(Key::Up) && n > 0 {
        b.same_ui(a) && b.stocks == a.stocks && b.selected == cursor_up(a.selected, n)
            && is_quiet(eff)
    } else if ev == Input::Key(Key::Down) && n > 0 {
        b.same_ui(a) && b.stocks == a.stocks && b.selected == cursor_down(a.selected, n)
            && is_quiet(eff)
    } else if ev matches Input::MouseUp { row } && LIST_FIRST_ROW <= row && row
        - LIST_FIRST_ROW < n {
        &&& b.same_ui(a)
        &&& b.stocks == a.stocks
        &&& b.selected == Some((ev->row - LIST_FIRST_ROW) as usize)
        &&& is_quiet(eff)
    } else {
        b == a && is_quiet(eff)
    }
}

/// The step from `a` to `b`, with effect `eff`, that `ev` causes while a code is typed.
pub open spec fn adding_step(a: App, ev: Input, b: App, eff: Effect) -> bool {
    match ev {
        Input::Key(Key::Enter) => {
            &&& b.state == AppState::Normal
            &&& b.input@.len() == 0
            &&& b.same_ui(App { state: b.state, input: b.input, ..a })
            &&& b.selected == a.selected
            &&& if a.input@.len() > 0 {
                &&& b.stocks@.len() == a.stocks@.len() + 1
                &&& b.stocks@.drop_last() == a.stocks@
                &&& b.stocks@.last().is_fresh_for(a.input@)
                &&& fetches(eff.fetch, b.stocks@)
                &&& eff.save
            } else {
                b.stocks == a.stocks && is_quiet(eff)
            }
        },
        Input::Key(Key::Esc) => {
            &&& same_but_input(a, b)
            &&& b.state == AppState::Normal
            &&& b.input@.len() == 0
            &&& is_quiet(eff)
        },
        Input::Key(Key::Char(c)) => {
            &&& same_but_input(a, b)
            &&& b.state == a.state
            &&& b.input@ == a.input@.push(c)
            &&& is_quiet(eff)
        },
        Input::Key(Key::Backspace) => {
            &&& same_but_input(a, b)
            &&& b.state == a.state
            &&& b.input@ == if a.input@.len() > 0 {
                a.input@.drop_last()
            } else {
                a.input@
            }
            &&& is_quiet(eff)
        },
        _ => b == a && is_quiet(eff),
    }
}

fn is_key(event: Input, lower: char, upper: char) -> (r: bool)
    ensures
        r == is_command(event, lower, upper),
{
    match event {
        Input::Key(Key::Char(c)) => c == lower || c == upper,
        _ => false,
    }
}

fn quiet() -> (r: Effect)
    ensures
        is_quiet(r),
{
    Effect { fetch: None, save: false }
}

fn saved() -> (r: Effect)
    ensures
        r.save && r.fetch is None,
{
    Effect { fetch: None, save: true }
}

/// Applies one input event to the dashboard and says what the caller has to do next.
pub fn on_events(event: Input, app: &mut App) -> (r: Effect)
    ensures
        old(app).wf() ==> final(app).wf(),
        old(app).state == AppState::Normal ==> normal_step(*old(app), event, *final(app), r),
        old(app).state == AppState::Adding ==> adding_step(*old(app), event, *final(app), r),
{
    let total = app.stocks.len();
    let sel: usize = match app.selected {
        Some(s) => s,
        None => 0,
    };
    let selsome = app.selected.is_some() && sel < total;
    match app.state {
        AppState::Normal => {
            if is_key(event, 'q', 'Q') {
                app.should_exit = true;
                quiet()
            } else if is_key(event, 'r', 'R') {
                Effect { fetch: app.refresh_stocks(), save: false }
            } else if is_key(event, 'n', 'N') {
                app.state = AppState::Adding;
                app.input = String::new();
                quiet()
            } else if is_key(event, 'd', 'D') && selsome {
                app.delete_selected();
                saved()
            } else if is_key(event, 'u', 'U') && selsome && sel > 0 {
                app.move_selected_up();
                saved()
            } else if is_key(event, 'j', 'J') && selsome && sel + 1 < total {
                app.move_selected_down();
                saved()
            } else if event == Input::Key(Key::Up) && total > 0 {
                app.move_selection_up();
                quiet()
            } else if event == Input::Key(Key::Down) && total > 0 {
                app.move_selection_down();
                quiet()
            } else {
                match event {
                    Input::MouseUp { row } => {
                        if LIST_FIRST_ROW <= row && ((row - LIST_FIRST_ROW) as usize) < total {
                            app.select_by_position((row - LIST_FIRST_ROW) as usize);
                        }
                    },
                    _ => {},
                }
                quiet()
            }
        },
        AppState::Adding => match event {
            Input::Key(Key::Enter) => {
                app.state = AppState::Normal;
                if !app.input.as_str().is_empty() {
                    let code = app.input.clone();
                    app.add_stock(&code);
                    app.input = String::new();
                    Effect { fetch: app.refresh_stocks(), save: true }
                } else {
                    app.input = String::new();
                    quiet()
                }
            },
            Input::Key(Key::Esc) => {
                app.state = AppState::Normal;
                app.input = String::new();
                quiet()
            },
            Input::Key(Key::Char(c)) => {
                push_char(&mut app.input, c);
                quiet()
            },
            Input::Key(Key::Backspace) => {
                pop_char(&mut app.input);
                quiet()
            },
            _ => quiet(),
        },
    }
}

/// Counts one tick of the timer. Returns the codes to fetch when this tick is due for a
/// periodic refresh: every `REFRESH_TICKS`-th tick in normal mode, with a non-empty list.
pub fn on_tick(app: &mut App) -> (r: Option<String>)
    requires
        old(app).tick_count < u128::MAX,
    ensures
        *final(app) == (App { tick_count: (old(app).tick_count + 1) as u128, ..*old(app) }),
        refresh_due(final(app).tick_count, final(app).state) ==> fetches(r, final(app).stocks@),
        !refresh_due(final(app).tick_count, final(app).state) ==> r is None,
{
    app.tick_count = app.tick_count + 1;
    if app.tick_count % REFRESH_TICKS == 0 && app.state == AppState::Normal {
        app.refresh_stocks()
    } else {
        None
    }
}

/// A tick that brings the counter to `count` in mode `state` refreshes the quotes.
pub open spec fn refresh_due(count: u128, state: AppState) -> bool {
    count % REFRESH_TICKS == 0 && state == AppState::Normal
}

/// Of any sixty consecutive ticks in normal mode exactly one refreshes the quotes, and no
/// tick in adding mode ever does.
pub proof fn lemma_one_refresh_per_period(start: u128)
    requires
        start + REFRESH_TICKS <= u128::MAX,
    ensures
        forall|k: u128|
            1 <= k <= REFRESH_TICKS ==> (#[trigger] refresh_due((start + k) as u128, AppState::Normal) <==> k
                == REFRESH_TICKS - start % REFRESH_TICKS),
        forall|c: u128| !refresh_due(c, AppState::Adding),
{
    assert forall|k: u128| 1 <= k <= REFRESH_TICKS implies (#[trigger] refresh_due(
        (start + k) as u128,
        AppState::Normal,
    ) <==> k == REFRESH_TICKS - start % REFRESH_TICKS) by {
        let q = start / 60;
        let m = start % 60;
        assert(start == 60 * q + m);
        assert((start + k) as int == 60 * q + m + k);
        if k == 60 - m {
            assert((60 * q + 60) % 60 == 0) by (nonlinear_arith);
        } else if k < 60 - m {
            assert((60 * q + (m + k)) % 60 == m + k) by (nonlinear_arith)
                requires 0 < m + k < 60;
        } else {
            assert((60 * (q + 1) + (m + k - 60)) % 60 == m + k - 60) by (nonlinear_arith)
                requires 0 < m + k - 60 < 60;
        }
    }
}

} // verus!
