use vstd::prelude::*;

pub mod aio;
pub mod events;
pub mod feed;
mod text;

use crate::text::push_char;
use crate::text::push_text;
use crate::events::fetches;

verus! {

/// Quote prices are held in millionths of a currency unit, and `percent` in millionths
/// of one (a change of 1.23% is 0.0123, held as 12300).
pub const QUOTE_SCALE: i64 = 1000000;

/// One tracked instrument and its last known quote.
pub struct Stock {
    pub title: String,
    pub code: String,
    pub price: i64,
    pub percent: i64,
    pub open: i64,
    pub yestclose: i64,
    pub high: i64,
    pub low: i64,
}

impl Stock {
    /// All quote numbers are still zero.
    pub open spec fn has_default_quote(self) -> bool {
        &&& self.price == 0
        &&& self.percent == 0
        &&& self.open == 0
        &&& self.yestclose == 0
        &&& self.high == 0
        &&& self.low == 0
    }

    /// A record as it is created for `code`: titled by its code, quote at zero.
    pub open spec fn is_fresh_for(self, code: Seq<char>) -> bool {
        &&& self.code@ == code
        &&& self.title@ == code
        &&& self.has_default_quote()
    }

    pub fn new(code: &String) -> (r: Stock)
        ensures
            r.is_fresh_for(code@),
    {
        Stock {
            code: code.clone(),
            title: code.clone(),
            price: 0,
            percent: 0,
            open: 0,
            yestclose: 0,
            high: 0,
            low: 0,
        }
    }
}

/// The two input modes of the dashboard.
#[derive(PartialEq, Eq, Structural, Clone, Copy, Debug)]
pub enum AppState {
    Normal,
    Adding,
}

/// The stock file is a JSON object whose one field, under this key, lists the records...
pub const STOCK_LIST_KEY: &'static str = "stocks";

/// ...each an object holding only its code, under this key.
pub const STOCK_CODE_KEY: &'static str = "code";

/// The JSON text of the object `{list_key: [{code_key: c}, ..]}` with the codes `codes`
/// in order.
pub uninterp spec fn stock_file_text(
    list_key: Seq<char>,
    code_key: Seq<char>,
    codes: Seq<Seq<char>>,
) -> Seq<char>;

/// Relies on `serde_json::to_string`, which writes the object `{list_key: [{code_key: c},
/// ..]}`; its text depends on the keys and the codes alone, and for string keys and values
/// it does not fail.
#[verifier::external_body]
fn to_stock_file(list_key: &str, code_key: &str, codes: &Vec<String>) -> (r: String)
    ensures
        r@ == stock_file_text(list_key@, code_key@, codes@.map_values(|c: String| c@)),
{
    let entries: Vec<std::collections::BTreeMap<&str, &String>> = codes.iter().map(
        |c| std::collections::BTreeMap::from([(code_key, c)]),
    ).collect();
    serde_json::to_string(&std::collections::BTreeMap::from([(list_key, entries)]))
        .unwrap_or_default()
}

/// The comma-joined codes of `stocks`, in list order.
pub open spec fn joined_codes(stocks: Seq<Stock>) -> Seq<char>
    decreases stocks.len(),
{
    if stocks.len() == 0 {
        Seq::empty()
    } else if stocks.len() == 1 {
        stocks[0].code@
    } else {
        joined_codes(stocks.drop_last()) + seq![','] + stocks.last().code@
    }
}

/// The codes of `stocks`, in list order.
pub open spec fn codes_of(stocks: Seq<Stock>) -> Seq<Seq<char>> {
    stocks.map_values(|s: Stock| s.code@)
}

/// `b` is `a` with the items at `i` and `j` exchanged.
pub open spec fn swapped<T>(a: Seq<T>, i: int, j: int) -> Seq<T> {
    a.update(i, a[j]).update(j, a[i])
}

/// The cursor after one step up on a list of `n` rows.
pub open spec fn cursor_up(sel: Option<usize>, n: nat) -> Option<usize> {
    if n == 0 {
        sel
    } else {
        let c: int = match sel {
            Some(s) => s as int,
            None => 0,
        };
        let up: int = if c > 0 { c - 1 } else { 0 };
        Some((if up < n { up } else { n - 1 }) as usize)
    }
}

/// The cursor after one step down on a list of `n` rows.
pub open spec fn cursor_down(sel: Option<usize>, n: nat) -> Option<usize> {
    if n == 0 {
        sel
    } else {
        let c: int = match sel {
            Some(s) => s as int,
            None => 0,
        };
        Some((if c < n - 1 { c + 1 } else { n - 1 }) as usize)
    }
}

/// A step down from the last row stays there, a step up from the first row stays there,
/// and no step leaves a non-empty list of `n` rows.
pub proof fn lemma_cursor_stays_on_list(sel: Option<usize>, n: nat)
    requires
        0 < n <= usize::MAX,
    ensures
        cursor_down(Some((n - 1) as usize), n) == Some((n - 1) as usize),
        cursor_up(Some(0), n) == Some(0usize),
        cursor_down(sel, n) matches Some(c) && c < n,
        cursor_up(sel, n) matches Some(c) && c < n,
{
}

/// The state of the dashboard: the watch list, the cursor and the input mode.
pub struct App {
    pub should_exit: bool,
    pub state: AppState,
    /// The outcome of the last refresh; empty when it succeeded.
    pub error: String,
    /// The code being typed; meaningful only in `AppState::Adding`.
    pub input: String,
    pub stocks: Vec<Stock>,
    /// The highlighted row of the list, if any.
    pub selected: Option<usize>,
    /// When the last successful refresh completed, in seconds since the Unix epoch.
    pub last_refresh: i64,
    pub tick_count: u128,
}

impl App {
    /// The cursor is either absent or on a row of the list.
    pub open spec fn wf(self) -> bool {
        self.selected matches Some(s) ==> s < self.stocks@.len()
    }

    /// The cursor is on a row of the list.
    pub open spec fn has_valid_selection(self) -> bool {
        self.selected matches Some(s) && s < self.stocks@.len()
    }

    /// The cursor position, counting no cursor as the first row.
    pub open spec fn cursor(self) -> int {
        match self.selected {
            Some(s) => s as int,
            None => 0,
        }
    }

    /// Everything but the list and the cursor is as in `other`.
    pub open spec fn same_ui(self, other: App) -> bool {
        &&& self.should_exit == other.should_exit
        &&& self.state == other.state
        &&& self.error == other.error
        &&& self.input == other.input
        &&& self.last_refresh == other.last_refresh
        &&& self.tick_count == other.tick_count
    }

    /// A dashboard in normal mode tracking `codes`, in that order, with no quotes yet.
    pub fn new(codes: &Vec<String>, now: i64) -> (r: (App, Option<String>))
        ensures
            r.0.wf(),
            r.0.state == AppState::Normal,
            !r.0.should_exit,
            r.0.error@.len() == 0,
            r.0.input@.len() == 0,
            r.0.selected is None,
            r.0.last_refresh == now,
            r.0.tick_count == 0,
            codes_of(r.0.stocks@) == codes@.map_values(|c: String| c@),
            forall|i: int|
                0 <= i < r.0.stocks@.len() ==> r.0.stocks@[i].is_fresh_for(codes@[i]@),
            fetches(r.1, r.0.stocks@),
    {
        let mut app = App {
            should_exit: false,
            state: AppState::Normal,
            error: String::new(),
            input: String::new(),
            stocks: Vec::new(),
            selected: None,
            last_refresh: now,
            tick_count: 0,
        };
        app.load_stocks(codes);
        let first = app.refresh_stocks();
        (app, first)
    }

    /// Replaces the list by fresh records for `codes`, in that order. The cursor is left
    /// as it was.
    pub fn load_stocks(&mut self, codes: &Vec<String>)
        ensures
            old(self).selected is None || old(self).selected->Some_0 < codes@.len()
                ==> final(self).wf(),
            final(self).same_ui(*old(self)),
            final(self).selected == old(self).selected,
            final(self).stocks@.len() == codes@.len(),
            codes_of(final(self).stocks@) == codes@.map_values(|c: String| c@),
            forall|i: int|
                0 <= i < final(self).stocks@.len() ==> final(self).stocks@[i].is_fresh_for(
                    codes@[i]@,
                ),
    {
        self.stocks.clear();
        let mut k: usize = 0;
        while k < codes.len()
            invariant
                k <= codes@.len(),
                self.same_ui(*old(self)),
                self.selected == old(self).selected,
                self.stocks@.len() == k,
                forall|i: int| 0 <= i < k ==> self.stocks@[i].is_fresh_for(codes@[i]@),
            decreases codes@.len() - k,
        {
            let s = Stock::new(&codes[k]);
            self.stocks.push(s);
            k += 1;
        }
        assert(codes_of(self.stocks@) =~= codes@.map_values(|c: String| c@));
    }

    /// The codes of the list, in order: what is persisted.
    pub fn stock_codes(&self) -> (r: Vec<String>)
        ensures
            r@.map_values(|c: String| c@) == codes_of(self.stocks@),
    {
        let mut r: Vec<String> = Vec::new();
        let mut k: usize = 0;
        while k < self.stocks.len()
            invariant
                k <= self.stocks@.len(),
                r@.len() == k,
                forall|i: int| 0 <= i < k ==> r@[i]@ == self.stocks@[i].code@,
            decreases self.stocks@.len() - k,
        {
            r.push(self.stocks[k].code.clone());
            k += 1;
        }
        assert(r@.map_values(|c: String| c@) =~= codes_of(self.stocks@));
        r
    }

    /// The text to persist for the list: its codes, in order, in the stock file format.
    pub fn save_stocks(&self) -> (r: String)
        ensures
            r@ == stock_file_text(STOCK_LIST_KEY@, STOCK_CODE_KEY@, codes_of(self.stocks@)),
    {
        let codes = self.stock_codes();
        to_stock_file(STOCK_LIST_KEY, STOCK_CODE_KEY, &codes)
    }

    /// The codes of the list joined by commas, in list order.
    pub fn get_codes(&self) -> (r: String)
        ensures
            r@ == joined_codes(self.stocks@),
    {
        let mut r = String::new();
        let mut k: usize = 0;
        while k < self.stocks.len()
            invariant
                k <= self.stocks@.len(),
                r@ == joined_codes(self.stocks@.subrange(0, k as int)),
            decreases self.stocks@.len() - k,
        {
            let ghost before = self.stocks@.subrange(0, k as int);
            if k > 0 {
                push_char(&mut r, ',');
            }
            push_text(&mut r, self.stocks[k].code.as_str());
            proof {
                let after = self.stocks@.subrange(0, k + 1);
                assert(after.drop_last() =~= before);
                assert(r@ =~= joined_codes(after));
            }
            k += 1;
        }
        assert(self.stocks@.subrange(0, self.stocks@.len() as int) =~= self.stocks@);
        r
    }

    /// Appends a fresh record for `code`; duplicates are tracked independently.
    pub fn add_stock(&mut self, code: &String)
        ensures
            old(self).wf() ==> final(self).wf(),
            final(self).same_ui(*old(self)),
            final(self).selected == old(self).selected,
            final(self).stocks@.len() == old(self).stocks@.len() + 1,
            final(self).stocks@.drop_last() == old(self).stocks@,
            final(self).stocks@.last().is_fresh_for(code@),
    {
        let s = Stock::new(code);
        self.stocks.push(s);
        assert(self.stocks@.drop_last() =~= old(self).stocks@);
    }

    /// Removes the record under the cursor and drops the cursor. Returns whether the
    /// list changed; without a cursor on a row nothing changes.
    pub fn delete_selected(&mut self) -> (r: bool)
        ensures
            r == old(self).has_valid_selection(),
            !r ==> *final(self) == *old(self),
            r ==> final(self).same_ui(*old(self)),
            r ==> final(self).selected is None,
            r ==> final(self).stocks@ == old(self).stocks@.remove(old(self).selected->Some_0 as int),
            final(self).wf() || !old(self).wf(),
    {
        match self.selected {
            Some(sel) => {
                if sel < self.stocks.len() {
                    self.stocks.remove(sel);
                    self.selected = None;
                    true
                } else {
                    false
                }
            },
            None => false,
        }
    }

    /// Swaps the record under the cursor with the one above it, and moves the cursor
    /// with it. Returns whether the list changed; on the first row, or without a cursor
    /// on a row, nothing changes.
    pub fn move_selected_up(&mut self) -> (r: bool)
        ensures
            r == (old(self).has_valid_selection() && old(self).selected->Some_0 > 0),
            !r ==> *final(self) == *old(self),
            r ==> final(self).same_ui(*old(self)),
            r ==> final(self).selected == Some((old(self).selected->Some_0 - 1) as usize),
            r ==> final(self).stocks@ == swapped(
                old(self).stocks@,
                old(self).selected->Some_0 as int,
                old(self).selected->Some_0 - 1,
            ),
            final(self).wf() || !old(self).wf(),
    {
        match self.selected {
            Some(sel) => {
                if sel < self.stocks.len() && sel > 0 {
                    let s = self.stocks.remove(sel);
                    self.stocks.insert(sel - 1, s);
                    self.selected = Some(sel - 1);
                    assert(self.stocks@ =~= swapped(old(self).stocks@, sel as int, sel - 1));
                    true
                } else {
                    false
                }
            },
            None => false,
        }
    }

    /// Swaps the record under the cursor with the one below it, and moves the cursor
    /// with it. Returns whether the list changed; on the last row, or without a cursor
    /// on a row, nothing changes.
    pub fn move_selected_down(&mut self) -> (r: bool)
        ensures
            r == (old(self).has_valid_selection() && old(self).selected->Some_0 + 1
                < old(self).stocks@.len()),
            !r ==> *final(self) == *old(self),
            r ==> final(self).same_ui(*old(self)),
            r ==> final(self).selected == Some((old(self).selected->Some_0 + 1) as usize),
            r ==> final(self).stocks@ == swapped(
                old(self).stocks@,
                old(self).selected->Some_0 as int,
                old(self).selected->Some_0 + 1,
            ),
            final(self).wf() || !old(self).wf(),
    {
        match self.selected {
            Some(sel) => {
                if sel < self.stocks.len() && sel + 1 < self.stocks.len() {
                    let s = self.stocks.remove(sel);
                    self.stocks.insert(sel + 1, s);
                    self.selected = Some(sel + 1);
                    assert(self.stocks@ =~= swapped(old(self).stocks@, sel as int, sel + 1));
                    true
                } else {
                    false
                }
            },
            None => false,
        }
    }

    /// Moves the cursor one row up, staying on the list; no cursor counts as the first
    /// row. Nothing changes on an empty list.
    pub fn move_selection_up(&mut self)
        ensures
            final(self).selected == cursor_up(old(self).selected, old(self).stocks@.len()),
            final(self).stocks == old(self).stocks,
            final(self).same_ui(*old(self)),
            old(self).wf() || old(self).stocks@.len() > 0 ==> final(self).wf(),
    {
        let n = self.stocks.len();
        if n > 0 {
            let sel = match self.selected {
                Some(s) => s,
                None => 0,
            };
            let up = if sel > 0 { sel - 1 } else { 0 };
            self.selected = Some(if up < n { up } else { n - 1 });
        }
    }

    /// Moves the cursor one row down, staying on the list; no cursor counts as the first
    /// row. Nothing changes on an empty list.
    pub fn move_selection_down(&mut self)
        ensures
            final(self).selected == cursor_down(old(self).selected, old(self).stocks@.len()),
            final(self).stocks == old(self).stocks,
            final(self).same_ui(*old(self)),
            old(self).wf() || old(self).stocks@.len() > 0 ==> final(self).wf(),
    {
        let n = self.stocks.len();
        if n > 0 {
            let sel = match self.selected {
                Some(s) => s,
                None => 0,
            };
            self.selected = Some(if sel < n - 1 { sel + 1 } else { n - 1 });
        }
    }

    /// Puts the cursor on row `index` of the list; an index past the end is ignored.
    pub fn select_by_position(&mut self, index: usize)
        ensures
            index < old(self).stocks@.len() ==> final(self).selected == Some(index),
            index >= old(self).stocks@.len() ==> final(self).selected == old(self).selected,
            final(self).stocks == old(self).stocks,
            final(self).same_ui(*old(self)),
            old(self).wf() ==> final(self).wf(),
    {
        if index < self.stocks.len() {
            self.selected = Some(index);
        }
    }

    /// The codes to fetch quotes for, or `None` when the list is empty and there is
    /// nothing to fetch.
    pub fn refresh_stocks(&self) -> (r: Option<String>)
        ensures
            self.stocks@.len() == 0 ==> r is None,
            self.stocks@.len() > 0 ==> (r matches Some(c) && c@ == joined_codes(self.stocks@)),
    {
        if self.stocks.len() > 0 {
            Some(self.get_codes())
        } else {
            None
        }
    }
}

} // verus!
