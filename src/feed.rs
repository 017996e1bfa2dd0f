use vstd::prelude::*;

use crate::App;
use crate::Stock;

verus! {

/// The quote feed wraps its JSON object in a JavaScript call: this text before it...
pub const FEED_PREFIX: &'static str = "_ntes_quote_callback(";

/// ...and this text after it.
pub const FEED_SUFFIX: &'static str = ");";

/// What `error` holds after a response that is not a quote object.
pub const SERVER_ERROR: &'static str = "Server Returns Errors";

pub open spec fn feed_prefix() -> Seq<char> {
    seq!['_', 'n', 't', 'e', 's', '_', 'q', 'u', 'o', 't', 'e', '_', 'c', 'a', 'l', 'l', 'b', 'a', 'c', 'k', '(']
}

pub open spec fn feed_suffix() -> Seq<char> {
    seq![')', ';']
}

/// The JSON text inside a feed response, or `None` when the body is not wrapped as
/// the feed wraps it.
pub open spec fn payload_of(body: Seq<char>) -> Option<Seq<char>> {
    let p = feed_prefix();
    let q = feed_suffix();
    if body.len() >= p.len() + q.len() && body.subrange(0, p.len() as int) == p
        && body.subrange(body.len() - q.len(), body.len() as int) == q {
        Some(body.subrange(p.len() as int, body.len() - q.len()))
    } else {
        None
    }
}

/// The quote that the feed reported for one code.
pub struct QuoteEntry {
    pub code: String,
    /// The display name, when the feed gave one.
    pub name: Option<String>,
    pub price: i64,
    pub percent: i64,
    pub open: i64,
    pub yestclose: i64,
    pub high: i64,
    pub low: i64,
}

/// How one refresh ended.
pub enum FetchOutcome {
    /// The request itself failed; the text says why.
    Failed(String),
    /// The response was not a quote object.
    Malformed,
    /// The quotes that the response held.
    Quotes(Vec<QuoteEntry>),
}

/// `j` is the first entry for `code`.
pub open spec fn is_first_match(entries: Seq<QuoteEntry>, code: Seq<char>, j: int) -> bool {
    &&& 0 <= j < entries.len()
    &&& entries[j].code@ == code
    &&& forall|k: int| 0 <= k < j ==> entries[k].code@ != code
}

/// No entry is for `code`.
pub open spec fn lacks(entries: Seq<QuoteEntry>, code: Seq<char>) -> bool {
    forall|k: int| 0 <= k < entries.len() ==> entries[k].code@ != code
}

/// `new` is `old` with its title and all quote numbers taken from `e`; without a name
/// in `e` the title is the code.
pub open spec fn takes_quote(new: Stock, old: Stock, e: QuoteEntry) -> bool {
    &&& new.code == old.code
    &&& new.title@ == match e.name {
        Some(n) => n@,
        None => old.code@,
    }
    &&& new.price == e.price
    &&& new.percent == e.percent
    &&& new.open == e.open
    &&& new.yestclose == e.yestclose
    &&& new.high == e.high
    &&& new.low == e.low
}

/// `new` is `old` after a response holding `entries`: each record whose code the
/// response holds takes the first entry for it, and every other record is unchanged.
pub open spec fn quotes_applied(new: Seq<Stock>, old: Seq<Stock>, entries: Seq<QuoteEntry>) -> bool {
    &&& new.len() == old.len()
    &&& forall|i: int| #![auto]
        0 <= i < old.len() && lacks(entries, old[i].code@) ==> new[i] == old[i]
    &&& forall|i: int, j: int|
        0 <= i < old.len() && is_first_match(entries, old[i].code@, j) ==> takes_quote(
            new[i],
            old[i],
            entries[j],
        )
}

/// `s` begins with `p`.
pub open spec fn begins_with(s: Seq<char>, p: Seq<char>) -> bool {
    p.len() <= s.len() && s.subrange(0, p.len() as int) == p
}

/// `s` ends with `p`.
pub open spec fn ends_with(s: Seq<char>, p: Seq<char>) -> bool {
    p.len() <= s.len() && s.subrange(s.len() - p.len(), s.len() as int) == p
}

/// Relies on `str::strip_prefix`: what follows `p`, exactly when `s` begins with `p`.
#[verifier::external_body]
fn strip_prefix<'a>(s: &'a str, p: &str) -> (r: Option<&'a str>)
    ensures
        r is Some <==> begins_with(s@, p@),
        r matches Some(t) ==> t@ == s@.subrange(p@.len() as int, s@.len() as int),
{
    s.strip_prefix(p)
}

/// Relies on `str::strip_suffix`: what comes before `p`, exactly when `s` ends with `p`.
#[verifier::external_body]
fn strip_suffix<'a>(s: &'a str, p: &str) -> (r: Option<&'a str>)
    ensures
        r is Some <==> ends_with(s@, p@),
        r matches Some(t) ==> t@ == s@.subrange(0, s@.len() - p@.len()),
{
    s.strip_suffix(p)
}

/// The JSON text inside a feed response body, or `None` when the body is not wrapped
/// as the feed wraps it.
pub fn unwrap_feed(body: &str) -> (r: Option<String>)
    ensures
        r matches Some(t) ==> payload_of(body@) == Some(t@),
        r is None ==> payload_of(body@) is None,
{
    proof {
        reveal_strlit("_ntes_quote_callback(");
        reveal_strlit(");");
        assert(FEED_PREFIX@ == feed_prefix());
        assert(FEED_SUFFIX@ == feed_suffix());
    }
    match strip_prefix(body, FEED_PREFIX) {
        Some(rest) => match strip_suffix(rest, FEED_SUFFIX) {
            Some(inner) => {
                assert(rest@.subrange(rest@.len() - 2, rest@.len() as int)
                    =~= body@.subrange(body@.len() - 2, body@.len() as int));
                assert(inner@ =~= body@.subrange(21, body@.len() - 2));
                Some(inner.to_owned())
            },
            None => {
                assert(payload_of(body@) is None) by {
                    if body@.len() >= 23 {
                        assert(rest@.subrange(rest@.len() - 2, rest@.len() as int)
                            =~= body@.subrange(body@.len() - 2, body@.len() as int));
                    }
                }
                None
            },
        },
        None => None,
    }
}

/// The index of the first entry for `code`, if there is one.
fn find_entry(entries: &Vec<QuoteEntry>, code: &String) -> (r: Option<usize>)
    ensures
        r matches Some(j) ==> is_first_match(entries@, code@, j as int),
        r is None ==> lacks(entries@, code@),
{
    let mut k: usize = 0;
    while k < entries.len()
        invariant
            k <= entries@.len(),
            forall|m: int| 0 <= m < k ==> entries@[m].code@ != code@,
        decreases entries@.len() - k,
    {
        if entries[k].code == *code {
            return Some(k);
        }
        k += 1;
    }
    None
}

/// Writes the quotes of a response into the records whose codes it holds; records
/// that it does not mention keep their previous quote.
pub fn apply_quotes(stocks: &mut Vec<Stock>, entries: &Vec<QuoteEntry>)
    ensures
        quotes_applied(final(stocks)@, old(stocks)@, entries@),
{
    let mut k: usize = 0;
    while k < stocks.len()
        invariant
            k <= stocks@.len(),
            stocks@.len() == old(stocks)@.len(),
            forall|i: int| #![auto] k <= i < stocks@.len() ==> stocks@[i] == old(stocks)@[i],
            forall|i: int| #![auto]
                0 <= i < k && lacks(entries@, old(stocks)@[i].code@) ==> stocks@[i] == old(
                    stocks,
                )@[i],
            forall|i: int, j: int|
                0 <= i < k && is_first_match(entries@, old(stocks)@[i].code@, j) ==> takes_quote(
                    stocks@[i],
                    old(stocks)@[i],
                    entries@[j],
                ),
        decreases stocks@.len() - k,
    {
        match find_entry(entries, &stocks[k].code) {
            Some(j) => {
                let e = &entries[j];
                let title = match &e.name {
                    Some(n) => n.clone(),
                    None => stocks[k].code.clone(),
                };
                let code = stocks[k].code.clone();
                let updated = Stock {
                    title,
                    code,
                    price: e.price,
                    percent: e.percent,
                    open: e.open,
                    yestclose: e.yestclose,
                    high: e.high,
                    low: e.low,
                };
                stocks.set(k, updated);
                assert forall|jj: int| is_first_match(entries@, old(stocks)@[k as int].code@, jj)
                    implies jj == j by {
                    if jj < j {
                        assert(entries@[jj].code@ != old(stocks)@[k as int].code@);
                    } else if jj > j {
                        assert(entries@[j as int].code@ != old(stocks)@[k as int].code@);
                    }
                }
            },
            None => {},
        }
        k += 1;
    }
}

impl App {
    /// Records how a refresh ended. A failure leaves every record as it was and says why
    /// in `error`; a response with quotes is written into the list, clears `error` and
    /// stamps `last_refresh` with `now`.
    pub fn finish_refresh(&mut self, outcome: FetchOutcome, now: i64)
        ensures
            old(self).wf() ==> final(self).wf(),
            final(self).selected == old(self).selected,
            final(self).state == old(self).state,
            final(self).input == old(self).input,
            final(self).should_exit == old(self).should_exit,
            final(self).tick_count == old(self).tick_count,
            match outcome {
                FetchOutcome::Failed(why) => {
                    &&& final(self).error == why
                    &&& final(self).stocks == old(self).stocks
                    &&& final(self).last_refresh == old(self).last_refresh
                },
                FetchOutcome::Malformed => {
                    &&& final(self).error@ == SERVER_ERROR@
                    &&& final(self).error@.len() > 0
                    &&& final(self).stocks == old(self).stocks
                    &&& final(self).last_refresh == old(self).last_refresh
                },
                FetchOutcome::Quotes(entries) => {
                    &&& final(self).error@.len() == 0
                    &&& quotes_applied(final(self).stocks@, old(self).stocks@, entries@)
                    &&& final(self).last_refresh == now
                },
            },
    {
        match outcome {
            FetchOutcome::Failed(why) => {
                self.error = why;
            },
            FetchOutcome::Malformed => {
                proof {
                    reveal_strlit("Server Returns Errors");
                }
                self.error = SERVER_ERROR.to_owned();
            },
            FetchOutcome::Quotes(entries) => {
                apply_quotes(&mut self.stocks, &entries);
                self.error = String::new();
                self.last_refresh = now;
            },
        }
    }
}

} // verus!
