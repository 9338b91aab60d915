//! What a report page can load: nothing. No `<link`, `<img` or `<iframe` tag occurs in any
//! report, and no `src` or `href` attribute holds a quoted `http` address; the page opens its
//! own style sheet once and its own script once, and closes the script once.
//!
//! The properties are checked piece by piece: a piece is sealed when every `<` in it is
//! already seen not to start one of those tags, and every quote in it is already seen not to
//! follow `src=` or `href=` and precede `http`, within the piece itself. Sealing survives
//! concatenation, escaped text and numerals are sealed, and so is every fixed piece of the
//! page but the three tags that open the style sheet, open the script and close it.

use crate::model::{AuditModel, EventKindModel, EventModel, Members, SessionModel, SourcesModel};
use crate::render::{
    caused_html, claimed_html, counts_html, dash_note, detail_html, dropped_html, event_html,
    event_open_html, events_html, field_item_html, field_items_html, filters_html, helper_detail,
    meta_html, option_html, options_html, report_html, report_middle, request_detail,
    response_detail, row_html, session_html, source_item_html, sources_html, timeline_html,
    unknown_detail, CSS, DECISION_FILTER, JS, PAGE_HEAD, PAGE_HEADER, PAGE_TAIL, SCRIPT_OPEN,
    STYLE_CLOSE, STYLE_OPEN,
};
use crate::text::{decimal, digit, escape, law_escape_leaves_no_tag_or_quote};
use vstd::prelude::*;

verus! {

/// `s` holds, at `j + k`, a character other than `p[k]`.
pub open spec fn differs_at(s: Seq<char>, j: int, p: Seq<char>, k: int) -> bool {
    0 <= k < p.len() && 0 <= j + k < s.len() && s[j + k] != p[k]
}

/// Within `s`, what follows from `j` on already differs from `p` (at most seven characters
/// long): no occurrence of `p` starts at `j`, whatever follows `s`.
pub open spec fn cut_short(s: Seq<char>, j: int, p: Seq<char>) -> bool {
    ||| differs_at(s, j, p, 0)
    ||| differs_at(s, j, p, 1)
    ||| differs_at(s, j, p, 2)
    ||| differs_at(s, j, p, 3)
    ||| differs_at(s, j, p, 4)
    ||| differs_at(s, j, p, 5)
    ||| differs_at(s, j, p, 6)
}

/// Within `s`, what comes before `j` already differs from `p`'s end (`p` at most five
/// characters long): no occurrence of `p` ends just before `j`.
pub open spec fn cut_short_before(s: Seq<char>, j: int, p: Seq<char>) -> bool {
    ||| differs_at(s, j - p.len(), p, p.len() - 1)
    ||| differs_at(s, j - p.len(), p, p.len() - 2)
    ||| differs_at(s, j - p.len(), p, p.len() - 3)
    ||| differs_at(s, j - p.len(), p, p.len() - 4)
    ||| differs_at(s, j - p.len(), p, p.len() - 5)
}

/// A double or single quote.
pub open spec fn is_quote(c: char) -> bool {
    c == '"' || c == '\''
}

/// No loading tag, and no tag that opens a script or a style sheet or closes a script, starts
/// at the `<` at `j`.
pub open spec fn tag_cut_short(s: Seq<char>, j: int) -> bool {
    &&& cut_short(s, j, "<link"@)
    &&& cut_short(s, j, "<img"@)
    &&& cut_short(s, j, "<iframe"@)
    &&& cut_short(s, j, "<script"@)
    &&& cut_short(s, j, "</script"@)
    &&& cut_short(s, j, "<style"@)
}

/// The quote at `j` neither opens an `http` address nor closes `src=` or `href=`.
pub open spec fn quote_cut_short(s: Seq<char>, j: int) -> bool {
    ||| cut_short(s, j + 1, "http"@)
    ||| (cut_short_before(s, j, "href="@) && cut_short_before(s, j, "src="@))
}

/// No `<` in `s` starts `p`, whatever follows `s`.
#[verifier::opaque]
pub open spec fn no_start(s: Seq<char>, p: Seq<char>) -> bool {
    forall|j: int| 0 <= j < s.len() && #[trigger] s[j] == '<' ==> cut_short(s, j, p)
}

/// No quote in `s` opens a remote address of a `src` or `href` attribute, whatever surrounds
/// `s`.
#[verifier::opaque]
pub open spec fn quotes_safe(s: Seq<char>) -> bool {
    forall|j: int| 0 <= j < s.len() && is_quote(#[trigger] s[j]) ==> quote_cut_short(s, j)
}

/// A piece of page that cannot, whatever surrounds it, start a loading tag or a quoted
/// remote address.
pub open spec fn loads_nothing(s: Seq<char>) -> bool {
    &&& no_start(s, "<link"@)
    &&& no_start(s, "<img"@)
    &&& no_start(s, "<iframe"@)
    &&& quotes_safe(s)
}

/// A piece of page that loads nothing and cannot, whatever surrounds it, open a script or a
/// style sheet or close a script.
pub open spec fn sealed(s: Seq<char>) -> bool {
    &&& loads_nothing(s)
    &&& no_start(s, "<script"@)
    &&& no_start(s, "</script"@)
    &&& no_start(s, "<style"@)
}

/// `p` occurs in `s` at `j`.
pub open spec fn occurs_at(s: Seq<char>, j: int, p: Seq<char>) -> bool {
    0 <= j && j + p.len() <= s.len() && s.subrange(j, j + p.len()) == p
}

/// The `<` or quote at `i`, if there is one, is seen harmless within `s`.
pub open spec fn harmless_at(s: Seq<char>, i: int) -> bool {
    &&& (s[i] == '<' ==> tag_cut_short(s, i))
    &&& (is_quote(s[i]) ==> quote_cut_short(s, i))
}

/// Every `<` and every quote among the `n` characters of `s` from `i` on is seen harmless.
pub open spec fn harmless_range(s: Seq<char>, i: int, n: nat) -> bool
    decreases n,
{
    if n == 0 {
        true
    } else {
        harmless_at(s, i) && harmless_range(s, i + 1, (n - 1) as nat)
    }
}

/// No `<` among the `n` characters of `s` from `i` on starts `p` within `s`.
pub open spec fn cut_range(s: Seq<char>, i: int, n: nat, p: Seq<char>) -> bool
    decreases n,
{
    if n == 0 {
        true
    } else {
        (s[i] == '<' ==> cut_short(s, i, p)) && cut_range(s, i + 1, (n - 1) as nat, p)
    }
}

/// None of the `n` characters of `s` from `i` on is a quote.
pub open spec fn unquoted_range(s: Seq<char>, i: int, n: nat) -> bool
    decreases n,
{
    if n == 0 {
        true
    } else {
        !is_quote(s[i]) && unquoted_range(s, i + 1, (n - 1) as nat)
    }
}

proof fn lemma_cut_range_at(s: Seq<char>, i: int, n: nat, p: Seq<char>, j: int)
    requires
        cut_range(s, i, n, p),
        i <= j < i + n,
    ensures
        s[j] == '<' ==> cut_short(s, j, p),
    decreases n,
{
    if j > i {
        lemma_cut_range_at(s, i + 1, (n - 1) as nat, p, j);
    }
}

proof fn lemma_unquoted_range_at(s: Seq<char>, i: int, n: nat, j: int)
    requires
        unquoted_range(s, i, n),
        i <= j < i + n,
    ensures
        !is_quote(s[j]),
    decreases n,
{
    if j > i {
        lemma_unquoted_range_at(s, i + 1, (n - 1) as nat, j);
    }
}

proof fn lemma_cut_range_no_start(s: Seq<char>, p: Seq<char>)
    requires
        cut_range(s, 0, s.len(), p),
    ensures
        no_start(s, p),
{
    reveal(no_start);
    assert forall|j: int| 0 <= j < s.len() && #[trigger] s[j] == '<' implies cut_short(s, j, p) by {
        lemma_cut_range_at(s, 0, s.len(), p, j);
    }
}

proof fn lemma_unquoted_quotes_safe(s: Seq<char>)
    requires
        unquoted_range(s, 0, s.len()),
    ensures
        quotes_safe(s),
{
    reveal(quotes_safe);
    assert forall|j: int| 0 <= j < s.len() && is_quote(#[trigger] s[j]) implies quote_cut_short(
        s,
        j,
    ) by {
        lemma_unquoted_range_at(s, 0, s.len(), j);
    }
}

/// Neither a `<` nor a quote.
pub open spec fn plain(c: char) -> bool {
    c != '<' && !is_quote(c)
}

/// None of the `n` characters of `s` from `i` on is a `<` or a quote.
pub open spec fn plain_range(s: Seq<char>, i: int, n: nat) -> bool
    decreases n,
{
    if n == 0 {
        true
    } else {
        plain(s[i]) && plain_range(s, i + 1, (n - 1) as nat)
    }
}

proof fn lemma_plain_harmless(s: Seq<char>, i: int, n: nat)
    requires
        plain_range(s, i, n),
    ensures
        harmless_range(s, i, n),
    decreases n,
{
    if n > 0 {
        lemma_plain_harmless(s, i + 1, (n - 1) as nat);
    }
}

proof fn lemma_harmless_one(s: Seq<char>, i: int)
    requires
        harmless_at(s, i),
    ensures
        harmless_range(s, i, 1),
{
    assert(harmless_range(s, i, 1)) by {
        reveal_with_fuel(harmless_range, 2);
    }
}

proof fn lemma_harmless_range_at(s: Seq<char>, i: int, n: nat, j: int)
    requires
        harmless_range(s, i, n),
        i <= j < i + n,
    ensures
        harmless_at(s, j),
    decreases n,
{
    if j > i {
        lemma_harmless_range_at(s, i + 1, (n - 1) as nat, j);
    }
}

proof fn lemma_harmless_range_join(s: Seq<char>, i: int, a: nat, b: nat)
    requires
        harmless_range(s, i, a),
        harmless_range(s, i + a, b),
    ensures
        harmless_range(s, i, a + b),
    decreases a,
{
    if a > 0 {
        lemma_harmless_range_join(s, i + 1, (a - 1) as nat, b);
    }
}

proof fn lemma_harmless_sealed(s: Seq<char>)
    requires
        harmless_range(s, 0, s.len()),
    ensures
        sealed(s),
{
    reveal(no_start);
    reveal(quotes_safe);
    assert forall|j: int| 0 <= j < s.len() && #[trigger] s[j] == '<' implies tag_cut_short(s, j) by {
        lemma_harmless_range_at(s, 0, s.len(), j);
    }
    assert forall|j: int| 0 <= j < s.len() && is_quote(#[trigger] s[j]) implies quote_cut_short(
        s,
        j,
    ) by {
        lemma_harmless_range_at(s, 0, s.len(), j);
    }
}

proof fn lemma_differs_at_concat(a: Seq<char>, b: Seq<char>, j: int, p: Seq<char>, k: int)
    ensures
        differs_at(a, j, p, k) ==> differs_at(a + b, j, p, k),
        differs_at(b, j, p, k) ==> differs_at(a + b, a.len() + j, p, k),
{
}

proof fn lemma_cut_short_concat(a: Seq<char>, b: Seq<char>, j: int, p: Seq<char>)
    ensures
        cut_short(a, j, p) ==> cut_short(a + b, j, p),
        cut_short(b, j, p) ==> cut_short(a + b, a.len() + j, p),
        cut_short_before(a, j, p) ==> cut_short_before(a + b, j, p),
        cut_short_before(b, j, p) ==> cut_short_before(a + b, a.len() + j, p),
{
    lemma_differs_at_concat(a, b, j, p, 0);
    lemma_differs_at_concat(a, b, j, p, 1);
    lemma_differs_at_concat(a, b, j, p, 2);
    lemma_differs_at_concat(a, b, j, p, 3);
    lemma_differs_at_concat(a, b, j, p, 4);
    lemma_differs_at_concat(a, b, j, p, 5);
    lemma_differs_at_concat(a, b, j, p, 6);
    let i = j - p.len();
    lemma_differs_at_concat(a, b, i, p, p.len() - 1);
    lemma_differs_at_concat(a, b, i, p, p.len() - 2);
    lemma_differs_at_concat(a, b, i, p, p.len() - 3);
    lemma_differs_at_concat(a, b, i, p, p.len() - 4);
    lemma_differs_at_concat(a, b, i, p, p.len() - 5);
    assert(a.len() + j - p.len() == a.len() + i);
}

/// Pieces in which no `<` starts `p` make, put together, a text in which none does.
pub broadcast proof fn law_no_start_concat(a: Seq<char>, b: Seq<char>, p: Seq<char>)
    requires
        no_start(a, p),
        no_start(b, p),
    ensures
        #[trigger] no_start(a + b, p),
{
    reveal(no_start);
    let s = a + b;
    assert forall|j: int| 0 <= j < s.len() && #[trigger] s[j] == '<' implies cut_short(s, j, p) by {
        if j < a.len() {
            assert(a[j] == '<');
            lemma_cut_short_concat(a, b, j, p);
        } else {
            let k = j - a.len();
            assert(b[k] == '<');
            lemma_cut_short_concat(a, b, k, p);
        }
    }
}

/// Pieces whose quotes are safe make, put together, a text whose quotes are safe.
pub broadcast proof fn law_quotes_safe_concat(a: Seq<char>, b: Seq<char>)
    requires
        quotes_safe(a),
        quotes_safe(b),
    ensures
        #[trigger] quotes_safe(a + b),
{
    reveal(quotes_safe);
    let s = a + b;
    assert forall|j: int| 0 <= j < s.len() && is_quote(#[trigger] s[j]) implies quote_cut_short(
        s,
        j,
    ) by {
        if j < a.len() {
            assert(is_quote(a[j]));
            lemma_cut_short_concat(a, b, j + 1, "http"@);
            lemma_cut_short_concat(a, b, j, "href="@);
            lemma_cut_short_concat(a, b, j, "src="@);
        } else {
            let k = j - a.len();
            assert(is_quote(b[k]));
            lemma_cut_short_concat(a, b, k + 1, "http"@);
            lemma_cut_short_concat(a, b, k, "href="@);
            lemma_cut_short_concat(a, b, k, "src="@);
        }
    }
}

/// In escaped text no `<` starts anything.
pub broadcast proof fn lemma_escape_no_start(s: Seq<char>, p: Seq<char>)
    ensures
        #[trigger] no_start(escape(s), p),
{
    reveal(no_start);
    law_escape_leaves_no_tag_or_quote(s);
}

/// Escaped text holds no quote.
pub broadcast proof fn lemma_escape_quotes_safe(s: Seq<char>)
    ensures
        #[trigger] quotes_safe(escape(s)),
{
    reveal(quotes_safe);
    law_escape_leaves_no_tag_or_quote(s);
}

proof fn lemma_decimal_digits(n: nat)
    ensures
        forall|i: int| 0 <= i < decimal(n).len() ==> #[trigger] decimal(n)[i] != '<' && !is_quote(decimal(n)[i]),
    decreases n,
{
    if n >= 10 {
        lemma_decimal_digits(n / 10);
        let d = decimal(n / 10);
        assert(decimal(n) == d.push(digit((n % 10) as nat)));
        assert forall|i: int| 0 <= i < decimal(n).len() implies #[trigger] decimal(n)[i] != '<'
            && !is_quote(decimal(n)[i]) by {
            if i < d.len() {
                assert(decimal(n)[i] == d[i]);
            }
        }
    }
}

/// A numeral holds no `<`.
pub broadcast proof fn lemma_decimal_no_start(n: nat, p: Seq<char>)
    ensures
        #[trigger] no_start(decimal(n), p),
{
    reveal(no_start);
    lemma_decimal_digits(n);
}

/// A numeral holds no quote.
pub broadcast proof fn lemma_decimal_quotes_safe(n: nat)
    ensures
        #[trigger] quotes_safe(decimal(n)),
{
    reveal(quotes_safe);
    lemma_decimal_digits(n);
}

/// Nothing is sealed.
pub proof fn lemma_empty_sealed()
    ensures
        sealed(Seq::<char>::empty()),
{
    reveal(no_start);
    reveal(quotes_safe);
}

pub broadcast group group_sealed {
    law_no_start_concat,
    law_quotes_safe_concat,
    lemma_escape_no_start,
    lemma_escape_quotes_safe,
    lemma_decimal_no_start,
    lemma_decimal_quotes_safe,
}

/// The style sheet is sealed.
#[verifier::rlimit(100)]
proof fn lemma_style_sheet_sealed()
    ensures
        sealed(CSS@),
{
    reveal_strlit("<link");
    reveal_strlit("<img");
    reveal_strlit("<iframe");
    reveal_strlit("http");
    reveal_strlit("href=");
    reveal_strlit("src=");
    reveal_strlit("<script");
    reveal_strlit("</script");
    reveal_strlit("<style");
    reveal_strlit(r#"
:root {
  --bg: #f7f5f1;
  --ink: #1c1b19;
  --muted: #5c5852;
  --line: #d9d3c8;
  --host: #1f6b4a;
  --box: #8a5a12;
  --deny: #8b1e1e;
  --allow: #1f6b4a;
  --partial: #8a5a12;
  --unavailable: #8b1e1e;
}
* { box-sizing: border-box; }
body {
  margin: 0 auto;
  max-width: 52rem;
  padding: 1.5rem 1.25rem 3rem;
  font: 15px/1.45 "Segoe UI", system-ui, sans-serif;
  color: var(--ink);
  background: var(--bg);
}
h1 { font-size: 1.5rem; margin: 0 0 1rem; }
h2 { font-size: 1.1rem; margin: 1.75rem 0 0.75rem; }
.summary { display: grid; grid-template-columns: 9rem 1fr; gap: 0.35rem 1rem; margin: 0; }
.summary dt { color: var(--muted); }
.summary dd { margin: 0; word-break: break-word; }
.sources, .counts { list-style: none; padding: 0; margin: 0; }
.sources li, .counts li { padding: 0.25rem 0; }
.src-name { font-weight: 600; min-width: 6rem; display: inline-block; }
.avail { font-family: ui-monospace, monospace; font-size: 0.9em; }
.avail-read { color: var(--allow); }
.avail-empty { color: var(--muted); }
.avail-unavailable { color: var(--unavailable); font-weight: 600; }
.avail-partial { color: var(--partial); font-weight: 600; }
.dropped { color: var(--partial); }
.filter-bar { display: flex; flex-wrap: wrap; gap: 1rem; margin-bottom: 0.75rem; }
.timeline { list-style: none; padding: 0; margin: 0; border-top: 1px solid var(--line); }
.event { padding: 0.75rem 0; border-bottom: 1px solid var(--line); }
.meta { color: var(--muted); font-size: 0.85rem; display: flex; flex-wrap: wrap; gap: 0.4rem 0.65rem; }
.eid, .kind { font-family: ui-monospace, monospace; color: var(--ink); }
.lane-host { color: var(--host); font-weight: 600; }
.lane-box { color: var(--box); font-weight: 600; }
.detail { margin-top: 0.35rem; word-break: break-word; }
.badge { font-size: 0.8rem; font-weight: 700; text-transform: uppercase; }
.badge.allowed { color: var(--allow); }
.badge.denied { color: var(--deny); }
.decision-denied .detail { color: var(--deny); }
.initiator { color: var(--muted); font-size: 0.9em; }
.unknown-fields { margin: 0.35rem 0 0; padding-left: 1.2rem; }
"#);
    assert(plain_range(CSS@, 0, 50)) by {
        reveal_with_fuel(plain_range, 51);
    }
    lemma_plain_harmless(CSS@, 0, 50);
    assert(plain_range(CSS@, 50, 50)) by {
        reveal_with_fuel(plain_range, 51);
    }
    lemma_plain_harmless(CSS@, 50, 50);
    assert(plain_range(CSS@, 100, 50)) by {
        reveal_with_fuel(plain_range, 51);
    }
    lemma_plain_harmless(CSS@, 100, 50);
    assert(plain_range(CSS@, 150, 50)) by {
        reveal_with_fuel(plain_range, 51);
    }
    lemma_plain_harmless(CSS@, 150, 50);
    assert(plain_range(CSS@, 200, 50)) by {
        reveal_with_fuel(plain_range, 51);
    }
    lemma_plain_harmless(CSS@, 200, 50);
    assert(plain_range(CSS@, 250, 50)) by {
        reveal_with_fuel(plain_range, 51);
    }
    lemma_plain_harmless(CSS@, 250, 50);
    assert(plain_range(CSS@, 300, 34)) by {
        reveal_with_fuel(plain_range, 35);
    }
    lemma_plain_harmless(CSS@, 300, 34);
    lemma_harmless_one(CSS@, 334);
    assert(plain_range(CSS@, 335, 8)) by {
        reveal_with_fuel(plain_range, 9);
    }
    lemma_plain_harmless(CSS@, 335, 8);
    lemma_harmless_one(CSS@, 343);
    assert(plain_range(CSS@, 344, 50)) by {
        reveal_with_fuel(plain_range, 51);
    }
    lemma_plain_harmless(CSS@, 344, 50);
    assert(plain_range(CSS@, 394, 50)) by {
        reveal_with_fuel(plain_range, 51);
    }
    lemma_plain_harmless(CSS@, 394, 50);
    assert(plain_range(CSS@, 444, 50)) by {
        reveal_with_fuel(plain_range, 51);
    }
    lemma_plain_harmless(CSS@, 444, 50);
    assert(plain_range(CSS@, 494, 50)) by {
        reveal_with_fuel(plain_range, 51);
    }
    lemma_plain_harmless(CSS@, 494, 50);
    assert(plain_range(CSS@, 544, 50)) by {
        reveal_with_fuel(plain_range, 51);
    }
    lemma_plain_harmless(CSS@, 544, 50);
    assert(plain_range(CSS@, 594, 50)) by {
        reveal_with_fuel(plain_range, 51);
    }
    lemma_plain_harmless(CSS@, 594, 50);
    assert(plain_range(CSS@, 644, 50)) by {
        reveal_with_fuel(plain_range, 51);
    }
    lemma_plain_harmless(CSS@, 644, 50);
    assert(plain_range(CSS@, 694, 50)) by {
        reveal_with_fuel(plain_range, 51);
    }
    lemma_plain_harmless(CSS@, 694, 50);
    assert(plain_range(CSS@, 744, 50)) by {
        reveal_with_fuel(plain_range, 51);
    }
    lemma_plain_harmless(CSS@, 744, 50);
    assert(plain_range(CSS@, 794, 50)) by {
        reveal_with_fuel(plain_range, 51);
    }
    lemma_plain_harmless(CSS@, 794, 50);
    assert(plain_range(CSS@, 844, 50)) by {
        reveal_with_fuel(plain_range, 51);
    }
    lemma_plain_harmless(CSS@, 844, 50);
    assert(plain_range(CSS@, 894, 50)) by {
        reveal_with_fuel(plain_range, 51);
    }
    lemma_plain_harmless(CSS@, 894, 50);
    assert(plain_range(CSS@, 944, 50)) by {
        reveal_with_fuel(plain_range, 51);
    }
    lemma_plain_harmless(CSS@, 944, 50);
    assert(plain_range(CSS@, 994, 50)) by {
        reveal_with_fuel(plain_range, 51);
    }
    lemma_plain_harmless(CSS@, 994, 50);
    assert(plain_range(CSS@, 1044, 50)) by {
        reveal_with_fuel(plain_range, 51);
    }
    lemma_plain_harmless(CSS@, 1044, 50);
    assert(plain_range(CSS@, 1094, 50)) by {
        reveal_with_fuel(plain_range, 51);
    }
    lemma_plain_harmless(CSS@, 1094, 50);
    assert(plain_range(CSS@, 1144, 50)) by {
        reveal_with_fuel(plain_range, 51);
    }
    lemma_plain_harmless(CSS@, 1144, 50);
    assert(plain_range(CSS@, 1194, 50)) by {
        reveal_with_fuel(plain_range, 51);
    }
    lemma_plain_harmless(CSS@, 1194, 50);
    assert(plain_range(CSS@, 1244, 50)) by {
        reveal_with_fuel(plain_range, 51);
    }
    lemma_plain_harmless(CSS@, 1244, 50);
    assert(plain_range(CSS@, 1294, 50)) by {
        reveal_with_fuel(plain_range, 51);
    }
    lemma_plain_harmless(CSS@, 1294, 50);
    assert(plain_range(CSS@, 1344, 50)) by {
        reveal_with_fuel(plain_range, 51);
    }
    lemma_plain_harmless(CSS@, 1344, 50);
    assert(plain_range(CSS@, 1394, 50)) by {
        reveal_with_fuel(plain_range, 51);
    }
    lemma_plain_harmless(CSS@, 1394, 50);
    assert(plain_range(CSS@, 1444, 50)) by {
        reveal_with_fuel(plain_range, 51);
    }
    lemma_plain_harmless(CSS@, 1444, 50);
    assert(plain_range(CSS@, 1494, 50)) by {
        reveal_with_fuel(plain_range, 51);
    }
    lemma_plain_harmless(CSS@, 1494, 50);
    assert(plain_range(CSS@, 1544, 50)) by {
        reveal_with_fuel(plain_range, 51);
    }
    lemma_plain_harmless(CSS@, 1544, 50);
    assert(plain_range(CSS@, 1594, 50)) by {
        reveal_with_fuel(plain_range, 51);
    }
    lemma_plain_harmless(CSS@, 1594, 50);
    assert(plain_range(CSS@, 1644, 50)) by {
        reveal_with_fuel(plain_range, 51);
    }
    lemma_plain_harmless(CSS@, 1644, 50);
    assert(plain_range(CSS@, 1694, 50)) by {
        reveal_with_fuel(plain_range, 51);
    }
    lemma_plain_harmless(CSS@, 1694, 50);
    assert(plain_range(CSS@, 1744, 50)) by {
        reveal_with_fuel(plain_range, 51);
    }
    lemma_plain_harmless(CSS@, 1744, 50);
    assert(plain_range(CSS@, 1794, 50)) by {
        reveal_with_fuel(plain_range, 51);
    }
    lemma_plain_harmless(CSS@, 1794, 50);
    assert(plain_range(CSS@, 1844, 50)) by {
        reveal_with_fuel(plain_range, 51);
    }
    lemma_plain_harmless(CSS@, 1844, 50);
    assert(plain_range(CSS@, 1894, 50)) by {
        reveal_with_fuel(plain_range, 51);
    }
    lemma_plain_harmless(CSS@, 1894, 50);
    assert(plain_range(CSS@, 1944, 50)) by {
        reveal_with_fuel(plain_range, 51);
    }
    lemma_plain_harmless(CSS@, 1944, 50);
    assert(plain_range(CSS@, 1994, 50)) by {
        reveal_with_fuel(plain_range, 51);
    }
    lemma_plain_harmless(CSS@, 1994, 50);
    assert(plain_range(CSS@, 2044, 37)) by {
        reveal_with_fuel(plain_range, 38);
    }
    lemma_plain_harmless(CSS@, 2044, 37);
    lemma_harmless_range_join(CSS@, 0, 50, 50);
    lemma_harmless_range_join(CSS@, 0, 100, 50);
    lemma_harmless_range_join(CSS@, 0, 150, 50);
    lemma_harmless_range_join(CSS@, 0, 200, 50);
    lemma_harmless_range_join(CSS@, 0, 250, 50);
    lemma_harmless_range_join(CSS@, 0, 300, 34);
    lemma_harmless_range_join(CSS@, 0, 334, 1);
    lemma_harmless_range_join(CSS@, 0, 335, 8);
    lemma_harmless_range_join(CSS@, 0, 343, 1);
    lemma_harmless_range_join(CSS@, 0, 344, 50);
    lemma_harmless_range_join(CSS@, 0, 394, 50);
    lemma_harmless_range_join(CSS@, 0, 444, 50);
    lemma_harmless_range_join(CSS@, 0, 494, 50);
    lemma_harmless_range_join(CSS@, 0, 544, 50);
    lemma_harmless_range_join(CSS@, 0, 594, 50);
    lemma_harmless_range_join(CSS@, 0, 644, 50);
    lemma_harmless_range_join(CSS@, 0, 694, 50);
    lemma_harmless_range_join(CSS@, 0, 744, 50);
    lemma_harmless_range_join(CSS@, 0, 794, 50);
    lemma_harmless_range_join(CSS@, 0, 844, 50);
    lemma_harmless_range_join(CSS@, 0, 894, 50);
    lemma_harmless_range_join(CSS@, 0, 944, 50);
    lemma_harmless_range_join(CSS@, 0, 994, 50);
    lemma_harmless_range_join(CSS@, 0, 1044, 50);
    lemma_harmless_range_join(CSS@, 0, 1094, 50);
    lemma_harmless_range_join(CSS@, 0, 1144, 50);
    lemma_harmless_range_join(CSS@, 0, 1194, 50);
    lemma_harmless_range_join(CSS@, 0, 1244, 50);
    lemma_harmless_range_join(CSS@, 0, 1294, 50);
    lemma_harmless_range_join(CSS@, 0, 1344, 50);
    lemma_harmless_range_join(CSS@, 0, 1394, 50);
    lemma_harmless_range_join(CSS@, 0, 1444, 50);
    lemma_harmless_range_join(CSS@, 0, 1494, 50);
    lemma_harmless_range_join(CSS@, 0, 1544, 50);
    lemma_harmless_range_join(CSS@, 0, 1594, 50);
    lemma_harmless_range_join(CSS@, 0, 1644, 50);
    lemma_harmless_range_join(CSS@, 0, 1694, 50);
    lemma_harmless_range_join(CSS@, 0, 1744, 50);
    lemma_harmless_range_join(CSS@, 0, 1794, 50);
    lemma_harmless_range_join(CSS@, 0, 1844, 50);
    lemma_harmless_range_join(CSS@, 0, 1894, 50);
    lemma_harmless_range_join(CSS@, 0, 1944, 50);
    lemma_harmless_range_join(CSS@, 0, 1994, 50);
    lemma_harmless_range_join(CSS@, 0, 2044, 37);
    lemma_harmless_sealed(CSS@);
}

/// The script is sealed.
#[verifier::rlimit(100)]
proof fn lemma_script_sealed()
    ensures
        sealed(JS@),
{
    reveal_strlit("<link");
    reveal_strlit("<img");
    reveal_strlit("<iframe");
    reveal_strlit("http");
    reveal_strlit("href=");
    reveal_strlit("src=");
    reveal_strlit("<script");
    reveal_strlit("</script");
    reveal_strlit("<style");
    reveal_strlit(r#"
(function () {
  var typeSel = document.getElementById("filter-type");
  var decSel = document.getElementById("filter-decision");
  if (!typeSel || !decSel) return;
  function apply() {
    var type = typeSel.value;
    var decision = decSel.value;
    var nodes = document.querySelectorAll("[data-event]");
    for (var i = 0; i < nodes.length; i++) {
      var el = nodes[i];
      var kind = el.getAttribute("data-kind") || "";
      var dec = el.getAttribute("data-decision") || "";
      var show = true;
      if (type !== "all" && kind !== type) show = false;
      if (decision !== "all" && dec !== decision) show = false;
      el.hidden = !show;
    }
  }
  typeSel.addEventListener("change", apply);
  decSel.addEventListener("change", apply);
})();
"#);
    assert(plain_range(JS@, 0, 50)) by {
        reveal_with_fuel(plain_range, 51);
    }
    lemma_plain_harmless(JS@, 0, 50);
    assert(plain_range(JS@, 50, 6)) by {
        reveal_with_fuel(plain_range, 7);
    }
    lemma_plain_harmless(JS@, 50, 6);
    lemma_harmless_one(JS@, 56);
    assert(plain_range(JS@, 57, 11)) by {
        reveal_with_fuel(plain_range, 12);
    }
    lemma_plain_harmless(JS@, 57, 11);
    lemma_harmless_one(JS@, 68);
    assert(plain_range(JS@, 69, 42)) by {
        reveal_with_fuel(plain_range, 43);
    }
    lemma_plain_harmless(JS@, 69, 42);
    lemma_harmless_one(JS@, 111);
    assert(plain_range(JS@, 112, 15)) by {
        reveal_with_fuel(plain_range, 16);
    }
    lemma_plain_harmless(JS@, 112, 15);
    lemma_harmless_one(JS@, 127);
    assert(plain_range(JS@, 128, 50)) by {
        reveal_with_fuel(plain_range, 51);
    }
    lemma_plain_harmless(JS@, 128, 50);
    assert(plain_range(JS@, 178, 50)) by {
        reveal_with_fuel(plain_range, 51);
    }
    lemma_plain_harmless(JS@, 178, 50);
    assert(plain_range(JS@, 228, 50)) by {
        reveal_with_fuel(plain_range, 51);
    }
    lemma_plain_harmless(JS@, 228, 50);
    assert(plain_range(JS@, 278, 14)) by {
        reveal_with_fuel(plain_range, 15);
    }
    lemma_plain_harmless(JS@, 278, 14);
    lemma_harmless_one(JS@, 292);
    assert(plain_range(JS@, 293, 12)) by {
        reveal_with_fuel(plain_range, 13);
    }
    lemma_plain_harmless(JS@, 293, 12);
    lemma_harmless_one(JS@, 305);
    assert(plain_range(JS@, 306, 25)) by {
        reveal_with_fuel(plain_range, 26);
    }
    lemma_plain_harmless(JS@, 306, 25);
    lemma_harmless_one(JS@, 331);
    assert(plain_range(JS@, 332, 50)) by {
        reveal_with_fuel(plain_range, 51);
    }
    lemma_plain_harmless(JS@, 332, 50);
    assert(plain_range(JS@, 382, 30)) by {
        reveal_with_fuel(plain_range, 31);
    }
    lemma_plain_harmless(JS@, 382, 30);
    lemma_harmless_one(JS@, 412);
    assert(plain_range(JS@, 413, 9)) by {
        reveal_with_fuel(plain_range, 10);
    }
    lemma_plain_harmless(JS@, 413, 9);
    lemma_harmless_one(JS@, 422);
    assert(plain_range(JS@, 423, 5)) by {
        reveal_with_fuel(plain_range, 6);
    }
    lemma_plain_harmless(JS@, 423, 5);
    lemma_harmless_one(JS@, 428);
    lemma_harmless_one(JS@, 429);
    assert(plain_range(JS@, 430, 34)) by {
        reveal_with_fuel(plain_range, 35);
    }
    lemma_plain_harmless(JS@, 430, 34);
    lemma_harmless_one(JS@, 464);
    assert(plain_range(JS@, 465, 13)) by {
        reveal_with_fuel(plain_range, 14);
    }
    lemma_plain_harmless(JS@, 465, 13);
    lemma_harmless_one(JS@, 478);
    assert(plain_range(JS@, 479, 5)) by {
        reveal_with_fuel(plain_range, 6);
    }
    lemma_plain_harmless(JS@, 479, 5);
    lemma_harmless_one(JS@, 484);
    lemma_harmless_one(JS@, 485);
    assert(plain_range(JS@, 486, 44)) by {
        reveal_with_fuel(plain_range, 45);
    }
    lemma_plain_harmless(JS@, 486, 44);
    lemma_harmless_one(JS@, 530);
    assert(plain_range(JS@, 531, 3)) by {
        reveal_with_fuel(plain_range, 4);
    }
    lemma_plain_harmless(JS@, 531, 3);
    lemma_harmless_one(JS@, 534);
    assert(plain_range(JS@, 535, 50)) by {
        reveal_with_fuel(plain_range, 51);
    }
    lemma_plain_harmless(JS@, 535, 50);
    assert(plain_range(JS@, 585, 6)) by {
        reveal_with_fuel(plain_range, 7);
    }
    lemma_plain_harmless(JS@, 585, 6);
    lemma_harmless_one(JS@, 591);
    assert(plain_range(JS@, 592, 3)) by {
        reveal_with_fuel(plain_range, 4);
    }
    lemma_plain_harmless(JS@, 592, 3);
    lemma_harmless_one(JS@, 595);
    assert(plain_range(JS@, 596, 50)) by {
        reveal_with_fuel(plain_range, 51);
    }
    lemma_plain_harmless(JS@, 596, 50);
    assert(plain_range(JS@, 646, 48)) by {
        reveal_with_fuel(plain_range, 49);
    }
    lemma_plain_harmless(JS@, 646, 48);
    lemma_harmless_one(JS@, 694);
    assert(plain_range(JS@, 695, 6)) by {
        reveal_with_fuel(plain_range, 7);
    }
    lemma_plain_harmless(JS@, 695, 6);
    lemma_harmless_one(JS@, 701);
    assert(plain_range(JS@, 702, 36)) by {
        reveal_with_fuel(plain_range, 37);
    }
    lemma_plain_harmless(JS@, 702, 36);
    lemma_harmless_one(JS@, 738);
    assert(plain_range(JS@, 739, 6)) by {
        reveal_with_fuel(plain_range, 7);
    }
    lemma_plain_harmless(JS@, 739, 6);
    lemma_harmless_one(JS@, 745);
    assert(plain_range(JS@, 746, 16)) by {
        reveal_with_fuel(plain_range, 17);
    }
    lemma_plain_harmless(JS@, 746, 16);
    lemma_harmless_range_join(JS@, 0, 50, 6);
    lemma_harmless_range_join(JS@, 0, 56, 1);
    lemma_harmless_range_join(JS@, 0, 57, 11);
    lemma_harmless_range_join(JS@, 0, 68, 1);
    lemma_harmless_range_join(JS@, 0, 69, 42);
    lemma_harmless_range_join(JS@, 0, 111, 1);
    lemma_harmless_range_join(JS@, 0, 112, 15);
    lemma_harmless_range_join(JS@, 0, 127, 1);
    lemma_harmless_range_join(JS@, 0, 128, 50);
    lemma_harmless_range_join(JS@, 0, 178, 50);
    lemma_harmless_range_join(JS@, 0, 228, 50);
    lemma_harmless_range_join(JS@, 0, 278, 14);
    lemma_harmless_range_join(JS@, 0, 292, 1);
    lemma_harmless_range_join(JS@, 0, 293, 12);
    lemma_harmless_range_join(JS@, 0, 305, 1);
    lemma_harmless_range_join(JS@, 0, 306, 25);
    lemma_harmless_range_join(JS@, 0, 331, 1);
    lemma_harmless_range_join(JS@, 0, 332, 50);
    lemma_harmless_range_join(JS@, 0, 382, 30);
    lemma_harmless_range_join(JS@, 0, 412, 1);
    lemma_harmless_range_join(JS@, 0, 413, 9);
    lemma_harmless_range_join(JS@, 0, 422, 1);
    lemma_harmless_range_join(JS@, 0, 423, 5);
    lemma_harmless_range_join(JS@, 0, 428, 1);
    lemma_harmless_range_join(JS@, 0, 429, 1);
    lemma_harmless_range_join(JS@, 0, 430, 34);
    lemma_harmless_range_join(JS@, 0, 464, 1);
    lemma_harmless_range_join(JS@, 0, 465, 13);
    lemma_harmless_range_join(JS@, 0, 478, 1);
    lemma_harmless_range_join(JS@, 0, 479, 5);
    lemma_harmless_range_join(JS@, 0, 484, 1);
    lemma_harmless_range_join(JS@, 0, 485, 1);
    lemma_harmless_range_join(JS@, 0, 486, 44);
    lemma_harmless_range_join(JS@, 0, 530, 1);
    lemma_harmless_range_join(JS@, 0, 531, 3);
    lemma_harmless_range_join(JS@, 0, 534, 1);
    lemma_harmless_range_join(JS@, 0, 535, 50);
    lemma_harmless_range_join(JS@, 0, 585, 6);
    lemma_harmless_range_join(JS@, 0, 591, 1);
    lemma_harmless_range_join(JS@, 0, 592, 3);
    lemma_harmless_range_join(JS@, 0, 595, 1);
    lemma_harmless_range_join(JS@, 0, 596, 50);
    lemma_harmless_range_join(JS@, 0, 646, 48);
    lemma_harmless_range_join(JS@, 0, 694, 1);
    lemma_harmless_range_join(JS@, 0, 695, 6);
    lemma_harmless_range_join(JS@, 0, 701, 1);
    lemma_harmless_range_join(JS@, 0, 702, 36);
    lemma_harmless_range_join(JS@, 0, 738, 1);
    lemma_harmless_range_join(JS@, 0, 739, 6);
    lemma_harmless_range_join(JS@, 0, 745, 1);
    lemma_harmless_range_join(JS@, 0, 746, 16);
    lemma_harmless_sealed(JS@);
}

/// The fixed frame of the page, but for the tags that open and close the style sheet and the
/// script, is sealed.
#[verifier::rlimit(100)]
proof fn lemma_frame_sealed()
    ensures
        sealed(PAGE_HEAD@),
        sealed(STYLE_CLOSE@),
        sealed(PAGE_HEADER@),
        sealed(DECISION_FILTER@),
{
    reveal_strlit("<link");
    reveal_strlit("<img");
    reveal_strlit("<iframe");
    reveal_strlit("http");
    reveal_strlit("href=");
    reveal_strlit("src=");
    reveal_strlit("<script");
    reveal_strlit("</script");
    reveal_strlit("<style");
    assert(sealed(PAGE_HEAD@)) by {
        reveal_strlit("<!DOCTYPE html>\n<html lang=\"en\">\n<head>\n<meta charset=\"utf-8\">\n<meta name=\"viewport\" content=\"width=device-width, initial-scale=1\">\n<title>h5i audit report — ");
        lemma_harmless_one(PAGE_HEAD@, 0);
        assert(plain_range(PAGE_HEAD@, 1, 15)) by {
            reveal_with_fuel(plain_range, 16);
        }
        lemma_plain_harmless(PAGE_HEAD@, 1, 15);
        lemma_harmless_one(PAGE_HEAD@, 16);
        assert(plain_range(PAGE_HEAD@, 17, 10)) by {
            reveal_with_fuel(plain_range, 11);
        }
        lemma_plain_harmless(PAGE_HEAD@, 17, 10);
        lemma_harmless_one(PAGE_HEAD@, 27);
        assert(plain_range(PAGE_HEAD@, 28, 2)) by {
            reveal_with_fuel(plain_range, 3);
        }
        lemma_plain_harmless(PAGE_HEAD@, 28, 2);
        lemma_harmless_one(PAGE_HEAD@, 30);
        assert(plain_range(PAGE_HEAD@, 31, 2)) by {
            reveal_with_fuel(plain_range, 3);
        }
        lemma_plain_harmless(PAGE_HEAD@, 31, 2);
        lemma_harmless_one(PAGE_HEAD@, 33);
        assert(plain_range(PAGE_HEAD@, 34, 6)) by {
            reveal_with_fuel(plain_range, 7);
        }
        lemma_plain_harmless(PAGE_HEAD@, 34, 6);
        lemma_harmless_one(PAGE_HEAD@, 40);
        assert(plain_range(PAGE_HEAD@, 41, 13)) by {
            reveal_with_fuel(plain_range, 14);
        }
        lemma_plain_harmless(PAGE_HEAD@, 41, 13);
        lemma_harmless_one(PAGE_HEAD@, 54);
        assert(plain_range(PAGE_HEAD@, 55, 5)) by {
            reveal_with_fuel(plain_range, 6);
        }
        lemma_plain_harmless(PAGE_HEAD@, 55, 5);
        lemma_harmless_one(PAGE_HEAD@, 60);
        assert(plain_range(PAGE_HEAD@, 61, 2)) by {
            reveal_with_fuel(plain_range, 3);
        }
        lemma_plain_harmless(PAGE_HEAD@, 61, 2);
        lemma_harmless_one(PAGE_HEAD@, 63);
        assert(plain_range(PAGE_HEAD@, 64, 10)) by {
            reveal_with_fuel(plain_range, 11);
        }
        lemma_plain_harmless(PAGE_HEAD@, 64, 10);
        lemma_harmless_one(PAGE_HEAD@, 74);
        assert(plain_range(PAGE_HEAD@, 75, 8)) by {
            reveal_with_fuel(plain_range, 9);
        }
        lemma_plain_harmless(PAGE_HEAD@, 75, 8);
        lemma_harmless_one(PAGE_HEAD@, 83);
        assert(plain_range(PAGE_HEAD@, 84, 9)) by {
            reveal_with_fuel(plain_range, 10);
        }
        lemma_plain_harmless(PAGE_HEAD@, 84, 9);
        lemma_harmless_one(PAGE_HEAD@, 93);
        assert(plain_range(PAGE_HEAD@, 94, 35)) by {
            reveal_with_fuel(plain_range, 36);
        }
        lemma_plain_harmless(PAGE_HEAD@, 94, 35);
        lemma_harmless_one(PAGE_HEAD@, 129);
        assert(plain_range(PAGE_HEAD@, 130, 2)) by {
            reveal_with_fuel(plain_range, 3);
        }
        lemma_plain_harmless(PAGE_HEAD@, 130, 2);
        lemma_harmless_one(PAGE_HEAD@, 132);
        assert(plain_range(PAGE_HEAD@, 133, 25)) by {
            reveal_with_fuel(plain_range, 26);
        }
        lemma_plain_harmless(PAGE_HEAD@, 133, 25);
        lemma_harmless_range_join(PAGE_HEAD@, 0, 1, 15);
        lemma_harmless_range_join(PAGE_HEAD@, 0, 16, 1);
        lemma_harmless_range_join(PAGE_HEAD@, 0, 17, 10);
        lemma_harmless_range_join(PAGE_HEAD@, 0, 27, 1);
        lemma_harmless_range_join(PAGE_HEAD@, 0, 28, 2);
        lemma_harmless_range_join(PAGE_HEAD@, 0, 30, 1);
        lemma_harmless_range_join(PAGE_HEAD@, 0, 31, 2);
        lemma_harmless_range_join(PAGE_HEAD@, 0, 33, 1);
        lemma_harmless_range_join(PAGE_HEAD@, 0, 34, 6);
        lemma_harmless_range_join(PAGE_HEAD@, 0, 40, 1);
        lemma_harmless_range_join(PAGE_HEAD@, 0, 41, 13);
        lemma_harmless_range_join(PAGE_HEAD@, 0, 54, 1);
        lemma_harmless_range_join(PAGE_HEAD@, 0, 55, 5);
        lemma_harmless_range_join(PAGE_HEAD@, 0, 60, 1);
        lemma_harmless_range_join(PAGE_HEAD@, 0, 61, 2);
        lemma_harmless_range_join(PAGE_HEAD@, 0, 63, 1);
        lemma_harmless_range_join(PAGE_HEAD@, 0, 64, 10);
        lemma_harmless_range_join(PAGE_HEAD@, 0, 74, 1);
        lemma_harmless_range_join(PAGE_HEAD@, 0, 75, 8);
        lemma_harmless_range_join(PAGE_HEAD@, 0, 83, 1);
        lemma_harmless_range_join(PAGE_HEAD@, 0, 84, 9);
        lemma_harmless_range_join(PAGE_HEAD@, 0, 93, 1);
        lemma_harmless_range_join(PAGE_HEAD@, 0, 94, 35);
        lemma_harmless_range_join(PAGE_HEAD@, 0, 129, 1);
        lemma_harmless_range_join(PAGE_HEAD@, 0, 130, 2);
        lemma_harmless_range_join(PAGE_HEAD@, 0, 132, 1);
        lemma_harmless_range_join(PAGE_HEAD@, 0, 133, 25);
        lemma_harmless_sealed(PAGE_HEAD@);
    }
    assert(sealed(STYLE_CLOSE@)) by {
        reveal_strlit("\n</style>\n</head>\n<body>\n");
        assert(harmless_range(STYLE_CLOSE@, 0, 25)) by {
            reveal_with_fuel(harmless_range, 26);
        }
        lemma_harmless_sealed(STYLE_CLOSE@);
    }
    assert(sealed(PAGE_HEADER@)) by {
        reveal_strlit("<header>\n<h1>h5i audit report</h1>\n</header>\n");
        lemma_harmless_one(PAGE_HEADER@, 0);
        assert(plain_range(PAGE_HEADER@, 1, 8)) by {
            reveal_with_fuel(plain_range, 9);
        }
        lemma_plain_harmless(PAGE_HEADER@, 1, 8);
        lemma_harmless_one(PAGE_HEADER@, 9);
        assert(plain_range(PAGE_HEADER@, 10, 19)) by {
            reveal_with_fuel(plain_range, 20);
        }
        lemma_plain_harmless(PAGE_HEADER@, 10, 19);
        lemma_harmless_one(PAGE_HEADER@, 29);
        assert(plain_range(PAGE_HEADER@, 30, 5)) by {
            reveal_with_fuel(plain_range, 6);
        }
        lemma_plain_harmless(PAGE_HEADER@, 30, 5);
        lemma_harmless_one(PAGE_HEADER@, 35);
        assert(plain_range(PAGE_HEADER@, 36, 9)) by {
            reveal_with_fuel(plain_range, 10);
        }
        lemma_plain_harmless(PAGE_HEADER@, 36, 9);
        lemma_harmless_range_join(PAGE_HEADER@, 0, 1, 8);
        lemma_harmless_range_join(PAGE_HEADER@, 0, 9, 1);
        lemma_harmless_range_join(PAGE_HEADER@, 0, 10, 19);
        lemma_harmless_range_join(PAGE_HEADER@, 0, 29, 1);
        lemma_harmless_range_join(PAGE_HEADER@, 0, 30, 5);
        lemma_harmless_range_join(PAGE_HEADER@, 0, 35, 1);
        lemma_harmless_range_join(PAGE_HEADER@, 0, 36, 9);
        lemma_harmless_sealed(PAGE_HEADER@);
    }
    assert(sealed(DECISION_FILTER@)) by {
        reveal_strlit("<label>Request decision <select id=\"filter-decision\">\n<option value=\"all\">All</option>\n<option value=\"allowed\">Allowed</option>\n<option value=\"denied\">Denied</option>\n</select></label>\n");
        lemma_harmless_one(DECISION_FILTER@, 0);
        assert(plain_range(DECISION_FILTER@, 1, 23)) by {
            reveal_with_fuel(plain_range, 24);
        }
        lemma_plain_harmless(DECISION_FILTER@, 1, 23);
        lemma_harmless_one(DECISION_FILTER@, 24);
        assert(plain_range(DECISION_FILTER@, 25, 10)) by {
            reveal_with_fuel(plain_range, 11);
        }
        lemma_plain_harmless(DECISION_FILTER@, 25, 10);
        lemma_harmless_one(DECISION_FILTER@, 35);
        assert(plain_range(DECISION_FILTER@, 36, 15)) by {
            reveal_with_fuel(plain_range, 16);
        }
        lemma_plain_harmless(DECISION_FILTER@, 36, 15);
        lemma_harmless_one(DECISION_FILTER@, 51);
        assert(plain_range(DECISION_FILTER@, 52, 2)) by {
            reveal_with_fuel(plain_range, 3);
        }
        lemma_plain_harmless(DECISION_FILTER@, 52, 2);
        lemma_harmless_one(DECISION_FILTER@, 54);
        assert(plain_range(DECISION_FILTER@, 55, 13)) by {
            reveal_with_fuel(plain_range, 14);
        }
        lemma_plain_harmless(DECISION_FILTER@, 55, 13);
        lemma_harmless_one(DECISION_FILTER@, 68);
        assert(plain_range(DECISION_FILTER@, 69, 3)) by {
            reveal_with_fuel(plain_range, 4);
        }
        lemma_plain_harmless(DECISION_FILTER@, 69, 3);
        lemma_harmless_one(DECISION_FILTER@, 72);
        assert(plain_range(DECISION_FILTER@, 73, 4)) by {
            reveal_with_fuel(plain_range, 5);
        }
        lemma_plain_harmless(DECISION_FILTER@, 73, 4);
        lemma_harmless_one(DECISION_FILTER@, 77);
        assert(plain_range(DECISION_FILTER@, 78, 9)) by {
            reveal_with_fuel(plain_range, 10);
        }
        lemma_plain_harmless(DECISION_FILTER@, 78, 9);
        lemma_harmless_one(DECISION_FILTER@, 87);
        assert(plain_range(DECISION_FILTER@, 88, 13)) by {
            reveal_with_fuel(plain_range, 14);
        }
        lemma_plain_harmless(DECISION_FILTER@, 88, 13);
        lemma_harmless_one(DECISION_FILTER@, 101);
        assert(plain_range(DECISION_FILTER@, 102, 7)) by {
            reveal_with_fuel(plain_range, 8);
        }
        lemma_plain_harmless(DECISION_FILTER@, 102, 7);
        lemma_harmless_one(DECISION_FILTER@, 109);
        assert(plain_range(DECISION_FILTER@, 110, 8)) by {
            reveal_with_fuel(plain_range, 9);
        }
        lemma_plain_harmless(DECISION_FILTER@, 110, 8);
        lemma_harmless_one(DECISION_FILTER@, 118);
        assert(plain_range(DECISION_FILTER@, 119, 9)) by {
            reveal_with_fuel(plain_range, 10);
        }
        lemma_plain_harmless(DECISION_FILTER@, 119, 9);
        lemma_harmless_one(DECISION_FILTER@, 128);
        assert(plain_range(DECISION_FILTER@, 129, 13)) by {
            reveal_with_fuel(plain_range, 14);
        }
        lemma_plain_harmless(DECISION_FILTER@, 129, 13);
        lemma_harmless_one(DECISION_FILTER@, 142);
        assert(plain_range(DECISION_FILTER@, 143, 6)) by {
            reveal_with_fuel(plain_range, 7);
        }
        lemma_plain_harmless(DECISION_FILTER@, 143, 6);
        lemma_harmless_one(DECISION_FILTER@, 149);
        assert(plain_range(DECISION_FILTER@, 150, 7)) by {
            reveal_with_fuel(plain_range, 8);
        }
        lemma_plain_harmless(DECISION_FILTER@, 150, 7);
        lemma_harmless_one(DECISION_FILTER@, 157);
        assert(plain_range(DECISION_FILTER@, 158, 9)) by {
            reveal_with_fuel(plain_range, 10);
        }
        lemma_plain_harmless(DECISION_FILTER@, 158, 9);
        lemma_harmless_one(DECISION_FILTER@, 167);
        assert(plain_range(DECISION_FILTER@, 168, 8)) by {
            reveal_with_fuel(plain_range, 9);
        }
        lemma_plain_harmless(DECISION_FILTER@, 168, 8);
        lemma_harmless_one(DECISION_FILTER@, 176);
        assert(plain_range(DECISION_FILTER@, 177, 8)) by {
            reveal_with_fuel(plain_range, 9);
        }
        lemma_plain_harmless(DECISION_FILTER@, 177, 8);
        lemma_harmless_range_join(DECISION_FILTER@, 0, 1, 23);
        lemma_harmless_range_join(DECISION_FILTER@, 0, 24, 1);
        lemma_harmless_range_join(DECISION_FILTER@, 0, 25, 10);
        lemma_harmless_range_join(DECISION_FILTER@, 0, 35, 1);
        lemma_harmless_range_join(DECISION_FILTER@, 0, 36, 15);
        lemma_harmless_range_join(DECISION_FILTER@, 0, 51, 1);
        lemma_harmless_range_join(DECISION_FILTER@, 0, 52, 2);
        lemma_harmless_range_join(DECISION_FILTER@, 0, 54, 1);
        lemma_harmless_range_join(DECISION_FILTER@, 0, 55, 13);
        lemma_harmless_range_join(DECISION_FILTER@, 0, 68, 1);
        lemma_harmless_range_join(DECISION_FILTER@, 0, 69, 3);
        lemma_harmless_range_join(DECISION_FILTER@, 0, 72, 1);
        lemma_harmless_range_join(DECISION_FILTER@, 0, 73, 4);
        lemma_harmless_range_join(DECISION_FILTER@, 0, 77, 1);
        lemma_harmless_range_join(DECISION_FILTER@, 0, 78, 9);
        lemma_harmless_range_join(DECISION_FILTER@, 0, 87, 1);
        lemma_harmless_range_join(DECISION_FILTER@, 0, 88, 13);
        lemma_harmless_range_join(DECISION_FILTER@, 0, 101, 1);
        lemma_harmless_range_join(DECISION_FILTER@, 0, 102, 7);
        lemma_harmless_range_join(DECISION_FILTER@, 0, 109, 1);
        lemma_harmless_range_join(DECISION_FILTER@, 0, 110, 8);
        lemma_harmless_range_join(DECISION_FILTER@, 0, 118, 1);
        lemma_harmless_range_join(DECISION_FILTER@, 0, 119, 9);
        lemma_harmless_range_join(DECISION_FILTER@, 0, 128, 1);
        lemma_harmless_range_join(DECISION_FILTER@, 0, 129, 13);
        lemma_harmless_range_join(DECISION_FILTER@, 0, 142, 1);
        lemma_harmless_range_join(DECISION_FILTER@, 0, 143, 6);
        lemma_harmless_range_join(DECISION_FILTER@, 0, 149, 1);
        lemma_harmless_range_join(DECISION_FILTER@, 0, 150, 7);
        lemma_harmless_range_join(DECISION_FILTER@, 0, 157, 1);
        lemma_harmless_range_join(DECISION_FILTER@, 0, 158, 9);
        lemma_harmless_range_join(DECISION_FILTER@, 0, 167, 1);
        lemma_harmless_range_join(DECISION_FILTER@, 0, 168, 8);
        lemma_harmless_range_join(DECISION_FILTER@, 0, 176, 1);
        lemma_harmless_range_join(DECISION_FILTER@, 0, 177, 8);
        lemma_harmless_sealed(DECISION_FILTER@);
    }
}

/// The fixed markup of labels and summary rows is sealed.
#[verifier::rlimit(100)]
proof fn lemma_label_markup_sealed()
    ensures
        sealed("avail-read"@),
        sealed("avail-empty"@),
        sealed("avail-unavailable"@),
        sealed("avail-partial"@),
        sealed("avail-unknown"@),
        sealed("lane-host"@),
        sealed("lane-box"@),
        sealed("lane-unknown"@),
        sealed("<dt>"@),
        sealed("</dt><dd>"@),
        sealed("</dd>\n"@),
        sealed("<section>\n<h2>Session</h2>\n<dl class=\"summary\">\n"@),
        sealed("</dl>\n</section>\n"@),
        sealed("<li><span class=\"src-name\">"@),
        sealed("</span> <span class=\"avail "@),
        sealed("\">"@),
        sealed("</span></li>\n"@),
        sealed("<p class=\"dropped\">"@),
        sealed("</p>\n"@),
{
    reveal_strlit("<link");
    reveal_strlit("<img");
    reveal_strlit("<iframe");
    reveal_strlit("http");
    reveal_strlit("href=");
    reveal_strlit("src=");
    reveal_strlit("<script");
    reveal_strlit("</script");
    reveal_strlit("<style");
    assert(sealed("avail-read"@)) by {
        reveal_strlit("avail-read");
        assert(harmless_range("avail-read"@, 0, 10)) by {
            reveal_with_fuel(harmless_range, 11);
        }
        lemma_harmless_sealed("avail-read"@);
    }
    assert(sealed("avail-empty"@)) by {
        reveal_strlit("avail-empty");
        assert(harmless_range("avail-empty"@, 0, 11)) by {
            reveal_with_fuel(harmless_range, 12);
        }
        lemma_harmless_sealed("avail-empty"@);
    }
    assert(sealed("avail-unavailable"@)) by {
        reveal_strlit("avail-unavailable");
        assert(harmless_range("avail-unavailable"@, 0, 17)) by {
            reveal_with_fuel(harmless_range, 18);
        }
        lemma_harmless_sealed("avail-unavailable"@);
    }
    assert(sealed("avail-partial"@)) by {
        reveal_strlit("avail-partial");
        assert(harmless_range("avail-partial"@, 0, 13)) by {
            reveal_with_fuel(harmless_range, 14);
        }
        lemma_harmless_sealed("avail-partial"@);
    }
    assert(sealed("avail-unknown"@)) by {
        reveal_strlit("avail-unknown");
        assert(harmless_range("avail-unknown"@, 0, 13)) by {
            reveal_with_fuel(harmless_range, 14);
        }
        lemma_harmless_sealed("avail-unknown"@);
    }
    assert(sealed("lane-host"@)) by {
        reveal_strlit("lane-host");
        assert(harmless_range("lane-host"@, 0, 9)) by {
            reveal_with_fuel(harmless_range, 10);
        }
        lemma_harmless_sealed("lane-host"@);
    }
    assert(sealed("lane-box"@)) by {
        reveal_strlit("lane-box");
        assert(harmless_range("lane-box"@, 0, 8)) by {
            reveal_with_fuel(harmless_range, 9);
        }
        lemma_harmless_sealed("lane-box"@);
    }
    assert(sealed("lane-unknown"@)) by {
        reveal_strlit("lane-unknown");
        assert(harmless_range("lane-unknown"@, 0, 12)) by {
            reveal_with_fuel(harmless_range, 13);
        }
        lemma_harmless_sealed("lane-unknown"@);
    }
    assert(sealed("<dt>"@)) by {
        reveal_strlit("<dt>");
        assert(harmless_range("<dt>"@, 0, 4)) by {
            reveal_with_fuel(harmless_range, 5);
        }
        lemma_harmless_sealed("<dt>"@);
    }
    assert(sealed("</dt><dd>"@)) by {
        reveal_strlit("</dt><dd>");
        assert(harmless_range("</dt><dd>"@, 0, 9)) by {
            reveal_with_fuel(harmless_range, 10);
        }
        lemma_harmless_sealed("</dt><dd>"@);
    }
    assert(sealed("</dd>\n"@)) by {
        reveal_strlit("</dd>\n");
        assert(harmless_range("</dd>\n"@, 0, 6)) by {
            reveal_with_fuel(harmless_range, 7);
        }
        lemma_harmless_sealed("</dd>\n"@);
    }
    assert(sealed("<section>\n<h2>Session</h2>\n<dl class=\"summary\">\n"@)) by {
        reveal_strlit("<section>\n<h2>Session</h2>\n<dl class=\"summary\">\n");
        lemma_harmless_one("<section>\n<h2>Session</h2>\n<dl class=\"summary\">\n"@, 0);
        assert(plain_range("<section>\n<h2>Session</h2>\n<dl class=\"summary\">\n"@, 1, 9)) by {
            reveal_with_fuel(plain_range, 10);
        }
        lemma_plain_harmless("<section>\n<h2>Session</h2>\n<dl class=\"summary\">\n"@, 1, 9);
        lemma_harmless_one("<section>\n<h2>Session</h2>\n<dl class=\"summary\">\n"@, 10);
        assert(plain_range("<section>\n<h2>Session</h2>\n<dl class=\"summary\">\n"@, 11, 10)) by {
            reveal_with_fuel(plain_range, 11);
        }
        lemma_plain_harmless("<section>\n<h2>Session</h2>\n<dl class=\"summary\">\n"@, 11, 10);
        lemma_harmless_one("<section>\n<h2>Session</h2>\n<dl class=\"summary\">\n"@, 21);
        assert(plain_range("<section>\n<h2>Session</h2>\n<dl class=\"summary\">\n"@, 22, 5)) by {
            reveal_with_fuel(plain_range, 6);
        }
        lemma_plain_harmless("<section>\n<h2>Session</h2>\n<dl class=\"summary\">\n"@, 22, 5);
        lemma_harmless_one("<section>\n<h2>Session</h2>\n<dl class=\"summary\">\n"@, 27);
        assert(plain_range("<section>\n<h2>Session</h2>\n<dl class=\"summary\">\n"@, 28, 9)) by {
            reveal_with_fuel(plain_range, 10);
        }
        lemma_plain_harmless("<section>\n<h2>Session</h2>\n<dl class=\"summary\">\n"@, 28, 9);
        lemma_harmless_one("<section>\n<h2>Session</h2>\n<dl class=\"summary\">\n"@, 37);
        assert(plain_range("<section>\n<h2>Session</h2>\n<dl class=\"summary\">\n"@, 38, 7)) by {
            reveal_with_fuel(plain_range, 8);
        }
        lemma_plain_harmless("<section>\n<h2>Session</h2>\n<dl class=\"summary\">\n"@, 38, 7);
        lemma_harmless_one("<section>\n<h2>Session</h2>\n<dl class=\"summary\">\n"@, 45);
        assert(plain_range("<section>\n<h2>Session</h2>\n<dl class=\"summary\">\n"@, 46, 2)) by {
            reveal_with_fuel(plain_range, 3);
        }
        lemma_plain_harmless("<section>\n<h2>Session</h2>\n<dl class=\"summary\">\n"@, 46, 2);
        lemma_harmless_range_join("<section>\n<h2>Session</h2>\n<dl class=\"summary\">\n"@, 0, 1, 9);
        lemma_harmless_range_join("<section>\n<h2>Session</h2>\n<dl class=\"summary\">\n"@, 0, 10, 1);
        lemma_harmless_range_join("<section>\n<h2>Session</h2>\n<dl class=\"summary\">\n"@, 0, 11, 10);
        lemma_harmless_range_join("<section>\n<h2>Session</h2>\n<dl class=\"summary\">\n"@, 0, 21, 1);
        lemma_harmless_range_join("<section>\n<h2>Session</h2>\n<dl class=\"summary\">\n"@, 0, 22, 5);
        lemma_harmless_range_join("<section>\n<h2>Session</h2>\n<dl class=\"summary\">\n"@, 0, 27, 1);
        lemma_harmless_range_join("<section>\n<h2>Session</h2>\n<dl class=\"summary\">\n"@, 0, 28, 9);
        lemma_harmless_range_join("<section>\n<h2>Session</h2>\n<dl class=\"summary\">\n"@, 0, 37, 1);
        lemma_harmless_range_join("<section>\n<h2>Session</h2>\n<dl class=\"summary\">\n"@, 0, 38, 7);
        lemma_harmless_range_join("<section>\n<h2>Session</h2>\n<dl class=\"summary\">\n"@, 0, 45, 1);
        lemma_harmless_range_join("<section>\n<h2>Session</h2>\n<dl class=\"summary\">\n"@, 0, 46, 2);
        lemma_harmless_sealed("<section>\n<h2>Session</h2>\n<dl class=\"summary\">\n"@);
    }
    assert(sealed("</dl>\n</section>\n"@)) by {
        reveal_strlit("</dl>\n</section>\n");
        assert(harmless_range("</dl>\n</section>\n"@, 0, 17)) by {
            reveal_with_fuel(harmless_range, 18);
        }
        lemma_harmless_sealed("</dl>\n</section>\n"@);
    }
    assert(sealed("<li><span class=\"src-name\">"@)) by {
        reveal_strlit("<li><span class=\"src-name\">");
        assert(harmless_range("<li><span class=\"src-name\">"@, 0, 27)) by {
            reveal_with_fuel(harmless_range, 28);
        }
        lemma_harmless_sealed("<li><span class=\"src-name\">"@);
    }
    assert(sealed("</span> <span class=\"avail "@)) by {
        reveal_strlit("</span> <span class=\"avail ");
        assert(harmless_range("</span> <span class=\"avail "@, 0, 27)) by {
            reveal_with_fuel(harmless_range, 28);
        }
        lemma_harmless_sealed("</span> <span class=\"avail "@);
    }
    assert(sealed("\">"@)) by {
        reveal_strlit("\">");
        assert(harmless_range("\">"@, 0, 2)) by {
            reveal_with_fuel(harmless_range, 3);
        }
        lemma_harmless_sealed("\">"@);
    }
    assert(sealed("</span></li>\n"@)) by {
        reveal_strlit("</span></li>\n");
        assert(harmless_range("</span></li>\n"@, 0, 13)) by {
            reveal_with_fuel(harmless_range, 14);
        }
        lemma_harmless_sealed("</span></li>\n"@);
    }
    assert(sealed("<p class=\"dropped\">"@)) by {
        reveal_strlit("<p class=\"dropped\">");
        assert(harmless_range("<p class=\"dropped\">"@, 0, 19)) by {
            reveal_with_fuel(harmless_range, 20);
        }
        lemma_harmless_sealed("<p class=\"dropped\">"@);
    }
    assert(sealed("</p>\n"@)) by {
        reveal_strlit("</p>\n");
        assert(harmless_range("</p>\n"@, 0, 5)) by {
            reveal_with_fuel(harmless_range, 6);
        }
        lemma_harmless_sealed("</p>\n"@);
    }
}

/// The fixed markup of the summary parts is sealed.
#[verifier::rlimit(100)]
proof fn lemma_summary_markup_sealed()
    ensures
        sealed("<section>\n<h2>Evidence sources</h2>\n<ul class=\"sources\">\n"@),
        sealed("</ul>\n"@),
        sealed("</section>\n"@),
        sealed("<section>\n<h2>Summary</h2>\n<ul class=\"counts\">\n"@),
        sealed("<li>Agent actions: <strong>"@),
        sealed("</strong></li>\n"@),
        sealed("<li>Allowed requests: <strong>"@),
        sealed("<li>Denied requests: <strong>"@),
        sealed("</ul>\n</section>\n"@),
        sealed("<option value=\""@),
        sealed("</option>\n"@),
        sealed("<section class=\"filters\">\n<h2>Timeline</h2>\n"@),
        sealed("<div class=\"filter-bar\">\n"@),
        sealed("<label>Event type <select id=\"filter-type\">\n"@),
        sealed("<option value=\"all\">All</option>\n"@),
        sealed("</select></label>\n"@),
        sealed("</div>\n"@),
        sealed(" — "@),
        sealed("<li><code>"@),
{
    reveal_strlit("<link");
    reveal_strlit("<img");
    reveal_strlit("<iframe");
    reveal_strlit("http");
    reveal_strlit("href=");
    reveal_strlit("src=");
    reveal_strlit("<script");
    reveal_strlit("</script");
    reveal_strlit("<style");
    assert(sealed("<section>\n<h2>Evidence sources</h2>\n<ul class=\"sources\">\n"@)) by {
        reveal_strlit("<section>\n<h2>Evidence sources</h2>\n<ul class=\"sources\">\n");
        lemma_harmless_one("<section>\n<h2>Evidence sources</h2>\n<ul class=\"sources\">\n"@, 0);
        assert(plain_range("<section>\n<h2>Evidence sources</h2>\n<ul class=\"sources\">\n"@, 1, 9)) by {
            reveal_with_fuel(plain_range, 10);
        }
        lemma_plain_harmless("<section>\n<h2>Evidence sources</h2>\n<ul class=\"sources\">\n"@, 1, 9);
        lemma_harmless_one("<section>\n<h2>Evidence sources</h2>\n<ul class=\"sources\">\n"@, 10);
        assert(plain_range("<section>\n<h2>Evidence sources</h2>\n<ul class=\"sources\">\n"@, 11, 19)) by {
            reveal_with_fuel(plain_range, 20);
        }
        lemma_plain_harmless("<section>\n<h2>Evidence sources</h2>\n<ul class=\"sources\">\n"@, 11, 19);
        lemma_harmless_one("<section>\n<h2>Evidence sources</h2>\n<ul class=\"sources\">\n"@, 30);
        assert(plain_range("<section>\n<h2>Evidence sources</h2>\n<ul class=\"sources\">\n"@, 31, 5)) by {
            reveal_with_fuel(plain_range, 6);
        }
        lemma_plain_harmless("<section>\n<h2>Evidence sources</h2>\n<ul class=\"sources\">\n"@, 31, 5);
        lemma_harmless_one("<section>\n<h2>Evidence sources</h2>\n<ul class=\"sources\">\n"@, 36);
        assert(plain_range("<section>\n<h2>Evidence sources</h2>\n<ul class=\"sources\">\n"@, 37, 9)) by {
            reveal_with_fuel(plain_range, 10);
        }
        lemma_plain_harmless("<section>\n<h2>Evidence sources</h2>\n<ul class=\"sources\">\n"@, 37, 9);
        lemma_harmless_one("<section>\n<h2>Evidence sources</h2>\n<ul class=\"sources\">\n"@, 46);
        assert(plain_range("<section>\n<h2>Evidence sources</h2>\n<ul class=\"sources\">\n"@, 47, 7)) by {
            reveal_with_fuel(plain_range, 8);
        }
        lemma_plain_harmless("<section>\n<h2>Evidence sources</h2>\n<ul class=\"sources\">\n"@, 47, 7);
        lemma_harmless_one("<section>\n<h2>Evidence sources</h2>\n<ul class=\"sources\">\n"@, 54);
        assert(plain_range("<section>\n<h2>Evidence sources</h2>\n<ul class=\"sources\">\n"@, 55, 2)) by {
            reveal_with_fuel(plain_range, 3);
        }
        lemma_plain_harmless("<section>\n<h2>Evidence sources</h2>\n<ul class=\"sources\">\n"@, 55, 2);
        lemma_harmless_range_join("<section>\n<h2>Evidence sources</h2>\n<ul class=\"sources\">\n"@, 0, 1, 9);
        lemma_harmless_range_join("<section>\n<h2>Evidence sources</h2>\n<ul class=\"sources\">\n"@, 0, 10, 1);
        lemma_harmless_range_join("<section>\n<h2>Evidence sources</h2>\n<ul class=\"sources\">\n"@, 0, 11, 19);
        lemma_harmless_range_join("<section>\n<h2>Evidence sources</h2>\n<ul class=\"sources\">\n"@, 0, 30, 1);
        lemma_harmless_range_join("<section>\n<h2>Evidence sources</h2>\n<ul class=\"sources\">\n"@, 0, 31, 5);
        lemma_harmless_range_join("<section>\n<h2>Evidence sources</h2>\n<ul class=\"sources\">\n"@, 0, 36, 1);
        lemma_harmless_range_join("<section>\n<h2>Evidence sources</h2>\n<ul class=\"sources\">\n"@, 0, 37, 9);
        lemma_harmless_range_join("<section>\n<h2>Evidence sources</h2>\n<ul class=\"sources\">\n"@, 0, 46, 1);
        lemma_harmless_range_join("<section>\n<h2>Evidence sources</h2>\n<ul class=\"sources\">\n"@, 0, 47, 7);
        lemma_harmless_range_join("<section>\n<h2>Evidence sources</h2>\n<ul class=\"sources\">\n"@, 0, 54, 1);
        lemma_harmless_range_join("<section>\n<h2>Evidence sources</h2>\n<ul class=\"sources\">\n"@, 0, 55, 2);
        lemma_harmless_sealed("<section>\n<h2>Evidence sources</h2>\n<ul class=\"sources\">\n"@);
    }
    assert(sealed("</ul>\n"@)) by {
        reveal_strlit("</ul>\n");
        assert(harmless_range("</ul>\n"@, 0, 6)) by {
            reveal_with_fuel(harmless_range, 7);
        }
        lemma_harmless_sealed("</ul>\n"@);
    }
    assert(sealed("</section>\n"@)) by {
        reveal_strlit("</section>\n");
        assert(harmless_range("</section>\n"@, 0, 11)) by {
            reveal_with_fuel(harmless_range, 12);
        }
        lemma_harmless_sealed("</section>\n"@);
    }
    assert(sealed("<section>\n<h2>Summary</h2>\n<ul class=\"counts\">\n"@)) by {
        reveal_strlit("<section>\n<h2>Summary</h2>\n<ul class=\"counts\">\n");
        lemma_harmless_one("<section>\n<h2>Summary</h2>\n<ul class=\"counts\">\n"@, 0);
        assert(plain_range("<section>\n<h2>Summary</h2>\n<ul class=\"counts\">\n"@, 1, 9)) by {
            reveal_with_fuel(plain_range, 10);
        }
        lemma_plain_harmless("<section>\n<h2>Summary</h2>\n<ul class=\"counts\">\n"@, 1, 9);
        lemma_harmless_one("<section>\n<h2>Summary</h2>\n<ul class=\"counts\">\n"@, 10);
        assert(plain_range("<section>\n<h2>Summary</h2>\n<ul class=\"counts\">\n"@, 11, 10)) by {
            reveal_with_fuel(plain_range, 11);
        }
        lemma_plain_harmless("<section>\n<h2>Summary</h2>\n<ul class=\"counts\">\n"@, 11, 10);
        lemma_harmless_one("<section>\n<h2>Summary</h2>\n<ul class=\"counts\">\n"@, 21);
        assert(plain_range("<section>\n<h2>Summary</h2>\n<ul class=\"counts\">\n"@, 22, 5)) by {
            reveal_with_fuel(plain_range, 6);
        }
        lemma_plain_harmless("<section>\n<h2>Summary</h2>\n<ul class=\"counts\">\n"@, 22, 5);
        lemma_harmless_one("<section>\n<h2>Summary</h2>\n<ul class=\"counts\">\n"@, 27);
        assert(plain_range("<section>\n<h2>Summary</h2>\n<ul class=\"counts\">\n"@, 28, 9)) by {
            reveal_with_fuel(plain_range, 10);
        }
        lemma_plain_harmless("<section>\n<h2>Summary</h2>\n<ul class=\"counts\">\n"@, 28, 9);
        lemma_harmless_one("<section>\n<h2>Summary</h2>\n<ul class=\"counts\">\n"@, 37);
        assert(plain_range("<section>\n<h2>Summary</h2>\n<ul class=\"counts\">\n"@, 38, 6)) by {
            reveal_with_fuel(plain_range, 7);
        }
        lemma_plain_harmless("<section>\n<h2>Summary</h2>\n<ul class=\"counts\">\n"@, 38, 6);
        lemma_harmless_one("<section>\n<h2>Summary</h2>\n<ul class=\"counts\">\n"@, 44);
        assert(plain_range("<section>\n<h2>Summary</h2>\n<ul class=\"counts\">\n"@, 45, 2)) by {
            reveal_with_fuel(plain_range, 3);
        }
        lemma_plain_harmless("<section>\n<h2>Summary</h2>\n<ul class=\"counts\">\n"@, 45, 2);
        lemma_harmless_range_join("<section>\n<h2>Summary</h2>\n<ul class=\"counts\">\n"@, 0, 1, 9);
        lemma_harmless_range_join("<section>\n<h2>Summary</h2>\n<ul class=\"counts\">\n"@, 0, 10, 1);
        lemma_harmless_range_join("<section>\n<h2>Summary</h2>\n<ul class=\"counts\">\n"@, 0, 11, 10);
        lemma_harmless_range_join("<section>\n<h2>Summary</h2>\n<ul class=\"counts\">\n"@, 0, 21, 1);
        lemma_harmless_range_join("<section>\n<h2>Summary</h2>\n<ul class=\"counts\">\n"@, 0, 22, 5);
        lemma_harmless_range_join("<section>\n<h2>Summary</h2>\n<ul class=\"counts\">\n"@, 0, 27, 1);
        lemma_harmless_range_join("<section>\n<h2>Summary</h2>\n<ul class=\"counts\">\n"@, 0, 28, 9);
        lemma_harmless_range_join("<section>\n<h2>Summary</h2>\n<ul class=\"counts\">\n"@, 0, 37, 1);
        lemma_harmless_range_join("<section>\n<h2>Summary</h2>\n<ul class=\"counts\">\n"@, 0, 38, 6);
        lemma_harmless_range_join("<section>\n<h2>Summary</h2>\n<ul class=\"counts\">\n"@, 0, 44, 1);
        lemma_harmless_range_join("<section>\n<h2>Summary</h2>\n<ul class=\"counts\">\n"@, 0, 45, 2);
        lemma_harmless_sealed("<section>\n<h2>Summary</h2>\n<ul class=\"counts\">\n"@);
    }
    assert(sealed("<li>Agent actions: <strong>"@)) by {
        reveal_strlit("<li>Agent actions: <strong>");
        assert(harmless_range("<li>Agent actions: <strong>"@, 0, 27)) by {
            reveal_with_fuel(harmless_range, 28);
        }
        lemma_harmless_sealed("<li>Agent actions: <strong>"@);
    }
    assert(sealed("</strong></li>\n"@)) by {
        reveal_strlit("</strong></li>\n");
        assert(harmless_range("</strong></li>\n"@, 0, 15)) by {
            reveal_with_fuel(harmless_range, 16);
        }
        lemma_harmless_sealed("</strong></li>\n"@);
    }
    assert(sealed("<li>Allowed requests: <strong>"@)) by {
        reveal_strlit("<li>Allowed requests: <strong>");
        assert(harmless_range("<li>Allowed requests: <strong>"@, 0, 30)) by {
            reveal_with_fuel(harmless_range, 31);
        }
        lemma_harmless_sealed("<li>Allowed requests: <strong>"@);
    }
    assert(sealed("<li>Denied requests: <strong>"@)) by {
        reveal_strlit("<li>Denied requests: <strong>");
        assert(harmless_range("<li>Denied requests: <strong>"@, 0, 29)) by {
            reveal_with_fuel(harmless_range, 30);
        }
        lemma_harmless_sealed("<li>Denied requests: <strong>"@);
    }
    assert(sealed("</ul>\n</section>\n"@)) by {
        reveal_strlit("</ul>\n</section>\n");
        assert(harmless_range("</ul>\n</section>\n"@, 0, 17)) by {
            reveal_with_fuel(harmless_range, 18);
        }
        lemma_harmless_sealed("</ul>\n</section>\n"@);
    }
    assert(sealed("<option value=\""@)) by {
        reveal_strlit("<option value=\"");
        assert(harmless_range("<option value=\""@, 0, 15)) by {
            reveal_with_fuel(harmless_range, 16);
        }
        lemma_harmless_sealed("<option value=\""@);
    }
    assert(sealed("</option>\n"@)) by {
        reveal_strlit("</option>\n");
        assert(harmless_range("</option>\n"@, 0, 10)) by {
            reveal_with_fuel(harmless_range, 11);
        }
        lemma_harmless_sealed("</option>\n"@);
    }
    assert(sealed("<section class=\"filters\">\n<h2>Timeline</h2>\n"@)) by {
        reveal_strlit("<section class=\"filters\">\n<h2>Timeline</h2>\n");
        lemma_harmless_one("<section class=\"filters\">\n<h2>Timeline</h2>\n"@, 0);
        assert(plain_range("<section class=\"filters\">\n<h2>Timeline</h2>\n"@, 1, 14)) by {
            reveal_with_fuel(plain_range, 15);
        }
        lemma_plain_harmless("<section class=\"filters\">\n<h2>Timeline</h2>\n"@, 1, 14);
        lemma_harmless_one("<section class=\"filters\">\n<h2>Timeline</h2>\n"@, 15);
        assert(plain_range("<section class=\"filters\">\n<h2>Timeline</h2>\n"@, 16, 7)) by {
            reveal_with_fuel(plain_range, 8);
        }
        lemma_plain_harmless("<section class=\"filters\">\n<h2>Timeline</h2>\n"@, 16, 7);
        lemma_harmless_one("<section class=\"filters\">\n<h2>Timeline</h2>\n"@, 23);
        assert(plain_range("<section class=\"filters\">\n<h2>Timeline</h2>\n"@, 24, 2)) by {
            reveal_with_fuel(plain_range, 3);
        }
        lemma_plain_harmless("<section class=\"filters\">\n<h2>Timeline</h2>\n"@, 24, 2);
        lemma_harmless_one("<section class=\"filters\">\n<h2>Timeline</h2>\n"@, 26);
        assert(plain_range("<section class=\"filters\">\n<h2>Timeline</h2>\n"@, 27, 11)) by {
            reveal_with_fuel(plain_range, 12);
        }
        lemma_plain_harmless("<section class=\"filters\">\n<h2>Timeline</h2>\n"@, 27, 11);
        lemma_harmless_one("<section class=\"filters\">\n<h2>Timeline</h2>\n"@, 38);
        assert(plain_range("<section class=\"filters\">\n<h2>Timeline</h2>\n"@, 39, 5)) by {
            reveal_with_fuel(plain_range, 6);
        }
        lemma_plain_harmless("<section class=\"filters\">\n<h2>Timeline</h2>\n"@, 39, 5);
        lemma_harmless_range_join("<section class=\"filters\">\n<h2>Timeline</h2>\n"@, 0, 1, 14);
        lemma_harmless_range_join("<section class=\"filters\">\n<h2>Timeline</h2>\n"@, 0, 15, 1);
        lemma_harmless_range_join("<section class=\"filters\">\n<h2>Timeline</h2>\n"@, 0, 16, 7);
        lemma_harmless_range_join("<section class=\"filters\">\n<h2>Timeline</h2>\n"@, 0, 23, 1);
        lemma_harmless_range_join("<section class=\"filters\">\n<h2>Timeline</h2>\n"@, 0, 24, 2);
        lemma_harmless_range_join("<section class=\"filters\">\n<h2>Timeline</h2>\n"@, 0, 26, 1);
        lemma_harmless_range_join("<section class=\"filters\">\n<h2>Timeline</h2>\n"@, 0, 27, 11);
        lemma_harmless_range_join("<section class=\"filters\">\n<h2>Timeline</h2>\n"@, 0, 38, 1);
        lemma_harmless_range_join("<section class=\"filters\">\n<h2>Timeline</h2>\n"@, 0, 39, 5);
        lemma_harmless_sealed("<section class=\"filters\">\n<h2>Timeline</h2>\n"@);
    }
    assert(sealed("<div class=\"filter-bar\">\n"@)) by {
        reveal_strlit("<div class=\"filter-bar\">\n");
        assert(harmless_range("<div class=\"filter-bar\">\n"@, 0, 25)) by {
            reveal_with_fuel(harmless_range, 26);
        }
        lemma_harmless_sealed("<div class=\"filter-bar\">\n"@);
    }
    assert(sealed("<label>Event type <select id=\"filter-type\">\n"@)) by {
        reveal_strlit("<label>Event type <select id=\"filter-type\">\n");
        lemma_harmless_one("<label>Event type <select id=\"filter-type\">\n"@, 0);
        assert(plain_range("<label>Event type <select id=\"filter-type\">\n"@, 1, 17)) by {
            reveal_with_fuel(plain_range, 18);
        }
        lemma_plain_harmless("<label>Event type <select id=\"filter-type\">\n"@, 1, 17);
        lemma_harmless_one("<label>Event type <select id=\"filter-type\">\n"@, 18);
        assert(plain_range("<label>Event type <select id=\"filter-type\">\n"@, 19, 10)) by {
            reveal_with_fuel(plain_range, 11);
        }
        lemma_plain_harmless("<label>Event type <select id=\"filter-type\">\n"@, 19, 10);
        lemma_harmless_one("<label>Event type <select id=\"filter-type\">\n"@, 29);
        assert(plain_range("<label>Event type <select id=\"filter-type\">\n"@, 30, 11)) by {
            reveal_with_fuel(plain_range, 12);
        }
        lemma_plain_harmless("<label>Event type <select id=\"filter-type\">\n"@, 30, 11);
        lemma_harmless_one("<label>Event type <select id=\"filter-type\">\n"@, 41);
        assert(plain_range("<label>Event type <select id=\"filter-type\">\n"@, 42, 2)) by {
            reveal_with_fuel(plain_range, 3);
        }
        lemma_plain_harmless("<label>Event type <select id=\"filter-type\">\n"@, 42, 2);
        lemma_harmless_range_join("<label>Event type <select id=\"filter-type\">\n"@, 0, 1, 17);
        lemma_harmless_range_join("<label>Event type <select id=\"filter-type\">\n"@, 0, 18, 1);
        lemma_harmless_range_join("<label>Event type <select id=\"filter-type\">\n"@, 0, 19, 10);
        lemma_harmless_range_join("<label>Event type <select id=\"filter-type\">\n"@, 0, 29, 1);
        lemma_harmless_range_join("<label>Event type <select id=\"filter-type\">\n"@, 0, 30, 11);
        lemma_harmless_range_join("<label>Event type <select id=\"filter-type\">\n"@, 0, 41, 1);
        lemma_harmless_range_join("<label>Event type <select id=\"filter-type\">\n"@, 0, 42, 2);
        lemma_harmless_sealed("<label>Event type <select id=\"filter-type\">\n"@);
    }
    assert(sealed("<option value=\"all\">All</option>\n"@)) by {
        reveal_strlit("<option value=\"all\">All</option>\n");
        lemma_harmless_one("<option value=\"all\">All</option>\n"@, 0);
        assert(plain_range("<option value=\"all\">All</option>\n"@, 1, 13)) by {
            reveal_with_fuel(plain_range, 14);
        }
        lemma_plain_harmless("<option value=\"all\">All</option>\n"@, 1, 13);
        lemma_harmless_one("<option value=\"all\">All</option>\n"@, 14);
        assert(plain_range("<option value=\"all\">All</option>\n"@, 15, 3)) by {
            reveal_with_fuel(plain_range, 4);
        }
        lemma_plain_harmless("<option value=\"all\">All</option>\n"@, 15, 3);
        lemma_harmless_one("<option value=\"all\">All</option>\n"@, 18);
        assert(plain_range("<option value=\"all\">All</option>\n"@, 19, 4)) by {
            reveal_with_fuel(plain_range, 5);
        }
        lemma_plain_harmless("<option value=\"all\">All</option>\n"@, 19, 4);
        lemma_harmless_one("<option value=\"all\">All</option>\n"@, 23);
        assert(plain_range("<option value=\"all\">All</option>\n"@, 24, 9)) by {
            reveal_with_fuel(plain_range, 10);
        }
        lemma_plain_harmless("<option value=\"all\">All</option>\n"@, 24, 9);
        lemma_harmless_range_join("<option value=\"all\">All</option>\n"@, 0, 1, 13);
        lemma_harmless_range_join("<option value=\"all\">All</option>\n"@, 0, 14, 1);
        lemma_harmless_range_join("<option value=\"all\">All</option>\n"@, 0, 15, 3);
        lemma_harmless_range_join("<option value=\"all\">All</option>\n"@, 0, 18, 1);
        lemma_harmless_range_join("<option value=\"all\">All</option>\n"@, 0, 19, 4);
        lemma_harmless_range_join("<option value=\"all\">All</option>\n"@, 0, 23, 1);
        lemma_harmless_range_join("<option value=\"all\">All</option>\n"@, 0, 24, 9);
        lemma_harmless_sealed("<option value=\"all\">All</option>\n"@);
    }
    assert(sealed("</select></label>\n"@)) by {
        reveal_strlit("</select></label>\n");
        assert(harmless_range("</select></label>\n"@, 0, 18)) by {
            reveal_with_fuel(harmless_range, 19);
        }
        lemma_harmless_sealed("</select></label>\n"@);
    }
    assert(sealed("</div>\n"@)) by {
        reveal_strlit("</div>\n");
        assert(harmless_range("</div>\n"@, 0, 7)) by {
            reveal_with_fuel(harmless_range, 8);
        }
        lemma_harmless_sealed("</div>\n"@);
    }
    assert(sealed(" — "@)) by {
        reveal_strlit(" — ");
        assert(harmless_range(" — "@, 0, 3)) by {
            reveal_with_fuel(harmless_range, 4);
        }
        lemma_harmless_sealed(" — "@);
    }
    assert(sealed("<li><code>"@)) by {
        reveal_strlit("<li><code>");
        assert(harmless_range("<li><code>"@, 0, 10)) by {
            reveal_with_fuel(harmless_range, 11);
        }
        lemma_harmless_sealed("<li><code>"@);
    }
}

/// The fixed markup of event details is sealed.
#[verifier::rlimit(100)]
proof fn lemma_detail_markup_sealed()
    ensures
        sealed("</code>: "@),
        sealed("</li>"@),
        sealed(" "@),
        sealed(" <span class=\"initiator\">"@),
        sealed("</span> "@),
        sealed("<span class=\"badge allowed\">Allowed</span>"@),
        sealed("<span class=\"badge denied\">Denied</span>"@),
        sealed(" · error "@),
        sealed(" · no response"@),
        sealed("helper "@),
        sealed("unsupported kind "@),
        sealed("<ul class=\"unknown-fields\">"@),
        sealed("</ul>"@),
        sealed("state "@),
        sealed("verb "@),
        sealed("verb ! "@),
        sealed("refused "@),
        sealed("control → "@),
        sealed("allowed"@),
{
    reveal_strlit("<link");
    reveal_strlit("<img");
    reveal_strlit("<iframe");
    reveal_strlit("http");
    reveal_strlit("href=");
    reveal_strlit("src=");
    reveal_strlit("<script");
    reveal_strlit("</script");
    reveal_strlit("<style");
    assert(sealed("</code>: "@)) by {
        reveal_strlit("</code>: ");
        assert(harmless_range("</code>: "@, 0, 9)) by {
            reveal_with_fuel(harmless_range, 10);
        }
        lemma_harmless_sealed("</code>: "@);
    }
    assert(sealed("</li>"@)) by {
        reveal_strlit("</li>");
        assert(harmless_range("</li>"@, 0, 5)) by {
            reveal_with_fuel(harmless_range, 6);
        }
        lemma_harmless_sealed("</li>"@);
    }
    assert(sealed(" "@)) by {
        reveal_strlit(" ");
        assert(harmless_range(" "@, 0, 1)) by {
            reveal_with_fuel(harmless_range, 2);
        }
        lemma_harmless_sealed(" "@);
    }
    assert(sealed(" <span class=\"initiator\">"@)) by {
        reveal_strlit(" <span class=\"initiator\">");
        assert(harmless_range(" <span class=\"initiator\">"@, 0, 25)) by {
            reveal_with_fuel(harmless_range, 26);
        }
        lemma_harmless_sealed(" <span class=\"initiator\">"@);
    }
    assert(sealed("</span> "@)) by {
        reveal_strlit("</span> ");
        assert(harmless_range("</span> "@, 0, 8)) by {
            reveal_with_fuel(harmless_range, 9);
        }
        lemma_harmless_sealed("</span> "@);
    }
    assert(sealed("<span class=\"badge allowed\">Allowed</span>"@)) by {
        reveal_strlit("<span class=\"badge allowed\">Allowed</span>");
        lemma_harmless_one("<span class=\"badge allowed\">Allowed</span>"@, 0);
        assert(plain_range("<span class=\"badge allowed\">Allowed</span>"@, 1, 11)) by {
            reveal_with_fuel(plain_range, 12);
        }
        lemma_plain_harmless("<span class=\"badge allowed\">Allowed</span>"@, 1, 11);
        lemma_harmless_one("<span class=\"badge allowed\">Allowed</span>"@, 12);
        assert(plain_range("<span class=\"badge allowed\">Allowed</span>"@, 13, 13)) by {
            reveal_with_fuel(plain_range, 14);
        }
        lemma_plain_harmless("<span class=\"badge allowed\">Allowed</span>"@, 13, 13);
        lemma_harmless_one("<span class=\"badge allowed\">Allowed</span>"@, 26);
        assert(plain_range("<span class=\"badge allowed\">Allowed</span>"@, 27, 8)) by {
            reveal_with_fuel(plain_range, 9);
        }
        lemma_plain_harmless("<span class=\"badge allowed\">Allowed</span>"@, 27, 8);
        lemma_harmless_one("<span class=\"badge allowed\">Allowed</span>"@, 35);
        assert(plain_range("<span class=\"badge allowed\">Allowed</span>"@, 36, 6)) by {
            reveal_with_fuel(plain_range, 7);
        }
        lemma_plain_harmless("<span class=\"badge allowed\">Allowed</span>"@, 36, 6);
        lemma_harmless_range_join("<span class=\"badge allowed\">Allowed</span>"@, 0, 1, 11);
        lemma_harmless_range_join("<span class=\"badge allowed\">Allowed</span>"@, 0, 12, 1);
        lemma_harmless_range_join("<span class=\"badge allowed\">Allowed</span>"@, 0, 13, 13);
        lemma_harmless_range_join("<span class=\"badge allowed\">Allowed</span>"@, 0, 26, 1);
        lemma_harmless_range_join("<span class=\"badge allowed\">Allowed</span>"@, 0, 27, 8);
        lemma_harmless_range_join("<span class=\"badge allowed\">Allowed</span>"@, 0, 35, 1);
        lemma_harmless_range_join("<span class=\"badge allowed\">Allowed</span>"@, 0, 36, 6);
        lemma_harmless_sealed("<span class=\"badge allowed\">Allowed</span>"@);
    }
    assert(sealed("<span class=\"badge denied\">Denied</span>"@)) by {
        reveal_strlit("<span class=\"badge denied\">Denied</span>");
        lemma_harmless_one("<span class=\"badge denied\">Denied</span>"@, 0);
        assert(plain_range("<span class=\"badge denied\">Denied</span>"@, 1, 11)) by {
            reveal_with_fuel(plain_range, 12);
        }
        lemma_plain_harmless("<span class=\"badge denied\">Denied</span>"@, 1, 11);
        lemma_harmless_one("<span class=\"badge denied\">Denied</span>"@, 12);
        assert(plain_range("<span class=\"badge denied\">Denied</span>"@, 13, 12)) by {
            reveal_with_fuel(plain_range, 13);
        }
        lemma_plain_harmless("<span class=\"badge denied\">Denied</span>"@, 13, 12);
        lemma_harmless_one("<span class=\"badge denied\">Denied</span>"@, 25);
        assert(plain_range("<span class=\"badge denied\">Denied</span>"@, 26, 7)) by {
            reveal_with_fuel(plain_range, 8);
        }
        lemma_plain_harmless("<span class=\"badge denied\">Denied</span>"@, 26, 7);
        lemma_harmless_one("<span class=\"badge denied\">Denied</span>"@, 33);
        assert(plain_range("<span class=\"badge denied\">Denied</span>"@, 34, 6)) by {
            reveal_with_fuel(plain_range, 7);
        }
        lemma_plain_harmless("<span class=\"badge denied\">Denied</span>"@, 34, 6);
        lemma_harmless_range_join("<span class=\"badge denied\">Denied</span>"@, 0, 1, 11);
        lemma_harmless_range_join("<span class=\"badge denied\">Denied</span>"@, 0, 12, 1);
        lemma_harmless_range_join("<span class=\"badge denied\">Denied</span>"@, 0, 13, 12);
        lemma_harmless_range_join("<span class=\"badge denied\">Denied</span>"@, 0, 25, 1);
        lemma_harmless_range_join("<span class=\"badge denied\">Denied</span>"@, 0, 26, 7);
        lemma_harmless_range_join("<span class=\"badge denied\">Denied</span>"@, 0, 33, 1);
        lemma_harmless_range_join("<span class=\"badge denied\">Denied</span>"@, 0, 34, 6);
        lemma_harmless_sealed("<span class=\"badge denied\">Denied</span>"@);
    }
    assert(sealed(" · error "@)) by {
        reveal_strlit(" · error ");
        assert(harmless_range(" · error "@, 0, 9)) by {
            reveal_with_fuel(harmless_range, 10);
        }
        lemma_harmless_sealed(" · error "@);
    }
    assert(sealed(" · no response"@)) by {
        reveal_strlit(" · no response");
        assert(harmless_range(" · no response"@, 0, 14)) by {
            reveal_with_fuel(harmless_range, 15);
        }
        lemma_harmless_sealed(" · no response"@);
    }
    assert(sealed("helper "@)) by {
        reveal_strlit("helper ");
        assert(harmless_range("helper "@, 0, 7)) by {
            reveal_with_fuel(harmless_range, 8);
        }
        lemma_harmless_sealed("helper "@);
    }
    assert(sealed("unsupported kind "@)) by {
        reveal_strlit("unsupported kind ");
        assert(harmless_range("unsupported kind "@, 0, 17)) by {
            reveal_with_fuel(harmless_range, 18);
        }
        lemma_harmless_sealed("unsupported kind "@);
    }
    assert(sealed("<ul class=\"unknown-fields\">"@)) by {
        reveal_strlit("<ul class=\"unknown-fields\">");
        assert(harmless_range("<ul class=\"unknown-fields\">"@, 0, 27)) by {
            reveal_with_fuel(harmless_range, 28);
        }
        lemma_harmless_sealed("<ul class=\"unknown-fields\">"@);
    }
    assert(sealed("</ul>"@)) by {
        reveal_strlit("</ul>");
        assert(harmless_range("</ul>"@, 0, 5)) by {
            reveal_with_fuel(harmless_range, 6);
        }
        lemma_harmless_sealed("</ul>"@);
    }
    assert(sealed("state "@)) by {
        reveal_strlit("state ");
        assert(harmless_range("state "@, 0, 6)) by {
            reveal_with_fuel(harmless_range, 7);
        }
        lemma_harmless_sealed("state "@);
    }
    assert(sealed("verb "@)) by {
        reveal_strlit("verb ");
        assert(harmless_range("verb "@, 0, 5)) by {
            reveal_with_fuel(harmless_range, 6);
        }
        lemma_harmless_sealed("verb "@);
    }
    assert(sealed("verb ! "@)) by {
        reveal_strlit("verb ! ");
        assert(harmless_range("verb ! "@, 0, 7)) by {
            reveal_with_fuel(harmless_range, 8);
        }
        lemma_harmless_sealed("verb ! "@);
    }
    assert(sealed("refused "@)) by {
        reveal_strlit("refused ");
        assert(harmless_range("refused "@, 0, 8)) by {
            reveal_with_fuel(harmless_range, 9);
        }
        lemma_harmless_sealed("refused "@);
    }
    assert(sealed("control → "@)) by {
        reveal_strlit("control → ");
        assert(harmless_range("control → "@, 0, 10)) by {
            reveal_with_fuel(harmless_range, 11);
        }
        lemma_harmless_sealed("control → "@);
    }
    assert(sealed("allowed"@)) by {
        reveal_strlit("allowed");
        assert(harmless_range("allowed"@, 0, 7)) by {
            reveal_with_fuel(harmless_range, 8);
        }
        lemma_harmless_sealed("allowed"@);
    }
}

/// The fixed markup of timeline entries is sealed.
#[verifier::rlimit(100)]
proof fn lemma_event_markup_sealed()
    ensures
        sealed("denied"@),
        sealed(" decision-allowed"@),
        sealed(" decision-denied"@),
        sealed("<li class=\"event"@),
        sealed("\" data-event data-kind=\""@),
        sealed("\" data-decision=\""@),
        sealed("\">\n"@),
        sealed(" <span class=\"caused\">caused by #"@),
        sealed("</span>"@),
        sealed(" <span class=\"claimed\">claimed "@),
        sealed("<div class=\"meta\">"@),
        sealed("<span class=\"eid\">#"@),
        sealed("<time>"@),
        sealed("</time> "@),
        sealed("<span class=\"lane "@),
        sealed("<span class=\"grade\">"@),
        sealed("<span class=\"kind\">"@),
        sealed("<div class=\"detail\">"@),
        sealed("</div>\n</li>\n"@),
        sealed("<ol class=\"timeline\" id=\"timeline\">\n"@),
        sealed("</ol>\n</section>\n"@),
{
    reveal_strlit("<link");
    reveal_strlit("<img");
    reveal_strlit("<iframe");
    reveal_strlit("http");
    reveal_strlit("href=");
    reveal_strlit("src=");
    reveal_strlit("<script");
    reveal_strlit("</script");
    reveal_strlit("<style");
    assert(sealed("denied"@)) by {
        reveal_strlit("denied");
        assert(harmless_range("denied"@, 0, 6)) by {
            reveal_with_fuel(harmless_range, 7);
        }
        lemma_harmless_sealed("denied"@);
    }
    assert(sealed(" decision-allowed"@)) by {
        reveal_strlit(" decision-allowed");
        assert(harmless_range(" decision-allowed"@, 0, 17)) by {
            reveal_with_fuel(harmless_range, 18);
        }
        lemma_harmless_sealed(" decision-allowed"@);
    }
    assert(sealed(" decision-denied"@)) by {
        reveal_strlit(" decision-denied");
        assert(harmless_range(" decision-denied"@, 0, 16)) by {
            reveal_with_fuel(harmless_range, 17);
        }
        lemma_harmless_sealed(" decision-denied"@);
    }
    assert(sealed("<li class=\"event"@)) by {
        reveal_strlit("<li class=\"event");
        assert(harmless_range("<li class=\"event"@, 0, 16)) by {
            reveal_with_fuel(harmless_range, 17);
        }
        lemma_harmless_sealed("<li class=\"event"@);
    }
    assert(sealed("\" data-event data-kind=\""@)) by {
        reveal_strlit("\" data-event data-kind=\"");
        assert(harmless_range("\" data-event data-kind=\""@, 0, 24)) by {
            reveal_with_fuel(harmless_range, 25);
        }
        lemma_harmless_sealed("\" data-event data-kind=\""@);
    }
    assert(sealed("\" data-decision=\""@)) by {
        reveal_strlit("\" data-decision=\"");
        assert(harmless_range("\" data-decision=\""@, 0, 17)) by {
            reveal_with_fuel(harmless_range, 18);
        }
        lemma_harmless_sealed("\" data-decision=\""@);
    }
    assert(sealed("\">\n"@)) by {
        reveal_strlit("\">\n");
        assert(harmless_range("\">\n"@, 0, 3)) by {
            reveal_with_fuel(harmless_range, 4);
        }
        lemma_harmless_sealed("\">\n"@);
    }
    assert(sealed(" <span class=\"caused\">caused by #"@)) by {
        reveal_strlit(" <span class=\"caused\">caused by #");
        assert(plain_range(" <span class=\"caused\">caused by #"@, 0, 1)) by {
            reveal_with_fuel(plain_range, 2);
        }
        lemma_plain_harmless(" <span class=\"caused\">caused by #"@, 0, 1);
        lemma_harmless_one(" <span class=\"caused\">caused by #"@, 1);
        assert(plain_range(" <span class=\"caused\">caused by #"@, 2, 11)) by {
            reveal_with_fuel(plain_range, 12);
        }
        lemma_plain_harmless(" <span class=\"caused\">caused by #"@, 2, 11);
        lemma_harmless_one(" <span class=\"caused\">caused by #"@, 13);
        assert(plain_range(" <span class=\"caused\">caused by #"@, 14, 6)) by {
            reveal_with_fuel(plain_range, 7);
        }
        lemma_plain_harmless(" <span class=\"caused\">caused by #"@, 14, 6);
        lemma_harmless_one(" <span class=\"caused\">caused by #"@, 20);
        assert(plain_range(" <span class=\"caused\">caused by #"@, 21, 12)) by {
            reveal_with_fuel(plain_range, 13);
        }
        lemma_plain_harmless(" <span class=\"caused\">caused by #"@, 21, 12);
        lemma_harmless_range_join(" <span class=\"caused\">caused by #"@, 0, 1, 1);
        lemma_harmless_range_join(" <span class=\"caused\">caused by #"@, 0, 2, 11);
        lemma_harmless_range_join(" <span class=\"caused\">caused by #"@, 0, 13, 1);
        lemma_harmless_range_join(" <span class=\"caused\">caused by #"@, 0, 14, 6);
        lemma_harmless_range_join(" <span class=\"caused\">caused by #"@, 0, 20, 1);
        lemma_harmless_range_join(" <span class=\"caused\">caused by #"@, 0, 21, 12);
        lemma_harmless_sealed(" <span class=\"caused\">caused by #"@);
    }
    assert(sealed("</span>"@)) by {
        reveal_strlit("</span>");
        assert(harmless_range("</span>"@, 0, 7)) by {
            reveal_with_fuel(harmless_range, 8);
        }
        lemma_harmless_sealed("</span>"@);
    }
    assert(sealed(" <span class=\"claimed\">claimed "@)) by {
        reveal_strlit(" <span class=\"claimed\">claimed ");
        assert(harmless_range(" <span class=\"claimed\">claimed "@, 0, 31)) by {
            reveal_with_fuel(harmless_range, 32);
        }
        lemma_harmless_sealed(" <span class=\"claimed\">claimed "@);
    }
    assert(sealed("<div class=\"meta\">"@)) by {
        reveal_strlit("<div class=\"meta\">");
        assert(harmless_range("<div class=\"meta\">"@, 0, 18)) by {
            reveal_with_fuel(harmless_range, 19);
        }
        lemma_harmless_sealed("<div class=\"meta\">"@);
    }
    assert(sealed("<span class=\"eid\">#"@)) by {
        reveal_strlit("<span class=\"eid\">#");
        assert(harmless_range("<span class=\"eid\">#"@, 0, 19)) by {
            reveal_with_fuel(harmless_range, 20);
        }
        lemma_harmless_sealed("<span class=\"eid\">#"@);
    }
    assert(sealed("<time>"@)) by {
        reveal_strlit("<time>");
        assert(harmless_range("<time>"@, 0, 6)) by {
            reveal_with_fuel(harmless_range, 7);
        }
        lemma_harmless_sealed("<time>"@);
    }
    assert(sealed("</time> "@)) by {
        reveal_strlit("</time> ");
        assert(harmless_range("</time> "@, 0, 8)) by {
            reveal_with_fuel(harmless_range, 9);
        }
        lemma_harmless_sealed("</time> "@);
    }
    assert(sealed("<span class=\"lane "@)) by {
        reveal_strlit("<span class=\"lane ");
        assert(harmless_range("<span class=\"lane "@, 0, 18)) by {
            reveal_with_fuel(harmless_range, 19);
        }
        lemma_harmless_sealed("<span class=\"lane "@);
    }
    assert(sealed("<span class=\"grade\">"@)) by {
        reveal_strlit("<span class=\"grade\">");
        assert(harmless_range("<span class=\"grade\">"@, 0, 20)) by {
            reveal_with_fuel(harmless_range, 21);
        }
        lemma_harmless_sealed("<span class=\"grade\">"@);
    }
    assert(sealed("<span class=\"kind\">"@)) by {
        reveal_strlit("<span class=\"kind\">");
        assert(harmless_range("<span class=\"kind\">"@, 0, 19)) by {
            reveal_with_fuel(harmless_range, 20);
        }
        lemma_harmless_sealed("<span class=\"kind\">"@);
    }
    assert(sealed("<div class=\"detail\">"@)) by {
        reveal_strlit("<div class=\"detail\">");
        assert(harmless_range("<div class=\"detail\">"@, 0, 20)) by {
            reveal_with_fuel(harmless_range, 21);
        }
        lemma_harmless_sealed("<div class=\"detail\">"@);
    }
    assert(sealed("</div>\n</li>\n"@)) by {
        reveal_strlit("</div>\n</li>\n");
        assert(harmless_range("</div>\n</li>\n"@, 0, 13)) by {
            reveal_with_fuel(harmless_range, 14);
        }
        lemma_harmless_sealed("</div>\n</li>\n"@);
    }
    assert(sealed("<ol class=\"timeline\" id=\"timeline\">\n"@)) by {
        reveal_strlit("<ol class=\"timeline\" id=\"timeline\">\n");
        lemma_harmless_one("<ol class=\"timeline\" id=\"timeline\">\n"@, 0);
        assert(plain_range("<ol class=\"timeline\" id=\"timeline\">\n"@, 1, 9)) by {
            reveal_with_fuel(plain_range, 10);
        }
        lemma_plain_harmless("<ol class=\"timeline\" id=\"timeline\">\n"@, 1, 9);
        lemma_harmless_one("<ol class=\"timeline\" id=\"timeline\">\n"@, 10);
        assert(plain_range("<ol class=\"timeline\" id=\"timeline\">\n"@, 11, 8)) by {
            reveal_with_fuel(plain_range, 9);
        }
        lemma_plain_harmless("<ol class=\"timeline\" id=\"timeline\">\n"@, 11, 8);
        lemma_harmless_one("<ol class=\"timeline\" id=\"timeline\">\n"@, 19);
        assert(plain_range("<ol class=\"timeline\" id=\"timeline\">\n"@, 20, 4)) by {
            reveal_with_fuel(plain_range, 5);
        }
        lemma_plain_harmless("<ol class=\"timeline\" id=\"timeline\">\n"@, 20, 4);
        lemma_harmless_one("<ol class=\"timeline\" id=\"timeline\">\n"@, 24);
        assert(plain_range("<ol class=\"timeline\" id=\"timeline\">\n"@, 25, 8)) by {
            reveal_with_fuel(plain_range, 9);
        }
        lemma_plain_harmless("<ol class=\"timeline\" id=\"timeline\">\n"@, 25, 8);
        lemma_harmless_one("<ol class=\"timeline\" id=\"timeline\">\n"@, 33);
        assert(plain_range("<ol class=\"timeline\" id=\"timeline\">\n"@, 34, 2)) by {
            reveal_with_fuel(plain_range, 3);
        }
        lemma_plain_harmless("<ol class=\"timeline\" id=\"timeline\">\n"@, 34, 2);
        lemma_harmless_range_join("<ol class=\"timeline\" id=\"timeline\">\n"@, 0, 1, 9);
        lemma_harmless_range_join("<ol class=\"timeline\" id=\"timeline\">\n"@, 0, 10, 1);
        lemma_harmless_range_join("<ol class=\"timeline\" id=\"timeline\">\n"@, 0, 11, 8);
        lemma_harmless_range_join("<ol class=\"timeline\" id=\"timeline\">\n"@, 0, 19, 1);
        lemma_harmless_range_join("<ol class=\"timeline\" id=\"timeline\">\n"@, 0, 20, 4);
        lemma_harmless_range_join("<ol class=\"timeline\" id=\"timeline\">\n"@, 0, 24, 1);
        lemma_harmless_range_join("<ol class=\"timeline\" id=\"timeline\">\n"@, 0, 25, 8);
        lemma_harmless_range_join("<ol class=\"timeline\" id=\"timeline\">\n"@, 0, 33, 1);
        lemma_harmless_range_join("<ol class=\"timeline\" id=\"timeline\">\n"@, 0, 34, 2);
        lemma_harmless_sealed("<ol class=\"timeline\" id=\"timeline\">\n"@);
    }
    assert(sealed("</ol>\n</section>\n"@)) by {
        reveal_strlit("</ol>\n</section>\n");
        assert(harmless_range("</ol>\n</section>\n"@, 0, 17)) by {
            reveal_with_fuel(harmless_range, 18);
        }
        lemma_harmless_sealed("</ol>\n</section>\n"@);
    }
}

proof fn lemma_session_sealed(s: SessionModel)
    ensures
        sealed(session_html(s)),
{
    broadcast use group_sealed;

    lemma_label_markup_sealed();
    lemma_summary_markup_sealed();
    lemma_detail_markup_sealed();
    lemma_empty_sealed();
}

proof fn lemma_sources_sealed(src: SourcesModel, dropped: u64)
    ensures
        sealed(sources_html(src, dropped)),
{
    broadcast use group_sealed;

    lemma_label_markup_sealed();
    lemma_summary_markup_sealed();
    lemma_detail_markup_sealed();
    lemma_event_markup_sealed();
    lemma_empty_sealed();
}

proof fn lemma_counts_sealed(es: Seq<EventModel>)
    ensures
        sealed(counts_html(es)),
{
    broadcast use group_sealed;

    lemma_label_markup_sealed();
    lemma_summary_markup_sealed();
    lemma_detail_markup_sealed();
}

proof fn lemma_options_sealed(ks: Seq<Seq<char>>)
    ensures
        sealed(options_html(ks)),
    decreases ks.len(),
{
    broadcast use group_sealed;

    lemma_label_markup_sealed();
    lemma_summary_markup_sealed();
    lemma_detail_markup_sealed();
    lemma_empty_sealed();
    if ks.len() > 0 {
        lemma_options_sealed(ks.drop_last());
    }
}

proof fn lemma_filters_sealed(es: Seq<EventModel>)
    ensures
        sealed(filters_html(es)),
{
    broadcast use group_sealed;

    lemma_label_markup_sealed();
    lemma_summary_markup_sealed();
    lemma_detail_markup_sealed();
    lemma_frame_sealed();
    lemma_options_sealed(crate::render::distinct_kinds(es));
}

proof fn lemma_field_items_sealed(fields: Members)
    ensures
        sealed(field_items_html(fields)),
    decreases fields.len(),
{
    broadcast use group_sealed;

    lemma_label_markup_sealed();
    lemma_summary_markup_sealed();
    lemma_detail_markup_sealed();
    lemma_event_markup_sealed();
    lemma_empty_sealed();
    if fields.len() > 0 {
        lemma_field_items_sealed(fields.drop_last());
    }
}

proof fn lemma_detail_sealed(k: EventKindModel)
    ensures
        sealed(detail_html(k)),
{
    broadcast use group_sealed;

    lemma_label_markup_sealed();
    lemma_summary_markup_sealed();
    lemma_detail_markup_sealed();
    lemma_event_markup_sealed();
    lemma_empty_sealed();
    if let EventKindModel::Unknown { fields, .. } = k {
        lemma_field_items_sealed(fields);
    }
}

proof fn lemma_event_sealed(e: EventModel)
    ensures
        sealed(event_html(e)),
{
    broadcast use group_sealed;

    reveal(event_html);
    lemma_label_markup_sealed();
    lemma_summary_markup_sealed();
    lemma_detail_markup_sealed();
    lemma_event_markup_sealed();
    lemma_empty_sealed();
    lemma_detail_sealed(e.kind);
}

proof fn lemma_events_sealed(es: Seq<EventModel>)
    ensures
        sealed(events_html(es)),
    decreases es.len(),
{
    broadcast use group_sealed;

    lemma_empty_sealed();
    if es.len() > 0 {
        lemma_events_sealed(es.drop_last());
        lemma_event_sealed(es.last());
    }
}

proof fn lemma_timeline_sealed(es: Seq<EventModel>)
    ensures
        sealed(timeline_html(es)),
{
    broadcast use group_sealed;

    lemma_event_markup_sealed();
    lemma_events_sealed(es);
}

/// The body of a report: everything between the tag that opens the style sheet and the one
/// that opens the script.
#[verifier::opaque]
pub open spec fn report_body(a: AuditModel) -> Seq<char> {
    CSS@ + STYLE_CLOSE@ + PAGE_HEADER@ + session_html(a.session) + sources_html(a.sources, a.dropped)
        + counts_html(a.events) + filters_html(a.events) + timeline_html(a.events)
}

proof fn lemma_report_body_sealed(a: AuditModel)
    ensures
        sealed(report_body(a)),
{
    broadcast use group_sealed;

    reveal(report_body);
    lemma_style_sheet_sealed();
    lemma_frame_sealed();
    lemma_session_sealed(a.session);
    lemma_sources_sealed(a.sources, a.dropped);
    lemma_counts_sealed(a.events);
    lemma_filters_sealed(a.events);
    lemma_timeline_sealed(a.events);
}

proof fn lemma_regroup(
    h: Seq<char>,
    e: Seq<char>,
    so: Seq<char>,
    c1: Seq<char>,
    c2: Seq<char>,
    c3: Seq<char>,
    c4: Seq<char>,
    c5: Seq<char>,
    c6: Seq<char>,
    c7: Seq<char>,
    c8: Seq<char>,
    sc: Seq<char>,
    js: Seq<char>,
    pt: Seq<char>,
)
    ensures
        h + (e + so + c1 + c2 + c3 + c4 + c5 + c6 + c7 + c8 + sc + js) + pt == h + e + so + (c1
            + c2 + c3 + c4 + c5 + c6 + c7 + c8) + sc + js + pt,
{
    assert(h + (e + so + c1 + c2 + c3 + c4 + c5 + c6 + c7 + c8 + sc + js) + pt =~= h + e + so + (c1
        + c2 + c3 + c4 + c5 + c6 + c7 + c8) + sc + js + pt);
}

/// A report, piece by piece.
pub proof fn lemma_report_pieces(a: AuditModel)
    ensures
        report_html(a) == PAGE_HEAD@ + escape(a.session.id) + STYLE_OPEN@ + report_body(a)
            + SCRIPT_OPEN@ + JS@ + PAGE_TAIL@,
{
    reveal(report_middle);
    reveal(report_body);
    lemma_regroup(
        PAGE_HEAD@,
        escape(a.session.id),
        STYLE_OPEN@,
        CSS@,
        STYLE_CLOSE@,
        PAGE_HEADER@,
        session_html(a.session),
        sources_html(a.sources, a.dropped),
        counts_html(a.events),
        filters_html(a.events),
        timeline_html(a.events),
        SCRIPT_OPEN@,
        JS@,
        PAGE_TAIL@,
    );
}

/// The tag that opens the style sheet loads nothing, opens no script and closes none, and
/// `<style` starts in it once, after `</title>` and a line break.
proof fn lemma_style_open()
    ensures
        loads_nothing(STYLE_OPEN@),
        no_start(STYLE_OPEN@, "<script"@),
        no_start(STYLE_OPEN@, "</script"@),
        occurs_at(STYLE_OPEN@, 9, "<style"@),
        cut_range(STYLE_OPEN@, 0, 9, "<style"@),
        cut_range(STYLE_OPEN@, 10, 7, "<style"@),
        STYLE_OPEN@.len() == 17,
{
    reveal_strlit("</title>\n<style>\n");
    reveal_strlit("<link");
    reveal_strlit("<img");
    reveal_strlit("<iframe");
    reveal_strlit("<script");
    reveal_strlit("</script");
    reveal_strlit("<style");
    let s = STYLE_OPEN@;
    reveal_with_fuel(cut_range, 18);
    reveal_with_fuel(unquoted_range, 18);
    assert(cut_range(s, 0, 17, "<link"@));
    assert(cut_range(s, 0, 17, "<img"@));
    assert(cut_range(s, 0, 17, "<iframe"@));
    assert(cut_range(s, 0, 17, "<script"@));
    assert(cut_range(s, 0, 17, "</script"@));
    lemma_cut_range_no_start(s, "<link"@);
    lemma_cut_range_no_start(s, "<img"@);
    lemma_cut_range_no_start(s, "<iframe"@);
    lemma_cut_range_no_start(s, "<script"@);
    lemma_cut_range_no_start(s, "</script"@);
    assert(unquoted_range(s, 0, 17));
    lemma_unquoted_quotes_safe(s);
    assert(s.subrange(9, 15) =~= "<style"@);
}

/// The tag that opens the script loads nothing, opens no style sheet and closes no script,
/// and `<script` starts in it once, at its start.
proof fn lemma_script_open()
    ensures
        loads_nothing(SCRIPT_OPEN@),
        no_start(SCRIPT_OPEN@, "</script"@),
        no_start(SCRIPT_OPEN@, "<style"@),
        occurs_at(SCRIPT_OPEN@, 0, "<script"@),
        cut_range(SCRIPT_OPEN@, 0, 0, "<script"@),
        cut_range(SCRIPT_OPEN@, 1, 8, "<script"@),
        SCRIPT_OPEN@.len() == 9,
{
    reveal_strlit("<script>\n");
    reveal_strlit("<link");
    reveal_strlit("<img");
    reveal_strlit("<iframe");
    reveal_strlit("<script");
    reveal_strlit("</script");
    reveal_strlit("<style");
    let s = SCRIPT_OPEN@;
    reveal_with_fuel(cut_range, 10);
    reveal_with_fuel(unquoted_range, 10);
    assert(cut_range(s, 0, 9, "<link"@));
    assert(cut_range(s, 0, 9, "<img"@));
    assert(cut_range(s, 0, 9, "<iframe"@));
    assert(cut_range(s, 0, 9, "</script"@));
    assert(cut_range(s, 0, 9, "<style"@));
    lemma_cut_range_no_start(s, "<link"@);
    lemma_cut_range_no_start(s, "<img"@);
    lemma_cut_range_no_start(s, "<iframe"@);
    lemma_cut_range_no_start(s, "</script"@);
    lemma_cut_range_no_start(s, "<style"@);
    assert(unquoted_range(s, 0, 9));
    lemma_unquoted_quotes_safe(s);
    assert(s.subrange(0, 7) =~= "<script"@);
}

/// The end of the page loads nothing and opens no script or style sheet, and `</script`
/// starts in it once, after its first line break.
proof fn lemma_page_tail()
    ensures
        loads_nothing(PAGE_TAIL@),
        no_start(PAGE_TAIL@, "<script"@),
        no_start(PAGE_TAIL@, "<style"@),
        occurs_at(PAGE_TAIL@, 1, "</script"@),
        cut_range(PAGE_TAIL@, 0, 1, "</script"@),
        cut_range(PAGE_TAIL@, 2, 25, "</script"@),
        PAGE_TAIL@.len() == 27,
{
    reveal_strlit("\n</script>\n</body>\n</html>\n");
    reveal_strlit("<link");
    reveal_strlit("<img");
    reveal_strlit("<iframe");
    reveal_strlit("<script");
    reveal_strlit("</script");
    reveal_strlit("<style");
    let s = PAGE_TAIL@;
    assert(cut_range(s, 0, 27, "<link"@)) by {
        reveal_with_fuel(cut_range, 28);
    }
    assert(cut_range(s, 0, 27, "<img"@)) by {
        reveal_with_fuel(cut_range, 28);
    }
    assert(cut_range(s, 0, 27, "<iframe"@)) by {
        reveal_with_fuel(cut_range, 28);
    }
    assert(cut_range(s, 0, 27, "<script"@)) by {
        reveal_with_fuel(cut_range, 28);
    }
    assert(cut_range(s, 0, 27, "<style"@)) by {
        reveal_with_fuel(cut_range, 28);
    }
    assert(unquoted_range(s, 0, 27)) by {
        reveal_with_fuel(unquoted_range, 28);
    }
    assert(cut_range(s, 0, 1, "</script"@)) by {
        reveal_with_fuel(cut_range, 2);
    }
    assert(cut_range(s, 2, 25, "</script"@)) by {
        reveal_with_fuel(cut_range, 26);
    }
    lemma_cut_range_no_start(s, "<link"@);
    lemma_cut_range_no_start(s, "<img"@);
    lemma_cut_range_no_start(s, "<iframe"@);
    lemma_cut_range_no_start(s, "<script"@);
    lemma_cut_range_no_start(s, "<style"@);
    lemma_unquoted_quotes_safe(s);
    assert(s.subrange(1, 9) =~= "</script"@);
}

proof fn lemma_report_loads_nothing(a: AuditModel)
    ensures
        loads_nothing(report_html(a)),
{
    broadcast use group_sealed;

    lemma_report_pieces(a);
    lemma_frame_sealed();
    lemma_script_sealed();
    lemma_report_body_sealed(a);
    lemma_style_open();
    lemma_script_open();
    lemma_page_tail();
}

proof fn lemma_occurs_chars(s: Seq<char>, j: int, p: Seq<char>)
    requires
        occurs_at(s, j, p),
    ensures
        forall|k: int| 0 <= k < p.len() ==> s[j + k] == #[trigger] p[k],
{
    assert forall|k: int| 0 <= k < p.len() implies s[j + k] == #[trigger] p[k] by {
        assert(s.subrange(j, j + p.len())[k] == s[j + k]);
    }
}

/// In a page that loads nothing, no loading tag occurs.
proof fn lemma_no_loading_tag(s: Seq<char>, j: int)
    requires
        loads_nothing(s),
    ensures
        !occurs_at(s, j, "<link"@),
        !occurs_at(s, j, "<img"@),
        !occurs_at(s, j, "<iframe"@),
{
    reveal(no_start);
    reveal_strlit("<link");
    reveal_strlit("<img");
    reveal_strlit("<iframe");
    if occurs_at(s, j, "<link"@) {
        lemma_occurs_chars(s, j, "<link"@);
        assert(s[j + 0] == "<link"@[0]);
        assert(cut_short(s, j, "<link"@) && cut_short(s, j, "<img"@) && cut_short(s, j, "<iframe"@));
    }
    if occurs_at(s, j, "<img"@) {
        lemma_occurs_chars(s, j, "<img"@);
        assert(s[j + 0] == "<img"@[0]);
        assert(cut_short(s, j, "<link"@) && cut_short(s, j, "<img"@) && cut_short(s, j, "<iframe"@));
    }
    if occurs_at(s, j, "<iframe"@) {
        lemma_occurs_chars(s, j, "<iframe"@);
        assert(s[j + 0] == "<iframe"@[0]);
        assert(cut_short(s, j, "<link"@) && cut_short(s, j, "<img"@) && cut_short(s, j, "<iframe"@));
    }
}

/// In a page that loads nothing, no `src=` or `href=` is followed by a quoted `http`.
proof fn lemma_no_quoted_http(s: Seq<char>, j: int, name: Seq<char>, q: char)
    requires
        loads_nothing(s),
        is_quote(q),
        name == "src="@ || name == "href="@,
    ensures
        !occurs_at(s, j, name + seq![q] + "http"@),
{
    reveal(quotes_safe);
    reveal_strlit("src=");
    reveal_strlit("href=");
    reveal_strlit("http");
    let p = name + seq![q] + "http"@;
    if occurs_at(s, j, p) {
        let n = name.len() as int;
        lemma_occurs_chars(s, j, p);
        assert(s[j + n] == p[n]);
        let qi = j + n;
        assert(quote_cut_short(s, qi));
        assert forall|k: int| 0 <= k < 4 implies s[qi + 1 + k] == #[trigger] "http"@[k] by {
            assert(s[j + (n + 1 + k)] == p[n + 1 + k]);
        }
        assert forall|k: int| 0 <= k < n implies s[j + k] == #[trigger] name[k] by {
            assert(s[j + k] == p[k]);
        }
        assert(!cut_short(s, qi + 1, "http"@));
        if name == "src="@ {
            assert(!cut_short_before(s, qi, "src="@));
        } else {
            assert(!cut_short_before(s, qi, "href="@));
        }
    }
}

/// A report loads nothing: no `<link`, `<img` or `<iframe` tag occurs in it, and no `src` or
/// `href` attribute in it holds a quoted `http` address. Its style sheet and script are
/// written into the page itself.
pub proof fn law_report_loads_nothing(a: AuditModel)
    ensures
        forall|j: int| !#[trigger] occurs_at(report_html(a), j, "<link"@),
        forall|j: int| !#[trigger] occurs_at(report_html(a), j, "<img"@),
        forall|j: int| !#[trigger] occurs_at(report_html(a), j, "<iframe"@),
        forall|j: int| !#[trigger] occurs_at(report_html(a), j, "src=\"http"@),
        forall|j: int| !#[trigger] occurs_at(report_html(a), j, "src='http"@),
        forall|j: int| !#[trigger] occurs_at(report_html(a), j, "href=\"http"@),
        forall|j: int| !#[trigger] occurs_at(report_html(a), j, "href='http"@),
{
    let r = report_html(a);
    lemma_report_loads_nothing(a);
    reveal_strlit("src=");
    reveal_strlit("href=");
    reveal_strlit("http");
    reveal_strlit("src=\"http");
    reveal_strlit("src='http");
    reveal_strlit("href=\"http");
    reveal_strlit("href='http");
    assert("src=\"http"@ =~= "src="@ + seq!['"'] + "http"@);
    assert("src='http"@ =~= "src="@ + seq!['\''] + "http"@);
    assert("href=\"http"@ =~= "href="@ + seq!['"'] + "http"@);
    assert("href='http"@ =~= "href="@ + seq!['\''] + "http"@);
    assert forall|j: int| !#[trigger] occurs_at(r, j, "<link"@) by {
        lemma_no_loading_tag(r, j);
    }
    assert forall|j: int| !#[trigger] occurs_at(r, j, "<img"@) by {
        lemma_no_loading_tag(r, j);
    }
    assert forall|j: int| !#[trigger] occurs_at(r, j, "<iframe"@) by {
        lemma_no_loading_tag(r, j);
    }
    assert forall|j: int| !#[trigger] occurs_at(r, j, "src=\"http"@) by {
        lemma_no_quoted_http(r, j, "src="@, '"');
    }
    assert forall|j: int| !#[trigger] occurs_at(r, j, "src='http"@) by {
        lemma_no_quoted_http(r, j, "src="@, '\'');
    }
    assert forall|j: int| !#[trigger] occurs_at(r, j, "href=\"http"@) by {
        lemma_no_quoted_http(r, j, "href="@, '"');
    }
    assert forall|j: int| !#[trigger] occurs_at(r, j, "href='http"@) by {
        lemma_no_quoted_http(r, j, "href="@, '\'');
    }
}

/// A `<` whose tag is cut short within `s` starts no occurrence of that tag.
proof fn lemma_cut_short_excludes(s: Seq<char>, j: int, p: Seq<char>)
    requires
        cut_short(s, j, p),
    ensures
        !occurs_at(s, j, p),
{
    if occurs_at(s, j, p) {
        lemma_occurs_chars(s, j, p);
    }
}

/// When `p` starts in `m` at `i` and at no other `<` of `m`, and at no `<` of `a` or `b`, it
/// starts in `a + m + b` once.
proof fn lemma_starts_once(a: Seq<char>, m: Seq<char>, b: Seq<char>, p: Seq<char>, i: int)
    requires
        no_start(a, p),
        no_start(b, p),
        occurs_at(m, i, p),
        p.len() > 0,
        p[0] == '<',
        cut_range(m, 0, i as nat, p),
        cut_range(m, i + 1, (m.len() - i - 1) as nat, p),
    ensures
        occurs_at(a + m + b, a.len() + i, p),
        forall|j: int| #[trigger] occurs_at(a + m + b, j, p) ==> j == a.len() + i,
{
    reveal(no_start);
    let am = a + m;
    let s = am + b;
    lemma_occurs_chars(m, i, p);
    assert forall|k: int| 0 <= k < p.len() implies s.subrange(a.len() + i, a.len() + i + p.len())[k]
        == p[k] by {
        assert(s[a.len() + i + k] == m[i + k]);
    }
    assert(s.subrange(a.len() + i, a.len() + i + p.len()) =~= p);
    assert forall|j: int| #[trigger] occurs_at(s, j, p) implies j == a.len() + i by {
        lemma_occurs_chars(s, j, p);
        assert(s[j + 0] == p[0]);
        if j < a.len() {
            assert(a[j] == '<');
            lemma_cut_short_concat(a, m, j, p);
            lemma_cut_short_concat(am, b, j, p);
            lemma_cut_short_excludes(s, j, p);
        } else if j < am.len() {
            let t = j - a.len();
            assert(m[t] == '<');
            if t < i {
                lemma_cut_range_at(m, 0, i as nat, p, t);
            } else if t > i {
                lemma_cut_range_at(m, i + 1, (m.len() - i - 1) as nat, p, t);
            }
            if t != i {
                lemma_cut_short_concat(a, m, t, p);
                lemma_cut_short_concat(am, b, j, p);
                lemma_cut_short_excludes(s, j, p);
            }
        } else {
            let t = j - am.len();
            assert(b[t] == '<');
            lemma_cut_short_concat(am, b, t, p);
            lemma_cut_short_excludes(s, j, p);
        }
    }
}

/// Every report opens its style sheet once, opens its script once, and closes its script
/// once.
pub proof fn law_report_frames_once(a: AuditModel)
    ensures
        exists|j: int| #[trigger] occurs_at(report_html(a), j, "<style"@),
        forall|j: int, k: int|
            #[trigger] occurs_at(report_html(a), j, "<style"@) && #[trigger] occurs_at(
                report_html(a),
                k,
                "<style"@,
            ) ==> j == k,
        exists|j: int| #[trigger] occurs_at(report_html(a), j, "<script"@),
        forall|j: int, k: int|
            #[trigger] occurs_at(report_html(a), j, "<script"@) && #[trigger] occurs_at(
                report_html(a),
                k,
                "<script"@,
            ) ==> j == k,
        exists|j: int| #[trigger] occurs_at(report_html(a), j, "</script"@),
        forall|j: int, k: int|
            #[trigger] occurs_at(report_html(a), j, "</script"@) && #[trigger] occurs_at(
                report_html(a),
                k,
                "</script"@,
            ) ==> j == k,
{
    broadcast use group_sealed;

    reveal_strlit("<script");
    reveal_strlit("</script");
    reveal_strlit("<style");
    lemma_report_pieces(a);
    lemma_frame_sealed();
    lemma_script_sealed();
    lemma_report_body_sealed(a);
    lemma_style_open();
    lemma_script_open();
    lemma_page_tail();
    let head = PAGE_HEAD@ + escape(a.session.id);
    let body = report_body(a);
    let r = report_html(a);
    let after_style = body + SCRIPT_OPEN@ + JS@ + PAGE_TAIL@;
    assert(r =~= head + STYLE_OPEN@ + after_style);
    lemma_starts_once(head, STYLE_OPEN@, after_style, "<style"@, 9);
    let before_script = head + STYLE_OPEN@ + body;
    let after_script = JS@ + PAGE_TAIL@;
    assert(r =~= before_script + SCRIPT_OPEN@ + after_script);
    lemma_starts_once(before_script, SCRIPT_OPEN@, after_script, "<script"@, 0);
    let before_tail = before_script + SCRIPT_OPEN@ + JS@;
    lemma_empty_sealed();
    assert(r =~= before_tail + PAGE_TAIL@ + Seq::<char>::empty());
    lemma_starts_once(before_tail, PAGE_TAIL@, Seq::<char>::empty(), "</script"@, 1);
}

} // verus!
