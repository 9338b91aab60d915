//! Text building blocks: HTML escaping and decimal numerals.

use vstd::prelude::*;
use vstd::string::*;

verus! {

/// `String::push`: appends the character `c` to the end of `s`, as its documentation says.
#[verifier::external_body]
pub(crate) fn push_char(s: &mut String, c: char)
    ensures
        final(s)@ == old(s)@.push(c),
{
    s.push(c)
}

/// Whether `s` is the text `lit`.
pub fn text_is(s: &String, lit: &str) -> (r: bool)
    ensures
        r == (s@ == lit@),
{
    let t = String::from_str(lit);
    *s == t
}

/// The characters that HTML gives a meaning to in text and in quoted attribute values.
pub open spec fn is_markup(c: char) -> bool {
    c == '&' || c == '<' || c == '>' || c == '"' || c == '\''
}

/// How one character is written in HTML text.
pub open spec fn escape_char(c: char) -> Seq<char> {
    if c == '&' {
        "&amp;"@
    } else if c == '<' {
        "&lt;"@
    } else if c == '>' {
        "&gt;"@
    } else if c == '"' {
        "&quot;"@
    } else if c == '\'' {
        "&#39;"@
    } else {
        seq![c]
    }
}

/// How a text is written in HTML: character by character.
pub open spec fn escape(s: Seq<char>) -> Seq<char>
    decreases s.len(),
{
    if s.len() == 0 {
        Seq::empty()
    } else {
        escape(s.drop_last()) + escape_char(s.last())
    }
}

/// Escapes `s` for HTML text and attribute values.
pub fn esc(s: &str) -> (r: String)
    ensures
        r@ == escape(s@),
{
    let mut out = String::new();
    let mut done: Ghost<Seq<char>> = Ghost(Seq::empty());
    assert(s@.take(0) =~= Seq::<char>::empty());
    for c in it: s.chars()
        invariant
            it.seq() == s@,
            done@ == s@.take(it.index() as int),
            out@ == escape(done@),
    {
        proof {
            reveal_strlit("&amp;");
            reveal_strlit("&lt;");
            reveal_strlit("&gt;");
            reveal_strlit("&quot;");
            reveal_strlit("&#39;");
        }
        let ghost before = done@;
        if c == '&' {
            out.append("&amp;");
        } else if c == '<' {
            out.append("&lt;");
        } else if c == '>' {
            out.append("&gt;");
        } else if c == '"' {
            out.append("&quot;");
        } else if c == '\'' {
            out.append("&#39;");
        } else {
            push_char(&mut out, c);
        }
        proof {
            done@ = before.push(c);
            assert(done@.drop_last() =~= before);
            assert(done@ =~= s@.take(it.index() + 1));
        }
    }
    assert(done@ =~= s@);
    out
}

/// The digit for `d`.
pub open spec fn digit(d: nat) -> char {
    if d == 0 {
        '0'
    } else if d == 1 {
        '1'
    } else if d == 2 {
        '2'
    } else if d == 3 {
        '3'
    } else if d == 4 {
        '4'
    } else if d == 5 {
        '5'
    } else if d == 6 {
        '6'
    } else if d == 7 {
        '7'
    } else if d == 8 {
        '8'
    } else {
        '9'
    }
}

/// The decimal numeral of `n`, without leading zeros.
pub open spec fn decimal(n: nat) -> Seq<char>
    decreases n,
{
    if n < 10 {
        seq![digit(n)]
    } else {
        decimal(n / 10).push(digit(n % 10))
    }
}

/// The decimal numeral of `n`, with a minus sign when it is negative.
pub open spec fn signed_decimal(n: int) -> Seq<char> {
    if n < 0 {
        seq!['-'] + decimal((-n) as nat)
    } else {
        decimal(n as nat)
    }
}

fn digit_char(d: u64) -> (c: char)
    requires
        d < 10,
    ensures
        c == digit(d as nat),
{
    if d == 0 {
        '0'
    } else if d == 1 {
        '1'
    } else if d == 2 {
        '2'
    } else if d == 3 {
        '3'
    } else if d == 4 {
        '4'
    } else if d == 5 {
        '5'
    } else if d == 6 {
        '6'
    } else if d == 7 {
        '7'
    } else if d == 8 {
        '8'
    } else {
        '9'
    }
}

/// Appends the decimal numeral of `n`.
pub fn push_decimal(out: &mut String, n: u64)
    ensures
        final(out)@ == old(out)@ + decimal(n as nat),
    decreases n,
{
    if n >= 10 {
        push_decimal(out, n / 10);
    }
    push_char(out, digit_char(n % 10));
    proof {
        if n >= 10 {
            assert(decimal(n as nat) == decimal((n / 10) as nat).push(digit((n % 10) as nat)));
        }
    }
}

/// The decimal numeral of `n`.
pub fn decimal_text(n: u64) -> (r: String)
    ensures
        r@ == decimal(n as nat),
{
    let mut out = String::new();
    push_decimal(&mut out, n);
    assert(out@ =~= decimal(n as nat));
    out
}

/// The decimal numeral of `n`, with a minus sign when it is negative.
pub fn signed_decimal_text(n: i64) -> (r: String)
    ensures
        r@ == signed_decimal(n as int),
{
    let mut out = String::new();
    if n < 0 {
        push_char(&mut out, '-');
        let magnitude: u64 = if n == i64::MIN {
            0x8000_0000_0000_0000u64
        } else {
            (-n) as u64
        };
        push_decimal(&mut out, magnitude);
    } else {
        push_decimal(&mut out, n as u64);
    }
    assert(out@ =~= signed_decimal(n as int));
    out
}

/// Escaping a concatenation escapes each part.
pub proof fn law_escape_concat(a: Seq<char>, b: Seq<char>)
    ensures
        escape(a + b) == escape(a) + escape(b),
    decreases b.len(),
{
    if b.len() == 0 {
        assert(a + b =~= a);
        assert(escape(a) + escape(b) =~= escape(a));
    } else {
        assert((a + b).drop_last() =~= a + b.drop_last());
        assert((a + b).last() == b.last());
        law_escape_concat(a, b.drop_last());
        assert(escape(a + b) =~= escape(a) + escape(b));
    }
}

/// Escaped text holds no `<`, `>`, `"` or `'`: nothing in it can open or close a tag or
/// end a quoted attribute value.
pub proof fn law_escape_leaves_no_tag_or_quote(s: Seq<char>)
    ensures
        forall|i: int|
            0 <= i < escape(s).len() ==> #[trigger] escape(s)[i] != '<' && escape(s)[i] != '>'
                && escape(s)[i] != '"' && escape(s)[i] != '\'',
    decreases s.len(),
{
    if s.len() > 0 {
        law_escape_leaves_no_tag_or_quote(s.drop_last());
        reveal_strlit("&amp;");
        reveal_strlit("&lt;");
        reveal_strlit("&gt;");
        reveal_strlit("&quot;");
        reveal_strlit("&#39;");
        let head = escape(s.drop_last());
        let tail = escape_char(s.last());
        assert forall|i: int| 0 <= i < escape(s).len() implies #[trigger] escape(s)[i] != '<'
            && escape(s)[i] != '>' && escape(s)[i] != '"' && escape(s)[i] != '\'' by {
            if i >= head.len() {
                assert(escape(s)[i] == tail[i - head.len()]);
            } else {
                assert(escape(s)[i] == head[i]);
            }
        }
    }
}

/// Escaping never shortens a text.
proof fn lemma_escape_len(s: Seq<char>)
    ensures
        escape(s).len() >= s.len(),
    decreases s.len(),
{
    if s.len() > 0 {
        lemma_escape_len(s.drop_last());
        reveal_strlit("&amp;");
        reveal_strlit("&lt;");
        reveal_strlit("&gt;");
        reveal_strlit("&quot;");
        reveal_strlit("&#39;");
    }
}

/// The escape of a text is the escape of its first character followed by that of the rest.
proof fn lemma_escape_first(x: char, rest: Seq<char>)
    ensures
        escape(seq![x] + rest) == escape_char(x) + escape(rest),
{
    law_escape_concat(seq![x], rest);
    assert(seq![x].drop_last() =~= Seq::<char>::empty());
    assert(seq![x].last() == x);
    assert(escape(Seq::<char>::empty()) == Seq::<char>::empty());
    assert(escape(seq![x]) == escape(Seq::<char>::empty()) + escape_char(x));
    assert(escape(seq![x]) =~= escape_char(x));
}

/// Two characters whose escapes begin the same text are the same character.
proof fn lemma_escape_char_prefix(x: char, y: char, e: Seq<char>)
    requires
        escape_char(x).is_prefix_of(e),
        escape_char(y).is_prefix_of(e),
    ensures
        x == y,
{
    reveal_strlit("&amp;");
    reveal_strlit("&lt;");
    reveal_strlit("&gt;");
    reveal_strlit("&quot;");
    reveal_strlit("&#39;");
    assert(e[0] == escape_char(x)[0]);
    assert(e[0] == escape_char(y)[0]);
    if is_markup(x) && is_markup(y) {
        assert(e[1] == escape_char(x)[1]);
        assert(e[1] == escape_char(y)[1]);
    }
}

/// Escaping loses nothing: different texts are written differently.
pub proof fn law_escape_is_injective(a: Seq<char>, b: Seq<char>)
    requires
        escape(a) == escape(b),
    ensures
        a == b,
    decreases a.len(),
{
    lemma_escape_len(a);
    lemma_escape_len(b);
    if a.len() == 0 {
        assert(escape(a).len() == 0);
        assert(b.len() == 0);
        assert(a =~= b);
    } else if b.len() == 0 {
        assert(escape(b).len() == 0);
    } else {
        let (x, ra) = (a[0], a.drop_first());
        let (y, rb) = (b[0], b.drop_first());
        assert(a =~= seq![x] + ra);
        assert(b =~= seq![y] + rb);
        lemma_escape_first(x, ra);
        lemma_escape_first(y, rb);
        let e = escape(a);
        assert(escape_char(x).is_prefix_of(e)) by {
            assert(e.take(escape_char(x).len() as int) =~= escape_char(x));
        }
        assert(escape_char(y).is_prefix_of(e)) by {
            assert(e.take(escape_char(y).len() as int) =~= escape_char(y));
        }
        lemma_escape_char_prefix(x, y, e);
        let k = escape_char(x).len() as int;
        assert(escape(ra) =~= e.skip(k));
        assert(escape(rb) =~= e.skip(k));
        law_escape_is_injective(ra, rb);
        assert(a =~= b);
    }
}

/// Text without markup characters is written as it is.
pub proof fn law_plain_text_is_verbatim(s: Seq<char>)
    requires
        forall|i: int| 0 <= i < s.len() ==> !is_markup(#[trigger] s[i]),
    ensures
        escape(s) == s,
    decreases s.len(),
{
    if s.len() > 0 {
        assert(!is_markup(s[s.len() - 1]));
        law_plain_text_is_verbatim(s.drop_last());
        assert(escape(s) =~= s);
    }
}

/// Appending to a text that is a prefix followed by `acc` extends `acc`.
pub proof fn lemma_extend(start: Seq<char>, acc: Seq<char>, piece: Seq<char>)
    ensures
        (start + acc) + piece == start + (acc + piece),
{
    assert((start + acc) + piece =~= start + (acc + piece));
}

} // verus!
