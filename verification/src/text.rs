//! Character-level helpers shared by the renderers: decimal formatting of
//! unsigned integers, HTML escaping and string building.

use vstd::prelude::*;

verus! {

/// The ASCII digit for `d` (meaningful for `d < 10`).
pub open spec fn digit_char(d: nat) -> char {
    ((48 + d) as u8) as char
}

/// The decimal representation of `n`, most significant digit first, without
/// leading zeros (`0` is written as a single `'0'`).
pub open spec fn decimal(n: nat) -> Seq<char>
    decreases n,
{
    if n < 10 {
        seq![digit_char(n)]
    } else {
        decimal(n / 10).push(digit_char(n % 10))
    }
}

/// The value of a digit character (inverse of `digit_char` on `0..10`).
pub open spec fn digit_value(c: char) -> int {
    (c as int) - 48
}

/// Reads a string of decimal digits back as a number.
pub open spec fn parse_decimal(s: Seq<char>) -> int
    decreases s.len(),
{
    if s.len() == 0 {
        0
    } else {
        parse_decimal(s.drop_last()) * 10 + digit_value(s.last())
    }
}

/// Reading back the decimal representation gives the number again.
pub proof fn lemma_parse_decimal(n: nat)
    ensures
        parse_decimal(decimal(n)) == n,
        decimal(n).len() >= 1,
    decreases n,
{
    if n >= 10 {
        lemma_parse_decimal(n / 10);
        let s: Seq<char> = decimal(n);
        assert(s.drop_last() =~= decimal(n / 10));
        assert(digit_value(digit_char((n % 10) as nat)) == n % 10);
        assert(parse_decimal(s) == parse_decimal(s.drop_last()) * 10 + digit_value(s.last()));
        assert(n == (n / 10) * 10 + n % 10);
    } else {
        assert(seq![digit_char(n)].drop_last() =~= Seq::<char>::empty());
        assert(digit_value(digit_char(n)) == n);
        assert(parse_decimal(decimal(n)) == parse_decimal(Seq::<char>::empty()) * 10 + digit_value(digit_char(n)));
    }
}

/// Distinct numbers have distinct decimal representations.
pub proof fn lemma_decimal_injective(a: nat, b: nat)
    ensures
        decimal(a) == decimal(b) ==> a == b,
{
    lemma_parse_decimal(a);
    lemma_parse_decimal(b);
}

/// Calls `String::push`. Trusted: the string afterwards is the old one with
/// `c` appended.
#[verifier::external_body]
pub(crate) fn push_char(s: &mut String, c: char)
    ensures
        final(s)@ == old(s)@.push(c),
{
    s.push(c);
}

/// Appends the decimal representation of `n` to `out`.
pub fn push_decimal(out: &mut String, n: u64)
    ensures
        final(out)@ == old(out)@ + decimal(n as nat),
    decreases n,
{
    if n >= 10 {
        push_decimal(out, n / 10);
    }
    let d: u8 = (n % 10) as u8;
    let c: char = (48u8 + d) as char;
    push_char(out, c);
    proof {
        if n >= 10 {
            assert(decimal(n as nat) == decimal((n / 10) as nat).push(digit_char((n % 10) as nat)));
        }
    }
}

/// The escaped form of one character: `&`, `<` and `>` become entities.
pub open spec fn esc_char(c: char) -> Seq<char> {
    if c == '&' {
        "&amp;"@
    } else if c == '<' {
        "&lt;"@
    } else if c == '>' {
        "&gt;"@
    } else {
        seq![c]
    }
}

/// HTML text escaping: every character replaced by its escaped form.
pub open spec fn esc(s: Seq<char>) -> Seq<char>
    decreases s.len(),
{
    if s.len() == 0 {
        Seq::empty()
    } else {
        esc(s.drop_last()) + esc_char(s.last())
    }
}

/// Appends the escaped form of `s` to `out`.
pub fn push_escaped(out: &mut String, s: &str)
    ensures
        final(out)@ == old(out)@ + esc(s@),
{
    let ghost start: Seq<char> = out@;
    let ghost text: Seq<char> = s@;
    for c in it: s.chars()
        invariant
            it.seq() == text,
            out@ == start + esc(text.take(it.index() as int)),
    {
        let ghost i: int = it.index() as int;
        if c == '&' {
            out.append("&amp;");
        } else if c == '<' {
            out.append("&lt;");
        } else if c == '>' {
            out.append("&gt;");
        } else {
            push_char(out, c);
        }
        assert(text.take(i + 1).drop_last() =~= text.take(i));
        assert(out@ =~= start + esc(text.take(i + 1)));
    }
    assert(text.take(text.len() as int) =~= text);
}

/// Law: escaping never produces a tag delimiter: the escaped text holds no
/// `<` and no `>`, so text content cannot open or close an HTML tag.
pub proof fn law_escaped_text_has_no_angle_brackets(s: Seq<char>)
    ensures
        forall|i: int| 0 <= i < esc(s).len() ==> esc(s)[i] != '<' && esc(s)[i] != '>',
    decreases s.len(),
{
    reveal_strlit("&amp;");
    reveal_strlit("&lt;");
    reveal_strlit("&gt;");
    if s.len() > 0 {
        law_escaped_text_has_no_angle_brackets(s.drop_last());
        let prev: Seq<char> = esc(s.drop_last());
        let last: Seq<char> = esc_char(s.last());
        assert forall|i: int| 0 <= i < esc(s).len() implies esc(s)[i] != '<' && esc(s)[i] != '>' by {
            if i < prev.len() {
                assert(esc(s)[i] == prev[i]);
            } else {
                assert(esc(s)[i] == last[i - prev.len()]);
            }
        }
    }
}

/// Reading escaped text back: one left-to-right pass that turns `&lt;`
/// into `<`, `&gt;` into `>` and `&amp;` into `&`, and keeps every other
/// character.
pub open spec fn unescape(s: Seq<char>) -> Seq<char>
    decreases s.len(),
{
    if s.len() == 0 {
        Seq::empty()
    } else if s.len() >= 4 && s.take(4) == "&lt;"@ {
        seq!['<'] + unescape(s.skip(4))
    } else if s.len() >= 4 && s.take(4) == "&gt;"@ {
        seq!['>'] + unescape(s.skip(4))
    } else if s.len() >= 5 && s.take(5) == "&amp;"@ {
        seq!['&'] + unescape(s.skip(5))
    } else {
        seq![s[0]] + unescape(s.skip(1))
    }
}

proof fn lemma_esc_concat(a: Seq<char>, b: Seq<char>)
    ensures
        esc(a + b) == esc(a) + esc(b),
    decreases b.len(),
{
    if b.len() == 0 {
        assert(a + b =~= a);
        assert(esc(a) + esc(b) =~= esc(a));
    } else {
        lemma_esc_concat(a, b.drop_last());
        assert((a + b).drop_last() =~= a + b.drop_last());
        assert(esc(a + b) =~= esc(a) + esc(b));
    }
}

proof fn lemma_esc_front(s: Seq<char>)
    requires
        s.len() > 0,
    ensures
        esc(s) == esc_char(s[0]) + esc(s.skip(1)),
{
    let head: Seq<char> = seq![s[0]];
    assert(head + s.skip(1) =~= s);
    lemma_esc_concat(head, s.skip(1));
    assert(head.drop_last() =~= Seq::<char>::empty());
    assert(esc(head.drop_last()) == Seq::<char>::empty());
    assert(head.last() == s[0]);
    assert(esc(head) =~= esc_char(s[0]));
}

/// Law: escaping loses nothing: reading the escaped text back gives the
/// original text, so no character is escaped twice and no entity is
/// produced that was not in the input.
pub proof fn law_unescape_inverts_esc(s: Seq<char>)
    ensures
        unescape(esc(s)) == s,
    decreases s.len(),
{
    reveal_strlit("&amp;");
    reveal_strlit("&lt;");
    reveal_strlit("&gt;");
    if s.len() > 0 {
        let c: char = s[0];
        let rest: Seq<char> = s.skip(1);
        let e: Seq<char> = esc(rest);
        let t: Seq<char> = esc(s);
        lemma_esc_front(s);
        law_unescape_inverts_esc(rest);
        assert(seq![c] + rest =~= s);
        if c == '<' {
            assert(t.take(4) =~= "&lt;"@);
            assert(t.skip(4) =~= e);
        } else if c == '>' {
            assert(t.take(4)[1] == 'g' && "&lt;"@[1] == 'l');
            assert(t.take(4) != "&lt;"@);
            assert(t.take(4) =~= "&gt;"@);
            assert(t.skip(4) =~= e);
        } else if c == '&' {
            assert(t.take(4)[1] == 'a' && "&lt;"@[1] == 'l' && "&gt;"@[1] == 'g');
            assert(t.take(4) != "&lt;"@);
            assert(t.take(4) != "&gt;"@);
            assert(t.take(5) =~= "&amp;"@);
            assert(t.skip(5) =~= e);
        } else {
            assert(t[0] == c);
            assert(t.len() >= 4 ==> t.take(4)[0] != "&lt;"@[0]);
            assert(t.len() >= 5 ==> t.take(5)[0] != "&amp;"@[0]);
            assert(t.skip(1) =~= e);
        }
    }
}

} // verus!
