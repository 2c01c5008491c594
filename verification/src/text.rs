//! Numbers as text: decimal digits, thousands separators, the unit of a character count and
//! the page footer of the candidate window.

use vstd::prelude::*;

verus! {

/// Appends `c` to `s`.
///
/// Calls `String::push`, which std documents as appending the character to the end of the
/// string; that is all the contract claims.
#[verifier::external_body]
pub(crate) fn push_char(s: &mut String, c: char)
    ensures
        final(s)@ == old(s)@.push(c),
{
    s.push(c);
}

/// The ASCII digit for `d` in `0..10`.
pub open spec fn digit_char(d: int) -> char {
    (48 + d) as char
}

/// The decimal digits of `n`, most significant first, without leading zeros.
pub open spec fn decimal(n: nat) -> Seq<char>
    decreases n,
{
    if n < 10 {
        seq![digit_char(n as int)]
    } else {
        decimal(n / 10).push(digit_char((n % 10) as int))
    }
}

/// Exactly three digits of `r` in `0..1000`, with leading zeros.
pub open spec fn pad3(r: nat) -> Seq<char> {
    seq![digit_char((r / 100) as int), digit_char(((r / 10) % 10) as int), digit_char((r % 10) as int)]
}

/// `n` in decimal with `,` between groups of three digits counted from the right.
pub open spec fn grouped(n: nat) -> Seq<char>
    decreases n,
{
    if n < 1000 {
        decimal(n)
    } else {
        grouped(n / 1000) + seq![','] + pad3(n % 1000)
    }
}

fn digit(d: u64) -> (c: char)
    requires
        d < 10,
    ensures
        c == digit_char(d as int),
{
    ((48 + d) as u8) as char
}

/// Appends the decimal digits of `n` to `s`.
pub fn push_decimal(s: &mut String, n: u64)
    ensures
        final(s)@ == old(s)@ + decimal(n as nat),
    decreases n,
{
    if n < 10 {
        push_char(s, digit(n));
        assert(seq![digit_char(n as int)] =~= Seq::<char>::empty().push(digit_char(n as int)));
        assert(final(s)@ =~= old(s)@ + decimal(n as nat));
    } else {
        push_decimal(s, n / 10);
        push_char(s, digit(n % 10));
        assert(final(s)@ =~= old(s)@ + decimal(n as nat));
    }
}

/// `n` in decimal.
pub fn decimal_string(n: u64) -> (r: String)
    ensures
        r@ == decimal(n as nat),
{
    let mut s = String::new();
    push_decimal(&mut s, n);
    assert(s@ =~= decimal(n as nat));
    s
}

fn push_pad3(s: &mut String, r: u64)
    requires
        r < 1000,
    ensures
        final(s)@ == old(s)@ + pad3(r as nat),
{
    push_char(s, digit(r / 100));
    push_char(s, digit((r / 10) % 10));
    push_char(s, digit(r % 10));
    assert(final(s)@ =~= old(s)@ + pad3(r as nat));
}

fn push_grouped(s: &mut String, n: u64)
    ensures
        final(s)@ == old(s)@ + grouped(n as nat),
    decreases n,
{
    if n < 1000 {
        push_decimal(s, n);
    } else {
        push_grouped(s, n / 1000);
        push_char(s, ',');
        push_pad3(s, n % 1000);
        assert(final(s)@ =~= old(s)@ + grouped(n as nat));
    }
}

/// Thousands separators: `1234567` becomes `1,234,567`.
pub fn group_digits(value: u64) -> (r: String)
    ensures
        r@ == grouped(value as nat),
{
    let mut s = String::new();
    push_grouped(&mut s, value);
    assert(s@ =~= grouped(value as nat));
    s
}

/// How a count of Chinese characters is written: below ten thousand as a whole number of
/// characters, else in units of ten thousand (万) or a hundred million (亿) with one decimal.
#[derive(Debug)]
pub enum HanziText {
    /// The finished text, such as `9,999 字`.
    Whole(String),
    /// To be written with one decimal in units of ten thousand characters.
    Wan(u64),
    /// To be written with one decimal in units of a hundred million characters.
    Yi(u64),
}

/// A count below ten thousand, written in full with separators: `9,999 字`.
pub open spec fn whole_hanzi_text(value: nat) -> Seq<char> {
    grouped(value) + " 字"@
}

/// Whole numbers below ten thousand, one decimal in 万 or 亿 above. The decimal forms are
/// returned as their unit with the count, for the caller to format.
pub fn hanzi_text(value: u64) -> (r: HanziText)
    ensures
        value >= 100_000_000 ==> r == HanziText::Yi(value),
        10_000 <= value < 100_000_000 ==> r == HanziText::Wan(value),
        value < 10_000 ==> (r matches HanziText::Whole(text) && text@ == whole_hanzi_text(value as nat)),
{
    if value >= 100_000_000 {
        HanziText::Yi(value)
    } else if value >= 10_000 {
        HanziText::Wan(value)
    } else {
        let mut text = group_digits(value);
        text.append(" 字");
        HanziText::Whole(text)
    }
}

/// For `n >= 1000` the decimal digits split into those of `n / 1000` and three more.
pub proof fn lemma_decimal_thousands(n: nat)
    requires
        n >= 1000,
    ensures
        decimal(n) == decimal(n / 1000) + pad3(n % 1000),
{
    let a = n / 10;
    let b = n / 100;
    let c = n / 1000;
    assert(a >= 10 && b >= 10);
    assert(a / 10 == b && b / 10 == c);
    assert((n % 1000) / 100 == b % 10);
    assert(((n % 1000) / 10) % 10 == a % 10);
    assert((n % 1000) % 10 == n % 10);
    assert(decimal(n) == decimal(a).push(digit_char((n % 10) as int)));
    assert(decimal(a) == decimal(b).push(digit_char((a % 10) as int)));
    assert(decimal(b) == decimal(c).push(digit_char((b % 10) as int)));
    assert(decimal(n) =~= decimal(n / 1000) + pad3(n % 1000));
}

/// Not a comma.
pub open spec fn not_comma(c: char) -> bool {
    c != ','
}

/// Decimal digits never hold a comma.
pub proof fn lemma_decimal_has_no_comma(n: nat)
    ensures
        decimal(n).filter(|c: char| not_comma(c)) == decimal(n),
    decreases n,
{
    broadcast use vstd::seq_lib::group_filter_ensures;
    if n < 10 {
        reveal_with_fuel(Seq::filter, 2);
        assert(decimal(n).filter(|c: char| not_comma(c)) =~= decimal(n));
    } else {
        lemma_decimal_has_no_comma(n / 10);
        let d = decimal(n / 10);
        let c = digit_char((n % 10) as int);
        Seq::filter_distributes_over_add(d, seq![c], |c: char| not_comma(c));
        reveal_with_fuel(Seq::filter, 2);
        assert(d.push(c) =~= d + seq![c]);
        assert(seq![c].filter(|c: char| not_comma(c)) =~= seq![c]);
    }
}

/// The separators are the only thing thousands grouping adds: dropping every `,` from
/// `group_digits(n)` gives the plain decimal digits of `n`.
pub proof fn lemma_grouping_keeps_digits(n: nat)
    ensures
        grouped(n).filter(|c: char| not_comma(c)) == decimal(n),
    decreases n,
{
    if n < 1000 {
        lemma_decimal_has_no_comma(n);
    } else {
        lemma_grouping_keeps_digits(n / 1000);
        lemma_decimal_thousands(n);
        let p = pad3(n % 1000);
        let g = grouped(n / 1000);
        let pred = |c: char| not_comma(c);
        Seq::filter_distributes_over_add(g + seq![','], p, pred);
        Seq::filter_distributes_over_add(g, seq![','], pred);
        reveal_with_fuel(Seq::filter, 4);
        assert(seq![','].filter(pred) =~= Seq::<char>::empty());
        assert(p.filter(pred) =~= p);
        assert(grouped(n).filter(pred) =~= g.filter(pred) + p);
    }
}

/// The shape of thousands grouping: digits and commas only, a comma exactly at every fourth
/// place counted from the right (so every group after the first has exactly three digits),
/// and a first group of one to three digits (never a leading or trailing comma).
pub open spec fn thousands_shape(s: Seq<char>) -> bool {
    &&& s.len() % 4 != 0
    &&& forall|i: int| 0 <= i < s.len() ==> ((#[trigger] s[i] == ',') == ((s.len() - 1 - i) % 4 == 3))
    &&& forall|i: int| 0 <= i < s.len() && s[i] != ',' ==> '0' <= #[trigger] s[i] <= '9'
}

proof fn lemma_decimal_digits(n: nat)
    ensures
        decimal(n).len() >= 1,
        n < 10 ==> decimal(n).len() == 1,
        n < 100 ==> decimal(n).len() <= 2,
        n < 1000 ==> decimal(n).len() <= 3,
        forall|i: int| 0 <= i < decimal(n).len() ==> '0' <= #[trigger] decimal(n)[i] <= '9',
    decreases n,
{
    if n >= 10 {
        lemma_decimal_digits(n / 10);
        let d = decimal(n / 10);
        assert(decimal(n) == d.push(digit_char((n % 10) as int)));
        assert forall|i: int| 0 <= i < decimal(n).len() implies '0' <= #[trigger] decimal(n)[i] <= '9' by {
            if i < d.len() {
                assert(decimal(n)[i] == d[i]);
            }
        }
    }
}

/// Every number is grouped in that shape.
pub proof fn lemma_grouping_shape(n: nat)
    ensures
        thousands_shape(grouped(n)),
    decreases n,
{
    if n < 1000 {
        lemma_decimal_digits(n);
        let s = decimal(n);
        assert forall|i: int| 0 <= i < s.len() implies ((#[trigger] s[i] == ',') == ((s.len() - 1 - i) % 4
            == 3)) by {
            assert('0' <= s[i] <= '9');
        }
    } else {
        lemma_grouping_shape(n / 1000);
        let g = grouped(n / 1000);
        let p = pad3(n % 1000);
        let s = grouped(n);
        assert(s == g + seq![','] + p);
        assert(s.len() == g.len() + 4);
        assert forall|i: int| 0 <= i < s.len() implies ((#[trigger] s[i] == ',') == ((s.len() - 1 - i) % 4
            == 3)) && (s[i] != ',' ==> '0' <= s[i] <= '9') by {
            if i < g.len() {
                assert(s[i] == g[i]);
                assert((s.len() - 1 - i) % 4 == (g.len() - 1 - i) % 4);
            } else if i == g.len() {
                assert(s[i] == ',');
            } else {
                assert(s[i] == p[i - g.len() - 1]);
            }
        }
    }
}

} // verus!
