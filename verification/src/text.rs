//! Decimal formatting of counters shown on the debug overlay.

use vstd::prelude::*;
use vstd::string::*;

verus! {

/// The character of the decimal digit `d` (for `0 <= d < 10`).
pub open spec fn digit_char(d: nat) -> char {
    if d == 0 { '0' }
    else if d == 1 { '1' }
    else if d == 2 { '2' }
    else if d == 3 { '3' }
    else if d == 4 { '4' }
    else if d == 5 { '5' }
    else if d == 6 { '6' }
    else if d == 7 { '7' }
    else if d == 8 { '8' }
    else { '9' }
}

/// The decimal representation of `n`, without leading zeros (`"0"` for zero).
pub open spec fn decimal(n: nat) -> Seq<char>
    decreases n,
{
    if n < 10 {
        seq![digit_char(n)]
    } else {
        decimal(n / 10).push(digit_char(n % 10))
    }
}

/// The three digits of `n < 1000`, zero padded on the left.
pub open spec fn pad3(n: nat) -> Seq<char> {
    seq![digit_char(n / 100), digit_char((n / 10) % 10), digit_char(n % 10)]
}

/// `n` with a comma before every group of three digits counted from the right,
/// every group but the leading one zero padded (`"0"` for zero).
pub open spec fn grouped(n: nat) -> Seq<char>
    decreases n,
{
    if n < 1000 {
        decimal(n)
    } else {
        grouped(n / 1000) + seq![','] + pad3(n % 1000)
    }
}

/// Like `grouped`, but the groups after a comma are written without padding.
pub open spec fn grouped_unpadded(n: nat) -> Seq<char>
    decreases n,
{
    if n == 0 {
        Seq::empty()
    } else if n < 1000 {
        decimal(n)
    } else {
        grouped_unpadded(n / 1000) + seq![','] + decimal(n % 1000)
    }
}

/// The text with every comma taken out.
pub open spec fn strip_commas(s: Seq<char>) -> Seq<char>
    decreases s.len(),
{
    if s.len() == 0 {
        s
    } else if s.last() == ',' {
        strip_commas(s.drop_last())
    } else {
        strip_commas(s.drop_last()).push(s.last())
    }
}

/// The one-character text of a decimal digit.
fn digit_str(d: u64) -> (r: &'static str)
    requires
        d < 10,
    ensures
        r@ == seq![digit_char(d as nat)],
{
    match d {
        0 => {
            proof { reveal_strlit("0"); }
            "0"
        },
        1 => {
            proof { reveal_strlit("1"); }
            "1"
        },
        2 => {
            proof { reveal_strlit("2"); }
            "2"
        },
        3 => {
            proof { reveal_strlit("3"); }
            "3"
        },
        4 => {
            proof { reveal_strlit("4"); }
            "4"
        },
        5 => {
            proof { reveal_strlit("5"); }
            "5"
        },
        6 => {
            proof { reveal_strlit("6"); }
            "6"
        },
        7 => {
            proof { reveal_strlit("7"); }
            "7"
        },
        8 => {
            proof { reveal_strlit("8"); }
            "8"
        },
        _ => {
            proof { reveal_strlit("9"); }
            "9"
        },
    }
}

/// `prefix` followed by `rest`, as a new string.
fn prepend(prefix: &str, rest: &String) -> (r: String)
    ensures
        r@ == prefix@ + rest@,
{
    let mut out = String::from_str(prefix);
    out.append(rest.as_str());
    out
}

/// The decimal text of `n`.
pub fn decimal_string(n: u64) -> (r: String)
    ensures
        r@ == decimal(n as nat),
{
    let mut rest = String::new();
    let mut k: u64 = n;
    while k >= 10
        invariant
            decimal(n as nat) == decimal(k as nat) + rest@,
        decreases k,
    {
        let ghost old_rest = rest@;
        let d = digit_str(k % 10);
        rest = prepend(d, &rest);
        proof {
            assert(decimal(k as nat) == decimal((k / 10) as nat).push(digit_char((k % 10) as nat)));
            assert(decimal((k / 10) as nat).push(digit_char((k % 10) as nat)) + old_rest
                =~= decimal((k / 10) as nat) + (seq![digit_char((k % 10) as nat)] + old_rest));
        }
        k = k / 10;
    }
    prepend(digit_str(k), &rest)
}

/// The three digits of `n < 1000`, zero padded on the left.
fn pad3_string(n: u32) -> (r: String)
    requires
        n < 1000,
    ensures
        r@ == pad3(n as nat),
{
    let mut out = String::from_str(digit_str((n / 100) as u64));
    out.append(digit_str(((n / 10) % 10) as u64));
    out.append(digit_str((n % 10) as u64));
    out
}

/// Formats a u32 with American comma placement: `9000000` gives `"9,000,000"`,
/// and zero gives `"0"`.
pub fn format_u32(count: u32) -> (msg: String)
    ensures
        msg@ == grouped(count as nat),
{
    if count == 0 {
        return decimal_string(0);
    }
    let ghost total = count as nat;
    let mut msg = String::new();
    let mut count: u32 = count;
    while count != 0
        invariant
            count > 0 ==> grouped(total) == grouped(count as nat) + msg@,
            count == 0 ==> grouped(total) == msg@,
        decreases count,
    {
        let ghost old_msg = msg@;
        if count / 1000 == 0 {
            let head = decimal_string((count % 1000) as u64);
            msg = prepend(head.as_str(), &msg);
            assert(msg@ =~= grouped(count as nat) + old_msg);
        } else {
            let head = prepend(",", &pad3_string(count % 1000));
            proof { reveal_strlit(","); }
            msg = prepend(head.as_str(), &msg);
            assert(grouped((count / 1000) as nat) + msg@ =~= grouped(count as nat) + old_msg);
        }
        count = count / 1000;
    }
    assert(msg@ =~= grouped(total));
    msg
}

/// Formats a vertex count with commas between groups of three digits; the groups
/// after a comma are written without zero padding, so `1005` gives `"1,5"`.
/// Zero gives the empty text.
pub fn format_vertices(count: u32) -> (msg: String)
    ensures
        msg@ == grouped_unpadded(count as nat),
{
    let ghost total = count as nat;
    let mut msg = String::new();
    let mut count: u32 = count;
    while count != 0
        invariant
            grouped_unpadded(total) == grouped_unpadded(count as nat) + msg@,
        decreases count,
    {
        let ghost old_msg = msg@;
        if count / 1000 == 0 {
            let head = decimal_string((count % 1000) as u64);
            msg = prepend(head.as_str(), &msg);
            assert(grouped_unpadded((count / 1000) as nat) + msg@ =~= grouped_unpadded(count as nat) + old_msg);
        } else {
            let head = prepend(",", &decimal_string((count % 1000) as u64));
            proof { reveal_strlit(","); }
            msg = prepend(head.as_str(), &msg);
            assert(grouped_unpadded((count / 1000) as nat) + msg@ =~= grouped_unpadded(count as nat) + old_msg);
        }
        count = count / 1000;
    }
    assert(msg@ =~= grouped_unpadded(total));
    msg
}


/// Taking commas out of a concatenation takes them out of each part.
proof fn lemma_strip_concat(a: Seq<char>, b: Seq<char>)
    ensures
        strip_commas(a + b) == strip_commas(a) + strip_commas(b),
    decreases b.len(),
{
    if b.len() == 0 {
        assert(a + b =~= a);
        assert(strip_commas(a) + strip_commas(b) =~= strip_commas(a));
    } else {
        assert((a + b).drop_last() =~= a + b.drop_last());
        assert((a + b).last() == b.last());
        lemma_strip_concat(a, b.drop_last());
        if b.last() == ',' {
        } else {
            assert(strip_commas(a) + strip_commas(b.drop_last()).push(b.last())
                =~= (strip_commas(a) + strip_commas(b.drop_last())).push(b.last()));
        }
    }
}

proof fn lemma_digit_not_comma(d: nat)
    ensures
        digit_char(d) != ',',
{
}

/// Decimal text holds no comma, so taking commas out leaves it unchanged.
proof fn lemma_strip_decimal(n: nat)
    ensures
        strip_commas(decimal(n)) == decimal(n),
    decreases n,
{
    lemma_digit_not_comma(n);
    lemma_digit_not_comma(n % 10);
    let e = Seq::<char>::empty();
    assert(strip_commas(e) == e);
    if n < 10 {
        assert(decimal(n).drop_last() =~= e);
        assert(decimal(n).last() == digit_char(n));
        assert(strip_commas(decimal(n)) == strip_commas(e).push(digit_char(n)));
        assert(e.push(digit_char(n)) =~= decimal(n));
    } else {
        lemma_strip_decimal(n / 10);
        assert(decimal(n).drop_last() =~= decimal(n / 10));
        assert(decimal(n).last() == digit_char(n % 10));
        assert(strip_commas(decimal(n)) == strip_commas(decimal(n / 10)).push(digit_char(n % 10)));
    }
}

/// The decimal text of `n >= 1000` is that of `n / 1000` followed by the
/// three zero padded digits of `n % 1000`.
proof fn lemma_decimal_split(n: nat)
    requires
        n >= 1000,
    ensures
        decimal(n) == decimal(n / 1000) + pad3(n % 1000),
{
    let a = n / 10;
    let b = n / 100;
    let c = n / 1000;
    assert(a / 10 == b) by {
        vstd::arithmetic::div_mod::lemma_div_denominator(n as int, 10, 10);
    }
    assert(b / 10 == c) by {
        vstd::arithmetic::div_mod::lemma_div_denominator(n as int, 100, 10);
    }
    assert((n % 1000) / 100 == b % 10) by (nonlinear_arith)
        requires
            b == n / 100,
            c == n / 1000,
            b / 10 == c,
    {
        assert(n == 1000 * c + n % 1000);
        assert(n == 100 * b + n % 100);
        assert(b == 10 * c + b % 10);
    }
    assert(((n % 1000) / 10) % 10 == a % 10) by (nonlinear_arith)
        requires
            a == n / 10,
            b == n / 100,
            c == n / 1000,
            a / 10 == b,
            b / 10 == c,
    {
        assert(n == 1000 * c + n % 1000);
        assert(n == 10 * a + n % 10);
        assert(a == 10 * b + a % 10);
        assert(b == 10 * c + b % 10);
    }
    assert((n % 1000) % 10 == n % 10) by (nonlinear_arith)
        requires
            c == n / 1000,
    {
        assert(n == 1000 * c + n % 1000);
    }
    assert(decimal(n) == decimal(a).push(digit_char(n % 10)));
    assert(decimal(a) == decimal(b).push(digit_char(a % 10)));
    assert(decimal(b) == decimal(c).push(digit_char(b % 10)));
    assert(decimal(n) =~= decimal(c) + pad3(n % 1000));
}

/// Law: taking the commas out of `format_u32(n)` leaves the plain decimal text of
/// `n`, for every `n`.
pub proof fn law_format_u32_digits(n: u32)
    ensures
        strip_commas(grouped(n as nat)) == decimal(n as nat),
{
    lemma_grouped_digits(n as nat);
}

proof fn lemma_grouped_digits(n: nat)
    ensures
        strip_commas(grouped(n)) == decimal(n),
    decreases n,
{
    if n < 1000 {
        lemma_strip_decimal(n);
    } else {
        lemma_grouped_digits(n / 1000);
        lemma_strip_concat(grouped(n / 1000) + seq![','], pad3(n % 1000));
        lemma_strip_concat(grouped(n / 1000), seq![',']);
        let e = Seq::<char>::empty();
        assert(strip_commas(e) == e);
        assert(strip_commas(seq![',']) == e) by {
            assert(seq![','].drop_last() =~= e);
            assert(seq![','].last() == ',');
        }
        let p = pad3(n % 1000);
        lemma_digit_not_comma((n % 1000) / 100);
        lemma_digit_not_comma(((n % 1000) / 10) % 10);
        lemma_digit_not_comma((n % 1000) % 10);
        assert(strip_commas(p) == p) by {
            let p1 = p.drop_last();
            let p2 = p1.drop_last();
            let p3 = p2.drop_last();
            assert(p3 =~= e);
            assert(strip_commas(p2) == strip_commas(p3).push(p2.last()));
            assert(strip_commas(p2) =~= p2);
            assert(strip_commas(p1) == strip_commas(p2).push(p1.last()));
            assert(strip_commas(p1) =~= p1);
            assert(strip_commas(p) == strip_commas(p1).push(p.last()));
            assert(strip_commas(p) =~= p);
        }
        lemma_decimal_split(n);
        assert(decimal(n / 1000) + Seq::<char>::empty() =~= decimal(n / 1000));
    }
}

/// `template` with every `{}`, taken from left to right without overlap,
/// replaced by `value`.
pub open spec fn fill_placeholders(template: Seq<char>, value: Seq<char>) -> Seq<char>
    decreases template.len(),
{
    if template.len() == 0 {
        template
    } else if template.len() >= 2 && template[0] == '{' && template[1] == '}' {
        value + fill_placeholders(template.skip(2), value)
    } else {
        seq![template[0]] + fill_placeholders(template.skip(1), value)
    }
}

/// Fills a debug overlay line: every `{}` of `template` becomes `value`.
pub fn fill_template(template: &str, value: &str) -> (line: String)
    ensures
        line@ == fill_placeholders(template@, value@),
{
    let n = template.unicode_len();
    let mut line = String::new();
    let mut i: usize = 0;
    assert(template@.skip(0) =~= template@);
    assert(line@ + fill_placeholders(template@, value@) =~= fill_placeholders(template@, value@));
    while i < n
        invariant
            n == template@.len(),
            i <= n,
            fill_placeholders(template@, value@) == line@ + fill_placeholders(template@.skip(i as int), value@),
        decreases n - i,
    {
        let rest = Ghost(template@.skip(i as int));
        assert(rest@.len() > 0);
        if i + 1 < n && template.get_char(i) == '{' && template.get_char(i + 1) == '}' {
            let ghost before = line@;
            line.append(value);
            assert(rest@[0] == '{' && rest@[1] == '}');
            assert(rest@.skip(2) =~= template@.skip(i + 2));
            assert(line@ + fill_placeholders(template@.skip(i + 2), value@)
                =~= before + (value@ + fill_placeholders(rest@.skip(2), value@)));
            i = i + 2;
        } else {
            let ghost before = line@;
            let piece = template.substring_char(i, i + 1);
            line.append(piece);
            assert(piece@ =~= seq![rest@[0]]);
            assert(rest@.skip(1) =~= template@.skip(i + 1));
            assert(line@ + fill_placeholders(template@.skip(i + 1), value@)
                =~= before + (seq![rest@[0]] + fill_placeholders(rest@.skip(1), value@)));
            i = i + 1;
        }
    }
    assert(template@.skip(n as int) =~= Seq::<char>::empty());
    assert(line@ + Seq::<char>::empty() =~= line@);
    line
}

} // verus!
