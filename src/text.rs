//! Text building blocks shared by the batch encoder, the exporters and the
//! storage layout: decimal numerals, zero padding and JSON string quoting.

use vstd::prelude::*;

verus! {

/// The numeral character for a digit below ten.
pub open spec fn digit_char(d: nat) -> char {
    if d == 0 { '0' }
    else if d == 1 { '1' }
    else if d == 2 { '2' }
    else if d == 3 { '3' }
    else if d == 4 { '4' }
    else if d == 5 { '5' }
    else if d == 6 { '6' }
    else if d == 7 { '7' }
    else if d == 8 { '8' }
    else { '9' }
}

/// The lower-case hexadecimal character for a value below sixteen.
pub open spec fn hex_char(d: nat) -> char {
    if d < 10 { digit_char(d) }
    else if d == 10 { 'a' }
    else if d == 11 { 'b' }
    else if d == 12 { 'c' }
    else if d == 13 { 'd' }
    else if d == 14 { 'e' }
    else { 'f' }
}

/// Decimal representation of `n`, without leading zeros.
pub open spec fn decimal(n: nat) -> Seq<char>
    decreases n,
{
    if n < 10 {
        seq![digit_char(n)]
    } else {
        decimal(n / 10).push(digit_char(n % 10))
    }
}

/// `n` in decimal, left-padded with zeros to at least `width` characters.
pub open spec fn zero_padded(n: nat, width: nat) -> Seq<char> {
    let d = decimal(n);
    if d.len() >= width {
        d
    } else {
        Seq::new((width - d.len()) as nat, |i: int| '0') + d
    }
}

/// `s` with every trailing `'0'` removed.
pub open spec fn trim_zeros(s: Seq<char>) -> Seq<char>
    decreases s.len(),
{
    if s.len() > 0 && s.last() == '0' {
        trim_zeros(s.drop_last())
    } else {
        s
    }
}

pub open spec fn pow10(k: nat) -> nat
    decreases k,
{
    if k == 0 { 1 } else { 10 * pow10((k - 1) as nat) }
}

/// `n / 10^k` written as the shortest decimal fraction: the whole part,
/// then, unless the remainder is zero, a point and the significant digits.
pub open spec fn scaled_decimal(n: nat, k: nat) -> Seq<char> {
    let whole = decimal(n / pow10(k));
    let frac = n % pow10(k);
    if frac == 0 {
        whole
    } else {
        whole + seq!['.'] + trim_zeros(zero_padded(frac, k))
    }
}

/// How one character is written inside a JSON string literal.
pub open spec fn json_char(c: char) -> Seq<char> {
    if c == '"' { seq!['\\', '"'] }
    else if c == '\\' { seq!['\\', '\\'] }
    else if c == '\n' { seq!['\\', 'n'] }
    else if c == '\r' { seq!['\\', 'r'] }
    else if c == '\t' { seq!['\\', 't'] }
    else if (c as u32) < 0x20 {
        seq!['\\', 'u', '0', '0', hex_char((c as u32 / 16) as nat), hex_char((c as u32 % 16) as nat)]
    } else { seq![c] }
}

/// The body of a JSON string literal for `s`, without the quotes.
pub open spec fn json_escaped(s: Seq<char>) -> Seq<char>
    decreases s.len(),
{
    if s.len() == 0 {
        Seq::empty()
    } else {
        json_escaped(s.drop_last()) + json_char(s.last())
    }
}

/// A JSON string literal for `s`.
pub open spec fn json_quoted(s: Seq<char>) -> Seq<char> {
    seq!['"'] + json_escaped(s) + seq!['"']
}

fn digit_str(d: u64) -> (r: &'static str)
    requires
        d < 10,
    ensures
        r@ == seq![digit_char(d as nat)],
{
    proof {
        reveal_strlit("0");
        reveal_strlit("1");
        reveal_strlit("2");
        reveal_strlit("3");
        reveal_strlit("4");
        reveal_strlit("5");
        reveal_strlit("6");
        reveal_strlit("7");
        reveal_strlit("8");
        reveal_strlit("9");
    }
    let r = if d == 0 { "0" }
    else if d == 1 { "1" }
    else if d == 2 { "2" }
    else if d == 3 { "3" }
    else if d == 4 { "4" }
    else if d == 5 { "5" }
    else if d == 6 { "6" }
    else if d == 7 { "7" }
    else if d == 8 { "8" }
    else { "9" };
    assert(r@ =~= seq![digit_char(d as nat)]);
    r
}

fn hex_str(d: u32) -> (r: &'static str)
    requires
        d < 16,
    ensures
        r@ == seq![hex_char(d as nat)],
{
    proof {
        reveal_strlit("a");
        reveal_strlit("b");
        reveal_strlit("c");
        reveal_strlit("d");
        reveal_strlit("e");
        reveal_strlit("f");
    }
    if d < 10 {
        digit_str(d as u64)
    } else {
        let r = if d == 10 { "a" }
        else if d == 11 { "b" }
        else if d == 12 { "c" }
        else if d == 13 { "d" }
        else if d == 14 { "e" }
        else { "f" };
        assert(r@ =~= seq![hex_char(d as nat)]);
        r
    }
}

/// Appends the decimal representation of `n`.
pub fn push_decimal(out: &mut String, n: u64)
    ensures
        final(out)@ == old(out)@ + decimal(n as nat),
    decreases n,
{
    if n >= 10 {
        push_decimal(out, n / 10);
    }
    out.append(digit_str(n % 10));
    assert(final(out)@ =~= old(out)@ + decimal(n as nat));
}

/// The decimal representation of `n`.
pub fn decimal_string(n: u64) -> (r: String)
    ensures
        r@ == decimal(n as nat),
{
    let mut out = String::new();
    push_decimal(&mut out, n);
    assert(out@ =~= decimal(n as nat));
    out
}

/// A number below `10^k` has at most `k` digits.
proof fn lemma_decimal_len_bound(n: nat, k: nat)
    requires
        n < pow10(k),
        k >= 1,
    ensures
        decimal(n).len() <= k,
    decreases k,
{
    if n >= 10 {
        assert(pow10(k) == 10 * pow10((k - 1) as nat));
        if k == 1 {
            assert(false);
        } else {
            assert(n / 10 < pow10((k - 1) as nat));
            lemma_decimal_len_bound(n / 10, (k - 1) as nat);
        }
    }
}

/// Appends `n` in decimal, left-padded with zeros to `width` characters.
pub fn push_zero_padded(out: &mut String, n: u64, width: usize)
    requires
        width <= 64,
    ensures
        final(out)@ == old(out)@ + zero_padded(n as nat, width as nat),
{
    let digits = decimal_string(n);
    let len = digits.as_str().unicode_len();
    let ghost start = out@;
    if len < width {
        let mut i: usize = 0;
        while i < width - len
            invariant
                i <= width - len,
                len == decimal(n as nat).len(),
                len < width,
                out@ == start + Seq::new(i as nat, |j: int| '0'),
            decreases width - len - i,
        {
            out.append("0");
            proof {
                reveal_strlit("0");
            }
            assert(out@ =~= start + Seq::new((i + 1) as nat, |j: int| '0'));
            i = i + 1;
        }
    }
    out.append(digits.as_str());
    assert(out@ =~= start + zero_padded(n as nat, width as nat));
}

proof fn lemma_trim_prefix(s: Seq<char>, i: int)
    requires
        0 <= i <= s.len(),
        forall|j: int| i <= j < s.len() ==> s[j] == '0',
    ensures
        trim_zeros(s) == trim_zeros(s.subrange(0, i)),
    decreases s.len() - i,
{
    if i < s.len() {
        assert(s.drop_last() =~= s.subrange(0, s.len() - 1));
        lemma_trim_prefix(s.drop_last(), i);
        assert(s.drop_last().subrange(0, i) =~= s.subrange(0, i));
    } else {
        assert(s.subrange(0, i) =~= s);
    }
}

/// Appends `n / divisor` as the shortest decimal fraction, where
/// `divisor` is ten to the power `k` (`1000` gives milliseconds from
/// microseconds, `1000000` seconds).
proof fn lemma_pow10_pos(k: nat)
    ensures
        pow10(k) >= 1,
    decreases k,
{
    if k > 0 {
        lemma_pow10_pos((k - 1) as nat);
    }
}

pub fn push_scaled(out: &mut String, n: u64, divisor: u64, k: usize)
    requires
        1 <= k <= 19,
        divisor as nat == pow10(k as nat),
    ensures
        final(out)@ == old(out)@ + scaled_decimal(n as nat, k as nat),
{
    let ghost start = out@;
    proof {
        lemma_pow10_pos(k as nat);
    }
    push_decimal(out, n / divisor);
    let frac = n % divisor;
    if frac != 0 {
        out.append(".");
        proof {
            reveal_strlit(".");
        }
        let mut padded = String::new();
        push_zero_padded(&mut padded, frac, k);
        let ghost p = padded@;
        assert(p =~= zero_padded(frac as nat, k as nat));
        proof {
            lemma_decimal_len_bound(frac as nat, k as nat);
        }
        // keep everything up to the last significant digit
        let plen = padded.as_str().unicode_len();
        let mut end: usize = plen;
        while end > 0 && padded.as_str().get_char(end - 1) == '0'
            invariant
                end <= plen,
                plen == p.len(),
                padded@ == p,
                forall|j: int| end <= j < p.len() ==> p[j] == '0',
            decreases end,
        {
            end = end - 1;
        }
        proof {
            lemma_trim_prefix(p, end as int);
            if end > 0 {
                assert(p.subrange(0, end as int).last() != '0');
            }
            assert(trim_zeros(p.subrange(0, end as int)) == p.subrange(0, end as int));
        }
        let kept = padded.as_str().substring_char(0, end);
        out.append(kept);
    }
    assert(out@ =~= start + scaled_decimal(n as nat, k as nat));
}

/// Appends `s` as a JSON string literal, quotes included.
pub fn push_json_string(out: &mut String, s: &str)
    ensures
        final(out)@ == old(out)@ + json_quoted(s@),
{
    let ghost start = out@;
    out.append("\"");
    proof {
        reveal_strlit("\"");
    }
    let n = s.unicode_len();
    let mut i: usize = 0;
    while i < n
        invariant
            i <= n,
            n == s@.len(),
            out@ == start + seq!['"'] + json_escaped(s@.subrange(0, i as int)),
        decreases n - i,
    {
        let ghost before = out@;
        proof {
            reveal_strlit("\\\"");
            reveal_strlit("\\\\");
            reveal_strlit("\\n");
            reveal_strlit("\\r");
            reveal_strlit("\\t");
            reveal_strlit("\\u00");
        }
        let c = s.get_char(i);
        if c == '"' {
            out.append("\\\"");
        } else if c == '\\' {
            out.append("\\\\");
        } else if c == '\n' {
            out.append("\\n");
        } else if c == '\r' {
            out.append("\\r");
        } else if c == '\t' {
            out.append("\\t");
        } else if (c as u32) < 0x20 {
            out.append("\\u00");
            assert("\\u00"@ =~= seq!['\\', 'u', '0', '0']);
            let hi = c as u32 / 16;
            let lo = c as u32 % 16;
            out.append(hex_str(hi));
            out.append(hex_str(lo));
            assert(json_char(c) =~= seq!['\\', 'u', '0', '0', hex_char(hi as nat), hex_char(lo as nat)]);
            assert(out@ =~= before + json_char(c));
        } else {
            out.append(s.substring_char(i, i + 1));
        }
        assert(c == s@[i as int]);
        assert(out@ =~= before + json_char(c));
        assert(s@.subrange(0, i + 1).drop_last() =~= s@.subrange(0, i as int));
        i = i + 1;
    }
    out.append("\"");
    assert(s@.subrange(0, n as int) =~= s@);
    assert(out@ =~= start + json_quoted(s@));
}

/// Whether two texts are equal.
pub fn same_text(a: &str, b: &str) -> (r: bool)
    ensures
        r == (a@ == b@),
{
    a.to_string() == b.to_string()
}

} // verus!
