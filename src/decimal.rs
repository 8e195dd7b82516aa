use vstd::prelude::*;
use vstd::string::*;

verus! {

/// A decimal digit.
pub open spec fn is_digit(c: char) -> bool {
    '0' <= c <= '9'
}

/// The value of a decimal digit.
pub open spec fn digit_value(c: char) -> int {
    c as int - '0' as int
}

/// Every character is a decimal digit.
pub open spec fn all_digits(s: Seq<char>) -> bool {
    forall|i: int| 0 <= i < s.len() ==> is_digit(#[trigger] s[i])
}

/// The value of a string of decimal digits, most significant first.
pub open spec fn digits_value(s: Seq<char>) -> int
    decreases s.len(),
{
    if s.len() == 0 {
        0
    } else {
        digits_value(s.drop_last()) * 10 + digit_value(s.last())
    }
}

/// The position of the first '.', or -1 when there is none.
pub open spec fn dot_pos(s: Seq<char>) -> int
    decreases s.len(),
{
    if s.len() == 0 {
        -1
    } else if dot_pos(s.drop_last()) >= 0 {
        dot_pos(s.drop_last())
    } else if s.last() == '.' {
        s.len() - 1
    } else {
        -1
    }
}

/// What one unit of a fraction with `n` digits is worth, in thousandths.
pub open spec fn frac_scale(n: int) -> int {
    if n == 0 {
        1000
    } else if n == 1 {
        100
    } else if n == 2 {
        10
    } else {
        1
    }
}

/// The accepted form of a quantity: digits, optionally followed by a '.' and at most
/// three more digits, with at least one digit in all.
pub open spec fn is_decimal(s: Seq<char>) -> bool {
    let k = dot_pos(s);
    if k < 0 {
        s.len() > 0 && all_digits(s)
    } else {
        &&& all_digits(s.take(k))
        &&& all_digits(s.skip(k + 1))
        &&& s.len() - k - 1 <= 3
        &&& s.len() > 1
    }
}

/// The value of a quantity in the accepted form, in thousandths of its unit.
pub open spec fn decimal_value(s: Seq<char>) -> int {
    let k = dot_pos(s);
    if k < 0 {
        digits_value(s) * 1000
    } else {
        digits_value(s.take(k)) * 1000 + digits_value(s.skip(k + 1)) * frac_scale(
            s.len() - k - 1,
        )
    }
}

/// The largest whole number whose thousandths fit in a `u32`.
pub const MAX_WHOLE: u64 = 4_294_967;

proof fn lemma_digits_take_step(s: Seq<char>, i: int)
    requires
        0 <= i < s.len(),
    ensures
        digits_value(s.take(i + 1)) == digits_value(s.take(i)) * 10 + digit_value(s[i]),
{
    assert(s.take(i + 1).drop_last() =~= s.take(i));
}

proof fn lemma_digits_nonneg(s: Seq<char>)
    requires
        all_digits(s),
    ensures
        digits_value(s) >= 0,
    decreases s.len(),
{
    if s.len() > 0 {
        assert(all_digits(s.drop_last()));
        lemma_digits_nonneg(s.drop_last());
    }
}

/// A prefix of a string of digits is worth no more than the whole string.
proof fn lemma_digits_prefix_le(s: Seq<char>, i: int)
    requires
        all_digits(s),
        0 <= i <= s.len(),
    ensures
        digits_value(s.take(i)) <= digits_value(s),
    decreases s.len() - i,
{
    if i < s.len() {
        lemma_digits_take_step(s, i);
        assert(is_digit(s[i]));
        assert(all_digits(s.take(i)));
        lemma_digits_nonneg(s.take(i));
        lemma_digits_prefix_le(s, i + 1);
    } else {
        assert(s.take(i) =~= s);
    }
}

proof fn lemma_dot_take_step(s: Seq<char>, i: int)
    requires
        0 <= i < s.len(),
    ensures
        dot_pos(s.take(i + 1)) == if dot_pos(s.take(i)) >= 0 {
            dot_pos(s.take(i))
        } else if s[i] == '.' {
            i
        } else {
            -1
        },
{
    assert(s.take(i + 1).drop_last() =~= s.take(i));
}

proof fn lemma_dot_pos_range(s: Seq<char>)
    ensures
        -1 <= dot_pos(s) < s.len(),
        dot_pos(s) >= 0 ==> s[dot_pos(s)] == '.',
        dot_pos(s) >= 0 ==> forall|j: int| 0 <= j < dot_pos(s) ==> s[j] != '.',
        dot_pos(s) < 0 ==> forall|j: int| 0 <= j < s.len() ==> s[j] != '.',
    decreases s.len(),
{
    if s.len() > 0 {
        let t = s.drop_last();
        lemma_dot_pos_range(t);
        assert forall|j: int| 0 <= j < t.len() implies t[j] == s[j] by {}
    }
}

/// Reads the digits `s[from..to]`, giving `None` when they are worth more than `limit`.
fn read_digits(s: &str, from: usize, to: usize, limit: u64) -> (r: Option<u64>)
    requires
        from <= to <= s@.len(),
        all_digits(s@.subrange(from as int, to as int)),
        limit <= u32::MAX,
    ensures
        r is Some <==> digits_value(s@.subrange(from as int, to as int)) <= limit,
        r is Some ==> r->0 == digits_value(s@.subrange(from as int, to as int)),
{
    let ghost d = s@.subrange(from as int, to as int);
    let mut acc: u64 = 0;
    let mut i: usize = from;
    while i < to
        invariant
            from <= i <= to <= s@.len(),
            d == s@.subrange(from as int, to as int),
            all_digits(d),
            limit <= u32::MAX,
            acc == digits_value(d.take(i - from)),
            acc <= limit,
        decreases to - i,
    {
        let c = s.get_char(i);
        proof {
            assert(d[i - from] == c);
            assert(is_digit(d[i - from]));
            lemma_digits_take_step(d, i - from);
        }
        let v = (c as u32 - '0' as u32) as u64;
        acc = acc * 10 + v;
        i = i + 1;
        if acc > limit {
            proof {
                lemma_digits_prefix_le(d, i - from);
            }
            return None;
        }
    }
    assert(d.take(to - from) =~= d);
    Some(acc)
}

/// Reads a quantity such as `12.5` as a whole number of thousandths (12500).
///
/// Gives `None` when the text is not in the accepted form, or when the value does
/// not fit in a `u32`.
pub fn parse_thousandths(s: &str) -> (r: Option<u32>)
    ensures
        r is Some <==> is_decimal(s@) && decimal_value(s@) <= u32::MAX,
        r is Some ==> r->0 == decimal_value(s@),
{
    let n = s.unicode_len();
    let ghost q = s@;
    // find the first dot, checking that all before it are digits
    let mut i: usize = 0;
    let mut dot: Option<usize> = None;
    while i < n
        invariant_except_break
            n == q.len(),
            q == s@,
            i <= n,
            dot is None,
            dot_pos(q.take(i as int)) == -1,
            all_digits(q.take(i as int)),
        invariant
            n == q.len(),
            q == s@,
        ensures
            dot is None ==> i == n && dot_pos(q.take(n as int)) == -1 && all_digits(
                q.take(n as int),
            ),
            dot is Some ==> dot->0 < n && dot_pos(q) == dot->0 && all_digits(q.take(dot->0 as int)),
        decreases n - i,
    {
        let c = s.get_char(i);
        proof {
            lemma_dot_take_step(q, i as int);
        }
        if c == '.' {
            dot = Some(i);
            proof {
                lemma_dot_pos_range(q);
                lemma_dot_pos_range(q.take(i as int + 1));
                let k = dot_pos(q);
                if k != i as int {
                    if k < i as int {
                        assert(q.take(i as int)[k] == '.');
                    }
                    if k >= 0 && k > i as int {
                        assert(q[i as int] != '.');
                    }
                    if k < 0 {
                        assert(q[i as int] != '.');
                    }
                }
            }
            break;
        }
        if !(c >= '0' && c <= '9') {
            proof {
                assert(q[i as int] == c);
                lemma_dot_pos_range(q);
                lemma_dot_pos_range(q.take(i as int));
                let k = dot_pos(q);
                assert forall|j: int| 0 <= j < i implies q[j] != '.' by {
                    assert(q.take(i as int)[j] == q[j]);
                }
                if k >= 0 {
                    assert(k > i);
                    assert(q.take(k)[i as int] == c);
                }
            }
            return None;
        }
        proof {
            assert(q.take(i as int + 1) =~= q.take(i as int).push(c));
        }
        i = i + 1;
    }
    match dot {
        None => {
            assert(q.take(n as int) =~= q);
            assert(dot_pos(q) == -1);
            if n == 0 {
                return None;
            }
            assert(q.subrange(0, n as int) =~= q);
            match read_digits(s, 0, n, MAX_WHOLE) {
                None => None,
                Some(w) => Some((w * 1000) as u32),
            }
        },
        Some(k) => {
            let frac_len = n - k - 1;
            assert(q.subrange(0, k as int) =~= q.take(k as int));
            assert(q.subrange(k + 1, n as int) =~= q.skip(k + 1));
            if frac_len > 3 || n == 1 {
                return None;
            }
            // the fraction must hold digits only
            let mut j: usize = k + 1;
            while j < n
                invariant
                    k < n,
                    n == q.len(),
                    dot_pos(q) == k,
                    frac_len == n - k - 1,
                    q == s@,
                    k + 1 <= j <= n,
                    all_digits(q.subrange(k + 1, j as int)),
                decreases n - j,
            {
                let c = s.get_char(j);
                if !(c >= '0' && c <= '9') {
                    proof {
                        assert(q.skip(k + 1)[j - k - 1] == c);
                    }
                    return None;
                }
                proof {
                    assert(q.subrange(k + 1, j + 1) =~= q.subrange(k + 1, j as int).push(c));
                }
                j = j + 1;
            }
            let whole = read_digits(s, 0, k, MAX_WHOLE);
            let frac = read_digits(s, k + 1, n, 999);
            match (whole, frac) {
                (Some(w), Some(f)) => {
                    let scale: u64 = if frac_len == 0 {
                        1000
                    } else if frac_len == 1 {
                        100
                    } else if frac_len == 2 {
                        10
                    } else {
                        1
                    };
                    let v = w * 1000 + f * scale;
                    if v > u32::MAX as u64 {
                        None
                    } else {
                        Some(v as u32)
                    }
                },
                _ => {
                    proof {
                        lemma_digits_nonneg(q.take(k as int));
                        lemma_digits_nonneg(q.skip(k + 1));
                        if frac is None {
                            // at most three digits are worth at most 999
                            lemma_three_digits_small(q.skip(k + 1));
                        }
                    }
                    None
                },
            }
        },
    }
}

/// Ten to the power `n`.
pub open spec fn pow10(n: nat) -> int
    decreases n,
{
    if n == 0 {
        1
    } else {
        10 * pow10((n - 1) as nat)
    }
}

/// A string of `n` digits is worth less than ten to the power `n`.
proof fn lemma_digits_lt(s: Seq<char>)
    requires
        all_digits(s),
    ensures
        0 <= digits_value(s) < pow10(s.len()),
    decreases s.len(),
{
    if s.len() > 0 {
        let a = s.drop_last();
        assert(all_digits(a));
        lemma_digits_lt(a);
        assert(is_digit(s.last()));
    }
}

/// At most three digits are worth at most 999.
proof fn lemma_three_digits_small(s: Seq<char>)
    requires
        all_digits(s),
        s.len() <= 3,
    ensures
        digits_value(s) <= 999,
{
    lemma_digits_lt(s);
    assert(pow10(0) == 1);
    assert(pow10(1) == 10);
    assert(pow10(2) == 100);
    assert(pow10(3) == 1000);
}

/// The character of a decimal digit.
pub open spec fn digit_char(d: int) -> char {
    if d == 0 {
        '0'
    } else if d == 1 {
        '1'
    } else if d == 2 {
        '2'
    } else if d == 3 {
        '3'
    } else if d == 4 {
        '4'
    } else if d == 5 {
        '5'
    } else if d == 6 {
        '6'
    } else if d == 7 {
        '7'
    } else if d == 8 {
        '8'
    } else {
        '9'
    }
}

/// The decimal digits of `n`, most significant first, without leading zeros.
pub open spec fn digits_text(n: nat) -> Seq<char>
    decreases n,
{
    if n < 10 {
        seq![digit_char(n as int)]
    } else {
        digits_text(n / 10).push(digit_char((n % 10) as int))
    }
}

/// The digits of a fraction of thousandths `f` (1 to 999), without trailing zeros.
pub open spec fn frac_text(f: nat) -> Seq<char> {
    if f % 100 == 0 {
        seq![digit_char((f / 100) as int)]
    } else if f % 10 == 0 {
        seq![digit_char((f / 100) as int), digit_char(((f / 10) % 10) as int)]
    } else {
        seq![
            digit_char((f / 100) as int),
            digit_char(((f / 10) % 10) as int),
            digit_char((f % 10) as int),
        ]
    }
}

/// The shortest text of a quantity of `v` thousandths: the whole part, then a '.'
/// and the fraction only when there is one.
pub open spec fn decimal_text(v: nat) -> Seq<char> {
    if v % 1000 == 0 {
        digits_text(v / 1000)
    } else {
        digits_text(v / 1000) + seq!['.'] + frac_text(v % 1000)
    }
}

fn digit_str(d: u32) -> (r: &'static str)
    requires
        d < 10,
    ensures
        r@ == seq![digit_char(d as int)],
{
    proof {
        reveal_strlit("0");
        reveal_strlit("1");
        reveal_strlit("2");
        reveal_strlit("3");
        reveal_strlit("4");
        reveal_strlit("5");
        reveal_strlit("6");
        reveal_strlit("7");
        reveal_strlit("8");
        reveal_strlit("9");
    }
    if d == 0 {
        "0"
    } else if d == 1 {
        "1"
    } else if d == 2 {
        "2"
    } else if d == 3 {
        "3"
    } else if d == 4 {
        "4"
    } else if d == 5 {
        "5"
    } else if d == 6 {
        "6"
    } else if d == 7 {
        "7"
    } else if d == 8 {
        "8"
    } else {
        "9"
    }
}

fn push_digits(out: &mut String, n: u32)
    ensures
        final(out)@ == old(out)@ + digits_text(n as nat),
    decreases n,
{
    if n >= 10 {
        push_digits(out, n / 10);
    }
    out.append(digit_str(n % 10));
    proof {
        if n >= 10 {
            assert(old(out)@ + digits_text((n / 10) as nat) + seq![digit_char((n % 10) as int)]
                =~= old(out)@ + digits_text(n as nat));
        }
    }
}

/// Writes `v` thousandths as the shortest decimal text: 12500 as `12.5`, 38000 as `38`.
pub fn format_thousandths(v: u32) -> (r: String)
    ensures
        r@ == decimal_text(v as nat),
{
    let mut out = String::new();
    push_digits(&mut out, v / 1000);
    let f = v % 1000;
    if f != 0 {
        out.append(".");
        out.append(digit_str(f / 100));
        if f % 100 != 0 {
            out.append(digit_str((f / 10) % 10));
            if f % 10 != 0 {
                out.append(digit_str(f % 10));
            }
        }
        proof {
            reveal_strlit(".");
            assert(out@ =~= decimal_text(v as nat));
        }
    } else {
        assert(out@ =~= decimal_text(v as nat));
    }
    out
}

proof fn lemma_digit_char(d: int)
    requires
        0 <= d < 10,
    ensures
        is_digit(digit_char(d)),
        digit_value(digit_char(d)) == d,
        digit_char(d) != '.',
{
}

proof fn lemma_digits_single(c: char)
    ensures
        digits_value(seq![c]) == digit_value(c),
{
    let s = seq![c];
    assert(s.drop_last() =~= Seq::<char>::empty());
    assert(digits_value(s.drop_last()) == 0);
}

proof fn lemma_digits_text(n: nat)
    ensures
        all_digits(digits_text(n)),
        digits_value(digits_text(n)) == n,
        digits_text(n).len() > 0,
    decreases n,
{
    if n < 10 {
        lemma_digit_char(n as int);
        lemma_digits_single(digit_char(n as int));
    } else {
        lemma_digits_text(n / 10);
        lemma_digit_char((n % 10) as int);
        let t = digits_text(n);
        assert(t.drop_last() =~= digits_text(n / 10));
    }
}

proof fn lemma_no_dot(s: Seq<char>)
    requires
        all_digits(s),
    ensures
        dot_pos(s) == -1,
{
    lemma_dot_pos_range(s);
    if dot_pos(s) >= 0 {
        assert(is_digit(s[dot_pos(s)]));
    }
}

proof fn lemma_dot_at(s: Seq<char>, k: int)
    requires
        0 <= k < s.len(),
        s[k] == '.',
        all_digits(s.take(k)),
    ensures
        dot_pos(s) == k,
    decreases s.len(),
{
    if s.len() == k + 1 {
        assert(s.drop_last() =~= s.take(k));
        lemma_no_dot(s.take(k));
    } else {
        assert(s.drop_last().take(k) =~= s.take(k));
        lemma_dot_at(s.drop_last(), k);
    }
}

proof fn lemma_frac_text(f: nat)
    requires
        1 <= f <= 999,
    ensures
        all_digits(frac_text(f)),
        1 <= frac_text(f).len() <= 3,
        digits_value(frac_text(f)) * frac_scale(frac_text(f).len() as int) == f,
{
    let a = (f / 100) as int;
    let b = ((f / 10) % 10) as int;
    let c = (f % 10) as int;
    lemma_digit_char(a);
    lemma_digit_char(b);
    lemma_digit_char(c);
    let t = frac_text(f);
    assert(f == 100 * a + 10 * b + c);
    if f % 100 == 0 {
        assert(b == 0 && c == 0);
        lemma_digits_single(digit_char(a));
        assert(digits_value(t) == a);
    } else if f % 10 == 0 {
        assert(c == 0);
        assert(t.drop_last() =~= seq![digit_char(a)]);
        lemma_digits_single(digit_char(a));
        assert(digits_value(seq![digit_char(a)]) == a);
        assert(digits_value(t) == 10 * a + b);
    } else {
        assert(t.drop_last() =~= seq![digit_char(a), digit_char(b)]);
        assert(seq![digit_char(a), digit_char(b)].drop_last() =~= seq![digit_char(a)]);
        lemma_digits_single(digit_char(a));
        assert(digits_value(seq![digit_char(a)]) == a);
        assert(digits_value(seq![digit_char(a), digit_char(b)]) == 10 * a + b);
        assert(digits_value(t) == 100 * a + 10 * b + c);
    }
}

/// The text of a quantity is in the accepted form and reads back as the same quantity.
pub proof fn lemma_text_round_trip(v: u32)
    ensures
        is_decimal(decimal_text(v as nat)),
        decimal_value(decimal_text(v as nat)) == v,
{
    let w = (v / 1000) as nat;
    let f = (v % 1000) as nat;
    lemma_digits_text(w);
    let a = digits_text(w);
    if f == 0 {
        lemma_no_dot(a);
    } else {
        lemma_frac_text(f);
        let b = frac_text(f);
        let t = a + seq!['.'] + b;
        assert(t.take(a.len() as int) =~= a);
        assert(t.skip(a.len() as int + 1) =~= b);
        lemma_dot_at(t, a.len() as int);
    }
}

} // verus!
