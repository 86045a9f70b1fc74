//! Decimal rendering of integers into `String`s, as `Display` prints them.
use vstd::prelude::*;
use vstd::string::*;

verus! {

/// The character of decimal digit `d` (`d < 10`).
pub open spec fn digit_char(d: nat) -> char {
    (48 + d) as char
}

/// Decimal digits of `n`, most significant first, without leading zeros.
pub open spec fn decimal(n: nat) -> Seq<char>
    decreases n,
{
    if n < 10 {
        seq![digit_char(n)]
    } else {
        decimal(n / 10).push(digit_char(n % 10))
    }
}

/// Decimal text of an integer, with a leading `-` when negative.
pub open spec fn signed_decimal(n: int) -> Seq<char> {
    if n < 0 {
        seq!['-'] + decimal((-n) as nat)
    } else {
        decimal(n as nat)
    }
}

fn digit_str(d: u64) -> (s: &'static str)
    requires
        d < 10,
    ensures
        s@ == seq![digit_char(d as nat)],
{
    proof {
        reveal_strlit("0");
        reveal_strlit("1");
        reveal_strlit("2");
        reveal_strlit("3");
        reveal_strlit("4");
        reveal_strlit("5");
        reveal_strlit("6");
        reveal_strlit("7");
        reveal_strlit("8");
        reveal_strlit("9");
    }
    if d == 0 {
        "0"
    } else if d == 1 {
        "1"
    } else if d == 2 {
        "2"
    } else if d == 3 {
        "3"
    } else if d == 4 {
        "4"
    } else if d == 5 {
        "5"
    } else if d == 6 {
        "6"
    } else if d == 7 {
        "7"
    } else if d == 8 {
        "8"
    } else {
        "9"
    }
}

/// Appends the decimal digits of `n` to `s`.
pub fn push_u64(s: &mut String, n: u64)
    ensures
        final(s)@ == old(s)@ + decimal(n as nat),
    decreases n,
{
    if n >= 10 {
        push_u64(s, n / 10);
    }
    s.append(digit_str(n % 10));
    proof {
        if n >= 10 {
            assert(decimal(n as nat) == decimal((n / 10) as nat).push(digit_char((n % 10) as nat)));
        }
    }
}

/// Appends the decimal text of `n` (with `-` when negative) to `s`.
pub fn push_i64(s: &mut String, n: i64)
    ensures
        final(s)@ == old(s)@ + signed_decimal(n as int),
{
    if n < 0 {
        proof {
            reveal_strlit("-");
        }
        s.append("-");
        let m: u64 = (0i128 - n as i128) as u64;
        push_u64(s, m);
        assert(old(s)@ + seq!['-'] + decimal(m as nat) == old(s)@ + (seq!['-'] + decimal(m as nat)));
    } else {
        push_u64(s, n as u64);
    }
}

/// Decimal text of `n`, as `n.to_string()` gives it.
pub fn u64_text(n: u64) -> (s: String)
    ensures
        s@ == decimal(n as nat),
{
    let mut s = String::new();
    push_u64(&mut s, n);
    assert(Seq::<char>::empty() + decimal(n as nat) == decimal(n as nat));
    s
}

/// Decimal text of `n`, as `n.to_string()` gives it.
pub fn i64_text(n: i64) -> (s: String)
    ensures
        s@ == signed_decimal(n as int),
{
    let mut s = String::new();
    push_i64(&mut s, n);
    assert(Seq::<char>::empty() + signed_decimal(n as int) == signed_decimal(n as int));
    s
}

/// The parts laid end to end with `sep` between each two, as `join` gives them.
pub open spec fn joined(parts: Seq<Seq<char>>, sep: Seq<char>) -> Seq<char>
    decreases parts.len(),
{
    if parts.len() == 0 {
        Seq::empty()
    } else if parts.len() == 1 {
        parts[0]
    } else {
        joined(parts.drop_last(), sep) + sep + parts.last()
    }
}

/// The texts of a list of strings.
pub open spec fn texts(v: Seq<String>) -> Seq<Seq<char>> {
    v.map_values(|p: String| p@)
}

/// The decimal texts of a list of numbers.
pub open spec fn decimals(v: Seq<u64>) -> Seq<Seq<char>> {
    v.map_values(|x: u64| decimal(x as nat))
}

/// How `{:?}` prints a list of numbers: `[1, 2, 3]`.
pub open spec fn u64_list_debug_text(v: Seq<u64>) -> Seq<char> {
    "["@ + joined(decimals(v), ", "@) + "]"@
}

/// Joins the strings with `sep` between each two, as `slice::join` does.
pub fn join_strings(parts: &Vec<String>, sep: &str) -> (s: String)
    ensures
        s@ == joined(texts(parts@), sep@),
{
    let mut s = String::new();
    let mut i: usize = 0;
    while i < parts.len()
        invariant
            i <= parts.len(),
            s@ == joined(texts(parts@.subrange(0, i as int)), sep@),
        decreases parts.len() - i,
    {
        let ghost before = s@;
        if i > 0 {
            s.append(sep);
        }
        s.append(parts[i].as_str());
        proof {
            let pre = texts(parts@.subrange(0, i as int));
            let post = texts(parts@.subrange(0, i + 1));
            assert(post.drop_last() =~= pre);
            assert(post.last() == parts@[i as int]@);
            if i == 0 {
                assert(post.len() == 1);
                assert(before =~= Seq::<char>::empty());
                assert(s@ =~= post[0]);
            } else {
                assert(s@ =~= before + sep@ + parts@[i as int]@);
            }
        }
        i = i + 1;
    }
    assert(parts@.subrange(0, parts.len() as int) =~= parts@);
    s
}

/// The `{:?}` text of a list of numbers: `[1, 2, 3]`.
pub fn u64_list_debug(v: &Vec<u64>) -> (s: String)
    ensures
        s@ == u64_list_debug_text(v@),
{
    let mut s = String::from_str("[");
    let mut i: usize = 0;
    proof {
        reveal_strlit("[");
        reveal_strlit(", ");
    }
    while i < v.len()
        invariant
            i <= v.len(),
            s@ == "["@ + joined(decimals(v@.subrange(0, i as int)), ", "@),
        decreases v.len() - i,
    {
        let ghost before = s@;
        if i > 0 {
            s.append(", ");
        }
        push_u64(&mut s, v[i]);
        proof {
            let pre = decimals(v@.subrange(0, i as int));
            let post = decimals(v@.subrange(0, i + 1));
            assert(post.drop_last() =~= pre);
            assert(post.last() == decimal(v@[i as int] as nat));
            if i == 0 {
                assert(post.len() == 1);
                assert(joined(pre, ", "@) =~= Seq::<char>::empty());
                assert(s@ =~= "["@ + post[0]);
            } else {
                assert(s@ =~= "["@ + (joined(pre, ", "@) + ", "@ + post.last()));
            }
        }
        i = i + 1;
    }
    assert(v@.subrange(0, v.len() as int) =~= v@);
    s.append("]");
    s
}

/// Appends a character, by `String::push`: the text grows by exactly that character.
#[verifier::external_body]
pub(crate) fn push_char(s: &mut String, c: char)
    ensures
        final(s)@ == old(s)@.push(c),
{
    s.push(c);
}

/// Whether every character of `s` is a decimal digit `0`–`9`.
pub open spec fn all_digits(s: Seq<char>) -> bool {
    forall|i: int| 0 <= i < s.len() ==> '0' <= #[trigger] s[i] <= '9'
}

/// The value of a text of decimal digits, most significant first.
pub open spec fn digits_value(s: Seq<char>) -> int
    decreases s.len(),
{
    if s.len() == 0 {
        0
    } else {
        digits_value(s.drop_last()) * 10 + (s.last() as int - 48)
    }
}

/// What `str::parse` gives for an unsigned integer type whose largest value
/// is `max`: the text must be an optional `+` followed by at least one
/// decimal digit and nothing else, and its value must not exceed `max`.
pub open spec fn parse_unsigned(s: Seq<char>, max: int) -> Option<int> {
    let digits = if s.len() > 0 && s[0] == '+' {
        s.drop_first()
    } else {
        s
    };
    if digits.len() > 0 && all_digits(digits) && digits_value(digits) <= max {
        Some(digits_value(digits))
    } else {
        None
    }
}

proof fn lemma_digits_value_nonneg(s: Seq<char>)
    requires
        all_digits(s),
    ensures
        digits_value(s) >= 0,
    decreases s.len(),
{
    if s.len() > 0 {
        assert(all_digits(s.drop_last()));
        lemma_digits_value_nonneg(s.drop_last());
        assert('0' <= s[s.len() - 1] <= '9');
    }
}

/// Parses an unsigned integer of at most `max` as `str::parse` does: an
/// optional `+`, then at least one decimal digit and nothing else.
pub fn parse_unsigned_text(s: &str, max: u64) -> (r: Option<u64>)
    ensures
        r == (match parse_unsigned(s@, max as int) {
            Some(v) => Some(v as u64),
            None => None,
        }),
        parse_unsigned(s@, max as int) matches Some(v) ==> 0 <= v <= max,
{
    let n = s.unicode_len();
    let mut i: usize = 0;
    if n > 0 && s.get_char(0) == '+' {
        i = 1;
    }
    let start = i;
    let ghost digits = if s@.len() > 0 && s@[0] == '+' {
        s@.drop_first()
    } else {
        s@
    };
    assert(digits =~= s@.subrange(start as int, n as int));
    if start == n {
        assert(digits.len() == 0);
        return None;
    }
    let mut v: u128 = 0;
    let mut over = false;
    assert(s@.subrange(start as int, start as int) =~= Seq::<char>::empty());
    while i < n
        invariant
            start <= i <= n,
            n == s@.len(),
            digits == s@.subrange(start as int, n as int),
            digits == (if s@.len() > 0 && s@[0] == '+' {
                s@.drop_first()
            } else {
                s@
            }),
            all_digits(s@.subrange(start as int, i as int)),
            !over ==> v == digits_value(s@.subrange(start as int, i as int)) && v <= max,
            over ==> digits_value(s@.subrange(start as int, i as int)) > max,
        decreases n - i,
    {
        let c = s.get_char(i);
        let ghost pre = s@.subrange(start as int, i as int);
        let ghost post = s@.subrange(start as int, i + 1);
        assert(post.drop_last() =~= pre);
        assert(post.last() == c);
        if c < '0' || c > '9' {
            assert(digits[i - start] == c);
            assert(!all_digits(digits));
            return None;
        }
        assert(all_digits(post));
        let d: u32 = (c as u32) - 48;
        proof {
            lemma_digits_value_nonneg(pre);
        }
        if !over {
            v = v * 10 + d as u128;
            if v > max as u128 {
                over = true;
            }
        }
        i = i + 1;
    }
    assert(s@.subrange(start as int, n as int) == digits);
    proof {
        if all_digits(digits) {
            lemma_digits_value_nonneg(digits);
        }
    }
    if over {
        None
    } else {
        Some(v as u64)
    }
}

} // verus!
