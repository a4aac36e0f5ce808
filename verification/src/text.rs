use vstd::prelude::*;
use vstd::string::{StrSliceExecFns, StringExecFns};

verus! {

/// The contents of an optional string.
pub open spec fn text_of(s: Option<String>) -> Option<Seq<char>> {
    match s {
        Some(t) => Some(t@),
        None => None,
    }
}

/// The lowercase form of a text as std computes it (`str::to_lowercase`):
/// every character replaced by its Unicode lowercase mapping.
pub uninterp spec fn lowercase(s: Seq<char>) -> Seq<char>;

/// Calls std's `str::to_lowercase`. The contract names the result: the same
/// text always has the same lowercase form.
#[verifier::external_body]
pub(crate) fn to_lowercase(s: &str) -> (r: String)
    ensures
        r@ == lowercase(s@),
{
    s.to_lowercase()
}

/// An owned copy of a text.
pub fn owned(s: &str) -> (r: String)
    ensures
        r@ == s@,
{
    s.to_owned()
}

/// The text `head` followed by `tail`.
pub fn joined(head: &str, tail: &str) -> (r: String)
    ensures
        r@ == head@ + tail@,
{
    let mut out: String = head.to_owned();
    out.append(tail);
    out
}

/// Whether two strings hold the same text.
pub fn same_text(a: &str, b: &str) -> (r: bool)
    ensures
        r == (a@ == b@),
{
    let left: String = a.to_owned();
    let right: String = b.to_owned();
    left == right
}

/// The character of a decimal digit.
pub open spec fn digit_char(d: int) -> char {
    if d == 0 {
        '0'
    } else if d == 1 {
        '1'
    } else if d == 2 {
        '2'
    } else if d == 3 {
        '3'
    } else if d == 4 {
        '4'
    } else if d == 5 {
        '5'
    } else if d == 6 {
        '6'
    } else if d == 7 {
        '7'
    } else if d == 8 {
        '8'
    } else {
        '9'
    }
}

/// The decimal numeral of `n`, without leading zeros.
pub open spec fn decimal(n: nat) -> Seq<char>
    decreases n,
{
    if n < 10 {
        seq![digit_char(n as int)]
    } else {
        decimal(n / 10).push(digit_char((n % 10) as int))
    }
}

/// A figure in hundredths as a decimal fraction with two places: `4250` reads `42.50`.
pub open spec fn hundredths(n: nat) -> Seq<char> {
    decimal(n / 100) + seq!['.', digit_char(((n / 10) % 10) as int), digit_char((n % 10) as int)]
}

fn digit_text(d: u64) -> (r: &'static str)
    requires
        d < 10,
    ensures
        r@ == seq![digit_char(d as int)],
{
    proof {
        reveal_strlit("0");
        reveal_strlit("1");
        reveal_strlit("2");
        reveal_strlit("3");
        reveal_strlit("4");
        reveal_strlit("5");
        reveal_strlit("6");
        reveal_strlit("7");
        reveal_strlit("8");
        reveal_strlit("9");
    }
    let r = if d == 0 {
        "0"
    } else if d == 1 {
        "1"
    } else if d == 2 {
        "2"
    } else if d == 3 {
        "3"
    } else if d == 4 {
        "4"
    } else if d == 5 {
        "5"
    } else if d == 6 {
        "6"
    } else if d == 7 {
        "7"
    } else if d == 8 {
        "8"
    } else {
        "9"
    };
    assert(r@ =~= seq![digit_char(d as int)]);
    r
}

/// Appends the decimal numeral of `n` to `out`.
pub fn push_decimal(out: &mut String, n: u64)
    ensures
        final(out)@ == old(out)@ + decimal(n as nat),
    decreases n,
{
    if n >= 10 {
        push_decimal(out, n / 10);
    }
    out.append(digit_text(n % 10));
    proof {
        if n >= 10 {
            assert(final(out)@ =~= old(out)@ + decimal(n as nat));
        } else {
            assert(final(out)@ =~= old(out)@ + decimal(n as nat));
        }
    }
}

/// Appends `n` hundredths as a decimal fraction with two places.
pub fn push_hundredths(out: &mut String, n: u64)
    ensures
        final(out)@ == old(out)@ + hundredths(n as nat),
{
    proof {
        reveal_strlit(".");
    }
    push_decimal(out, n / 100);
    out.append(".");
    out.append(digit_text((n / 10) % 10));
    out.append(digit_text(n % 10));
    assert(final(out)@ =~= old(out)@ + hundredths(n as nat));
}

/// `s` without the characters `c` at its end.
pub open spec fn trimmed_end(s: Seq<char>, c: char) -> Seq<char>
    decreases s.len(),
{
    if s.len() > 0 && s.last() == c {
        trimmed_end(s.drop_last(), c)
    } else {
        s
    }
}

/// Cuts the characters `c` off the end of `s`.
pub fn trim_end(s: &str, c: char) -> (r: &str)
    ensures
        r@ == trimmed_end(s@, c),
{
    let mut end: usize = s.unicode_len();
    assert(s@.take(end as int) == s@);
    while end > 0 && s.get_char(end - 1) == c
        invariant
            end <= s@.len(),
            trimmed_end(s@, c) == trimmed_end(s@.take(end as int), c),
        decreases end,
    {
        assert(s@.take(end as int).drop_last() == s@.take(end - 1));
        end = end - 1;
    }
    assert(s@.subrange(0, end as int) == s@.take(end as int));
    s.substring_char(0, end)
}

/// Whether `s` begins with `prefix`.
pub open spec fn begins_with(s: Seq<char>, prefix: Seq<char>) -> bool {
    prefix.len() <= s.len() && s.take(prefix.len() as int) == prefix
}

/// What follows `prefix` in `s`, if `s` begins with it.
pub fn strip_prefix<'a>(s: &'a str, prefix: &str) -> (r: Option<&'a str>)
    ensures
        match r {
            Some(rest) => begins_with(s@, prefix@) && rest@ == s@.skip(prefix@.len() as int),
            None => !begins_with(s@, prefix@),
        },
{
    let length = s.unicode_len();
    let wanted = prefix.unicode_len();
    if wanted > length {
        return None;
    }
    let mut i: usize = 0;
    while i < wanted
        invariant
            i <= wanted,
            wanted == prefix@.len(),
            length == s@.len(),
            wanted <= length,
            s@.take(i as int) == prefix@.take(i as int),
        decreases wanted - i,
    {
        if s.get_char(i) != prefix.get_char(i) {
            assert(s@.take(wanted as int)[i as int] != prefix@[i as int]);
            return None;
        }
        assert(s@.take(i + 1) == s@.take(i as int).push(s@[i as int]));
        assert(prefix@.take(i + 1) == prefix@.take(i as int).push(prefix@[i as int]));
        i = i + 1;
    }
    assert(prefix@.take(wanted as int) == prefix@);
    assert(s@.subrange(wanted as int, length as int) == s@.skip(wanted as int));
    Some(s.substring_char(wanted, length))
}

/// Where `c` first stands in `s` at or after `from`; the length of `s` if
/// it does not.
pub open spec fn first_index(s: Seq<char>, c: char, from: int) -> int
    decreases s.len() - from,
{
    if from >= s.len() {
        s.len() as int
    } else if s[from] == c {
        from
    } else {
        first_index(s, c, from + 1)
    }
}

/// The part of `s` before the first `c`; all of `s` if it holds none.
pub fn prefix_before(s: &str, c: char) -> (r: &str)
    ensures
        r@ == s@.take(first_index(s@, c, 0)),
{
    let length = s.unicode_len();
    let mut k: usize = 0;
    while k < length && s.get_char(k) != c
        invariant
            k <= length,
            length == s@.len(),
            first_index(s@, c, 0) == first_index(s@, c, k as int),
        decreases length - k,
    {
        k = k + 1;
    }
    assert(s@.subrange(0, k as int) == s@.take(k as int));
    s.substring_char(0, k)
}

} // verus!
