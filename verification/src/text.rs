use vstd::prelude::*;

verus! {

/// Unicode `White_Space` code points: the characters that trimming removes.
pub open spec fn is_white(c: char) -> bool {
    let u = c as u32;
    ||| 0x09 <= u <= 0x0D
    ||| u == 0x20
    ||| u == 0x85
    ||| u == 0xA0
    ||| u == 0x1680
    ||| 0x2000 <= u <= 0x200A
    ||| u == 0x2028
    ||| u == 0x2029
    ||| u == 0x202F
    ||| u == 0x205F
    ||| u == 0x3000
}

/// `s` without its leading white space.
pub open spec fn trim_front(s: Seq<char>) -> Seq<char>
    decreases s.len(),
{
    if s.len() > 0 && is_white(s[0]) {
        trim_front(s.drop_first())
    } else {
        s
    }
}

/// `s` without its trailing white space.
pub open spec fn trim_back(s: Seq<char>) -> Seq<char>
    decreases s.len(),
{
    if s.len() > 0 && is_white(s.last()) {
        trim_back(s.drop_last())
    } else {
        s
    }
}

/// `s` without leading and trailing white space.
pub open spec fn trimmed(s: Seq<char>) -> Seq<char> {
    trim_back(trim_front(s))
}

/// The decimal digit for `d < 10`.
pub open spec fn digit_char(d: nat) -> char {
    if d == 0 { '0' }
    else if d == 1 { '1' }
    else if d == 2 { '2' }
    else if d == 3 { '3' }
    else if d == 4 { '4' }
    else if d == 5 { '5' }
    else if d == 6 { '6' }
    else if d == 7 { '7' }
    else if d == 8 { '8' }
    else { '9' }
}

/// Decimal notation of `n`, without leading zeros ("0" for zero).
pub open spec fn decimal(n: nat) -> Seq<char>
    decreases n,
{
    if n < 10 {
        seq![digit_char(n)]
    } else {
        decimal(n / 10).push(digit_char(n % 10))
    }
}

/// The number that a string of decimal digits spells.
pub open spec fn digits_value(s: Seq<char>) -> int
    decreases s.len(),
{
    if s.len() == 0 {
        0
    } else {
        digits_value(s.drop_last()) * 10 + ((s.last() as u32) - 48)
    }
}

proof fn lemma_digit_char(d: nat)
    requires
        d < 10,
    ensures
        '0' <= digit_char(d) <= '9',
        (digit_char(d) as u32) - 48 == d,
{
    assert('0' as u32 == 48);
    assert('1' as u32 == 49);
    assert('2' as u32 == 50);
    assert('3' as u32 == 51);
    assert('4' as u32 == 52);
    assert('5' as u32 == 53);
    assert('6' as u32 == 54);
    assert('7' as u32 == 55);
    assert('8' as u32 == 56);
    assert('9' as u32 == 57);
}

/// `decimal(n)` is a non-empty string of the digits `0`..`9` that spells `n`,
/// without a leading zero unless it is `0` itself.
pub proof fn lemma_decimal_spells(n: nat)
    ensures
        decimal(n).len() >= 1,
        forall|i: int| 0 <= i < decimal(n).len() ==> '0' <= #[trigger] decimal(n)[i] <= '9',
        digits_value(decimal(n)) == n,
        decimal(n).len() > 1 ==> decimal(n)[0] != '0',
    decreases n,
{
    assert('0' as u32 == 48);
    if n < 10 {
        lemma_digit_char(n);
        let e = decimal(n);
        assert(e.drop_last().len() == 0);
        assert(digits_value(e.drop_last()) == 0);
    } else {
        lemma_decimal_spells(n / 10);
        lemma_digit_char(n % 10);
        let d = decimal(n / 10);
        let e = decimal(n);
        assert(e.drop_last() == d);
        assert(e[0] == d[0]);
        assert forall|i: int| 0 <= i < e.len() implies '0' <= #[trigger] e[i] <= '9' by {
            if i < d.len() {
                assert(e[i] == d[i]);
            }
        }
        assert((n / 10) * 10 + n % 10 == n) by (nonlinear_arith);
        assert(digits_value(e) == digits_value(d) * 10 + ((e.last() as u32) - 48));
        assert(n / 10 >= 1);
        if d.len() == 1 {
            assert(d.drop_last().len() == 0);
            assert(digits_value(d.drop_last()) == 0);
            assert(digits_value(d) == (d[0] as u32) - 48);
        }
    }
}

/// Whether `c` is white space, as `is_white` defines it.
pub fn char_is_white(c: char) -> (r: bool)
    ensures
        r == is_white(c),
{
    let u: u32 = c as u32;
    (0x09 <= u && u <= 0x0D) || u == 0x20 || u == 0x85 || u == 0xA0 || u == 0x1680 || (0x2000
        <= u && u <= 0x200A) || u == 0x2028 || u == 0x2029 || u == 0x202F || u == 0x205F || u
        == 0x3000
}

/// Calls `String::push`; claimed, as its documentation says: the string is
/// followed by `c`.
#[verifier::external_body]
pub(crate) fn push_char(s: &mut String, c: char)
    ensures
        final(s)@ == old(s)@.push(c),
{
    s.push(c)
}

proof fn lemma_trim_front_is_suffix(s: Seq<char>)
    ensures
        exists|k: int| 0 <= k <= s.len() && trim_front(s) == s.subrange(k, s.len() as int) && (
        forall|i: int| 0 <= i < k ==> is_white(#[trigger] s[i])) && (k < s.len() ==> !is_white(
            s[k],
        )),
    decreases s.len(),
{
    if s.len() > 0 && is_white(s[0]) {
        lemma_trim_front_is_suffix(s.drop_first());
        let k = choose|k: int|
            0 <= k <= s.drop_first().len() && trim_front(s.drop_first()) == s.drop_first().subrange(
                k,
                s.drop_first().len() as int,
            ) && (forall|i: int| 0 <= i < k ==> is_white(#[trigger] s.drop_first()[i])) && (k
                < s.drop_first().len() ==> !is_white(s.drop_first()[k]));
        assert(trim_front(s) == s.subrange(k + 1, s.len() as int));
        assert forall|i: int| 0 <= i < k + 1 implies is_white(#[trigger] s[i]) by {
            if i > 0 {
                assert(s[i] == s.drop_first()[i - 1]);
            }
        }
    } else {
        assert(trim_front(s) == s.subrange(0, s.len() as int));
    }
}

proof fn lemma_trim_back_is_prefix(s: Seq<char>)
    ensures
        exists|k: int| 0 <= k <= s.len() && trim_back(s) == s.subrange(0, k) && (forall|i: int|
            k <= i < s.len() ==> is_white(#[trigger] s[i])) && (k > 0 ==> !is_white(s[k - 1])),
    decreases s.len(),
{
    if s.len() > 0 && is_white(s.last()) {
        lemma_trim_back_is_prefix(s.drop_last());
        let k = choose|k: int|
            0 <= k <= s.drop_last().len() && trim_back(s.drop_last()) == s.drop_last().subrange(
                0,
                k,
            ) && (forall|i: int| k <= i < s.drop_last().len() ==> is_white(
                #[trigger] s.drop_last()[i],
            )) && (k > 0 ==> !is_white(s.drop_last()[k - 1]));
        assert(trim_back(s) == s.subrange(0, k));
        assert forall|i: int| k <= i < s.len() implies is_white(#[trigger] s[i]) by {
            if i < s.len() - 1 {
                assert(s[i] == s.drop_last()[i]);
            }
        }
    } else {
        assert(trim_back(s) == s.subrange(0, s.len() as int));
    }
}

/// Trimming keeps one contiguous part of the text: everything before and after
/// it is white space, and the part neither starts nor ends with white space.
pub proof fn lemma_trimmed_shape(s: Seq<char>)
    ensures
        exists|i: int, j: int|
            0 <= i <= j <= s.len() && trimmed(s) == s.subrange(i, j) && (forall|k: int|
                0 <= k < i ==> is_white(#[trigger] s[k])) && (forall|k: int|
                j <= k < s.len() ==> is_white(#[trigger] s[k])) && (i < j ==> !is_white(s[i])
                && !is_white(s[j - 1])),
{
    lemma_trim_front_is_suffix(s);
    let k0 = choose|k: int|
        0 <= k <= s.len() && trim_front(s) == s.subrange(k, s.len() as int) && (forall|i: int|
            0 <= i < k ==> is_white(#[trigger] s[i])) && (k < s.len() ==> !is_white(s[k]));
    let f = trim_front(s);
    lemma_trim_back_is_prefix(f);
    let j0 = choose|j: int|
        0 <= j <= f.len() && trim_back(f) == f.subrange(0, j) && (forall|i: int|
            j <= i < f.len() ==> is_white(#[trigger] f[i])) && (j > 0 ==> !is_white(f[j - 1]));
    let i = k0;
    let j = k0 + j0;
    assert(trimmed(s) =~= s.subrange(i, j));
    assert forall|k: int| j <= k < s.len() implies is_white(#[trigger] s[k]) by {
        assert(s[k] == f[k - k0]);
    }
    if i < j {
        assert(f[0] == s[i]);
        assert(f[j0 - 1] == s[j - 1]);
    }
}

/// `s@.subrange(from, to)` as a new string.
pub fn substring(s: &str, from: usize, to: usize) -> (r: String)
    requires
        from <= to <= s@.len(),
    ensures
        r@ == s@.subrange(from as int, to as int),
{
    let mut r = String::new();
    let mut i = from;
    while i < to
        invariant
            from <= i <= to <= s@.len(),
            r@ == s@.subrange(from as int, i as int),
        decreases to - i,
    {
        let c = s.get_char(i);
        push_char(&mut r, c);
        assert(s@.subrange(from as int, i + 1) == s@.subrange(from as int, i as int).push(c));
        i = i + 1;
    }
    r
}

/// Removes leading and trailing white space (`str::trim`).
pub fn trim(s: &str) -> (r: String)
    ensures
        r@ == trimmed(s@),
{
    let n = s.unicode_len();
    let mut start: usize = 0;
    while start < n && char_is_white(s.get_char(start))
        invariant
            n == s@.len(),
            start <= n,
            forall|i: int| 0 <= i < start ==> is_white(#[trigger] s@[i]),
        decreases n - start,
    {
        start = start + 1;
    }
    let mut end: usize = n;
    while end > start && char_is_white(s.get_char(end - 1))
        invariant
            n == s@.len(),
            start <= end <= n,
            forall|i: int| end <= i < n ==> is_white(#[trigger] s@[i]),
        decreases end,
    {
        end = end - 1;
    }
    proof {
        lemma_trimmed_bounds(s@, start as int, end as int);
    }
    substring(s, start, end)
}

proof fn lemma_trimmed_bounds(s: Seq<char>, start: int, end: int)
    requires
        0 <= start <= end <= s.len(),
        forall|i: int| 0 <= i < start ==> is_white(#[trigger] s[i]),
        start < s.len() && start < end ==> !is_white(s[start]),
        start == end ==> (forall|i: int| 0 <= i < s.len() ==> is_white(#[trigger] s[i])),
        forall|i: int| end <= i < s.len() ==> is_white(#[trigger] s[i]),
        end > start ==> !is_white(s[end - 1]),
    ensures
        trimmed(s) == s.subrange(start, end),
{
    lemma_trim_front_is_suffix(s);
    let k = choose|k: int|
        0 <= k <= s.len() && trim_front(s) == s.subrange(k, s.len() as int) && (forall|i: int|
            0 <= i < k ==> is_white(#[trigger] s[i])) && (k < s.len() ==> !is_white(s[k]));
    let f = trim_front(s);
    lemma_trim_back_is_prefix(f);
    let j = choose|j: int|
        0 <= j <= f.len() && trim_back(f) == f.subrange(0, j) && (forall|i: int|
            j <= i < f.len() ==> is_white(#[trigger] f[i])) && (j > 0 ==> !is_white(f[j - 1]));
    if start == end {
        // every character is white space
        if k < s.len() {
            assert(is_white(s[k]));
        }
        assert(k == s.len());
        assert(trimmed(s) =~= s.subrange(start, end));
    } else {
        if k < start {
            assert(!is_white(s[k]));
        }
        if k > start {
            assert(is_white(s[start]));
        }
        assert(k == start);
        // trailing part
        if j > 0 && k + j < end {
            assert(f[j - 1] == s[k + j - 1]);
            assert(is_white(s[end - 1]) || k + j - 1 < end - 1);
            assert(f[end - 1 - k] == s[end - 1]);
            assert(is_white(f[end - 1 - k]));
            assert(!is_white(s[end - 1]));
        }
        if j == 0 {
            assert(f[end - 1 - k] == s[end - 1]);
            assert(is_white(f[end - 1 - k]));
        }
        if k + j > end {
            assert(f[j - 1] == s[k + j - 1]);
            assert(is_white(s[k + j - 1]));
        }
        assert(k + j == end);
        assert(trimmed(s) =~= s.subrange(start, end));
    }
}

/// Decimal notation of `n` (`u64`'s `Display`).
pub fn decimal_string(n: u64) -> (r: String)
    ensures
        r@ == decimal(n as nat),
    decreases n,
{
    if n < 10 {
        let mut r = String::new();
        push_char(&mut r, digit(n));
        r
    } else {
        let mut r = decimal_string(n / 10);
        push_char(&mut r, digit(n % 10));
        r
    }
}

fn digit(d: u64) -> (c: char)
    requires
        d < 10,
    ensures
        c == digit_char(d as nat),
{
    if d == 0 { '0' }
    else if d == 1 { '1' }
    else if d == 2 { '2' }
    else if d == 3 { '3' }
    else if d == 4 { '4' }
    else if d == 5 { '5' }
    else if d == 6 { '6' }
    else if d == 7 { '7' }
    else if d == 8 { '8' }
    else { '9' }
}

} // verus!
