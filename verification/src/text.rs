//! Character-level text utilities: bridging between `String` and `Vec<char>`,
//! substring search, decimal numbers, and XML text escaping.

use vstd::prelude::*;
use vstd::string::*;

verus! {

/// Relies on `str::chars`: yields exactly the characters of the string, in
/// order.
#[verifier::external_body]
pub fn chars_of(s: &str) -> (v: Vec<char>)
    ensures
        v@ == s@,
{
    s.chars().collect()
}

/// Relies on `String: FromIterator<char>`: collecting characters builds the
/// string of exactly those characters, in order.
#[verifier::external_body]
pub fn string_of(v: &Vec<char>) -> (s: String)
    ensures
        s@ == v@,
{
    v.iter().collect()
}

/// `pat` occurs in `s` at position `i`.
pub open spec fn match_at(s: Seq<char>, pat: Seq<char>, i: int) -> bool {
    &&& 0 <= i
    &&& i + pat.len() <= s.len()
    &&& s.subrange(i, i + pat.len()) == pat
}

/// The first position at or after `from` where `pat` occurs in `s`.
pub open spec fn find_from(s: Seq<char>, pat: Seq<char>, from: int) -> Option<int>
    recommends
        0 <= from,
    decreases s.len() - from,
{
    if from < 0 || from + pat.len() > s.len() {
        None
    } else if pat.len() == 0 || match_at(s, pat, from) {
        Some(from)
    } else {
        find_from(s, pat, from + 1)
    }
}

/// A found position is a match no earlier than `from`.
pub proof fn lemma_find_from_bounds(s: Seq<char>, pat: Seq<char>, from: int)
    requires
        find_from(s, pat, from) is Some,
    ensures
        ({
            let i = find_from(s, pat, from)->Some_0;
            from <= i && match_at(s, pat, i)
        }),
    decreases s.len() - from,
{
    if !(from < 0 || from + pat.len() > s.len()) {
        if pat.len() == 0 {
            assert(s.subrange(from, from) =~= pat);
        } else if !match_at(s, pat, from) {
            lemma_find_from_bounds(s, pat, from + 1);
        }
    }
}

/// Whether `pat` occurs in `s` at position `i`.
pub fn is_match_at(s: &Vec<char>, pat: &Vec<char>, i: usize) -> (b: bool)
    requires
        i + pat@.len() <= s@.len(),
    ensures
        b == match_at(s@, pat@, i as int),
{
    let n = pat.len();
    let sn = s.len();
    let mut j: usize = 0;
    while j < n
        invariant
            j <= n,
            n == pat@.len(),
            sn == s@.len(),
            i + n <= sn,
            s@.subrange(i as int, i + j) =~= pat@.subrange(0, j as int),
        decreases n - j,
    {
        if s[i + j] != pat[j] {
            assert(s@.subrange(i as int, i + pat@.len())[j as int] != pat@[j as int]);
            return false;
        }
        assert(s@.subrange(i as int, i + j + 1) =~= pat@.subrange(0, j + 1));
        j += 1;
    }
    assert(s@.subrange(i as int, i + pat@.len()) =~= pat@);
    true
}

/// Finds the first occurrence of `pat` in `s` at or after `from`.
pub fn find_sub(s: &Vec<char>, pat: &Vec<char>, from: usize) -> (r: Option<usize>)
    ensures
        match r {
            Some(i) => Some(i as int) == find_from(s@, pat@, from as int),
            None => find_from(s@, pat@, from as int) is None,
        },
{
    let sn = s.len();
    let pn = pat.len();
    let mut i = from;
    if pn == 0 {
        if i <= sn {
            return Some(i);
        } else {
            return None;
        }
    }
    if sn < pn || i > sn - pn {
        assert(find_from(s@, pat@, from as int) is None);
        return None;
    }
    while i <= sn - pn
        invariant
            from <= i,
            sn == s@.len(),
            pn == pat@.len(),
            0 < pn <= sn,
            find_from(s@, pat@, from as int) == find_from(s@, pat@, i as int),
        decreases sn - i,
    {
        if is_match_at(s, pat, i) {
            assert(find_from(s@, pat@, i as int) == Some(i as int));
            return Some(i);
        }
        assert(find_from(s@, pat@, i as int) == find_from(s@, pat@, i + 1));
        i += 1;
    }
    assert(find_from(s@, pat@, i as int) is None);
    None
}

/// Copies `s[start..end]` into a fresh vector.
pub fn copy_range(s: &Vec<char>, start: usize, end: usize) -> (out: Vec<char>)
    requires
        start <= end <= s@.len(),
    ensures
        out@ == s@.subrange(start as int, end as int),
{
    let mut out: Vec<char> = Vec::new();
    let mut k = start;
    while k < end
        invariant
            start <= k <= end <= s@.len(),
            out@ =~= s@.subrange(start as int, k as int),
        decreases end - k,
    {
        out.push(s[k]);
        assert(out@ =~= s@.subrange(start as int, k + 1));
        k += 1;
    }
    out
}

/// The text enclosed between the first `open` at or after `from` and the next
/// `close` after it, with the position just past that `close`.
pub open spec fn spec_enclosed(
    s: Seq<char>,
    open: Seq<char>,
    close: Seq<char>,
    from: int,
) -> Option<(Seq<char>, int)> {
    match find_from(s, open, from) {
        None => None,
        Some(i) => {
            let start = i + open.len();
            match find_from(s, close, start) {
                None => None,
                Some(j) => Some((s.subrange(start, j), j + close.len())),
            }
        },
    }
}

/// Extracts the text enclosed between the first `open` at or after `from` and
/// the next `close` after it; also returns the position just past `close`.
pub fn enclosed(s: &Vec<char>, open: &Vec<char>, close: &Vec<char>, from: usize) -> (r: Option<
    (Vec<char>, usize),
>)
    ensures
        match r {
            Some((content, next)) => {
                &&& spec_enclosed(s@, open@, close@, from as int) matches Some((c, n))
                &&& content@ == c
                &&& next as int == n
                &&& from <= next <= s@.len()
            },
            None => spec_enclosed(s@, open@, close@, from as int) is None,
        },
{
    let sn = s.len();
    let i = match find_sub(s, open, from) {
        Some(i) => i,
        None => {
            return None;
        },
    };
    proof {
        lemma_find_from_bounds(s@, open@, from as int);
    }
    let start = i + open.len();
    let j = match find_sub(s, close, start) {
        Some(j) => j,
        None => {
            return None;
        },
    };
    proof {
        lemma_find_from_bounds(s@, close@, start as int);
    }
    let content = copy_range(s, start, j);
    Some((content, j + close.len()))
}

/// Whether two character vectors hold the same text.
pub fn chars_eq(a: &Vec<char>, b: &Vec<char>) -> (r: bool)
    ensures
        r == (a@ == b@),
{
    let n = a.len();
    if n != b.len() {
        proof {
            if a@ == b@ {
                assert(a@.len() == b@.len());
            }
        }
        return false;
    }
    let mut k: usize = 0;
    while k < n
        invariant
            k <= n,
            n == a@.len() == b@.len(),
            forall|i: int| 0 <= i < k ==> a@[i] == b@[i],
        decreases n - k,
    {
        if a[k] != b[k] {
            proof {
                if a@ == b@ {
                    assert(a@[k as int] == b@[k as int]);
                }
            }
            return false;
        }
        k += 1;
    }
    proof {
        assert(a@ =~= b@);
    }
    true
}

/// Whether two strings hold the same text.
pub fn str_eq(a: &str, b: &str) -> (r: bool)
    ensures
        r == (a@ == b@),
{
    let va = chars_of(a);
    let vb = chars_of(b);
    chars_eq(&va, &vb)
}

/// Everything after the first occurrence of `pat`.
pub open spec fn spec_after(s: Seq<char>, pat: Seq<char>) -> Option<Seq<char>> {
    match find_from(s, pat, 0) {
        Some(i) => Some(s.skip(i + pat.len())),
        None => None,
    }
}

/// Extracts everything after the first occurrence of `pat`.
pub fn after_first(v: &Vec<char>, pat: &Vec<char>) -> (r: Option<Vec<char>>)
    ensures
        match r {
            Some(t) => spec_after(v@, pat@) == Some(t@),
            None => spec_after(v@, pat@) is None,
        },
{
    let vn = v.len();
    match find_sub(v, pat, 0) {
        Some(i) => {
            proof {
                lemma_find_from_bounds(v@, pat@, 0);
            }
            let start = i + pat.len();
            let out = copy_range(v, start, vn);
            proof {
                assert(out@ =~= v@.skip(start as int));
            }
            Some(out)
        },
        None => None,
    }
}

/// Concatenation of sequences is associative.
pub proof fn lemma_concat_assoc<T>(a: Seq<T>, b: Seq<T>, c: Seq<T>)
    ensures
        (a + b) + c == a + (b + c),
{
    assert((a + b) + c =~= a + (b + c));
}

/// The empty sequence is neutral on the right.
pub proof fn lemma_concat_empty<T>(a: Seq<T>)
    ensures
        a + Seq::<T>::empty() == a,
{
    assert(a + Seq::<T>::empty() =~= a);
}

/// All characters of `s` are decimal digits, and there is at least one.
pub open spec fn all_digits(s: Seq<char>) -> bool {
    s.len() > 0 && forall|i: int| 0 <= i < s.len() ==> '0' <= #[trigger] s[i] <= '9'
}

/// The value of a sequence of decimal digits.
pub open spec fn dec_value(s: Seq<char>) -> int
    decreases s.len(),
{
    if s.len() == 0 {
        0
    } else {
        dec_value(s.drop_last()) * 10 + (s.last() as int - '0' as int)
    }
}

/// Reads `s` as an unsigned decimal number. Returns `None` when `s` is empty,
/// holds a non-digit, or its value does not fit in a `u32`.
pub fn parse_u32(s: &Vec<char>) -> (r: Option<u32>)
    ensures
        match r {
            Some(n) => all_digits(s@) && n == dec_value(s@) && dec_value(s@) <= u32::MAX,
            None => !all_digits(s@) || dec_value(s@) > u32::MAX,
        },
{
    if s.len() == 0 {
        return None;
    }
    let mut value: u32 = 0;
    let mut k: usize = 0;
    while k < s.len()
        invariant
            k <= s@.len(),
            s@.len() > 0,
            value == dec_value(s@.subrange(0, k as int)),
            forall|i: int| 0 <= i < k ==> '0' <= #[trigger] s@[i] <= '9',
        decreases s@.len() - k,
    {
        let c = s[k];
        if c < '0' || c > '9' {
            return None;
        }
        let d = (c as u32) - ('0' as u32);
        if value > 429496729 || (value == 429496729 && d > 5) {
            proof {
                assert(s@.subrange(0, k + 1).drop_last() =~= s@.subrange(0, k as int));
                assert(s@.subrange(0, k + 1).last() == s@[k as int]);
                assert(dec_value(s@.subrange(0, k + 1)) > u32::MAX);
                if forall|j: int| k + 1 <= j < s@.len() ==> '0' <= #[trigger] s@[j] <= '9' {
                    lemma_dec_value_grows(s@, k + 1);
                } else {
                    let j = choose|j: int|
                        k + 1 <= j < s@.len() && !('0' <= #[trigger] s@[j] <= '9');
                    assert(!all_digits(s@));
                }
            }
            return None;
        }
        value = value * 10 + d;
        assert(s@.subrange(0, k + 1).drop_last() =~= s@.subrange(0, k as int));
        k += 1;
    }
    assert(s@.subrange(0, s@.len() as int) =~= s@);
    Some(value)
}

/// Once a digit prefix of `s` exceeds the `u32` range, the whole of `s` does:
/// every further position multiplies the value by ten before subtracting at
/// most the weight of one character.
proof fn lemma_dec_value_grows(s: Seq<char>, k: int)
    requires
        0 <= k <= s.len(),
        dec_value(s.subrange(0, k)) > u32::MAX,
        forall|j: int| k <= j < s.len() ==> '0' <= #[trigger] s[j] <= '9',
    ensures
        dec_value(s) > u32::MAX,
    decreases s.len() - k,
{
    if k == s.len() {
        assert(s.subrange(0, k) =~= s);
    } else {
        assert(s.subrange(0, k + 1).drop_last() =~= s.subrange(0, k));
        assert(s.subrange(0, k + 1).last() == s[k]);
        assert('0' <= s[k] <= '9');
        assert(s[k] as int - '0' as int >= 0);
        assert(dec_value(s.subrange(0, k + 1)) == dec_value(s.subrange(0, k)) * 10 + (s[k] as int
            - '0' as int));
        lemma_dec_value_grows(s, k + 1);
    }
}

/// How one character is written inside XML text and attribute values.
pub open spec fn spec_escape_char(c: char) -> Seq<char> {
    if c == '&' {
        "&amp;"@
    } else if c == '<' {
        "&lt;"@
    } else if c == '>' {
        "&gt;"@
    } else if c == '"' {
        "&quot;"@
    } else if c == '\'' {
        "&apos;"@
    } else {
        seq![c]
    }
}

/// How a string is written inside XML text and attribute values.
pub open spec fn spec_escape(s: Seq<char>) -> Seq<char>
    decreases s.len(),
{
    if s.len() == 0 {
        Seq::empty()
    } else {
        spec_escape(s.drop_last()) + spec_escape_char(s.last())
    }
}

/// Appends the XML escaping of `text` to `out`.
pub fn append_escaped(out: &mut String, text: &str)
    ensures
        final(out)@ == old(out)@ + spec_escape(text@),
{
    let chars = chars_of(text);
    let ghost start = out@;
    let n = chars.len();
    let mut k: usize = 0;
    while k < n
        invariant
            k <= n,
            n == chars@.len(),
            out@ == start + spec_escape(chars@.subrange(0, k as int)),
        decreases n - k,
    {
        let c = chars[k];
        if c == '&' {
            out.append("&amp;");
        } else if c == '<' {
            out.append("&lt;");
        } else if c == '>' {
            out.append("&gt;");
        } else if c == '"' {
            out.append("&quot;");
        } else if c == '\'' {
            out.append("&apos;");
        } else {
            let mut one: Vec<char> = Vec::new();
            one.push(c);
            let piece = string_of(&one);
            out.append(piece.as_str());
            assert(piece@ =~= seq![c]);
        }
        assert(chars@.subrange(0, k + 1).drop_last() =~= chars@.subrange(0, k as int));
        assert(chars@.subrange(0, k + 1).last() == chars@[k as int]);
        k += 1;
    }
    assert(chars@.subrange(0, n as int) =~= text@);
}

} // verus!
