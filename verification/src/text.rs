//! Text helpers shared by the rest of the library: decimal rendering,
//! whitespace classification, UTF-8 byte lengths and bounded truncation.

use vstd::prelude::*;
use vstd::utf8::*;

verus! {

/// Appends one character to a string.
///
/// Trusted: `String::push`, documented to append the given `char` to the
/// end of the string.
#[verifier::external_body]
pub(crate) fn push_char(s: &mut String, c: char)
    ensures
        final(s)@ == old(s)@.push(c),
{
    s.push(c);
}

/// The ASCII digit character for `d` in `0..=9`.
pub open spec fn digit_char(d: nat) -> char {
    if d == 0 { '0' }
    else if d == 1 { '1' }
    else if d == 2 { '2' }
    else if d == 3 { '3' }
    else if d == 4 { '4' }
    else if d == 5 { '5' }
    else if d == 6 { '6' }
    else if d == 7 { '7' }
    else if d == 8 { '8' }
    else { '9' }
}

/// Base-ten rendering of a natural number, most significant digit first,
/// without leading zeros (zero renders as "0").
pub open spec fn decimal(n: nat) -> Seq<char>
    decreases n,
{
    if n < 10 {
        seq![digit_char(n)]
    } else {
        decimal(n / 10).push(digit_char(n % 10))
    }
}

fn digit(d: u64) -> (c: char)
    requires
        d < 10,
    ensures
        c == digit_char(d as nat),
{
    match d {
        0 => '0',
        1 => '1',
        2 => '2',
        3 => '3',
        4 => '4',
        5 => '5',
        6 => '6',
        7 => '7',
        8 => '8',
        _ => '9',
    }
}

/// Appends the decimal rendering of `n` to `out`.
pub fn append_decimal(out: &mut String, n: u64)
    ensures
        final(out)@ == old(out)@ + decimal(n as nat),
    decreases n,
{
    if n >= 10 {
        append_decimal(out, n / 10);
    }
    let d = digit(n % 10);
    push_char(out, d);
    proof {
        if n >= 10 {
            assert(decimal(n as nat) == decimal((n / 10) as nat).push(digit_char((n % 10) as nat)));
        }
    }
}

/// The decimal rendering of `n` as a new string.
pub fn decimal_string(n: u64) -> (s: String)
    ensures
        s@ == decimal(n as nat),
{
    let mut s = String::new();
    append_decimal(&mut s, n);
    assert(s@ =~= decimal(n as nat));
    s
}


/// Unicode `White_Space` characters, the set that `char::is_whitespace`
/// documents itself as testing.
pub open spec fn is_ws(c: char) -> bool {
    ||| ('\u{9}' <= c && c <= '\u{d}')
    ||| c == ' '
    ||| c == '\u{85}'
    ||| c == '\u{a0}'
    ||| c == '\u{1680}'
    ||| ('\u{2000}' <= c && c <= '\u{200a}')
    ||| c == '\u{2028}'
    ||| c == '\u{2029}'
    ||| c == '\u{202f}'
    ||| c == '\u{205f}'
    ||| c == '\u{3000}'
}

/// Executable whitespace test, equal to `is_ws`.
pub fn char_is_ws(c: char) -> (r: bool)
    ensures
        r == is_ws(c),
{
    ('\u{9}' <= c && c <= '\u{d}') || c == ' ' || c == '\u{85}' || c == '\u{a0}' || c == '\u{1680}'
        || ('\u{2000}' <= c && c <= '\u{200a}') || c == '\u{2028}' || c == '\u{2029}' || c
        == '\u{202f}' || c == '\u{205f}' || c == '\u{3000}'
}

/// True when every character of `s` is whitespace, i.e. `s.trim()` is empty.
pub open spec fn is_blank(s: Seq<char>) -> bool {
    forall|i: int| 0 <= i < s.len() ==> is_ws(#[trigger] s[i])
}

/// Executable form of `is_blank`.
pub fn str_is_blank(s: &str) -> (r: bool)
    ensures
        r == is_blank(s@),
{
    let mut blank = true;
    for c in it: s.chars()
        invariant
            it.seq() == s@,
            blank == (forall|j: int| 0 <= j < it.index() ==> is_ws(#[trigger] s@[j])),
    {
        if !char_is_ws(c) {
            blank = false;
        }
    }
    blank
}

/// Number of maximal runs of non-whitespace characters in `s`: the number of
/// items that `split_whitespace` yields.
pub open spec fn word_count(s: Seq<char>) -> nat
    decreases s.len(),
{
    if s.len() == 0 {
        0
    } else {
        let n = s.len() - 1;
        word_count(s.take(n)) + if !is_ws(s[n]) && (n == 0 || is_ws(s[n - 1])) {
            1nat
        } else {
            0nat
        }
    }
}

/// `word_count(s)`, capped at `cap`: counting stops once `cap` words are seen.
pub fn count_words_upto(s: &str, cap: usize) -> (n: usize)
    ensures
        n == if word_count(s@) < cap { word_count(s@) } else { cap as nat },
{
    let mut n: usize = 0;
    let mut prev_ws = true;
    for c in it: s.chars()
        invariant
            it.seq() == s@,
            it.index() <= s@.len(),
            n == if word_count(s@.take(it.index() as int)) < cap {
                word_count(s@.take(it.index() as int))
            } else {
                cap as nat
            },
            prev_ws == (it.index() == 0 || is_ws(s@[it.index() - 1])),
    {
        let ghost i = it.index();
        assert(s@.take(i + 1).take(i) =~= s@.take(i));
        let w = char_is_ws(c);
        if !w && prev_ws && n < cap {
            n = n + 1;
        }
        prev_ws = w;
    }
    assert(s@.take(s@.len() as int) =~= s@);
    n
}


/// Number of bytes in the UTF-8 encoding of `s`: what `str::len` returns.
pub open spec fn utf8_len(s: Seq<char>) -> nat {
    encode_utf8(s).len()
}

/// Number of bytes in the UTF-8 encoding of one character.
pub open spec fn char_width(c: char) -> nat {
    encode_scalar(c as u32).len()
}

/// Encoding distributes over concatenation.
pub proof fn lemma_encode_concat(a: Seq<char>, b: Seq<char>)
    ensures
        encode_utf8(a + b) == encode_utf8(a) + encode_utf8(b),
    decreases a.len(),
{
    if a.len() == 0 {
        assert(a + b =~= b);
        assert(encode_utf8(a) =~= Seq::<u8>::empty());
        assert(encode_utf8(a) + encode_utf8(b) =~= encode_utf8(b));
    } else {
        assert((a + b).drop_first() =~= a.drop_first() + b);
        assert((a + b)[0] == a[0]);
        lemma_encode_concat(a.drop_first(), b);
        assert(encode_utf8(a + b) =~= encode_scalar(a[0] as u32) + (encode_utf8(a.drop_first())
            + encode_utf8(b)));
    }
}

/// Byte length is additive.
pub proof fn lemma_utf8_len_concat(a: Seq<char>, b: Seq<char>)
    ensures
        utf8_len(a + b) == utf8_len(a) + utf8_len(b),
{
    lemma_encode_concat(a, b);
}

/// Extending a prefix by one character adds that character's width.
pub proof fn lemma_utf8_len_take_next(s: Seq<char>, k: int)
    requires
        0 <= k < s.len(),
    ensures
        utf8_len(s.take(k + 1)) == utf8_len(s.take(k)) + char_width(s[k]),
{
    assert(s.take(k + 1) =~= s.take(k) + seq![s[k]]);
    lemma_encode_concat(s.take(k), seq![s[k]]);
    assert(seq![s[k]].drop_first() =~= Seq::<char>::empty());
    assert(encode_utf8(seq![s[k]]) =~= encode_scalar(s[k] as u32) + encode_utf8(
        Seq::<char>::empty(),
    ));
    assert(encode_utf8(Seq::<char>::empty()) =~= Seq::<u8>::empty());
    assert(encode_utf8(seq![s[k]]) =~= encode_scalar(s[k] as u32));
}

/// A longer prefix takes at least as many bytes.
pub proof fn lemma_utf8_len_prefix_mono(s: Seq<char>, a: int, b: int)
    requires
        0 <= a <= b <= s.len(),
    ensures
        utf8_len(s.take(a)) <= utf8_len(s.take(b)),
{
    assert(s.take(b) =~= s.take(a) + s.subrange(a, b));
    lemma_utf8_len_concat(s.take(a), s.subrange(a, b));
}

/// Number of bytes of `s`, i.e. `s.len()`, with its relation to the
/// character view.
pub fn byte_len(s: &str) -> (n: usize)
    ensures
        n == utf8_len(s@),
{
    s.as_bytes().len()
}

/// Width of the UTF-8 encoding of `c`: what `char::len_utf8` returns.
pub fn utf8_width(c: char) -> (w: usize)
    ensures
        w == char_width(c),
        1 <= w <= 4,
{
    proof {
        char_is_scalar(c);
    }
    let v = c as u32;
    if v <= 0x7f {
        1
    } else if v <= 0x7ff {
        2
    } else if v <= 0xffff {
        3
    } else {
        4
    }
}

/// The byte budget left for the kept prefix once `suffix_len` bytes are
/// reserved, floored at zero.
pub open spec fn budget(max: nat, suffix_len: nat) -> nat {
    if suffix_len <= max { (max - suffix_len) as nat } else { 0 }
}

/// `k` is the length of the longest character prefix of `s` whose UTF-8
/// encoding fits in `limit` bytes (byte length grows with `k`, so it is
/// unique).
pub open spec fn is_longest_fitting_prefix(s: Seq<char>, k: int, limit: nat) -> bool {
    &&& 0 <= k <= s.len()
    &&& utf8_len(s.take(k)) <= limit
    &&& k < s.len() ==> utf8_len(s.take(k + 1)) > limit
}

/// What truncating `text` to at most `max` bytes with a marker looks like:
/// unchanged when it already fits, else the longest prefix ending on a
/// character boundary within the budget, followed by `suffix`.
pub open spec fn truncated(text: Seq<char>, max: nat, suffix: Seq<char>, r: Seq<char>) -> bool {
    if utf8_len(text) <= max {
        r == text
    } else {
        exists|k: int|
            is_longest_fitting_prefix(text, k, budget(max, utf8_len(suffix))) && r == text.take(k)
                + suffix
    }
}

/// Truncates `text` to at most `max` bytes, cutting on a character boundary
/// and appending `suffix` when anything was cut.
pub fn truncate_with_suffix(text: &str, max: usize, suffix: &str) -> (r: String)
    ensures
        truncated(text@, max as nat, suffix@, r@),
        utf8_len(suffix@) <= max ==> utf8_len(r@) <= max,
{
    if byte_len(text) <= max {
        return String::from_str(text);
    }
    let suffix_len = byte_len(suffix);
    let limit: usize = if suffix_len <= max { max - suffix_len } else { 0 };
    let mut out = String::new();
    let mut used: usize = 0;
    let mut full = false;
    let ghost mut kept: int = 0;
    for c in it: text.chars()
        invariant
            it.seq() == text@,
            it.index() <= text@.len(),
            limit == budget(max as nat, utf8_len(suffix@)),
            0 <= kept <= it.index(),
            out@ == text@.take(kept),
            used == utf8_len(text@.take(kept)),
            used <= limit,
            !full ==> kept == it.index(),
            full ==> kept < text@.len() && utf8_len(text@.take(kept + 1)) > limit,
    {
        if !full {
            proof {
                lemma_utf8_len_take_next(text@, kept);
            }
            let w = utf8_width(c);
            if w <= limit - used {
                push_char(&mut out, c);
                used = used + w;
                proof {
                    assert(text@.take(kept).push(c) =~= text@.take(kept + 1));
                    kept = kept + 1;
                }
            } else {
                full = true;
            }
        }
    }
    proof {
        assert(text@.take(text@.len() as int) =~= text@);
        assert(is_longest_fitting_prefix(text@, kept, limit as nat));
    }
    let ghost prefix = out@;
    out.append(suffix);
    proof {
        lemma_utf8_len_concat(prefix, suffix@);
    }
    out
}


/// Compares two strings for equality of contents: the same length, then
/// the same character at each position.
pub(crate) fn str_eq(a: &str, b: &str) -> (r: bool)
    ensures
        r == (a@ == b@),
{
    let n = a.unicode_len();
    if n != b.unicode_len() {
        return false;
    }
    let mut i: usize = 0;
    while i < n
        invariant
            n == a@.len(),
            n == b@.len(),
            i <= n,
            forall|j: int| 0 <= j < i ==> a@[j] == b@[j],
        decreases n - i,
    {
        if a.get_char(i) != b.get_char(i) {
            return false;
        }
        i = i + 1;
    }
    assert(a@ =~= b@);
    true
}

/// A new string holding `a` followed by `b`.
pub fn concat2(a: &str, b: &str) -> (r: String)
    ensures
        r@ == a@ + b@,
{
    let mut r = String::from_str(a);
    r.append(b);
    r
}

/// A new string holding `a`, `b` and `c` in order.
pub fn concat3(a: &str, b: &str, c: &str) -> (r: String)
    ensures
        r@ == a@ + b@ + c@,
{
    let mut r = String::from_str(a);
    r.append(b);
    r.append(c);
    r
}

/// A copy of `s`.
pub fn copy_string(s: &String) -> (r: String)
    ensures
        r@ == s@,
{
    String::from_str(s.as_str())
}


/// Joins a relative path component onto a base path as `Path::join`
/// does: no separator is added after an empty base or one that already
/// ends in `/`.
pub open spec fn path_join(base: Seq<char>, name: Seq<char>) -> Seq<char> {
    if base.len() == 0 {
        name
    } else if base.last() == '/' {
        base + name
    } else {
        base + "/"@ + name
    }
}

/// The last character of `s`, if any.
pub fn last_char(s: &str) -> (r: Option<char>)
    ensures
        match r {
            Some(c) => s@.len() > 0 && c == s@.last(),
            None => s@.len() == 0,
        },
{
    let mut last: Option<char> = None;
    for c in it: s.chars()
        invariant
            it.seq() == s@,
            it.index() <= s@.len(),
            match last {
                Some(x) => it.index() > 0 && x == s@[it.index() - 1],
                None => it.index() == 0,
            },
    {
        last = Some(c);
    }
    last
}

/// Joins a relative path component onto a base path.
pub fn join_path(base: &str, name: &str) -> (r: String)
    ensures
        r@ == path_join(base@, name@),
{
    match last_char(base) {
        None => String::from_str(name),
        Some(c) => if c == '/' {
            concat2(base, name)
        } else {
            concat3(base, "/", name)
        },
    }
}


/// `s` without leading whitespace.
pub open spec fn trim_start(s: Seq<char>) -> Seq<char>
    decreases s.len(),
{
    if s.len() > 0 && is_ws(s[0]) {
        trim_start(s.drop_first())
    } else {
        s
    }
}

/// `s` without trailing whitespace.
pub open spec fn trim_end(s: Seq<char>) -> Seq<char>
    decreases s.len(),
{
    if s.len() > 0 && is_ws(s.last()) {
        trim_end(s.drop_last())
    } else {
        s
    }
}

/// `s` without leading and trailing whitespace, as `str::trim` returns it.
pub open spec fn trimmed(s: Seq<char>) -> Seq<char> {
    trim_end(trim_start(s))
}

proof fn lemma_trim_start_skip(s: Seq<char>, i: int)
    requires
        0 <= i <= s.len(),
        forall|j: int| 0 <= j < i ==> is_ws(#[trigger] s[j]),
    ensures
        trim_start(s) == trim_start(s.skip(i)),
    decreases i,
{
    if i > 0 {
        assert(s.drop_first().skip(i - 1) =~= s.skip(i));
        lemma_trim_start_skip(s.drop_first(), i - 1);
    } else {
        assert(s.skip(0) =~= s);
    }
}

proof fn lemma_trim_end_take(s: Seq<char>, k: int)
    requires
        0 <= k <= s.len(),
        forall|j: int| k <= j < s.len() ==> is_ws(#[trigger] s[j]),
    ensures
        trim_end(s) == trim_end(s.take(k)),
    decreases s.len() - k,
{
    if k < s.len() {
        assert(s.drop_last().take(k) =~= s.take(k));
        lemma_trim_end_take(s.drop_last(), k);
    } else {
        assert(s.take(k) =~= s);
    }
}

/// `s` without leading and trailing whitespace.
pub fn trim(s: &str) -> (r: String)
    ensures
        r@ == trimmed(s@),
{
    let n = s.unicode_len();
    let mut start: usize = 0;
    let mut end: usize = 0;
    let mut seen = false;
    let mut i: usize = 0;
    for c in it: s.chars()
        invariant
            it.seq() == s@,
            n == s@.len(),
            i == it.index(),
            i <= n,
            !seen ==> start == i && forall|j: int| 0 <= j < i ==> is_ws(#[trigger] s@[j]),
            seen ==> start < end <= i && !is_ws(s@[start as int]) && !is_ws(s@[end - 1])
                && forall|j: int| 0 <= j < start ==> is_ws(#[trigger] s@[j]),
            seen ==> forall|j: int| end <= j < i ==> is_ws(#[trigger] s@[j]),
    {
        if !char_is_ws(c) {
            if !seen {
                seen = true;
                start = i;
            }
            end = i + 1;
        } else if !seen {
            start = i + 1;
        }
        i = i + 1;
    }
    if !seen {
        proof {
            lemma_trim_start_skip(s@, n as int);
            assert(s@.skip(n as int) =~= Seq::<char>::empty());
            assert(trim_end(Seq::<char>::empty()) == Seq::<char>::empty());
        }
        return String::new();
    }
    let sub = s.substring_char(start, end);
    proof {
        lemma_trim_start_skip(s@, start as int);
        let t = s@.skip(start as int);
        assert(trim_start(t) == t);
        lemma_trim_end_take(t, end - start);
        assert(t.take(end - start) =~= s@.subrange(start as int, end as int));
        let u = s@.subrange(start as int, end as int);
        assert(u.last() == s@[end - 1]);
        assert(trim_end(u) == u);
    }
    String::from_str(sub)
}


/// `s` without one trailing carriage return.
pub open spec fn strip_cr(s: Seq<char>) -> Seq<char> {
    if s.len() > 0 && s.last() == '\r' {
        s.drop_last()
    } else {
        s
    }
}

/// The lines of `rest`, given that `cur` holds the text of the current
/// line so far: lines end at `\n` (a `\r` right before it is dropped) and
/// a final line ending is optional, as with `str::lines`.
pub open spec fn lines_from(rest: Seq<char>, cur: Seq<char>) -> Seq<Seq<char>>
    decreases rest.len(),
{
    if rest.len() == 0 {
        if cur.len() == 0 {
            seq![]
        } else {
            seq![cur]
        }
    } else if rest[0] == '\n' {
        seq![strip_cr(cur)] + lines_from(rest.drop_first(), seq![])
    } else {
        lines_from(rest.drop_first(), cur.push(rest[0]))
    }
}

/// The lines of `s`, as `str::lines` yields them.
pub open spec fn lines(s: Seq<char>) -> Seq<Seq<char>> {
    lines_from(s, seq![])
}

/// A copy of `s` without one trailing carriage return.
fn strip_cr_string(s: String) -> (r: String)
    ensures
        r@ == strip_cr(s@),
{
    match last_char(s.as_str()) {
        Some(c) => if c == '\r' {
            let n = s.unicode_len();
            String::from_str(s.as_str().substring_char(0, n - 1))
        } else {
            s
        },
        None => s,
    }
}

/// The lines of `s`.
pub fn split_lines(s: &str) -> (r: Vec<String>)
    ensures
        r@.map_values(|x: String| x@) == lines(s@),
{
    let mut out: Vec<String> = Vec::new();
    let mut cur = String::new();
    assert(s@.skip(0) =~= s@);
    assert(out@.map_values(|x: String| x@) =~= Seq::<Seq<char>>::empty());
    assert(cur@ =~= Seq::<char>::empty());
    for c in it: s.chars()
        invariant
            it.seq() == s@,
            it.index() <= s@.len(),
            out@.map_values(|x: String| x@) + lines_from(s@.skip(it.index() as int), cur@)
                == lines(s@),
    {
        let ghost i = it.index();
        let ghost rest = s@.skip(i as int);
        assert(rest.drop_first() =~= s@.skip(i + 1));
        assert(rest[0] == c);
        if c == '\n' {
            let line = strip_cr_string(cur);
            let ghost before = out@;
            let ghost lv = line@;
            out.push(line);
            cur = String::new();
            proof {
                assert(out@.map_values(|x: String| x@) =~= before.map_values(|x: String| x@).push(lv));
                assert(cur@ =~= Seq::<char>::empty());
            }
            assert(out@.map_values(|x: String| x@) + lines_from(s@.skip(i + 1), cur@) =~= lines(s@));
        } else {
            push_char(&mut cur, c);
        }
    }
    assert(s@.skip(s@.len() as int) =~= Seq::<char>::empty());
    if cur.unicode_len() > 0 {
        let ghost before = out@;
        let ghost cv = cur@;
        out.push(cur);
        assert(out@.map_values(|x: String| x@) =~= before.map_values(|x: String| x@).push(cv));
    }
    out
}


/// `p` occurs in `s` as a contiguous run.
pub open spec fn has_substring(s: Seq<char>, p: Seq<char>) -> bool {
    exists|i: int| 0 <= i && i + p.len() <= s.len() && #[trigger] s.subrange(i, i + p.len()) == p
}

/// The characters of `s`, in a vector.
pub fn chars_of(s: &str) -> (r: Vec<char>)
    ensures
        r@ == s@,
{
    let mut r: Vec<char> = Vec::new();
    for c in it: s.chars()
        invariant
            it.seq() == s@,
            it.index() <= s@.len(),
            r@ == s@.take(it.index() as int),
    {
        r.push(c);
        assert(r@ =~= s@.take(it.index() + 1));
    }
    assert(s@.take(s@.len() as int) =~= s@);
    r
}

fn matches_at(s: &Vec<char>, p: &Vec<char>, i: usize) -> (r: bool)
    requires
        i + p@.len() <= s@.len(),
    ensures
        r == (s@.subrange(i as int, i + p@.len()) == p@),
{
    let n = s.len();
    let mut j: usize = 0;
    while j < p.len()
        invariant
            n == s@.len(),
            i + p@.len() <= s@.len(),
            j <= p@.len(),
            forall|k: int| 0 <= k < j ==> s@[i + k] == p@[k],
        decreases p@.len() - j,
    {
        if s[i + j] != p[j] {
            assert(s@.subrange(i as int, i + p@.len())[j as int] != p@[j as int]);
            return false;
        }
        j = j + 1;
    }
    assert(s@.subrange(i as int, i + p@.len()) =~= p@);
    true
}

/// True when `p` occurs in `s`.
pub fn contains_str(s: &str, p: &str) -> (r: bool)
    ensures
        r == has_substring(s@, p@),
{
    let sv = chars_of(s);
    let pv = chars_of(p);
    if pv.len() > sv.len() {
        return false;
    }
    if pv.len() == 0 {
        assert(s@.subrange(0int, 0int + p@.len()) =~= p@);
        return true;
    }
    let end = sv.len() - pv.len() + 1;
    let mut i: usize = 0;
    while i < end
        invariant
            sv@ == s@,
            pv@ == p@,
            pv@.len() > 0,
            end + pv@.len() == sv@.len() + 1,
            i <= end,
            forall|k: int| 0 <= k < i ==> #[trigger] s@.subrange(k, k + p@.len()) != p@,
        decreases end - i,
    {
        if matches_at(&sv, &pv, i) {
            return true;
        }
        i = i + 1;
    }
    false
}


/// The texts joined with `sep` between consecutive ones.
pub open spec fn joined(parts: Seq<Seq<char>>, sep: Seq<char>) -> Seq<char>
    decreases parts.len(),
{
    if parts.len() == 0 {
        seq![]
    } else if parts.len() == 1 {
        parts[0]
    } else {
        joined(parts.drop_last(), sep) + sep + parts.last()
    }
}

/// The strings joined with `sep` between consecutive ones.
pub fn join_strings(parts: &Vec<String>, sep: &str) -> (r: String)
    ensures
        r@ == joined(parts@.map_values(|x: String| x@), sep@),
{
    let ghost pv = parts@.map_values(|x: String| x@);
    let mut r = String::new();
    let mut i: usize = 0;
    while i < parts.len()
        invariant
            pv == parts@.map_values(|x: String| x@),
            i <= parts@.len(),
            r@ == joined(pv.take(i as int), sep@),
        decreases parts@.len() - i,
    {
        assert(pv.take(i + 1).drop_last() =~= pv.take(i as int));
        assert(pv.take(i + 1).last() == parts@[i as int]@);
        if i > 0 {
            r.append(sep);
        }
        r.append(parts[i].as_str());
        proof {
            if i == 0 {
                assert(r@ =~= pv.take(1)[0]);
            }
        }
        i = i + 1;
    }
    assert(pv.take(parts@.len() as int) =~= pv);
    r
}

} // verus!
