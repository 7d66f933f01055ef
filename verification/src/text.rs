//! Text operations over sequences of characters.
//!
//! A `str` or `String` is modelled by its view, a `Seq<char>`. Every operation
//! here states its result exactly over that view.

use vstd::prelude::*;

verus! {

/// `String::push` of std appends one character.
pub assume_specification[ String::push ](s: &mut String, ch: char)
    ensures
        final(s)@ == old(s)@.push(ch),
;

// ── Models ───────────────────────────────────────────────────────────────────

/// The views of a list of strings.
pub open spec fn texts(v: Seq<String>) -> Seq<Seq<char>> {
    v.map_values(|s: String| s@)
}

/// The view of an optional string.
pub open spec fn opt_text(o: Option<String>) -> Option<Seq<char>> {
    match o {
        Some(s) => Some(s@),
        None => None,
    }
}

/// The view of an optional string slice.
pub open spec fn opt_str(o: Option<&str>) -> Option<Seq<char>> {
    match o {
        Some(s) => Some(s@),
        None => None,
    }
}

/// The index of the first `c` at or after `i`, or the length if there is none.
pub open spec fn find_from(s: Seq<char>, c: char, i: int) -> int
    decreases s.len() - i,
{
    if i < 0 || i >= s.len() {
        s.len() as int
    } else if s[i] == c {
        i
    } else {
        find_from(s, c, i + 1)
    }
}

/// The index of the first `c`, or the length if there is none.
pub open spec fn find(s: Seq<char>, c: char) -> int {
    find_from(s, c, 0)
}

/// What precedes the first `c` (everything if there is none).
pub open spec fn before(s: Seq<char>, c: char) -> Seq<char> {
    s.subrange(0, find(s, c))
}

/// What follows the first `c`, if there is one.
pub open spec fn after(s: Seq<char>, c: char) -> Option<Seq<char>> {
    if 0 <= find(s, c) < s.len() {
        Some(s.subrange(find(s, c) + 1, s.len() as int))
    } else {
        None
    }
}

/// The pieces between the occurrences of `c`.
pub open spec fn split(s: Seq<char>, c: char) -> Seq<Seq<char>>
    decreases s.len(),
{
    let k = find(s, c);
    if 0 <= k < s.len() {
        seq![s.subrange(0, k)] + split(s.subrange(k + 1, s.len() as int), c)
    } else {
        seq![s]
    }
}

/// The characters with the Unicode property `White_Space`.
pub open spec fn is_space(c: char) -> bool {
    let n = c as u32;
    ||| 0x9 <= n <= 0xd
    ||| n == 0x20
    ||| n == 0x85
    ||| n == 0xa0
    ||| n == 0x1680
    ||| 0x2000 <= n <= 0x200a
    ||| n == 0x2028
    ||| n == 0x2029
    ||| n == 0x202f
    ||| n == 0x205f
    ||| n == 0x3000
}

/// `s` without leading white space.
pub open spec fn trim_start(s: Seq<char>) -> Seq<char>
    decreases s.len(),
{
    if s.len() > 0 && is_space(s[0]) {
        trim_start(s.subrange(1, s.len() as int))
    } else {
        s
    }
}

/// `s` without trailing white space.
pub open spec fn trim_end(s: Seq<char>) -> Seq<char>
    decreases s.len(),
{
    if s.len() > 0 && is_space(s.last()) {
        trim_end(s.drop_last())
    } else {
        s
    }
}

/// `s` without white space at either end.
pub open spec fn trim(s: Seq<char>) -> Seq<char> {
    trim_end(trim_start(s))
}

/// `s` without its trailing occurrences of `c`.
pub open spec fn trim_end_of(s: Seq<char>, c: char) -> Seq<char>
    decreases s.len(),
{
    if s.len() > 0 && s.last() == c {
        trim_end_of(s.drop_last(), c)
    } else {
        s
    }
}

/// What follows `prefix` in `s`, if `s` begins with it.
pub open spec fn strip_prefix(s: Seq<char>, prefix: Seq<char>) -> Option<Seq<char>> {
    if prefix.is_prefix_of(s) {
        Some(s.subrange(prefix.len() as int, s.len() as int))
    } else {
        None
    }
}

/// `needle` occurs in `s`.
pub open spec fn occurs(s: Seq<char>, needle: Seq<char>) -> bool {
    exists|i: int|
        0 <= i <= s.len() - needle.len() && #[trigger] s.subrange(i, i + needle.len()) == needle
}

/// `w` is one of the words of `s`: a maximal run of characters that are not
/// white space.
pub open spec fn is_word(s: Seq<char>, w: Seq<char>) -> bool {
    exists|i: int, j: int| #[trigger] word_at(s, w, i, j)
}

/// `s[i..j]` is a maximal run of non-space characters equal to `w`.
pub open spec fn word_at(s: Seq<char>, w: Seq<char>, i: int, j: int) -> bool {
    &&& 0 <= i < j <= s.len()
    &&& s.subrange(i, j) == w
    &&& forall|k: int| i <= k < j ==> !is_space(#[trigger] s[k])
    &&& i == 0 || is_space(s[i - 1])
    &&& j == s.len() || is_space(s[j])
}

/// The parts joined by `sep`.
pub open spec fn join(parts: Seq<Seq<char>>, sep: Seq<char>) -> Seq<char>
    decreases parts.len(),
{
    if parts.len() == 0 {
        Seq::empty()
    } else if parts.len() == 1 {
        parts[0]
    } else {
        join(parts.drop_last(), sep) + sep + parts.last()
    }
}

/// The decimal digit for a number below ten.
pub open spec fn digit(d: nat) -> char {
    if d == 0 {
        '0'
    } else if d == 1 {
        '1'
    } else if d == 2 {
        '2'
    } else if d == 3 {
        '3'
    } else if d == 4 {
        '4'
    } else if d == 5 {
        '5'
    } else if d == 6 {
        '6'
    } else if d == 7 {
        '7'
    } else if d == 8 {
        '8'
    } else {
        '9'
    }
}

/// The decimal representation of `n`, without leading zeros.
pub open spec fn decimal(n: nat) -> Seq<char>
    decreases n,
{
    if n < 10 {
        seq![digit(n)]
    } else {
        decimal(n / 10).push(digit(n % 10))
    }
}

/// `c` is an ASCII decimal digit.
pub open spec fn is_digit(c: char) -> bool {
    '0' <= c <= '9'
}

/// The number that a run of digits stands for.
pub open spec fn digits_value(s: Seq<char>) -> nat
    decreases s.len(),
{
    if s.len() == 0 {
        0
    } else {
        digits_value(s.drop_last()) * 10 + (s.last() as u32 - 48) as nat
    }
}

/// `s` is a non-empty run of digits.
pub open spec fn all_digits(s: Seq<char>) -> bool {
    s.len() > 0 && forall|i: int| 0 <= i < s.len() ==> is_digit(#[trigger] s[i])
}

/// The number that `s` denotes: an optional `+`, then decimal digits, with a
/// value that a `usize` can hold.
pub open spec fn number(s: Seq<char>) -> Option<nat> {
    let body = if s.len() > 0 && s[0] == '+' {
        s.subrange(1, s.len() as int)
    } else {
        s
    };
    if all_digits(body) && digits_value(body) <= usize::MAX {
        Some(digits_value(body))
    } else {
        None
    }
}

/// `a` comes before `b` in the lexicographic order of code points.
pub open spec fn precedes(a: Seq<char>, b: Seq<char>) -> bool
    decreases b.len(),
{
    if b.len() == 0 {
        false
    } else if a.len() == 0 {
        true
    } else if a[0] == b[0] {
        precedes(a.subrange(1, a.len() as int), b.subrange(1, b.len() as int))
    } else {
        a[0] < b[0]
    }
}

/// `s` is printable ASCII without quotes and backslashes.
pub open spec fn unquoted(s: Seq<char>) -> bool {
    forall|i: int|
        0 <= i < s.len() ==> 32 <= (#[trigger] s[i]) as u32 && (s[i] as u32) < 127 && s[i] != '"'
            && s[i] != '\'' && s[i] != '\\'
}

/// How std's `Debug` formatting writes a text.
pub uninterp spec fn debug_repr(s: Seq<char>) -> Seq<char>;

/// A truth value as text.
pub open spec fn bool_repr(b: bool) -> Seq<char> {
    if b {
        "true"@
    } else {
        "false"@
    }
}

/// A truth value as text.
pub fn bool_text(b: bool) -> (r: &'static str)
    ensures
        r@ == bool_repr(b),
{
    if b {
        "true"
    } else {
        "false"
    }
}

/// `s` in quotes, with special characters escaped.
///
/// Trusted: `Debug` formatting of a `str` by std. Printable ASCII without
/// quotes and backslashes stands unchanged between double quotes.
#[verifier::external_body]
pub(crate) fn debug_text(s: &str) -> (r: String)
    ensures
        r@ == debug_repr(s@),
        unquoted(s@) ==> r@ == seq!['"'] + s@ + seq!['"'],
{
    format!("{s:?}")
}

// ── Facts about the models ───────────────────────────────────────────────────

/// What `find_from` returns: the least index at or after `i` that holds `c`.
pub proof fn lemma_find_from(s: Seq<char>, c: char, i: int)
    requires
        0 <= i <= s.len(),
    ensures
        i <= find_from(s, c, i) <= s.len(),
        find_from(s, c, i) < s.len() ==> s[find_from(s, c, i)] == c,
        forall|k: int| i <= k < find_from(s, c, i) ==> s[k] != c,
    decreases s.len() - i,
{
    if i < s.len() && s[i] != c {
        lemma_find_from(s, c, i + 1);
    }
}

/// A position that holds `c`, with no `c` before it, is the first one; and
/// where no position holds `c`, `find` gives the length.
pub proof fn lemma_find_is(s: Seq<char>, c: char, k: int)
    requires
        0 <= k <= s.len(),
        k < s.len() ==> s[k] == c,
        forall|j: int| 0 <= j < k ==> s[j] != c,
    ensures
        find(s, c) == k,
{
    lemma_find_from(s, c, 0);
}

/// `decimal` produces a non-empty run of digits that stands for `n`.
pub proof fn lemma_decimal(n: nat)
    ensures
        all_digits(decimal(n)),
        digits_value(decimal(n)) == n,
    decreases n,
{
    if n >= 10 {
        lemma_decimal(n / 10);
        let d = decimal(n / 10);
        assert(d.push(digit(n % 10)).drop_last() == d);
        assert(digits_value(d.push(digit(n % 10))) == digits_value(d) * 10 + n % 10);
    } else {
        assert(seq![digit(n)].drop_last() == Seq::<char>::empty());
        assert(digits_value(Seq::<char>::empty()) == 0);
    }
}

/// Reading back a number written in decimal gives the number.
pub proof fn lemma_number_of_decimal(n: nat)
    requires
        n <= usize::MAX,
    ensures
        number(decimal(n)) == Some(n),
{
    lemma_decimal(n);
}

// ── Operations ───────────────────────────────────────────────────────────────

/// The characters of `s`.
pub fn chars_of(s: &str) -> (r: Vec<char>)
    ensures
        r@ == s@,
{
    let mut out: Vec<char> = Vec::new();
    for c in it: s.chars()
        invariant
            it.seq() == s@,
            out@ == s@.take(it.index()),
    {
        out.push(c);
    }
    out
}

/// The string made of `v[lo..hi]`.
pub fn string_of(v: &Vec<char>, lo: usize, hi: usize) -> (r: String)
    requires
        lo <= hi <= v@.len(),
    ensures
        r@ == v@.subrange(lo as int, hi as int),
{
    let mut out = String::new();
    let mut i: usize = lo;
    while i < hi
        invariant
            lo <= i <= hi <= v@.len(),
            out@ == v@.subrange(lo as int, i as int),
        decreases hi - i,
    {
        out.push(v[i]);
        i = i + 1;
        assert(v@.subrange(lo as int, i as int) == v@.subrange(lo as int, i - 1).push(v@[i - 1]));
    }
    out
}

/// Whether two texts are equal.
pub fn same(a: &str, b: &str) -> (r: bool)
    ensures
        r == (a@ == b@),
{
    a.to_owned() == b.to_owned()
}

/// The concatenation of two texts.
pub fn cat(a: &str, b: &str) -> (r: String)
    ensures
        r@ == a@ + b@,
{
    let mut out = a.to_owned();
    out.append(b);
    out
}

/// The concatenation of three texts.
pub fn cat3(a: &str, b: &str, c: &str) -> (r: String)
    ensures
        r@ == a@ + b@ + c@,
{
    let mut out = a.to_owned();
    out.append(b);
    out.append(c);
    out
}

/// The index of the first `c` in `v` at or after `from`, or the length.
pub fn find_in(v: &Vec<char>, c: char, from: usize) -> (r: usize)
    requires
        from <= v@.len(),
    ensures
        r == find_from(v@, c, from as int),
        from <= r <= v@.len(),
{
    let mut i: usize = from;
    while i < v.len() && v[i] != c
        invariant
            from <= i <= v@.len(),
            find_from(v@, c, from as int) == find_from(v@, c, i as int),
        decreases v@.len() - i,
    {
        i = i + 1;
    }
    i
}

/// Whether `c` occurs in `s`.
pub fn contains_char(s: &str, c: char) -> (r: bool)
    ensures
        r == s@.contains(c),
{
    let v = chars_of(s);
    let k: usize = find_in(&v, c, 0);
    proof {
        lemma_find_from(s@, c, 0);
    }
    k < v.len()
}

/// Whether `s` begins with the character `c`.
pub fn starts_with_char(s: &str, c: char) -> (r: bool)
    ensures
        r == (s@.len() > 0 && s@[0] == c),
{
    let v = chars_of(s);
    v.len() > 0 && v[0] == c
}

/// Whether `v[at..]` begins with `needle`.
fn matches_at(v: &Vec<char>, needle: &Vec<char>, at: usize) -> (r: bool)
    requires
        at + needle@.len() <= v@.len(),
    ensures
        r == (v@.subrange(at as int, at + needle@.len()) == needle@),
{
    let len: usize = v.len();
    let mut i: usize = 0;
    while i < needle.len()
        invariant
            i <= needle@.len(),
            at + needle@.len() <= v@.len(),
            v@.len() == len,
            forall|k: int| 0 <= k < i ==> v@[at + k] == needle@[k],
        decreases needle@.len() - i,
    {
        if v[at + i] != needle[i] {
            assert(v@.subrange(at as int, at + needle@.len())[i as int] != needle@[i as int]);
            return false;
        }
        i = i + 1;
    }
    assert(v@.subrange(at as int, at + needle@.len()) == needle@);
    true
}

/// Whether `needle` occurs in `s`.
pub fn contains_text(s: &str, needle: &str) -> (r: bool)
    ensures
        r == occurs(s@, needle@),
{
    let v = chars_of(s);
    let n = chars_of(needle);
    if n.len() > v.len() {
        return false;
    }
    let mut i: usize = 0;
    while i <= v.len() - n.len()
        invariant
            n@.len() <= v@.len(),
            0 <= i <= v@.len() - n@.len() + 1,
            v@ == s@,
            n@ == needle@,
            forall|k: int| 0 <= k < i ==> #[trigger] v@.subrange(k, k + n@.len()) != n@,
        decreases v@.len() - n@.len() + 1 - i,
    {
        if matches_at(&v, &n, i) {
            return true;
        }
        if i == v.len() - n.len() {
            return false;
        }
        i = i + 1;
    }
    false
}

/// What follows `prefix` in `s`, if `s` begins with it.
pub fn strip_text(s: &str, prefix: &str) -> (r: Option<String>)
    ensures
        opt_text(r) == strip_prefix(s@, prefix@),
{
    let v = chars_of(s);
    let p = chars_of(prefix);
    if p.len() <= v.len() && matches_at(&v, &p, 0) {
        Some(string_of(&v, p.len(), v.len()))
    } else {
        None
    }
}

/// `s` split at the first `c`: what precedes it and what follows it.
pub fn split_first(s: &str, c: char) -> (r: Option<(String, String)>)
    ensures
        match r {
            Some((a, b)) => a@ == before(s@, c) && after(s@, c) == Some(b@),
            None => after(s@, c) is None,
        },
{
    let v = chars_of(s);
    let k: usize = find_in(&v, c, 0);
    if k < v.len() {
        Some((string_of(&v, 0, k), string_of(&v, k + 1, v.len())))
    } else {
        None
    }
}

/// Whether `c` is white space.
pub fn space(c: char) -> (r: bool)
    ensures
        r == is_space(c),
{
    let n: u32 = c as u32;
    (0x9 <= n && n <= 0xd) || n == 0x20 || n == 0x85 || n == 0xa0 || n == 0x1680 || (0x2000 <= n
        && n <= 0x200a) || n == 0x2028 || n == 0x2029 || n == 0x202f || n == 0x205f || n == 0x3000
}

/// `v[lo..hi]` without white space at either end, as bounds.
fn trim_bounds(v: &Vec<char>) -> (r: (usize, usize))
    ensures
        r.0 <= r.1 <= v@.len(),
        v@.subrange(r.0 as int, r.1 as int) == trim(v@),
{
    let mut lo: usize = 0;
    assert(v@.subrange(0, v@.len() as int) == v@);
    while lo < v.len() && space(v[lo])
        invariant
            0 <= lo <= v@.len(),
            trim_start(v@) == trim_start(v@.subrange(lo as int, v@.len() as int)),
        decreases v@.len() - lo,
    {
        let ghost rest = v@.subrange(lo as int, v@.len() as int);
        assert(rest.subrange(1, rest.len() as int) == v@.subrange(lo + 1, v@.len() as int));
        lo = lo + 1;
    }
    let ghost rest = v@.subrange(lo as int, v@.len() as int);
    assert(trim_start(v@) == rest);
    let mut hi: usize = v.len();
    while hi > lo && space(v[hi - 1])
        invariant
            lo <= hi <= v@.len(),
            trim(v@) == trim_end(v@.subrange(lo as int, hi as int)),
        decreases hi - lo,
    {
        let ghost cur = v@.subrange(lo as int, hi as int);
        assert(cur.drop_last() == v@.subrange(lo as int, hi - 1));
        hi = hi - 1;
    }
    let ghost cur = v@.subrange(lo as int, hi as int);
    assert(trim_end(cur) == cur);
    (lo, hi)
}

/// `s` without white space at either end.
pub fn trimmed(s: &str) -> (r: String)
    ensures
        r@ == trim(s@),
{
    let v = chars_of(s);
    let (lo, hi) = trim_bounds(&v);
    string_of(&v, lo, hi)
}

/// `s` without its trailing occurrences of `c`.
pub fn trimmed_end_of(s: &str, c: char) -> (r: String)
    ensures
        r@ == trim_end_of(s@, c),
{
    let v = chars_of(s);
    let mut hi: usize = v.len();
    assert(v@.subrange(0, v@.len() as int) == v@);
    while hi > 0 && v[hi - 1] == c
        invariant
            hi <= v@.len(),
            trim_end_of(v@, c) == trim_end_of(v@.subrange(0, hi as int), c),
        decreases hi,
    {
        assert(v@.subrange(0, hi as int).drop_last() == v@.subrange(0, hi - 1));
        hi = hi - 1;
    }
    string_of(&v, 0, hi)
}

/// The pieces of `s` between the occurrences of `c`.
pub fn split_all(s: &str, c: char) -> (r: Vec<String>)
    ensures
        texts(r@) == split(s@, c),
{
    let v = chars_of(s);
    let mut out: Vec<String> = Vec::new();
    let mut lo: usize = 0;
    assert(v@.subrange(0, v@.len() as int) == v@);
    assert(texts(out@) + split(v@, c) == split(v@, c));
    loop
        invariant_except_break
            lo <= v@.len(),
            texts(out@) + split(v@.subrange(lo as int, v@.len() as int), c) == split(v@, c),
        invariant
            v@ == s@,
        ensures
            texts(out@) == split(v@, c),
        decreases v@.len() - lo,
    {
        let k: usize = find_in(&v, c, lo);
        let ghost rest = v@.subrange(lo as int, v@.len() as int);
        proof {
            lemma_find_from(v@, c, lo as int);
            lemma_find_is(rest, c, k - lo);
        }
        let piece = string_of(&v, lo, k);
        let ghost before_push = out@;
        out.push(piece);
        proof {
            assert(texts(out@) == texts(before_push).push(piece@));
            assert(rest.subrange(0, k - lo) == piece@);
        }
        if k < v.len() {
            proof {
                assert(rest.subrange(k - lo + 1, rest.len() as int) == v@.subrange(
                    k + 1,
                    v@.len() as int,
                ));
                assert(texts(out@) + split(v@.subrange(k + 1, v@.len() as int), c) == texts(
                    before_push,
                ) + split(rest, c));
            }
            lo = k + 1;
        } else {
            proof {
                assert(rest == piece@);
                assert(split(rest, c) == seq![piece@]);
                assert(texts(out@) == texts(before_push) + split(rest, c));
            }
            break;
        }
    }
    out
}

/// Whether `w` is one of the white-space separated words of `s`.
pub fn has_word(s: &str, w: &str) -> (r: bool)
    ensures
        r == is_word(s@, w@),
{
    let v = chars_of(s);
    let n = chars_of(w);
    let mut i: usize = 0;
    while i < v.len()
        invariant
            i <= v@.len(),
            v@ == s@,
            n@ == w@,
            i == 0 || is_space(v@[i - 1]),
            forall|a: int, b: int| a < i ==> !#[trigger] word_at(v@, n@, a, b),
        decreases v@.len() - i,
    {
        let mut j: usize = i;
        while j < v.len() && !space(v[j])
            invariant
                i <= j <= v@.len(),
                forall|k: int| i <= k < j ==> !is_space(#[trigger] v@[k]),
            decreases v@.len() - j,
        {
            j = j + 1;
        }
        assert(j == v@.len() || is_space(v@[j as int]));
        if i < j && j - i == n.len() && matches_at(&v, &n, i) {
            proof {
                assert(word_at(v@, n@, i as int, j as int));
            }
            return true;
        }
        proof {
            assert forall|a: int, b: int| a <= j implies !#[trigger] word_at(v@, n@, a, b) by {
                if word_at(v@, n@, a, b) {
                    if a > i && a <= j {
                        if a < v@.len() {
                            assert(is_space(v@[a - 1]));
                            assert(a - 1 < j ==> !is_space(v@[a - 1]));
                            assert(a == j);
                            assert(!is_space(v@[a - 1]));
                        }
                    } else if a == i {
                        if b < j {
                            assert(is_space(v@[b]));
                        } else if b > j {
                            assert(is_space(v@[j as int]));
                        }
                        assert(b == j);
                    }
                }
            }
        }
        if j >= v.len() {
            assert forall|a: int, b: int| !#[trigger] word_at(v@, n@, a, b) by {}
            return false;
        }
        i = j + 1;
    }
    false
}

/// The parts joined by `sep`.
pub fn joined(parts: &Vec<String>, sep: &str) -> (r: String)
    ensures
        r@ == join(texts(parts@), sep@),
{
    let mut out = String::new();
    let mut i: usize = 0;
    while i < parts.len()
        invariant
            i <= parts@.len(),
            out@ == join(texts(parts@).take(i as int), sep@),
        decreases parts@.len() - i,
    {
        if i > 0 {
            out.append(sep);
        }
        out.append(parts[i].as_str());
        proof {
            let done = texts(parts@).take(i + 1);
            assert(done.drop_last() == texts(parts@).take(i as int));
            assert(done.last() == parts@[i as int]@);
        }
        i = i + 1;
    }
    assert(texts(parts@).take(i as int) == texts(parts@));
    out
}

/// The digit for a number below ten.
fn digit_char(d: usize) -> (r: char)
    requires
        d < 10,
    ensures
        r == digit(d as nat),
{
    match d {
        0 => '0',
        1 => '1',
        2 => '2',
        3 => '3',
        4 => '4',
        5 => '5',
        6 => '6',
        7 => '7',
        8 => '8',
        _ => '9',
    }
}

/// The decimal representation of `n`.
pub fn decimal_text(n: usize) -> (r: String)
    ensures
        r@ == decimal(n as nat),
    decreases n,
{
    if n < 10 {
        let mut out = String::new();
        out.push(digit_char(n));
        out
    } else {
        let mut out = decimal_text(n / 10);
        out.push(digit_char(n % 10));
        out
    }
}

/// The number that `s` denotes, read as std's `usize::from_str` reads it.
pub fn parse_number(s: &str) -> (r: Option<usize>)
    ensures
        match r {
            Some(n) => number(s@) == Some(n as nat),
            None => number(s@) is None,
        },
{
    let v = chars_of(s);
    let start: usize = if v.len() > 0 && v[0] == '+' {
        1
    } else {
        0
    };
    let ghost body = v@.subrange(start as int, v@.len() as int);
    assert(start == 0 ==> body == v@);
    if start == v.len() {
        return None;
    }
    let mut total: usize = 0;
    let mut i: usize = start;
    while i < v.len()
        invariant
            start <= i <= v@.len(),
            body == v@.subrange(start as int, v@.len() as int),
            number(s@) == if all_digits(body) && digits_value(body) <= usize::MAX {
                Some(digits_value(body))
            } else {
                None
            },
            forall|k: int| 0 <= k < i - start ==> is_digit(#[trigger] body[k]),
            total == digits_value(body.take(i - start)),
        decreases v@.len() - i,
    {
        let c = v[i];
        assert(c == body[i - start]);
        if !('0' <= c && c <= '9') {
            return None;
        }
        let d: usize = (c as u32 - 48) as usize;
        proof {
            let done = body.take(i - start + 1);
            assert(done.drop_last() == body.take(i - start));
            assert(digits_value(done) == total * 10 + d);
            lemma_digits_grow(body, i - start + 1);
        }
        if total > usize::MAX / 10 {
            return None;
        }
        let tens: usize = total * 10;
        if d > usize::MAX - tens {
            return None;
        }
        total = tens + d;
        i = i + 1;
    }
    assert(body.take(i - start) == body);
    Some(total)
}

/// A longer run of digits does not stand for a smaller number.
proof fn lemma_digits_grow(s: Seq<char>, k: int)
    requires
        0 <= k <= s.len(),
    ensures
        digits_value(s.take(k)) <= digits_value(s),
    decreases s.len(),
{
    if k < s.len() {
        lemma_digits_grow(s.drop_last(), k);
        assert(s.drop_last().take(k) == s.take(k));
    } else {
        assert(s.take(k) == s);
    }
}

/// Two texts agree up to `i`, where the first has the smaller character.
pub open spec fn parts_at(a: Seq<char>, b: Seq<char>, i: int) -> bool {
    &&& 0 <= i < a.len()
    &&& i < b.len()
    &&& forall|j: int| 0 <= j < i ==> #[trigger] a[j] == b[j]
    &&& a[i] < b[i]
}

/// The first character at which two texts differ decides which one comes first.
pub proof fn lemma_precedes_at(a: Seq<char>, b: Seq<char>, i: int)
    requires
        parts_at(a, b, i),
    ensures
        precedes(a, b),
    decreases i,
{
    if i > 0 {
        let x = a.subrange(1, a.len() as int);
        let y = b.subrange(1, b.len() as int);
        assert(a[0] == b[0]);
        assert forall|j: int| 0 <= j < i - 1 implies #[trigger] x[j] == y[j] by {
            assert(a[j + 1] == b[j + 1]);
        }
        lemma_precedes_at(x, y, i - 1);
    }
}

/// Of two different texts, exactly one precedes the other.
pub proof fn lemma_precedes_total(a: Seq<char>, b: Seq<char>)
    ensures
        precedes(a, b) || precedes(b, a) || a == b,
        precedes(a, b) ==> !precedes(b, a),
    decreases a.len() + b.len(),
{
    if a.len() > 0 && b.len() > 0 {
        let x = a.subrange(1, a.len() as int);
        let y = b.subrange(1, b.len() as int);
        lemma_precedes_total(x, y);
        if a[0] == b[0] && x == y {
            assert(a == seq![a[0]] + x);
            assert(b == seq![b[0]] + y);
        }
    } else if a.len() == 0 && b.len() == 0 {
        assert(a == b);
    }
}

/// The order of texts is transitive.
pub proof fn lemma_precedes_transitive(a: Seq<char>, b: Seq<char>, c: Seq<char>)
    requires
        precedes(a, b),
        precedes(b, c),
    ensures
        precedes(a, c),
    decreases a.len(),
{
    if a.len() > 0 && b.len() > 0 && c.len() > 0 && a[0] == b[0] && b[0] == c[0] {
        lemma_precedes_transitive(
            a.subrange(1, a.len() as int),
            b.subrange(1, b.len() as int),
            c.subrange(1, c.len() as int),
        );
    }
}

/// Whether `a` comes before `b` in the lexicographic order of code points.
pub fn text_precedes(a: &str, b: &str) -> (r: bool)
    ensures
        r == precedes(a@, b@),
{
    let x = chars_of(a);
    let y = chars_of(b);
    let mut i: usize = 0;
    assert(x@.subrange(0, x@.len() as int) == x@);
    assert(y@.subrange(0, y@.len() as int) == y@);
    while i < x.len() && i < y.len() && x[i] == y[i]
        invariant
            i <= x@.len(),
            i <= y@.len(),
            x@ == a@,
            y@ == b@,
            precedes(a@, b@) == precedes(
                x@.subrange(i as int, x@.len() as int),
                y@.subrange(i as int, y@.len() as int),
            ),
        decreases x@.len() - i,
    {
        proof {
            let p = x@.subrange(i as int, x@.len() as int);
            let q = y@.subrange(i as int, y@.len() as int);
            assert(p.subrange(1, p.len() as int) == x@.subrange(i + 1, x@.len() as int));
            assert(q.subrange(1, q.len() as int) == y@.subrange(i + 1, y@.len() as int));
        }
        i = i + 1;
    }
    if i >= y.len() {
        false
    } else if i >= x.len() {
        true
    } else {
        x[i] < y[i]
    }
}

// ── Texts in logs ────────────────────────────────────────────────────────────

/// A list of texts in quotes, between brackets.
pub open spec fn list_repr(list: Seq<Seq<char>>) -> Seq<char> {
    "["@ + join(list.map_values(|s: Seq<char>| debug_repr(s)), ", "@) + "]"@
}

/// A list of texts in quotes, between brackets.
pub(crate) fn list_text(list: &Vec<String>) -> (r: String)
    ensures
        r@ == list_repr(texts(list@)),
{
    let mut quoted: Vec<String> = Vec::new();
    let mut i: usize = 0;
    while i < list.len()
        invariant
            i <= list@.len(),
            texts(quoted@) == texts(list@).map_values(|s: Seq<char>| debug_repr(s)).take(i as int),
        decreases list@.len() - i,
    {
        let ghost so_far = texts(quoted@);
        let q = debug_text(list[i].as_str());
        quoted.push(q);
        proof {
            assert(texts(quoted@) == so_far.push(q@));
            let all = texts(list@).map_values(|s: Seq<char>| debug_repr(s));
            assert(all.take(i + 1) == all.take(i as int).push(all[i as int]));
        }
        i = i + 1;
    }
    assert(texts(quoted@) == texts(list@).map_values(|s: Seq<char>| debug_repr(s)));
    let inner = joined(&quoted, ", ");
    let mut out = "[".to_owned();
    out.append(inner.as_str());
    out.append("]");
    out
}

/// An optional text, in quotes.
pub open spec fn opt_repr(o: Option<Seq<char>>) -> Seq<char> {
    match o {
        Some(s) => "Some("@ + debug_repr(s) + ")"@,
        None => "None"@,
    }
}

/// An optional text, in quotes.
pub(crate) fn quoted_opt(o: &Option<String>) -> (r: String)
    ensures
        r@ == opt_repr(opt_text(*o)),
{
    match o {
        Some(s) => {
            let quoted = debug_text(s.as_str());
            cat3("Some(", quoted.as_str(), ")")
        },
        None => "None".to_owned(),
    }
}

// ── Laws ─────────────────────────────────────────────────────────────────────

/// A text is what comes before its first `c`, that `c`, and what follows it.
pub proof fn law_first_occurrence_parts_a_text(s: Seq<char>, c: char)
    ensures
        after(s, c) is Some <==> s.contains(c),
        !before(s, c).contains(c),
        match after(s, c) {
            Some(rest) => s == before(s, c) + seq![c] + rest,
            None => s == before(s, c),
        },
{
    lemma_find_from(s, c, 0);
    let k = find(s, c);
    if k < s.len() {
        assert(s.contains(c));
        assert(s == s.subrange(0, k) + seq![c] + s.subrange(k + 1, s.len() as int));
    } else {
        assert(s.subrange(0, k) == s);
    }
}

/// Joining begins with the first part.
proof fn lemma_join_cons(first: Seq<char>, rest: Seq<Seq<char>>, sep: Seq<char>)
    requires
        rest.len() > 0,
    ensures
        join(seq![first] + rest, sep) == first + sep + join(rest, sep),
    decreases rest.len(),
{
    let all = seq![first] + rest;
    assert(all.last() == rest.last());
    assert(all.drop_last() == seq![first] + rest.drop_last());
    if rest.len() == 1 {
        assert(all.drop_last() == seq![first]);
        assert(join(all.drop_last(), sep) == first);
        assert(join(rest, sep) == rest.last());
    } else {
        lemma_join_cons(first, rest.drop_last(), sep);
        assert(first + sep + join(rest.drop_last(), sep) + sep + rest.last() == first + sep + (
        join(rest.drop_last(), sep) + sep + rest.last()));
    }
}

/// The pieces of a text hold no separator, and joined by it they are the text.
pub proof fn law_pieces_make_up_the_text(s: Seq<char>, c: char)
    ensures
        split(s, c).len() > 0,
        forall|i: int| 0 <= i < split(s, c).len() ==> !(#[trigger] split(s, c)[i]).contains(c),
        join(split(s, c), seq![c]) == s,
    decreases s.len(),
{
    lemma_find_from(s, c, 0);
    let k = find(s, c);
    if k < s.len() {
        let rest = s.subrange(k + 1, s.len() as int);
        let first = s.subrange(0, k);
        law_pieces_make_up_the_text(rest, c);
        lemma_join_cons(first, split(rest, c), seq![c]);
        assert(s == first + seq![c] + rest);
        assert forall|i: int| 0 <= i < split(s, c).len() implies !(#[trigger] split(
            s,
            c,
        )[i]).contains(c) by {
            if i == 0 {
                assert(split(s, c)[0] == first);
            } else {
                assert(split(s, c)[i] == split(rest, c)[i - 1]);
            }
        }
    } else {
        assert(split(s, c) == seq![s]);
        assert(join(seq![s], seq![c]) == s);
    }
}

/// Trimming removes white space in front.
proof fn lemma_trim_start(space: Seq<char>, s: Seq<char>)
    requires
        forall|i: int| 0 <= i < space.len() ==> is_space(#[trigger] space[i]),
        s.len() > 0 ==> !is_space(s[0]),
    ensures
        trim_start(space + s) == s,
    decreases space.len(),
{
    let all = space + s;
    if space.len() > 0 {
        let less = space.subrange(1, space.len() as int);
        assert forall|i: int| 0 <= i < less.len() implies is_space(#[trigger] less[i]) by {
            assert(less[i] == space[i + 1]);
        }
        assert(all[0] == space[0]);
        assert(all.subrange(1, all.len() as int) == less + s);
        lemma_trim_start(less, s);
    } else {
        assert(all == s);
    }
}

/// Trimming removes white space behind.
proof fn lemma_trim_end(s: Seq<char>, space: Seq<char>)
    requires
        forall|i: int| 0 <= i < space.len() ==> is_space(#[trigger] space[i]),
        s.len() > 0 ==> !is_space(s.last()),
    ensures
        trim_end(s + space) == s,
    decreases space.len(),
{
    let all = s + space;
    if space.len() > 0 {
        let less = space.drop_last();
        assert forall|i: int| 0 <= i < less.len() implies is_space(#[trigger] less[i]) by {
            assert(less[i] == space[i]);
        }
        assert(all.last() == space.last());
        assert(all.drop_last() == s + less);
        lemma_trim_end(s, less);
    } else {
        assert(all == s);
    }
}

/// White space around a text that neither begins nor ends with it is trimmed,
/// and nothing else.
pub proof fn law_trimming_removes_surrounding_space(
    front: Seq<char>,
    s: Seq<char>,
    back: Seq<char>,
)
    requires
        forall|i: int| 0 <= i < front.len() ==> is_space(#[trigger] front[i]),
        forall|i: int| 0 <= i < back.len() ==> is_space(#[trigger] back[i]),
        s.len() > 0 ==> !is_space(s[0]) && !is_space(s.last()),
    ensures
        trim(front + s + back) == s,
{
    if s.len() > 0 {
        assert(front + s + back == front + (s + back));
        lemma_trim_start(front, s + back);
        lemma_trim_end(s, back);
    } else {
        let all = front + back;
        assert(front + s + back == all + s);
        assert forall|i: int| 0 <= i < all.len() implies is_space(#[trigger] all[i]) by {
            if i < front.len() {
                assert(all[i] == front[i]);
            } else {
                assert(all[i] == back[i - front.len()]);
            }
        }
        lemma_trim_start(all, s);
        lemma_trim_end(s, Seq::empty());
        assert(s + Seq::<char>::empty() == s);
    }
}

/// Blanks, tabs and line ends are white space; letters, digits and the other
/// visible characters of ASCII are not.
pub proof fn law_visible_ascii_is_no_space(c: char)
    ensures
        c == ' ' || c == '\t' || c == '\n' || c == '\r' ==> is_space(c),
        '!' <= c <= '~' ==> !is_space(c),
{
}

/// A prefix is stripped exactly where the text is that prefix and a rest.
pub proof fn law_stripped_prefix_and_rest_make_the_text(
    s: Seq<char>,
    prefix: Seq<char>,
    rest: Seq<char>,
)
    ensures
        strip_prefix(s, prefix) == Some(rest) <==> s == prefix + rest,
        strip_prefix(s, prefix) is Some <==> prefix.len() <= s.len() && s.take(
            prefix.len() as int,
        ) == prefix,
{
    let whole = prefix + rest;
    assert(whole.subrange(prefix.len() as int, whole.len() as int) == rest);
    if s == whole {
        assert(prefix.is_prefix_of(s));
    }
    if prefix.is_prefix_of(s) {
        assert(s == prefix + s.subrange(prefix.len() as int, s.len() as int));
        assert(s.take(prefix.len() as int) == prefix);
    }
    if prefix.len() <= s.len() && s.take(prefix.len() as int) == prefix {
        assert(prefix.is_prefix_of(s));
    }
}

/// Trailing characters are removed, and no other.
pub proof fn law_trailing_characters_are_removed(s: Seq<char>, c: char, tail: Seq<char>)
    requires
        s.len() > 0 ==> s.last() != c,
        forall|i: int| 0 <= i < tail.len() ==> #[trigger] tail[i] == c,
    ensures
        trim_end_of(s + tail, c) == s,
    decreases tail.len(),
{
    let all = s + tail;
    if tail.len() > 0 {
        let less = tail.drop_last();
        assert forall|i: int| 0 <= i < less.len() implies #[trigger] less[i] == c by {
            assert(less[i] == tail[i]);
        }
        assert(all.last() == tail.last());
        assert(all.drop_last() == s + less);
        law_trailing_characters_are_removed(s, c, less);
    } else {
        assert(all == s);
    }
}

/// One text precedes another exactly where it is a proper beginning of it, or
/// has the smaller character at the first place where they differ.
pub proof fn law_order_of_texts(a: Seq<char>, b: Seq<char>)
    ensures
        precedes(a, b) <==> ((a.len() < b.len() && a == b.take(a.len() as int)) || exists|i: int|
            #[trigger] parts_at(a, b, i)),
    decreases b.len(),
{
    if b.len() > 0 && a.len() > 0 {
        let x = a.subrange(1, a.len() as int);
        let y = b.subrange(1, b.len() as int);
        law_order_of_texts(x, y);
        if a[0] == b[0] {
            if precedes(a, b) {
                if x.len() < y.len() && x == y.take(x.len() as int) {
                    assert forall|j: int| 0 <= j < a.len() implies a[j] == b[j] by {
                        if j > 0 {
                            assert(x[j - 1] == y.take(x.len() as int)[j - 1]);
                        }
                    }
                    assert(a == b.take(a.len() as int));
                } else {
                    let i = choose|i: int| #[trigger] parts_at(x, y, i);
                    assert forall|j: int| 0 <= j < i + 1 implies #[trigger] a[j] == b[j] by {
                        if j > 0 {
                            assert(x[j - 1] == y[j - 1]);
                        }
                    }
                    assert(parts_at(a, b, i + 1));
                }
            }
            if a.len() < b.len() && a == b.take(a.len() as int) {
                assert forall|j: int| 0 <= j < x.len() implies x[j] == y[j] by {
                    assert(a[j + 1] == b.take(a.len() as int)[j + 1]);
                }
                assert(x == y.take(x.len() as int));
            }
            if exists|i: int| #[trigger] parts_at(a, b, i) {
                let i = choose|i: int| #[trigger] parts_at(a, b, i);
                lemma_precedes_at(a, b, i);
            }
        } else {
            if a[0] < b[0] {
                assert(parts_at(a, b, 0));
            }
            if exists|i: int| #[trigger] parts_at(a, b, i) {
                let i = choose|i: int| #[trigger] parts_at(a, b, i);
                assert(i == 0) by {
                    if i > 0 {
                        assert(a[0] == b[0]);
                    }
                }
            }
            if a.len() < b.len() && a == b.take(a.len() as int) {
                assert(a[0] == b.take(a.len() as int)[0]);
            }
        }
    } else if a.len() == 0 && b.len() > 0 {
        assert(a == b.take(0));
    }
}

/// A word of a text with one more word behind it is a word of the text, or that
/// last word.
proof fn lemma_last_word(t: Seq<char>, p: Seq<char>, w: Seq<char>)
    requires
        p.len() > 0,
        forall|i: int| 0 <= i < p.len() ==> !is_space(#[trigger] p[i]),
    ensures
        is_word(t + " "@ + p, w) <==> is_word(t, w) || w == p,
{
    reveal_strlit(" ");
    let s = t + " "@ + p;
    let n = t.len() as int;
    assert(s[n] == ' ');
    if is_word(s, w) {
        let (i, j) = choose|i: int, j: int| #[trigger] word_at(s, w, i, j);
        if j <= n {
            assert(t.subrange(i, j) == s.subrange(i, j));
            assert forall|k: int| i <= k < j implies !is_space(#[trigger] t[k]) by {
                assert(t[k] == s[k]);
            }
            if i > 0 {
                assert(t[i - 1] == s[i - 1]);
            }
            if j < n {
                assert(t[j] == s[j]);
            }
            assert(word_at(t, w, i, j));
        } else {
            assert(i > n) by {
                if i <= n {
                    assert(!is_space(s[n]));
                }
            }
            assert(i == n + 1) by {
                if i > n + 1 {
                    assert(s[i - 1] == p[i - n - 2]);
                }
            }
            assert(j == s.len()) by {
                if j < s.len() {
                    assert(s[j] == p[j - n - 1]);
                }
            }
            assert(s.subrange(i, j) == p);
        }
    }
    if is_word(t, w) {
        let (i, j) = choose|i: int, j: int| #[trigger] word_at(t, w, i, j);
        assert(s.subrange(i, j) == t.subrange(i, j));
        assert forall|k: int| i <= k < j implies !is_space(#[trigger] s[k]) by {
            assert(t[k] == s[k]);
        }
        if i > 0 {
            assert(t[i - 1] == s[i - 1]);
        }
        if j < n {
            assert(t[j] == s[j]);
        }
        assert(word_at(s, w, i, j));
    }
    if w == p {
        assert(s.subrange(n + 1, s.len() as int) == p);
        assert forall|k: int| n + 1 <= k < s.len() implies !is_space(#[trigger] s[k]) by {
            assert(s[k] == p[k - n - 1]);
        }
        assert(word_at(s, w, n + 1, s.len() as int));
    }
}

/// The words of a text of words that are joined by blanks are those words.
pub proof fn law_words_of_joined_text(parts: Seq<Seq<char>>, w: Seq<char>)
    requires
        forall|i: int| 0 <= i < parts.len() ==> (#[trigger] parts[i]).len() > 0,
        forall|i: int, k: int|
            0 <= i < parts.len() && 0 <= k < parts[i].len() ==> !is_space(#[trigger] parts[i][k]),
    ensures
        is_word(join(parts, " "@), w) <==> parts.contains(w),
    decreases parts.len(),
{
    if parts.len() == 0 {
        let none = Seq::<char>::empty();
        assert(!is_word(none, w)) by {
            if is_word(none, w) {
                let (i, j) = choose|i: int, j: int| #[trigger] word_at(none, w, i, j);
                assert(false);
            }
        }
    } else if parts.len() == 1 {
        let p = parts[0];
        if w == p {
            assert(p.subrange(0, p.len() as int) == p);
            assert(word_at(p, w, 0, p.len() as int));
            assert(parts.contains(w));
        }
        if is_word(p, w) {
            let (i, j) = choose|i: int, j: int| #[trigger] word_at(p, w, i, j);
            assert(i == 0) by {
                if i > 0 {
                    assert(!is_space(parts[0][i - 1]));
                }
            }
            assert(j == p.len()) by {
                if j < p.len() {
                    assert(!is_space(parts[0][j]));
                }
            }
            assert(p.subrange(i, j) == p);
        }
        if parts.contains(w) {
            let k = choose|k: int| 0 <= k < parts.len() && parts[k] == w;
            assert(w == p);
        }
    } else {
        let fewer = parts.drop_last();
        let last = parts.last();
        assert forall|i: int| 0 <= i < fewer.len() implies (#[trigger] fewer[i]).len() > 0 by {
            assert(fewer[i] == parts[i]);
        }
        assert forall|i: int, k: int| 0 <= i < fewer.len() && 0 <= k < fewer[i].len() implies !is_space(
            #[trigger] fewer[i][k],
        ) by {
            assert(fewer[i] == parts[i]);
            assert(!is_space(parts[i][k]));
        }
        law_words_of_joined_text(fewer, w);
        let m = parts.len() - 1;
        assert forall|k: int| 0 <= k < last.len() implies !is_space(#[trigger] last[k]) by {
            assert(!is_space(parts[m][k]));
        }
        lemma_last_word(join(fewer, " "@), last, w);
        if parts.contains(w) {
            let k = choose|k: int| 0 <= k < parts.len() && parts[k] == w;
            if k < m {
                assert(fewer[k] == w);
            }
        }
        if fewer.contains(w) {
            let k = choose|k: int| 0 <= k < fewer.len() && fewer[k] == w;
            assert(parts[k] == w);
        }
        if w == last {
            assert(parts[m] == w);
        }
    }
}

/// Joined parts stand in order, each behind one separator.
pub proof fn law_joined_parts_stand_in_order(parts: Seq<Seq<char>>, sep: Seq<char>, more: Seq<char>)
    ensures
        join(seq![more], sep) == more,
        parts.len() > 0 ==> join(parts.push(more), sep) == join(parts, sep) + sep + more,
        parts.len() == 0 ==> join(parts, sep).len() == 0,
{
    assert(seq![more][0] == more);
    if parts.len() > 0 {
        assert(parts.push(more).drop_last() == parts);
    }
}

/// White space is what Unicode calls `White_Space`, and nothing else.
pub proof fn law_white_space(c: char, r: bool)
    requires
        call_ensures(space, (c,), r),
    ensures
        r <==> c == '\t' || c == '\n' || c == '\u{b}' || c == '\u{c}' || c == '\r' || c == ' ' || c
            == '\u{85}' || c == '\u{a0}' || c == '\u{1680}' || '\u{2000}' <= c <= '\u{200a}' || c
            == '\u{2028}' || c == '\u{2029}' || c == '\u{202f}' || c == '\u{205f}' || c
            == '\u{3000}',
        r <==> is_space(c),
{
}

/// A number is written in base ten, from the highest digit that is not zero to
/// the lowest one.
pub proof fn law_decimal_digits(n: usize, r: String)
    requires
        call_ensures(decimal_text, (n,), r),
    ensures
        r@ == decimal(n as nat),
        n < 10 ==> r@ == seq![('0' as u32 + n) as char],
        n >= 10 ==> r@ == decimal((n / 10) as nat) + decimal((n % 10) as nat),
        r@.len() > 1 ==> r@[0] != '0',
{
    lemma_no_leading_zero(n as nat);
}

/// A number that is not zero does not begin with a zero.
proof fn lemma_no_leading_zero(n: nat)
    ensures
        n > 0 ==> decimal(n)[0] != '0',
    decreases n,
{
    if n >= 10 {
        lemma_no_leading_zero(n / 10);
        lemma_decimal(n / 10);
        assert(decimal(n)[0] == decimal(n / 10)[0]);
    }
}

/// A text is read as the number that it writes, with or without a `+` in front;
/// and a text with anything but digits behind that is no number.
pub proof fn law_numbers_are_read_as_written(n: usize, s: &str, r: Option<usize>)
    requires
        call_ensures(parse_number, (s,), r),
    ensures
        s@ == decimal(n as nat) || s@ == seq!['+'] + decimal(n as nat) ==> r == Some(n),
        r is Some ==> s@.len() > 0 && forall|i: int|
            0 <= i < s@.len() ==> ('0' <= #[trigger] s@[i] <= '9' || (i == 0 && s@[i] == '+')),
{
    lemma_decimal(n as nat);
    let d = decimal(n as nat);
    if s@ == seq!['+'] + d {
        assert(s@.subrange(1, s@.len() as int) == d);
    }
    if s@ == d {
        assert(is_digit(d[0]));
    }
    if r is Some {
        let plus = s@.len() > 0 && s@[0] == '+';
        let body = if plus {
            s@.subrange(1, s@.len() as int)
        } else {
            s@
        };
        assert(all_digits(body));
        assert forall|i: int| 0 <= i < s@.len() implies ('0' <= #[trigger] s@[i] <= '9' || (i == 0
            && s@[i] == '+')) by {
            if plus {
                if i > 0 {
                    assert(is_digit(body[i - 1]));
                }
            } else {
                assert(is_digit(body[i]));
            }
        }
    }
}

/// One digit more makes a number ten times as large, and adds the digit.
pub proof fn law_value_of_digits(s: Seq<char>, d: char)
    requires
        is_digit(d),
    ensures
        digits_value(s.push(d)) == digits_value(s) * 10 + (d as u32 - '0' as u32),
        digits_value(Seq::<char>::empty()) == 0,
{
    assert(s.push(d).drop_last() == s);
}

/// A list of texts is shown between brackets, each text in quotes and behind one
/// comma and a space.
pub proof fn law_lists_are_shown_in_brackets(list: Seq<Seq<char>>, more: Seq<char>)
    ensures
        list_repr(Seq::empty()) == "[]"@,
        list_repr(seq![more]) == "["@ + debug_repr(more) + "]"@,
        list.len() > 0 ==> list_repr(list.push(more)) == list_repr(list).drop_last() + ", "@
            + debug_repr(more) + "]"@,
{
    reveal_strlit("[");
    reveal_strlit("]");
    reveal_strlit("[]");
    let quote = |s: Seq<char>| debug_repr(s);
    let none = Seq::<Seq<char>>::empty();
    assert(none.map_values(quote) == none);
    assert("["@ + Seq::<char>::empty() + "]"@ == "[]"@);
    assert(seq![more].map_values(quote) == seq![debug_repr(more)]);
    assert(join(seq![debug_repr(more)], ", "@) == debug_repr(more));
    if list.len() > 0 {
        let shown = list.map_values(quote);
        assert(list.push(more).map_values(quote) == shown.push(debug_repr(more)));
        assert(shown.push(debug_repr(more)).drop_last() == shown);
        let inner = join(shown, ", "@);
        assert(list_repr(list).drop_last() == "["@ + inner);
        assert("["@ + (inner + ", "@ + debug_repr(more)) + "]"@ == "["@ + inner + ", "@
            + debug_repr(more) + "]"@);
    }
}

/// An optional text is shown in quotes, inside `Some`.
pub proof fn law_optional_texts_are_shown(o: Option<Seq<char>>)
    ensures
        o is Some ==> opt_repr(o) == "Some("@ + debug_repr(o->0) + ")"@,
        o is None ==> opt_repr(o) == "None"@,
{
}

} // verus!
