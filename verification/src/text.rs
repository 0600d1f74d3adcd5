//! Text primitives over sequences of characters.
//!
//! Every rule of the library that reads a string (splitting artists, trimming
//! tags, matching a timestamp, walking a path) is stated over `Seq<char>`, the
//! view of `str` and `String`. The executable counterparts work on `Vec<char>`.

use vstd::prelude::*;

verus! {

/// The Unicode `White_Space` property, as a predicate on a character.
pub open spec fn is_space(c: char) -> bool {
    let n = c as u32;
    (0x09 <= n <= 0x0D) || n == 0x20 || n == 0x85 || n == 0xA0 || n == 0x1680 || (0x2000 <= n
        <= 0x200A) || n == 0x2028 || n == 0x2029 || n == 0x202F || n == 0x205F || n == 0x3000
}

/// Tells whether `c` is white space.
pub fn char_is_space(c: char) -> (b: bool)
    ensures
        b == is_space(c),
{
    let n: u32 = c as u32;
    (0x09 <= n && n <= 0x0D) || n == 0x20 || n == 0x85 || n == 0xA0 || n == 0x1680 || (0x2000 <= n
        && n <= 0x200A) || n == 0x2028 || n == 0x2029 || n == 0x202F || n == 0x205F || n == 0x3000
}

/// The characters of a string slice, in order.
pub fn to_chars(s: &str) -> (v: Vec<char>)
    ensures
        v@ == s@,
{
    let mut v: Vec<char> = Vec::new();
    for c in it: s.chars()
        invariant
            v@ == it.seq().take(it.index() as int),
            it.seq() == s@,
    {
        v.push(c);
    }
    v
}

/// Appends a character to a string. Wraps `String::push`.
#[verifier::external_body]
fn push_char(s: &mut String, c: char)
    ensures
        final(s)@ == old(s)@.push(c),
{
    s.push(c)
}

/// The string of the characters of `v`, in order.
pub fn from_chars(v: &Vec<char>) -> (s: String)
    ensures
        s@ == v@,
{
    let mut s = String::new();
    let mut i: usize = 0;
    while i < v.len()
        invariant
            i <= v.len(),
            s@ == v@.take(i as int),
        decreases v.len() - i,
    {
        push_char(&mut s, v[i]);
        assert(v@.take(i + 1) == v@.take(i as int).push(v@[i as int]));
        i = i + 1;
    }
    assert(v@.take(v.len() as int) == v@);
    s
}

/// A copy of the characters `v[from..to]`.
pub fn slice_chars(v: &Vec<char>, from: usize, to: usize) -> (r: Vec<char>)
    requires
        from <= to <= v.len(),
    ensures
        r@ == v@.subrange(from as int, to as int),
{
    let mut r: Vec<char> = Vec::new();
    let mut i: usize = from;
    while i < to
        invariant
            from <= i <= to <= v.len(),
            r@ == v@.subrange(from as int, i as int),
        decreases to - i,
    {
        r.push(v[i]);
        i = i + 1;
    }
    r
}

/// Appends the characters of `tail` to `head`.
pub fn append_chars(head: &mut Vec<char>, tail: &Vec<char>)
    ensures
        final(head)@ == old(head)@ + tail@,
{
    let mut i: usize = 0;
    while i < tail.len()
        invariant
            i <= tail.len(),
            head@ == old(head)@ + tail@.take(i as int),
        decreases tail.len() - i,
    {
        head.push(tail[i]);
        i = i + 1;
    }
    assert(tail@.take(tail.len() as int) == tail@);
}

/// Tells whether two character vectors hold the same characters.
pub fn chars_eq(a: &Vec<char>, b: &Vec<char>) -> (r: bool)
    ensures
        r == (a@ == b@),
{
    if a.len() != b.len() {
        return false;
    }
    let mut i: usize = 0;
    while i < a.len()
        invariant
            a.len() == b.len(),
            i <= a.len(),
            a@.take(i as int) == b@.take(i as int),
        decreases a.len() - i,
    {
        if a[i] != b[i] {
            return false;
        }
        assert(a@.take(i + 1) == a@.take(i as int).push(a@[i as int]));
        assert(b@.take(i + 1) == b@.take(i as int).push(b@[i as int]));
        i = i + 1;
    }
    assert(a@.take(a.len() as int) == a@);
    assert(b@.take(b.len() as int) == b@);
    true
}

/// Tells whether two texts hold the same characters.
pub fn same_text(a: &str, b: &str) -> (r: bool)
    ensures
        r == (a@ == b@),
{
    let x = to_chars(a);
    let y = to_chars(b);
    chars_eq(&x, &y)
}

/// `s` without its leading white space.
pub open spec fn trim_start(s: Seq<char>) -> Seq<char>
    decreases s.len(),
{
    if s.len() > 0 && is_space(s[0]) {
        trim_start(s.drop_first())
    } else {
        s
    }
}

/// `s` without its trailing white space.
pub open spec fn trim_end(s: Seq<char>) -> Seq<char>
    decreases s.len(),
{
    if s.len() > 0 && is_space(s.last()) {
        trim_end(s.drop_last())
    } else {
        s
    }
}

/// `s` without leading and trailing white space.
pub open spec fn trim(s: Seq<char>) -> Seq<char> {
    trim_end(trim_start(s))
}

/// Tells whether every character of `s` is white space.
pub open spec fn is_blank(s: Seq<char>) -> bool {
    forall|i: int| 0 <= i < s.len() ==> is_space(#[trigger] s[i])
}

/// Trimming leaves nothing exactly when the text is blank.
pub proof fn lemma_trim_empty_iff_blank(s: Seq<char>)
    ensures
        trim(s).len() == 0 <==> is_blank(s),
{
    lemma_trim_start_shape(s);
    let t = trim_start(s);
    lemma_trim_end_shape(t);
    let k = s.len() - t.len();
    assert(t == s.skip(k));
    if is_blank(s) {
        if t.len() > 0 {
            assert(t[0] == s[k]);
        }
    } else {
        let i = choose|i: int| 0 <= i < s.len() && !is_space(s[i]);
        assert(i >= k);
        assert(t[i - k] == s[i]);
        assert(t.len() > 0);
        let e = trim_end(t);
        if e.len() == 0 {
            assert(is_space(t[i - k]));
        }
    }
}

/// What `trim_start` removes is white space, and what is left starts with none.
pub proof fn lemma_trim_start_shape(s: Seq<char>)
    ensures
        trim_start(s).len() <= s.len(),
        trim_start(s) == s.skip(s.len() - trim_start(s).len()),
        forall|i: int| 0 <= i < s.len() - trim_start(s).len() ==> is_space(#[trigger] s[i]),
        trim_start(s).len() > 0 ==> !is_space(trim_start(s)[0]),
    decreases s.len(),
{
    if s.len() > 0 && is_space(s[0]) {
        let d = s.drop_first();
        lemma_trim_start_shape(d);
        let k = d.len() - trim_start(d).len();
        assert(d.skip(k) == s.skip(k + 1));
        assert forall|i: int| 0 <= i < s.len() - trim_start(s).len() implies is_space(
            #[trigger] s[i],
        ) by {
            if i > 0 {
                assert(s[i] == d[i - 1]);
            }
        }
    } else {
        assert(s.skip(0) == s);
    }
}

/// What `trim_end` removes is white space, and what is left ends with none.
pub proof fn lemma_trim_end_shape(s: Seq<char>)
    ensures
        trim_end(s).len() <= s.len(),
        trim_end(s) == s.take(trim_end(s).len() as int),
        forall|i: int| trim_end(s).len() <= i < s.len() ==> is_space(#[trigger] s[i]),
        trim_end(s).len() > 0 ==> !is_space(trim_end(s).last()),
    decreases s.len(),
{
    if s.len() > 0 && is_space(s.last()) {
        let d = s.drop_last();
        lemma_trim_end_shape(d);
        let k = trim_end(d).len() as int;
        assert(d.take(k) == s.take(k));
        assert forall|i: int| trim_end(s).len() <= i < s.len() implies is_space(
            #[trigger] s[i],
        ) by {
            if i < s.len() - 1 {
                assert(s[i] == d[i]);
            }
        }
    } else {
        assert(s.take(s.len() as int) == s);
    }
}

/// `v` without its leading white space.
pub fn trim_start_chars(v: &Vec<char>) -> (r: Vec<char>)
    ensures
        r@ == trim_start(v@),
{
    let n = v.len();
    let mut a: usize = 0;
    assert(v@.skip(0) == v@);
    while a < n && char_is_space(v[a])
        invariant
            n == v.len(),
            a <= n,
            trim_start(v@) == trim_start(v@.skip(a as int)),
        decreases n - a,
    {
        assert(v@.skip(a as int).drop_first() == v@.skip(a + 1));
        a = a + 1;
    }
    assert(v@.skip(a as int) == v@.subrange(a as int, n as int));
    slice_chars(v, a, n)
}

/// `v` without its trailing white space.
pub fn trim_end_chars(v: &Vec<char>) -> (r: Vec<char>)
    ensures
        r@ == trim_end(v@),
{
    let mut b: usize = v.len();
    assert(v@.take(b as int) == v@);
    while b > 0 && char_is_space(v[b - 1])
        invariant
            b <= v.len(),
            trim_end(v@) == trim_end(v@.take(b as int)),
        decreases b,
    {
        assert(v@.take(b as int).drop_last() == v@.take(b - 1));
        b = b - 1;
    }
    assert(v@.take(b as int) == v@.subrange(0, b as int));
    slice_chars(v, 0, b)
}

/// `v` without leading and trailing white space.
pub fn trim_chars(v: &Vec<char>) -> (r: Vec<char>)
    ensures
        r@ == trim(v@),
{
    let front = trim_start_chars(v);
    trim_end_chars(&front)
}

/// Tells whether `pat` occurs in `s` at index `k`.
pub open spec fn matches_at(s: Seq<char>, pat: Seq<char>, k: int) -> bool {
    0 <= k && k + pat.len() <= s.len() && forall|j: int|
        0 <= j < pat.len() ==> s[k + j] == #[trigger] pat[j]
}

/// The least index at or after `k` where `pat` occurs in `s`, or -1.
pub open spec fn find_from(s: Seq<char>, pat: Seq<char>, k: int) -> int
    decreases s.len() - k,
{
    if k < 0 || k + pat.len() > s.len() {
        -1
    } else if matches_at(s, pat, k) {
        k
    } else {
        find_from(s, pat, k + 1)
    }
}

/// Tells whether `pat` occurs somewhere in `s`.
pub open spec fn contains_sub(s: Seq<char>, pat: Seq<char>) -> bool {
    exists|k: int| matches_at(s, pat, k)
}

/// `find_from` returns the first occurrence at or after `k`, and -1 only when
/// there is none.
pub proof fn lemma_find_from(s: Seq<char>, pat: Seq<char>, k: int)
    requires
        0 <= k,
    ensures
        find_from(s, pat, k) == -1 || (k <= find_from(s, pat, k) && matches_at(
            s,
            pat,
            find_from(s, pat, k),
        )),
        forall|j: int|
            k <= j && (find_from(s, pat, k) == -1 || j < find_from(s, pat, k)) ==> !matches_at(
                s,
                pat,
                j,
            ),
    decreases s.len() - k,
{
    if k + pat.len() > s.len() {
    } else if matches_at(s, pat, k) {
    } else {
        lemma_find_from(s, pat, k + 1);
    }
}

/// Tells whether `pat` occurs in `s` at index `k`.
pub fn occurs_at(s: &Vec<char>, pat: &Vec<char>, k: usize) -> (r: bool)
    ensures
        r == matches_at(s@, pat@, k as int),
{
    if pat.len() > s.len() || k > s.len() - pat.len() {
        return false;
    }
    let mut j: usize = 0;
    while j < pat.len()
        invariant
            k + pat.len() <= s.len(),
            j <= pat.len(),
            forall|m: int| 0 <= m < j ==> s@[k + m] == #[trigger] pat@[m],
        decreases pat.len() - j,
    {
        if s[k + j] != pat[j] {
            return false;
        }
        j = j + 1;
    }
    true
}

/// The first occurrence of `pat` in `s` at or after `from`.
pub fn find_chars(s: &Vec<char>, pat: &Vec<char>, from: usize) -> (r: Option<usize>)
    ensures
        match r {
            Some(i) => i as int == find_from(s@, pat@, from as int),
            None => find_from(s@, pat@, from as int) == -1,
        },
{
    if pat.len() > s.len() || from > s.len() - pat.len() {
        return None;
    }
    let last = s.len() - pat.len();
    let mut i: usize = from;
    while i < last
        invariant
            last + pat.len() == s.len(),
            from <= i <= last,
            find_from(s@, pat@, from as int) == find_from(s@, pat@, i as int),
        decreases last - i,
    {
        if occurs_at(s, pat, i) {
            return Some(i);
        }
        i = i + 1;
    }
    if occurs_at(s, pat, i) {
        Some(i)
    } else {
        assert(find_from(s@, pat@, i + 1) == -1);
        None
    }
}

/// Tells whether `pat` occurs somewhere in `s`.
pub fn contains_chars(s: &Vec<char>, pat: &Vec<char>) -> (r: bool)
    ensures
        r == contains_sub(s@, pat@),
{
    proof {
        lemma_find_from(s@, pat@, 0);
    }
    match find_chars(s, pat, 0) {
        Some(i) => true,
        None => {
            assert forall|k: int| !matches_at(s@, pat@, k) by {}
            false
        },
    }
}

/// The pieces of `s` between the occurrences of a non-empty `pat`, taken from
/// the left without overlap, starting at index `start`.
pub open spec fn split_from(s: Seq<char>, pat: Seq<char>, start: int) -> Seq<Seq<char>>
    decreases s.len() - start,
    when pat.len() > 0 && 0 <= start <= s.len()
    via split_from_decreases
{
    let i = find_from(s, pat, start);
    if i < start {
        seq![s.subrange(start, s.len() as int)]
    } else {
        seq![s.subrange(start, i)] + split_from(s, pat, i + pat.len())
    }
}

#[via_fn]
proof fn split_from_decreases(s: Seq<char>, pat: Seq<char>, start: int) {
    lemma_find_from(s, pat, start);
}

/// The pieces into which `pat` cuts `s`. An empty `pat` cuts before and after
/// every character.
pub open spec fn split(s: Seq<char>, pat: Seq<char>) -> Seq<Seq<char>> {
    if pat.len() == 0 {
        seq![Seq::<char>::empty()] + Seq::new(s.len(), |i: int| seq![s[i]]) + seq![
            Seq::<char>::empty(),
        ]
    } else {
        split_from(s, pat, 0)
    }
}

/// Cutting always leaves at least one piece.
pub proof fn lemma_split_not_empty(s: Seq<char>, pat: Seq<char>)
    ensures
        split(s, pat).len() >= 1,
{
}

/// The views of a vector of character vectors.
pub open spec fn views(v: Seq<Vec<char>>) -> Seq<Seq<char>> {
    Seq::new(v.len(), |i: int| v[i]@)
}

/// The texts of `parts` as strings.
pub fn strings_of(parts: &Vec<Vec<char>>) -> (r: Vec<String>)
    ensures
        r@.len() == parts@.len(),
        forall|i: int| 0 <= i < r@.len() ==> (#[trigger] r@[i])@ == parts@[i]@,
        Seq::new(r@.len(), |i: int| r@[i]@) == views(parts@),
{
    let mut out: Vec<String> = Vec::new();
    let mut i: usize = 0;
    while i < parts.len()
        invariant
            i <= parts.len(),
            out@.len() == i,
            forall|j: int| 0 <= j < i ==> (#[trigger] out@[j])@ == parts@[j]@,
        decreases parts.len() - i,
    {
        out.push(from_chars(&parts[i]));
        i = i + 1;
    }
    assert(Seq::new(out@.len(), |i: int| out@[i]@) == views(parts@));
    out
}

/// The pieces into which `pat` cuts `s`.
pub fn split_chars(s: &Vec<char>, pat: &Vec<char>) -> (r: Vec<Vec<char>>)
    ensures
        views(r@) == split(s@, pat@),
{
    let mut out: Vec<Vec<char>> = Vec::new();
    if pat.len() == 0 {
        out.push(Vec::new());
        let mut i: usize = 0;
        while i < s.len()
            invariant
                i <= s.len(),
                views(out@) == seq![Seq::<char>::empty()] + Seq::new(
                    i as nat,
                    |j: int| seq![s@[j]],
                ),
            decreases s.len() - i,
        {
            let mut one: Vec<char> = Vec::new();
            one.push(s[i]);
            let ghost before = views(out@);
            out.push(one);
            assert(one@ == seq![s@[i as int]]);
            assert(views(out@) == before.push(one@));
            assert(views(out@) == seq![Seq::<char>::empty()] + Seq::new(
                (i + 1) as nat,
                |j: int| seq![s@[j]],
            ));
            i = i + 1;
        }
        let ghost before = views(out@);
        out.push(Vec::new());
        assert(views(out@) == before.push(Seq::<char>::empty()));
        assert(views(out@) == split(s@, pat@));
        return out;
    }
    let mut start: usize = 0;
    loop
        invariant
            pat.len() > 0,
            start <= s.len(),
            views(out@) + split_from(s@, pat@, start as int) == split_from(s@, pat@, 0),
        decreases s.len() - start,
    {
        proof {
            lemma_find_from(s@, pat@, start as int);
        }
        match find_chars(s, pat, start) {
            Some(i) => {
                let piece = slice_chars(s, start, i);
                let ghost before = views(out@);
                out.push(piece);
                assert(views(out@) == before + seq![s@.subrange(start as int, i as int)]);
                start = i + pat.len();
            },
            None => {
                let piece = slice_chars(s, start, s.len());
                let ghost before = views(out@);
                out.push(piece);
                assert(views(out@) == before + seq![s@.subrange(start as int, s@.len() as int)]);
                return out;
            },
        }
    }
}

/// The trimmed pieces that are not empty, in order.
pub open spec fn words(pieces: Seq<Seq<char>>) -> Seq<Seq<char>>
    decreases pieces.len(),
{
    if pieces.len() == 0 {
        Seq::empty()
    } else if trim(pieces.last()).len() == 0 {
        words(pieces.drop_last())
    } else {
        words(pieces.drop_last()).push(trim(pieces.last()))
    }
}

/// `parts` written one after the other with `sep` between neighbours.
pub open spec fn join(parts: Seq<Seq<char>>, sep: Seq<char>) -> Seq<char>
    decreases parts.len(),
{
    if parts.len() == 0 {
        Seq::empty()
    } else if parts.len() == 1 {
        parts[0]
    } else {
        join(parts.drop_last(), sep) + sep + parts.last()
    }
}

/// `parts` written one after the other with `sep` between neighbours.
pub fn join_chars(parts: &Vec<Vec<char>>, sep: &Vec<char>) -> (r: Vec<char>)
    ensures
        r@ == join(views(parts@), sep@),
{
    let mut r: Vec<char> = Vec::new();
    let mut i: usize = 0;
    while i < parts.len()
        invariant
            i <= parts.len(),
            r@ == join(views(parts@).take(i as int), sep@),
        decreases parts.len() - i,
    {
        if i > 0 {
            append_chars(&mut r, sep);
        }
        append_chars(&mut r, &parts[i]);
        proof {
            let next = views(parts@).take(i + 1);
            assert(next.drop_last() == views(parts@).take(i as int));
            assert(next.last() == parts@[i as int]@);
        }
        i = i + 1;
    }
    assert(views(parts@).take(parts.len() as int) == views(parts@));
    r
}

/// The lower-case letter of an upper-case ASCII letter or of the Kelvin sign;
/// any other character unchanged. These are the characters whose lower case
/// is an ASCII letter.
pub open spec fn fold_case(c: char) -> char {
    let n = c as u32;
    if 0x41 <= n <= 0x5A {
        ((n + 0x20) as u8) as char
    } else if n == 0x212A {
        'k'
    } else {
        c
    }
}

/// `fold_case` applied to every character.
pub open spec fn fold(s: Seq<char>) -> Seq<char> {
    Seq::new(s.len(), |i: int| fold_case(s[i]))
}

/// See [`fold_case`].
pub fn fold_case_char(c: char) -> (r: char)
    ensures
        r == fold_case(c),
{
    let n: u32 = c as u32;
    if 0x41 <= n && n <= 0x5A {
        let b: u8 = (n + 0x20) as u8;
        b as char
    } else if n == 0x212A {
        'k'
    } else {
        c
    }
}

/// See [`fold`].
pub fn fold_chars(v: &Vec<char>) -> (r: Vec<char>)
    ensures
        r@ == fold(v@),
{
    let mut r: Vec<char> = Vec::new();
    let mut i: usize = 0;
    while i < v.len()
        invariant
            i <= v.len(),
            r@ == fold(v@.take(i as int)),
        decreases v.len() - i,
    {
        r.push(fold_case_char(v[i]));
        assert(r@ == fold(v@.take(i + 1)));
        i = i + 1;
    }
    assert(v@.take(v.len() as int) == v@);
    r
}

/// `s` with every backslash turned into a forward slash.
pub open spec fn slashed(s: Seq<char>) -> Seq<char> {
    Seq::new(s.len(), |i: int| if s[i] == '\\' { '/' } else { s[i] })
}

/// See [`slashed`].
pub fn slashed_chars(v: &Vec<char>) -> (r: Vec<char>)
    ensures
        r@ == slashed(v@),
{
    let mut r: Vec<char> = Vec::new();
    let mut i: usize = 0;
    while i < v.len()
        invariant
            i <= v.len(),
            r@ == slashed(v@.take(i as int)),
        decreases v.len() - i,
    {
        let c = v[i];
        if c == '\\' {
            r.push('/');
        } else {
            r.push(c);
        }
        assert(r@ == slashed(v@.take(i + 1)));
        i = i + 1;
    }
    assert(v@.take(v.len() as int) == v@);
    r
}

/// `s` without the prefix `prefix`, where it starts with it; else `s`.
pub open spec fn strip_prefix(s: Seq<char>, prefix: Seq<char>) -> Seq<char> {
    if matches_at(s, prefix, 0) {
        s.skip(prefix.len() as int)
    } else {
        s
    }
}

/// See [`strip_prefix`].
pub fn strip_prefix_chars(v: &Vec<char>, prefix: &Vec<char>) -> (r: Vec<char>)
    ensures
        r@ == strip_prefix(v@, prefix@),
{
    if occurs_at(v, prefix, 0) {
        slice_chars(v, prefix.len(), v.len())
    } else {
        slice_chars(v, 0, v.len())
    }
}

/// `s` with each occurrence of `pat` turned into `with`, taken from the left
/// without overlap.
pub open spec fn replaced(s: Seq<char>, pat: Seq<char>, with: Seq<char>) -> Seq<char> {
    join(split(s, pat), with)
}

/// See [`replaced`].
pub fn replace_chars(s: &Vec<char>, pat: &Vec<char>, with: &Vec<char>) -> (r: Vec<char>)
    ensures
        r@ == replaced(s@, pat@, with@),
{
    let pieces = split_chars(s, pat);
    join_chars(&pieces, with)
}

/// Tells whether the characters are those of `text`.
pub fn chars_are(chars: &Vec<char>, text: &str) -> (r: bool)
    ensures
        r == (chars@ == text@),
{
    let other = to_chars(text);
    chars_eq(chars, &other)
}

/// The decimal digits of a number, without leading zeros.
pub open spec fn decimal(n: nat) -> Seq<char>
    decreases n,
{
    if n < 10 {
        seq![((0x30 + n) as u8) as char]
    } else {
        decimal(n / 10).push(((0x30 + n % 10) as u8) as char)
    }
}

/// See [`decimal`].
pub fn decimal_chars(n: u64) -> (r: Vec<char>)
    ensures
        r@ == decimal(n as nat),
    decreases n,
{
    if n < 10 {
        let b: u8 = (0x30 + n) as u8;
        let mut out: Vec<char> = Vec::new();
        out.push(b as char);
        assert(out@ == seq![b as char]);
        out
    } else {
        let mut out = decimal_chars(n / 10);
        let b: u8 = (0x30 + n % 10) as u8;
        out.push(b as char);
        out
    }
}

/// The lower case of a text: what `str::to_lowercase` gives.
pub uninterp spec fn lowercased(s: Seq<char>) -> Seq<char>;

/// The lower case of a text. Wraps `str::to_lowercase`.
#[verifier::external_body]
pub(crate) fn lower_case(s: &str) -> (r: String)
    ensures
        r@ == lowercased(s@),
{
    s.to_lowercase()
}

} // verus!
