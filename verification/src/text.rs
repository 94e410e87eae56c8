//! Text as sequences of characters: searching, trimming, splitting, joining
//! and padding, each stated over `Seq<char>` and computed on `Vec<char>`.

use vstd::prelude::*;

verus! {

/// `String::push` adds one character at the end.
pub assume_specification[ String::push ](s: &mut String, c: char)
    ensures
        final(s)@ == old(s)@.push(c),
;

/// The text of an optional string.
pub open spec fn opt_text(o: Option<String>) -> Option<Seq<char>> {
    match o {
        Some(s) => Some(s@),
        None => None,
    }
}

/// The text of an optional string slice.
pub open spec fn opt_str(o: Option<&str>) -> Option<Seq<char>> {
    match o {
        Some(s) => Some(s@),
        None => None,
    }
}

/// A copy of an optional string.
pub fn copied(o: &Option<String>) -> (r: Option<String>)
    ensures
        r == *o,
{
    match o {
        Some(s) => Some(s.clone()),
        None => None,
    }
}

/// An optional string, borrowed.
pub fn borrowed(o: &Option<String>) -> (r: Option<&str>)
    ensures
        opt_str(r) == opt_text(*o),
{
    match o {
        Some(s) => Some(s.as_str()),
        None => None,
    }
}

/// The characters of `s`.
pub fn chars_of(s: &str) -> (r: Vec<char>)
    ensures
        r@ == s@,
{
    let mut v: Vec<char> = Vec::new();
    for c in it: s.chars()
        invariant
            it.seq() == s@,
            v@ == s@.take(it.index()),
    {
        v.push(c);
    }
    v
}

/// The text made of the characters `v[from..to]`.
pub fn text_between(v: &Vec<char>, from: usize, to: usize) -> (r: String)
    requires
        from <= to <= v@.len(),
    ensures
        r@ == v@.subrange(from as int, to as int),
{
    let mut s = String::new();
    let mut i: usize = from;
    while i < to
        invariant
            from <= i <= to <= v@.len(),
            s@ == v@.subrange(from as int, i as int),
        decreases to - i,
    {
        s.push(v[i]);
        i += 1;
    }
    s
}

/// Whether `a` and `b` are the same text.
pub fn same(a: &str, b: &str) -> (r: bool)
    ensures
        r == (a@ == b@),
{
    a.to_string() == b.to_string()
}

// ---------------------------------------------------------------------------
// Searching
// ---------------------------------------------------------------------------

/// `needle` stands in `hay` at position `i`.
pub open spec fn occurs_at(hay: Seq<char>, needle: Seq<char>, i: int) -> bool {
    &&& 0 <= i
    &&& i + needle.len() <= hay.len()
    &&& hay.subrange(i, i + needle.len()) == needle
}

/// `needle` stands somewhere in `hay`.
pub open spec fn contains(hay: Seq<char>, needle: Seq<char>) -> bool {
    exists|i: int| occurs_at(hay, needle, i)
}

/// The first position at or after `from` where `needle` stands in `hay`.
pub open spec fn index_from(hay: Seq<char>, needle: Seq<char>, from: int) -> Option<int>
    decreases hay.len() - from + 1,
{
    if from > hay.len() {
        None
    } else if occurs_at(hay, needle, from) {
        Some(from)
    } else {
        index_from(hay, needle, from + 1)
    }
}

/// The first position where `needle` stands in `hay`.
pub open spec fn index_of(hay: Seq<char>, needle: Seq<char>) -> Option<int> {
    index_from(hay, needle, 0)
}

/// A position is the first where it is one and no earlier one is.
pub proof fn lemma_index_from(hay: Seq<char>, needle: Seq<char>, from: int, i: int)
    requires
        from <= i,
        occurs_at(hay, needle, i),
        forall|j: int| from <= j < i ==> !occurs_at(hay, needle, j),
    ensures
        index_from(hay, needle, from) == Some(i),
    decreases i - from,
{
    if from < i {
        lemma_index_from(hay, needle, from + 1, i);
    }
}

/// There is no first position where there is none at all.
pub proof fn lemma_index_from_none(hay: Seq<char>, needle: Seq<char>, from: int)
    requires
        forall|j: int| from <= j ==> !occurs_at(hay, needle, j),
    ensures
        index_from(hay, needle, from) is None,
    decreases hay.len() - from + 1,
{
    if from <= hay.len() {
        lemma_index_from_none(hay, needle, from + 1);
    }
}

/// What `index_from` says of the position it gives.
pub proof fn lemma_index_from_shape(hay: Seq<char>, needle: Seq<char>, from: int)
    ensures
        match index_from(hay, needle, from) {
            Some(i) => from <= i && occurs_at(hay, needle, i) && forall|j: int|
                from <= j < i ==> !occurs_at(hay, needle, j),
            None => forall|j: int| from <= j ==> !occurs_at(hay, needle, j),
        },
    decreases hay.len() - from + 1,
{
    if from <= hay.len() && !occurs_at(hay, needle, from) {
        lemma_index_from_shape(hay, needle, from + 1);
    }
}

/// A text stands in another exactly when it has a first position there.
pub proof fn lemma_contains_index(hay: Seq<char>, needle: Seq<char>)
    ensures
        contains(hay, needle) <==> index_of(hay, needle) is Some,
{
    lemma_index_from_shape(hay, needle, 0);
}

/// `s` begins with `prefix`.
pub open spec fn starts_with(s: Seq<char>, prefix: Seq<char>) -> bool {
    occurs_at(s, prefix, 0)
}

/// `s` ends with the character `c`.
pub open spec fn ends_in(s: Seq<char>, c: char) -> bool {
    s.len() > 0 && s.last() == c
}

/// Whether `needle` stands in `hay` at `i`.
pub fn at(hay: &Vec<char>, needle: &Vec<char>, i: usize) -> (r: bool)
    ensures
        r == occurs_at(hay@, needle@, i as int),
{
    if i > hay.len() || needle.len() > hay.len() - i {
        return false;
    }
    let mut k: usize = 0;
    while k < needle.len()
        invariant
            k <= needle@.len(),
            i + needle@.len() <= hay.len(),
            forall|j: int| 0 <= j < k ==> hay@[i + j] == needle@[j],
        decreases needle@.len() - k,
    {
        if hay[i + k] != needle[k] {
            assert(hay@.subrange(i as int, i + needle@.len())[k as int] != needle@[k as int]);
            return false;
        }
        k += 1;
    }
    assert(hay@.subrange(i as int, i + needle@.len()) =~= needle@);
    true
}

/// The first position at or after `from` where `needle` stands in `hay`.
pub fn find_from(hay: &Vec<char>, needle: &Vec<char>, from: usize) -> (r: Option<usize>)
    ensures
        (match r {
            Some(i) => Some(i as int),
            None => None,
        }) == index_from(hay@, needle@, from as int),
        r matches Some(i) ==> i + needle@.len() <= hay@.len(),
{
    let mut i: usize = from;
    while i < hay.len()
        invariant
            from <= i,
            forall|j: int| from <= j < i ==> !occurs_at(hay@, needle@, j),
        decreases hay@.len() - i,
    {
        if at(hay, needle, i) {
            proof {
                lemma_index_from(hay@, needle@, from as int, i as int);
            }
            return Some(i);
        }
        i += 1;
    }
    if at(hay, needle, i) {
        proof {
            lemma_index_from(hay@, needle@, from as int, i as int);
        }
        return Some(i);
    }
    proof {
        lemma_index_from_none(hay@, needle@, from as int);
    }
    None
}

/// Whether `needle` stands somewhere in `hay`.
pub fn has(hay: &str, needle: &str) -> (r: bool)
    ensures
        r == contains(hay@, needle@),
{
    let h = chars_of(hay);
    let n = chars_of(needle);
    proof {
        lemma_contains_index(hay@, needle@);
    }
    find_from(&h, &n, 0).is_some()
}

/// Whether `s` begins with `prefix`.
pub fn begins(s: &str, prefix: &str) -> (r: bool)
    ensures
        r == starts_with(s@, prefix@),
{
    at(&chars_of(s), &chars_of(prefix), 0)
}

/// Whether `s` ends with `c`.
pub fn ends(s: &str, c: char) -> (r: bool)
    ensures
        r == ends_in(s@, c),
{
    let v = chars_of(s);
    v.len() > 0 && v[v.len() - 1] == c
}

/// Whether the character `c` stands in `s`.
pub fn has_char(s: &str, c: char) -> (r: bool)
    ensures
        r == s@.contains(c),
{
    let v = chars_of(s);
    let mut i: usize = 0;
    while i < v.len()
        invariant
            i <= v@.len(),
            v@ == s@,
            forall|j: int| 0 <= j < i ==> v@[j] != c,
        decreases v@.len() - i,
    {
        if v[i] == c {
            assert(s@[i as int] == c);
            return true;
        }
        i += 1;
    }
    false
}

// ---------------------------------------------------------------------------
// Trimming
// ---------------------------------------------------------------------------

/// The Unicode `White_Space` characters.
pub open spec fn is_white_space(c: char) -> bool {
    let u = c as u32;
    ||| 0x9 <= u <= 0xd
    ||| u == 0x20
    ||| u == 0x85
    ||| u == 0xa0
    ||| u == 0x1680
    ||| 0x2000 <= u <= 0x200a
    ||| u == 0x2028
    ||| u == 0x2029
    ||| u == 0x202f
    ||| u == 0x205f
    ||| u == 0x3000
}

/// `s` without its longest front part of characters in `p`.
pub open spec fn trim_front(s: Seq<char>, p: spec_fn(char) -> bool) -> Seq<char>
    decreases s.len(),
{
    if s.len() > 0 && p(s[0]) {
        trim_front(s.drop_first(), p)
    } else {
        s
    }
}

/// `s` without its longest back part of characters in `p`.
pub open spec fn trim_back(s: Seq<char>, p: spec_fn(char) -> bool) -> Seq<char>
    decreases s.len(),
{
    if s.len() > 0 && p(s.last()) {
        trim_back(s.drop_last(), p)
    } else {
        s
    }
}

/// `s` without white space at either end.
pub open spec fn trim(s: Seq<char>) -> Seq<char> {
    trim_back(trim_front(s, |c: char| is_white_space(c)), |c: char| is_white_space(c))
}

/// `s` is empty or white space throughout.
pub open spec fn is_blank(s: Seq<char>) -> bool {
    forall|i: int| 0 <= i < s.len() ==> is_white_space(#[trigger] s[i])
}

/// Trimming the front stops at the first character outside `p`.
pub proof fn lemma_trim_front(s: Seq<char>, p: spec_fn(char) -> bool, i: int)
    requires
        0 <= i <= s.len(),
        forall|j: int| 0 <= j < i ==> p(#[trigger] s[j]),
        i < s.len() ==> !p(s[i]),
    ensures
        trim_front(s, p) == s.skip(i),
    decreases i,
{
    if i > 0 {
        let t = s.drop_first();
        assert forall|j: int| 0 <= j < i - 1 implies p(#[trigger] t[j]) by {
            assert(t[j] == s[j + 1]);
        }
        if i < s.len() {
            assert(t[i - 1] == s[i]);
        }
        lemma_trim_front(t, p, i - 1);
        assert(t.skip(i - 1) =~= s.skip(i));
    } else {
        assert(s.skip(0) =~= s);
    }
}

/// Trimming the back stops at the last character outside `p`.
pub proof fn lemma_trim_back(s: Seq<char>, p: spec_fn(char) -> bool, i: int)
    requires
        0 <= i <= s.len(),
        forall|j: int| i <= j < s.len() ==> p(#[trigger] s[j]),
        i > 0 ==> !p(s[i - 1]),
    ensures
        trim_back(s, p) == s.take(i),
    decreases s.len() - i,
{
    if i < s.len() {
        let t = s.drop_last();
        assert forall|j: int| i <= j < t.len() implies p(#[trigger] t[j]) by {
            assert(t[j] == s[j]);
        }
        lemma_trim_back(t, p, i);
        assert(t.take(i) =~= s.take(i));
    } else {
        assert(s.take(i) =~= s);
    }
}

/// Trimming the front leaves a back part of the text that does not begin in `p`.
pub proof fn lemma_trim_front_shape(s: Seq<char>, p: spec_fn(char) -> bool) -> (i: int)
    ensures
        0 <= i <= s.len(),
        trim_front(s, p) == s.skip(i),
        forall|j: int| 0 <= j < i ==> p(#[trigger] s[j]),
        i < s.len() ==> !p(s[i]),
    decreases s.len(),
{
    if s.len() > 0 && p(s[0]) {
        let t = s.drop_first();
        let k = lemma_trim_front_shape(t, p);
        assert(t.skip(k) =~= s.skip(k + 1));
        assert forall|j: int| 0 <= j < k + 1 implies p(#[trigger] s[j]) by {
            if j > 0 {
                assert(t[j - 1] == s[j]);
            }
        }
        if k + 1 < s.len() {
            assert(t[k] == s[k + 1]);
        }
        k + 1
    } else {
        assert(s.skip(0) =~= s);
        0
    }
}

/// Trimming the back leaves a front part of the text that does not end in `p`.
pub proof fn lemma_trim_back_shape(s: Seq<char>, p: spec_fn(char) -> bool) -> (i: int)
    ensures
        0 <= i <= s.len(),
        trim_back(s, p) == s.take(i),
        forall|j: int| i <= j < s.len() ==> p(#[trigger] s[j]),
        i > 0 ==> !p(s[i - 1]),
    decreases s.len(),
{
    if s.len() > 0 && p(s.last()) {
        let t = s.drop_last();
        let k = lemma_trim_back_shape(t, p);
        assert(t.take(k) =~= s.take(k));
        assert forall|j: int| k <= j < s.len() implies p(#[trigger] s[j]) by {
            if j < t.len() {
                assert(t[j] == s[j]);
            }
        }
        if k > 0 {
            assert(t[k - 1] == s[k - 1]);
        }
        k
    } else {
        assert(s.take(s.len() as int) =~= s);
        s.len() as int
    }
}

/// Trimming is idempotent: a trimmed text has no white space at its ends.
pub proof fn law_trim_idempotent(s: Seq<char>)
    ensures
        trim(trim(s)) == trim(s),
{
    let p = |c: char| is_white_space(c);
    let f = trim_front(s, p);
    let i = lemma_trim_front_shape(s, p);
    let k = lemma_trim_back_shape(f, p);
    let t = trim(s);
    assert(t == f.take(k));
    if t.len() > 0 {
        assert(t[0] == f[0] && f[0] == s[i]);
        assert(t.last() == f[k - 1]);
    }
    lemma_trim_front(t, p, 0);
    assert(t.skip(0) =~= t);
    lemma_trim_back(t, p, t.len() as int);
    assert(t.take(t.len() as int) =~= t);
}

/// A text is blank exactly when nothing is left of it once it is trimmed.
pub proof fn law_blank_is_trimmed_away(s: Seq<char>)
    ensures
        is_blank(s) <==> trim(s).len() == 0,
{
    let p = |c: char| is_white_space(c);
    let i = lemma_trim_front_shape(s, p);
    let f = trim_front(s, p);
    let k = lemma_trim_back_shape(f, p);
    if trim(s).len() == 0 {
        assert(k == 0);
        assert forall|j: int| 0 <= j < s.len() implies is_white_space(#[trigger] s[j]) by {
            if j < i {
                assert(p(s[j]));
            } else {
                assert(f[j - i] == s[j]);
                assert(p(f[j - i]));
            }
        }
    } else if is_blank(s) {
        assert(i < s.len());
        assert(!p(s[i]));
    }
}

/// Whether `c` is a Unicode `White_Space` character.
pub fn white_space(c: char) -> (r: bool)
    ensures
        r == is_white_space(c),
{
    let u: u32 = c as u32;
    (0x9 <= u && u <= 0xd) || u == 0x20 || u == 0x85 || u == 0xa0 || u == 0x1680 || (0x2000 <= u
        && u <= 0x200a) || u == 0x2028 || u == 0x2029 || u == 0x202f || u == 0x205f || u == 0x3000
}

/// `s` without white space at either end.
pub fn trimmed(s: &str) -> (r: String)
    ensures
        r@ == trim(s@),
{
    let v = chars_of(s);
    let ghost p = |c: char| is_white_space(c);
    let mut i: usize = 0;
    while i < v.len() && white_space(v[i])
        invariant
            i <= v@.len(),
            forall|j: int| 0 <= j < i ==> is_white_space(#[trigger] v@[j]),
        decreases v@.len() - i,
    {
        i += 1;
    }
    let mut k: usize = v.len();
    while k > i && white_space(v[k - 1])
        invariant
            i <= k <= v@.len(),
            forall|j: int| k <= j < v@.len() ==> is_white_space(#[trigger] v@[j]),
        decreases k,
    {
        k -= 1;
    }
    proof {
        lemma_trim_front(s@, p, i as int);
        let f = s@.skip(i as int);
        assert forall|j: int| k - i <= j < f.len() implies p(#[trigger] f[j]) by {
            assert(f[j] == s@[j + i]);
        }
        if k > i {
            assert(f[k - i - 1] == s@[k - 1]);
        }
        lemma_trim_back(f, p, k - i);
        assert(f.take(k - i) =~= s@.subrange(i as int, k as int));
    }
    text_between(&v, i, k)
}

/// Whether `s` is empty or white space throughout.
pub fn blank(s: &str) -> (r: bool)
    ensures
        r == is_blank(s@),
{
    let v = chars_of(s);
    let mut i: usize = 0;
    while i < v.len()
        invariant
            i <= v@.len(),
            v@ == s@,
            forall|j: int| 0 <= j < i ==> is_white_space(#[trigger] v@[j]),
        decreases v@.len() - i,
    {
        if !white_space(v[i]) {
            assert(!is_white_space(s@[i as int]));
            return false;
        }
        i += 1;
    }
    true
}

/// `s` without the characters `c` at its end.
pub fn without_trailing(s: &str, c: char) -> (r: String)
    ensures
        r@ == trim_back(s@, |x: char| x == c),
{
    let v = chars_of(s);
    let mut k: usize = v.len();
    while k > 0 && v[k - 1] == c
        invariant
            k <= v@.len(),
            forall|j: int| k <= j < v@.len() ==> #[trigger] v@[j] == c,
        decreases k,
    {
        k -= 1;
    }
    proof {
        lemma_trim_back(s@, |x: char| x == c, k as int);
        assert(s@.take(k as int) =~= s@.subrange(0, k as int));
    }
    text_between(&v, 0, k)
}

/// `s` without the characters `c` at its front.
pub fn without_leading(s: &str, c: char) -> (r: String)
    ensures
        r@ == trim_front(s@, |x: char| x == c),
{
    let v = chars_of(s);
    let mut i: usize = 0;
    while i < v.len() && v[i] == c
        invariant
            i <= v@.len(),
            forall|j: int| 0 <= j < i ==> #[trigger] v@[j] == c,
        decreases v@.len() - i,
    {
        i += 1;
    }
    proof {
        lemma_trim_front(s@, |x: char| x == c, i as int);
        assert(s@.skip(i as int) =~= s@.subrange(i as int, s@.len() as int));
    }
    text_between(&v, i, v.len())
}

/// `s` with every copy of `prefix` taken off its front.
pub open spec fn strip_repeated(s: Seq<char>, prefix: Seq<char>) -> Seq<char>
    decreases s.len(),
{
    if prefix.len() > 0 && starts_with(s, prefix) {
        strip_repeated(s.skip(prefix.len() as int), prefix)
    } else {
        s
    }
}

/// `s` with every copy of `prefix` taken off its front.
pub fn stripped(s: &str, prefix: &str) -> (r: String)
    ensures
        r@ == strip_repeated(s@, prefix@),
{
    let v = chars_of(s);
    let p = chars_of(prefix);
    if p.len() == 0 {
        return s.to_string();
    }
    let mut i: usize = 0;
    assert(s@.skip(0) =~= s@);
    while at(&v, &p, i)
        invariant
            v@ == s@,
            p@ == prefix@,
            p@.len() > 0,
            i <= v.len(),
            strip_repeated(s@.skip(i as int), prefix@) == strip_repeated(s@, prefix@),
        decreases v@.len() - i,
    {
        proof {
            lemma_occurs_skip(s@, prefix@, i as int);
            assert(s@.skip(i as int).skip(prefix@.len() as int) =~= s@.skip(i + prefix@.len()));
        }
        i += p.len();
    }
    proof {
        lemma_occurs_skip(s@, prefix@, i as int);
        assert(s@.skip(i as int) =~= s@.subrange(i as int, s@.len() as int));
    }
    text_between(&v, i, v.len())
}

/// Standing at `i` is standing at the front of what is left from `i` on.
pub proof fn lemma_occurs_skip(s: Seq<char>, needle: Seq<char>, i: int)
    requires
        0 <= i <= s.len(),
    ensures
        occurs_at(s, needle, i) <==> starts_with(s.skip(i), needle),
{
    if i + needle.len() <= s.len() {
        assert(s.skip(i).subrange(0, needle.len() as int) =~= s.subrange(i, i + needle.len()));
    }
}

// ---------------------------------------------------------------------------
// Splitting and joining
// ---------------------------------------------------------------------------

/// The texts of a list of strings.
pub open spec fn texts(v: Seq<String>) -> Seq<Seq<char>> {
    v.map_values(|s: String| s@)
}

/// How many characters stand before the first `c` in `s`, or all of them.
pub open spec fn upto(s: Seq<char>, c: char) -> int
    decreases s.len(),
{
    if s.len() == 0 || s[0] == c {
        0
    } else {
        1 + upto(s.drop_first(), c)
    }
}

/// The pieces of `s` between the characters `c`; always at least one.
pub open spec fn split(s: Seq<char>, c: char) -> Seq<Seq<char>>
    decreases s.len(),
{
    let e = upto(s, c);
    if 0 <= e < s.len() {
        seq![s.take(e)] + split(s.skip(e + 1), c)
    } else {
        seq![s]
    }
}

/// A terminated line without the carriage return that may stand at its end.
pub open spec fn without_cr(s: Seq<char>) -> Seq<char> {
    if ends_in(s, '\r') {
        s.drop_last()
    } else {
        s
    }
}

/// The lines of `s`: each ends with a line feed, or a carriage return and a
/// line feed; the last may be unterminated, and nothing follows a final line end.
pub open spec fn lines(s: Seq<char>) -> Seq<Seq<char>>
    decreases s.len(),
{
    let e = upto(s, '\n');
    if s.len() == 0 {
        seq![]
    } else if 0 <= e < s.len() {
        seq![without_cr(s.take(e))] + lines(s.skip(e + 1))
    } else {
        seq![s]
    }
}

/// The texts of `list` with `sep` between each two neighbours.
pub open spec fn join(list: Seq<Seq<char>>, sep: Seq<char>) -> Seq<char>
    decreases list.len(),
{
    if list.len() == 0 {
        seq![]
    } else if list.len() == 1 {
        list[0]
    } else {
        join(list.drop_last(), sep) + sep + list.last()
    }
}

/// `upto` is the position of the first `c`, or the length where there is none.
pub proof fn lemma_upto(s: Seq<char>, c: char, i: int)
    requires
        0 <= i <= s.len(),
        forall|j: int| 0 <= j < i ==> s[j] != c,
        i < s.len() ==> s[i] == c,
    ensures
        upto(s, c) == i,
    decreases i,
{
    if i > 0 {
        let t = s.drop_first();
        assert forall|j: int| 0 <= j < i - 1 implies t[j] != c by {
            assert(t[j] == s[j + 1]);
        }
        if i < s.len() {
            assert(t[i - 1] == s[i]);
        }
        lemma_upto(t, c, i - 1);
    }
}

/// What `upto` says of the characters it counts.
pub proof fn lemma_upto_shape(s: Seq<char>, c: char)
    ensures
        0 <= upto(s, c) <= s.len(),
        forall|j: int| 0 <= j < upto(s, c) ==> s[j] != c,
        upto(s, c) < s.len() ==> s[upto(s, c)] == c,
    decreases s.len(),
{
    if s.len() > 0 && s[0] != c {
        let t = s.drop_first();
        lemma_upto_shape(t, c);
        assert forall|j: int| 0 <= j < upto(s, c) implies s[j] != c by {
            if j > 0 {
                assert(t[j - 1] == s[j]);
            }
        }
    }
}

/// The first position at or after `from` that holds `c`, or the length of `v`.
fn next_char(v: &Vec<char>, from: usize, c: char) -> (r: usize)
    requires
        from <= v@.len(),
    ensures
        from <= r <= v@.len(),
        r - from == upto(v@.skip(from as int), c),
{
    let mut i: usize = from;
    while i < v.len() && v[i] != c
        invariant
            from <= i <= v@.len(),
            forall|j: int| from <= j < i ==> v@[j] != c,
        decreases v@.len() - i,
    {
        i += 1;
    }
    proof {
        let t = v@.skip(from as int);
        assert forall|j: int| 0 <= j < i - from implies t[j] != c by {
            assert(t[j] == v@[from + j]);
        }
        if i < v@.len() {
            assert(t[i - from] == v@[i as int]);
        }
        lemma_upto(t, c, i - from);
    }
    i
}

/// The pieces of `s` between the characters `c`.
pub fn pieces_of(s: &str, c: char) -> (r: Vec<String>)
    ensures
        texts(r@) == split(s@, c),
        r@.len() > 0,
{
    let v = chars_of(s);
    let mut out: Vec<String> = Vec::new();
    let mut pos: usize = 0;
    assert(s@.skip(0) =~= s@);
    assert(texts(out@) =~= seq![]);
    loop
        invariant
            v@ == s@,
            pos <= v@.len(),
            texts(out@) + split(s@.skip(pos as int), c) == split(s@, c),
        decreases v@.len() - pos,
    {
        let e = next_char(&v, pos, c);
        let ghost rest = s@.skip(pos as int);
        let piece = text_between(&v, pos, e);
        assert(piece@ =~= rest.take(e - pos));
        let ghost before = texts(out@);
        out.push(piece);
        assert(texts(out@) =~= before.push(piece@));
        if e < v.len() {
            proof {
                assert(rest.skip(e - pos + 1) =~= s@.skip(e + 1));
                let tail = split(s@.skip(e + 1), c);
                assert(before + (seq![piece@] + tail) =~= before.push(piece@) + tail);
            }
            pos = e + 1;
        } else {
            proof {
                assert(rest.take(e - pos) =~= rest);
                assert(before + seq![rest] =~= before.push(rest));
            }
            return out;
        }
    }
}

/// The lines of `s`.
pub fn lines_of(s: &str) -> (r: Vec<String>)
    ensures
        texts(r@) == lines(s@),
{
    let v = chars_of(s);
    let mut out: Vec<String> = Vec::new();
    let mut pos: usize = 0;
    assert(s@.skip(0) =~= s@);
    assert(texts(out@) =~= seq![]);
    while pos < v.len()
        invariant
            v@ == s@,
            pos <= v@.len(),
            texts(out@) + lines(s@.skip(pos as int)) == lines(s@),
        decreases v@.len() - pos,
    {
        let e = next_char(&v, pos, '\n');
        let ghost rest = s@.skip(pos as int);
        let ghost before = texts(out@);
        if e < v.len() {
            let end: usize = if e > pos && v[e - 1] == '\r' {
                e - 1
            } else {
                e
            };
            let line = text_between(&v, pos, end);
            proof {
                let raw = rest.take(e - pos);
                if e > pos {
                    assert(raw.last() == s@[e - 1]);
                }
                assert(line@ =~= without_cr(raw));
                assert(rest.skip(e - pos + 1) =~= s@.skip(e + 1));
                let tail = lines(s@.skip(e + 1));
                assert(before + (seq![line@] + tail) =~= before.push(line@) + tail);
            }
            out.push(line);
            assert(texts(out@) =~= before.push(line@));
            pos = e + 1;
        } else {
            let line = text_between(&v, pos, e);
            proof {
                assert(line@ =~= rest);
                assert(s@.skip(e as int) =~= seq![]);
                assert(before + seq![rest] =~= before.push(rest) + seq![]);
            }
            out.push(line);
            assert(texts(out@) =~= before.push(line@));
            pos = e;
        }
    }
    assert(s@.skip(pos as int) =~= seq![]);
    assert(texts(out@) + seq![] =~= texts(out@));
    out
}

/// The texts of `list` with `sep` between each two neighbours.
pub fn joined(list: &Vec<String>, sep: &str) -> (r: String)
    ensures
        r@ == join(texts(list@), sep@),
{
    let mut out = String::new();
    let mut i: usize = 0;
    let ghost all = texts(list@);
    assert(all.take(0) =~= seq![]);
    while i < list.len()
        invariant
            i <= list@.len(),
            all == texts(list@),
            out@ == join(all.take(i as int), sep@),
        decreases list@.len() - i,
    {
        let ghost part = all.take(i + 1);
        assert(part.drop_last() =~= all.take(i as int));
        assert(part.last() == list@[i as int]@);
        if i > 0 {
            out.append(sep);
        } else {
            assert(out@ =~= seq![]);
        }
        out.append(list[i].as_str());
        if i == 0 {
            assert(out@ =~= part[0]);
        }
        i += 1;
    }
    assert(all.take(i as int) =~= all);
    out
}

/// Joining can be unrolled from the front as well.
pub proof fn lemma_join_front(x: Seq<char>, rest: Seq<Seq<char>>, sep: Seq<char>)
    requires
        rest.len() > 0,
    ensures
        join(seq![x] + rest, sep) == x + sep + join(rest, sep),
    decreases rest.len(),
{
    let all = seq![x] + rest;
    assert(all.last() == rest.last());
    if rest.len() == 1 {
        assert(all.drop_last() =~= seq![x]);
        assert(join(seq![x], sep) == x);
        assert(join(rest, sep) == rest.last());
    } else {
        assert(all.drop_last() =~= seq![x] + rest.drop_last());
        lemma_join_front(x, rest.drop_last(), sep);
        assert(x + sep + join(rest.drop_last(), sep) + sep + rest.last() =~= x + sep + (join(
            rest.drop_last(),
            sep,
        ) + sep + rest.last()));
    }
}

/// A piece that `c` ends comes first, and the rest follows.
proof fn lemma_first_piece(piece: Seq<char>, rest: Seq<char>, c: char)
    requires
        !piece.contains(c),
    ensures
        split(piece + seq![c] + rest, c) == seq![piece] + split(rest, c),
{
    let s = piece + seq![c] + rest;
    assert forall|j: int| 0 <= j < piece.len() implies s[j] != c by {
        assert(s[j] == piece[j]);
        assert(piece.contains(piece[j]));
    }
    assert(s[piece.len() as int] == c);
    lemma_upto(s, c, piece.len() as int);
    assert(s.take(piece.len() as int) =~= piece);
    assert(s.skip((piece.len() + 1) as int) =~= rest);
}

/// A text without `c` is a single piece.
pub proof fn lemma_single_piece(piece: Seq<char>, c: char)
    requires
        !piece.contains(c),
    ensures
        split(piece, c) == seq![piece],
{
    assert forall|j: int| 0 <= j < piece.len() implies piece[j] != c by {
        assert(piece.contains(piece[j]));
    }
    lemma_upto(piece, c, piece.len() as int);
}

/// Pieces that are joined by `c` are found again by splitting there, if none of them
/// holds `c`.
pub proof fn law_split_undoes_join(list: Seq<Seq<char>>, c: char)
    requires
        list.len() > 0,
        forall|i: int| 0 <= i < list.len() ==> !(#[trigger] list[i]).contains(c),
    ensures
        split(join(list, seq![c]), c) == list,
    decreases list.len(),
{
    let x = list[0];
    if list.len() == 1 {
        lemma_single_piece(x, c);
        assert(seq![x] =~= list);
    } else {
        let rest = list.drop_first();
        assert(list =~= seq![x] + rest);
        assert forall|i: int| 0 <= i < rest.len() implies !(#[trigger] rest[i]).contains(c) by {
            assert(rest[i] == list[i + 1]);
        }
        lemma_join_front(x, rest, seq![c]);
        law_split_undoes_join(rest, c);
        lemma_first_piece(x, join(rest, seq![c]), c);
    }
}

/// The pieces of a text that was split at `c` hold no `c`, and joined by it they are
/// the text again.
pub proof fn law_join_undoes_split(s: Seq<char>, c: char)
    ensures
        split(s, c).len() > 0,
        forall|i: int| 0 <= i < split(s, c).len() ==> !(#[trigger] split(s, c)[i]).contains(c),
        join(split(s, c), seq![c]) == s,
    decreases s.len(),
{
    let e = upto(s, c);
    lemma_upto_shape(s, c);
    if e < s.len() {
        let x = s.take(e);
        let rest = s.skip(e + 1);
        law_join_undoes_split(rest, c);
        lemma_join_front(x, split(rest, c), seq![c]);
        assert(split(s, c) == seq![x] + split(rest, c));
        assert(x + seq![c] + rest =~= s);
        assert forall|i: int| 0 <= i < split(s, c).len() implies !(#[trigger] split(
            s,
            c,
        )[i]).contains(c) by {
            if i > 0 {
                assert(split(s, c)[i] == split(rest, c)[i - 1]);
            }
        }
    } else {
        assert(split(s, c) == seq![s]);
    }
}

/// A line that a line feed ends comes first, and the rest follows.
pub proof fn lemma_first_line(line: Seq<char>, rest: Seq<char>)
    requires
        !line.contains('\n'),
    ensures
        lines(line + "\n"@ + rest) == seq![without_cr(line)] + lines(rest),
        lines(line.push('\n') + rest) == seq![without_cr(line)] + lines(rest),
{
    reveal_strlit("\n");
    assert("\n"@ =~= seq!['\n']);
    let s = line + "\n"@ + rest;
    assert(line.push('\n') + rest =~= s);
    assert forall|j: int| 0 <= j < line.len() implies s[j] != '\n' by {
        assert(s[j] == line[j]);
        assert(line.contains(line[j]));
    }
    assert(s[line.len() as int] == '\n');
    lemma_upto(s, '\n', line.len() as int);
    assert(s.take(line.len() as int) =~= line);
    assert(s.skip((line.len() + 1) as int) =~= rest);
}

/// A text fit to be a line: it holds no line feed and no carriage return ends it.
pub open spec fn is_line(s: Seq<char>) -> bool {
    !s.contains('\n') && !ends_in(s, '\r')
}

/// Lines that are written out one below the other are read back as they were.
pub proof fn law_lines_read_back(list: Seq<Seq<char>>)
    requires
        list.len() > 0,
        forall|i: int| 0 <= i < list.len() ==> is_line(#[trigger] list[i]),
    ensures
        lines(join(list, "\n"@) + "\n"@) == list,
    decreases list.len(),
{
    let x = list[0];
    assert(is_line(x));
    if list.len() == 1 {
        lemma_first_line(x, seq![]);
        assert(x + "\n"@ + seq![] =~= join(list, "\n"@) + "\n"@);
        assert(seq![x] + lines(seq![]) =~= list);
    } else {
        let rest = list.drop_first();
        assert(list =~= seq![x] + rest);
        lemma_join_front(x, rest, "\n"@);
        assert forall|i: int| 0 <= i < rest.len() implies is_line(#[trigger] rest[i]) by {
            assert(rest[i] == list[i + 1]);
        }
        law_lines_read_back(rest);
        let tail = join(rest, "\n"@) + "\n"@;
        lemma_first_line(x, tail);
        assert(x + "\n"@ + tail =~= join(list, "\n"@) + "\n"@);
    }
}

/// No line of a text holds a line feed.
pub proof fn lemma_lines_hold_no_feed(s: Seq<char>)
    ensures
        forall|i: int| 0 <= i < lines(s).len() ==> !(#[trigger] lines(s)[i]).contains('\n'),
    decreases s.len(),
{
    let e = upto(s, '\n');
    lemma_upto_shape(s, '\n');
    if s.len() > 0 && e < s.len() {
        let rest = s.skip(e + 1);
        lemma_lines_hold_no_feed(rest);
        assert forall|i: int| 0 <= i < lines(s).len() implies !(#[trigger] lines(s)[i]).contains(
            '\n',
        ) by {
            if i == 0 {
                assert(lines(s)[0] == without_cr(s.take(e)));
            } else {
                assert(lines(s)[i] == lines(rest)[i - 1]);
            }
        }
    }
}

/// `s` with a line feed after it, where its last line is not terminated.
pub open spec fn terminated(s: Seq<char>) -> Seq<char> {
    if s.len() > 0 && !ends_in(s, '\n') {
        s.push('\n')
    } else {
        s
    }
}

/// `s` with a line feed after it, where its last line is not terminated.
pub fn terminate(s: &str) -> (r: String)
    ensures
        r@ == terminated(s@),
{
    let mut t = s.to_string();
    if !s.is_empty() && !ends(s, '\n') {
        t.push('\n');
    }
    t
}

/// What follows a line end leaves the lines before it as they are.
pub proof fn lemma_lines_append(a: Seq<char>, b: Seq<char>)
    requires
        a.len() == 0 || ends_in(a, '\n'),
    ensures
        lines(a + b) == lines(a) + lines(b),
    decreases a.len(),
{
    if a.len() == 0 {
        assert(a + b =~= b);
        assert(lines(a) + lines(b) =~= lines(b));
    } else {
        let e = upto(a, '\n');
        lemma_upto_shape(a, '\n');
        assert(a[a.len() - 1] == '\n');
        let line = a.take(e);
        let rest = a.skip(e + 1);
        lemma_lines_append(rest, b);
        lemma_first_line(line, rest);
        lemma_first_line(line, rest + b);
        assert(line.push('\n') + rest =~= a);
        assert(line.push('\n') + (rest + b) =~= a + b);
        assert(lines(a + b) =~= lines(a) + lines(b));
    }
}

// ---------------------------------------------------------------------------
// Numbers, padding and letter case
// ---------------------------------------------------------------------------

/// The decimal digits of `n`.
pub open spec fn decimal(n: nat) -> Seq<char>
    decreases n,
{
    let digit = (48 + n % 10) as char;
    if n < 10 {
        seq![digit]
    } else {
        decimal(n / 10).push(digit)
    }
}

/// The decimal digits of `n`, after a minus sign where it is negative.
pub open spec fn signed_decimal(n: int) -> Seq<char> {
    if n < 0 {
        seq!['-'] + decimal((-n) as nat)
    } else {
        decimal(n as nat)
    }
}

/// The decimal digits of `n`.
pub fn decimal_of(n: u64) -> (r: String)
    ensures
        r@ == decimal(n as nat),
    decreases n,
{
    let mut s = if n < 10 {
        String::new()
    } else {
        decimal_of(n / 10)
    };
    let digit: u8 = 48 + (n % 10) as u8;
    s.push(digit as char);
    assert(n < 10 ==> s@ =~= seq![digit as char]);
    s
}

/// The decimal digits of `n`, after a minus sign where it is negative.
pub fn signed_decimal_of(n: i32) -> (r: String)
    ensures
        r@ == signed_decimal(n as int),
{
    if n < 0 {
        let mut s = String::new();
        s.push('-');
        let m: i64 = -(n as i64);
        let d = decimal_of(m as u64);
        s.append(d.as_str());
        s
    } else {
        decimal_of(n as u64)
    }
}

/// `n` spaces.
pub open spec fn spaces(n: nat) -> Seq<char> {
    Seq::new(n, |i: int| ' ')
}

/// `s` followed by as many spaces as bring it to `width` characters.
pub open spec fn pad_right(s: Seq<char>, width: nat) -> Seq<char> {
    if s.len() >= width {
        s
    } else {
        s + spaces((width - s.len()) as nat)
    }
}

/// `s` followed by as many spaces as bring it to `width` characters.
pub fn padded(s: &str, width: usize) -> (r: String)
    ensures
        r@ == pad_right(s@, width as nat),
{
    let mut n: usize = chars_of(s).len();
    let mut out = s.to_string();
    let ghost start = n;
    assert(out@ =~= s@ + spaces(0));
    while n < width
        invariant
            start == s@.len(),
            start <= n,
            n <= width || n == start,
            out@ == s@ + spaces((n - start) as nat),
        decreases width - n,
    {
        out.push(' ');
        n += 1;
        assert(out@ =~= s@ + spaces((n - start) as nat));
    }
    assert(s@ + spaces(0) =~= s@);
    out
}

/// `c` in lower case where it is an ASCII capital letter.
pub open spec fn ascii_lower(c: char) -> char {
    if 'A' <= c && c <= 'Z' {
        (c as u32 + 32) as char
    } else {
        c
    }
}

/// `s` with its ASCII capital letters in lower case.
pub open spec fn lower(s: Seq<char>) -> Seq<char> {
    s.map_values(|c: char| ascii_lower(c))
}

/// `s` with its ASCII capital letters in lower case.
pub fn lowered(s: &str) -> (r: String)
    ensures
        r@ == lower(s@),
{
    let v = chars_of(s);
    let mut out = String::new();
    let mut i: usize = 0;
    assert(out@ =~= lower(s@.take(0)));
    while i < v.len()
        invariant
            v@ == s@,
            i <= v@.len(),
            out@ == lower(s@.take(i as int)),
        decreases v@.len() - i,
    {
        let c = v[i];
        let l = if 'A' <= c && c <= 'Z' {
            let b: u8 = c as u8 + 32;
            b as char
        } else {
            c
        };
        out.push(l);
        assert(l == ascii_lower(c));
        assert(out@ =~= lower(s@.take(i + 1)));
        i += 1;
    }
    assert(s@.take(i as int) =~= s@);
    out
}

// ---------------------------------------------------------------------------
// Bytes
// ---------------------------------------------------------------------------

/// How many bytes `c` takes in UTF-8.
pub open spec fn char_bytes(c: char) -> nat {
    let u = c as u32;
    if u < 0x80 {
        1
    } else if u < 0x800 {
        2
    } else if u < 0x10000 {
        3
    } else {
        4
    }
}

/// How many bytes `s` takes in UTF-8.
pub open spec fn byte_len(s: Seq<char>) -> nat
    decreases s.len(),
{
    if s.len() == 0 {
        0
    } else {
        char_bytes(s[0]) + byte_len(s.drop_first())
    }
}

/// The front part of `s` that takes `n` bytes, if there is one.
pub open spec fn byte_cut(s: Seq<char>, n: nat) -> Option<Seq<char>>
    decreases s.len(),
{
    if n == 0 {
        Some(seq![])
    } else if s.len() == 0 || char_bytes(s[0]) > n {
        None
    } else {
        match byte_cut(s.drop_first(), (n - char_bytes(s[0])) as nat) {
            Some(t) => Some(seq![s[0]] + t),
            None => None,
        }
    }
}

/// The encoding of a text has as many bytes as its characters take.
proof fn lemma_byte_len(s: Seq<char>)
    ensures
        vstd::utf8::encode_utf8(s).len() == byte_len(s),
    decreases s.len(),
{
    if s.len() > 0 {
        vstd::utf8::char_is_scalar(s[0]);
        lemma_byte_len(s.drop_first());
    }
}

/// How many bytes `s` takes.
pub fn byte_length(s: &str) -> (r: usize)
    ensures
        r == byte_len(s@),
{
    proof {
        lemma_byte_len(s@);
    }
    s.as_bytes().len()
}

/// The front part of `s` that takes `n` bytes, if there is one.
pub fn cut_bytes(s: &str, n: usize) -> (r: Option<String>)
    ensures
        opt_text(r) == byte_cut(s@, n as nat),
{
    let v = chars_of(s);
    let mut i: usize = 0;
    let mut left: usize = n;
    assert(s@.skip(0) =~= s@);
    assert(s@.take(0) =~= seq![]);
    proof {
        if let Some(t) = byte_cut(s@, n as nat) {
            assert(s@.take(0) + t =~= t);
        }
    }
    while left > 0
        invariant
            v@ == s@,
            i <= v@.len(),
            left <= n,
            byte_cut(s@, n as nat) == match byte_cut(s@.skip(i as int), left as nat) {
                Some(t) => Some(s@.take(i as int) + t),
                None => None,
            },
        decreases v@.len() - i,
    {
        if i == v.len() {
            return None;
        }
        let c = v[i];
        let u: u32 = c as u32;
        let w: usize = if u < 0x80 {
            1
        } else if u < 0x800 {
            2
        } else if u < 0x10000 {
            3
        } else {
            4
        };
        let ghost rest = s@.skip(i as int);
        assert(rest[0] == c);
        assert(rest.drop_first() =~= s@.skip(i + 1));
        if w > left {
            return None;
        }
        proof {
            if let Some(t) = byte_cut(s@.skip(i + 1), (left - w) as nat) {
                assert(s@.take(i as int) + (seq![c] + t) =~= s@.take(i + 1) + t);
            }
        }
        left -= w;
        i += 1;
    }
    let r = text_between(&v, 0, i);
    assert(s@.subrange(0, i as int) =~= s@.take(i as int) + seq![]);
    Some(r)
}

/// What takes `n` bytes at the front of a text is a front part of it that takes `n`
/// bytes.
pub proof fn law_cut_is_a_front_part(s: Seq<char>, n: nat)
    ensures
        match byte_cut(s, n) {
            Some(t) => t.len() <= s.len() && t == s.take(t.len() as int) && byte_len(t) == n,
            None => true,
        },
    decreases s.len(),
{
    if n > 0 && s.len() > 0 && char_bytes(s[0]) <= n {
        let m = (n - char_bytes(s[0])) as nat;
        law_cut_is_a_front_part(s.drop_first(), m);
        if let Some(t) = byte_cut(s.drop_first(), m) {
            let whole = seq![s[0]] + t;
            assert(whole =~= s.take(whole.len() as int));
            assert(whole.drop_first() =~= t);
        }
    } else if n == 0 {
        assert(s.take(0) =~= seq![]);
    }
}

/// Lowering changes the letters A to Z alone, each into its small letter: two texts are
/// lowered to the same exactly where they differ only in the case of such letters.
pub proof fn law_lower_is_of_letters(a: Seq<char>, b: Seq<char>)
    ensures
        lower(a).len() == a.len(),
        forall|i: int|
            0 <= i < a.len() ==> #[trigger] lower(a)[i] == if 'A' <= a[i] && a[i] <= 'Z' {
                (a[i] as u32 + 32) as char
            } else {
                a[i]
            },
        (lower(a) == lower(b)) == (a.len() == b.len() && forall|i: int|
            0 <= i < a.len() ==> #[trigger] a[i] == b[i] || ('A' <= a[i] && a[i] <= 'Z' && b[i] as u32
                == a[i] as u32 + 32) || ('A' <= b[i] && b[i] <= 'Z' && a[i] as u32 == b[i] as u32
                + 32)),
{
    let alike = a.len() == b.len() && forall|i: int|
        0 <= i < a.len() ==> #[trigger] a[i] == b[i] || ('A' <= a[i] && a[i] <= 'Z' && b[i] as u32
            == a[i] as u32 + 32) || ('A' <= b[i] && b[i] <= 'Z' && a[i] as u32 == b[i] as u32 + 32);
    if lower(a) == lower(b) {
        assert(lower(a).len() == lower(b).len());
        assert forall|i: int| 0 <= i < a.len() implies #[trigger] a[i] == b[i] || ('A' <= a[i] && a[i]
            <= 'Z' && b[i] as u32 == a[i] as u32 + 32) || ('A' <= b[i] && b[i] <= 'Z' && a[i] as u32
            == b[i] as u32 + 32) by {
            assert(lower(a)[i] == lower(b)[i]);
        }
    }
    if alike {
        assert forall|i: int| 0 <= i < a.len() implies lower(a)[i] == lower(b)[i] by {
            assert(a[i] == a[i]);
        }
        assert(lower(a) =~= lower(b));
    }
}

/// A front part that takes `n` bytes is found where there is one.
pub proof fn law_cut_is_found(s: Seq<char>, n: nat)
    ensures
        byte_cut(s, n) is Some <==> exists|k: int|
            0 <= k <= s.len() && byte_len(#[trigger] s.take(k)) == n,
    decreases s.len(),
{
    law_cut_is_a_front_part(s, n);
    if let Some(t) = byte_cut(s, n) {
        assert(byte_len(s.take(t.len() as int)) == n);
    }
    if exists|k: int| 0 <= k <= s.len() && byte_len(#[trigger] s.take(k)) == n {
        let k = choose|k: int| 0 <= k <= s.len() && byte_len(#[trigger] s.take(k)) == n;
        if k > 0 {
            let rest = s.drop_first();
            let w = char_bytes(s[0]);
            assert(s.take(k)[0] == s[0]);
            assert(s.take(k).drop_first() =~= rest.take(k - 1));
            assert(byte_len(rest.take(k - 1)) == n - w);
            law_cut_is_found(rest, (n - w) as nat);
        }
    }
}

/// Only one front part takes a given number of bytes.
pub proof fn law_cut_is_the_only_one(s: Seq<char>, a: int, b: int)
    requires
        0 <= a <= s.len(),
        0 <= b <= s.len(),
        byte_len(s.take(a)) == byte_len(s.take(b)),
    ensures
        a == b,
    decreases s.len(),
{
    if s.len() > 0 && a > 0 && b > 0 {
        let rest = s.drop_first();
        assert(s.take(a).drop_first() =~= rest.take(a - 1));
        assert(s.take(b).drop_first() =~= rest.take(b - 1));
        assert(s.take(a)[0] == s[0] && s.take(b)[0] == s[0]);
        law_cut_is_the_only_one(rest, a - 1, b - 1);
    }
}

/// Trimming takes white space from both ends and nothing else: what is left is a part of the
/// text, all that was before and behind it is white space, and neither end of it is.
pub proof fn law_trim_leaves_the_middle(s: Seq<char>)
    ensures
        exists|a: int, b: int|
            0 <= a <= b <= s.len() && trim(s) == #[trigger] s.subrange(a, b) && (forall|i: int|
                0 <= i < a || b <= i < s.len() ==> is_white_space(#[trigger] s[i])),
        trim(s).len() > 0 ==> !is_white_space(trim(s)[0]) && !is_white_space(trim(s).last()),
{
    let p = |c: char| is_white_space(c);
    let a = lemma_trim_front_shape(s, p);
    let t = s.skip(a);
    let b = lemma_trim_back_shape(t, p);
    assert(t.take(b) =~= s.subrange(a, a + b));
    assert forall|i: int| 0 <= i < a || a + b <= i < s.len() implies is_white_space(
        #[trigger] s[i],
    ) by {
        if i < a {
            assert(p(s[i]));
        } else {
            assert(t[i - a] == s[i]);
            assert(p(t[i - a]));
        }
    }
    if trim(s).len() > 0 {
        assert(b > 0);
        assert(trim(s)[0] == s[a]);
        assert(trim(s).last() == t[b - 1]);
        assert(!p(s[a]));
        assert(!p(t[b - 1]));
    }
}

/// A text that neither begins nor ends with white space is left as it is.
pub proof fn lemma_word_is_trimmed(s: Seq<char>)
    requires
        s.len() > 0 ==> !is_white_space(s[0]) && !is_white_space(s.last()),
    ensures
        trim(s) == s,
{
    let p = |c: char| is_white_space(c);
    lemma_trim_front(s, p, 0);
    assert(s.skip(0) =~= s);
    lemma_trim_back(s, p, s.len() as int);
    assert(s.take(s.len() as int) =~= s);
}

/// The white space of ASCII is what it is: tab, line feed, vertical tab, form feed, carriage
/// return and space; no letter, digit or other sign is.
pub proof fn law_ascii_white_space(c: char)
    requires
        (c as u32) < 0x80,
    ensures
        is_white_space(c) <==> c == ' ' || (0x09 <= c as u32 && c as u32 <= 0x0d),
{
}

/// Taking characters off one end takes off those that fit and stops at the first that does
/// not.
pub proof fn law_trimming_one_end(s: Seq<char>, c: char)
    ensures
        exists|k: int|
            0 <= k <= s.len() && trim_front(s, |x: char| x == c) == #[trigger] s.skip(k) && (forall|
                i: int,
            |
                0 <= i < k ==> #[trigger] s[i] == c) && (k < s.len() ==> s[k] != c),
        exists|k: int|
            0 <= k <= s.len() && trim_back(s, |x: char| x == c) == #[trigger] s.take(k) && (forall|
                i: int,
            |
                k <= i < s.len() ==> #[trigger] s[i] == c) && (k > 0 ==> s[k - 1] != c),
{
    let p = |x: char| x == c;
    let a = lemma_trim_front_shape(s, p);
    let b = lemma_trim_back_shape(s, p);
    assert(trim_front(s, p) == s.skip(a));
    assert(trim_back(s, p) == s.take(b));
    assert forall|i: int| 0 <= i < a implies #[trigger] s[i] == c by {
        assert(p(s[i]));
    }
    assert forall|i: int| b <= i < s.len() implies #[trigger] s[i] == c by {
        assert(p(s[i]));
    }
    if a < s.len() {
        assert(!p(s[a]));
    }
    if b > 0 {
        assert(!p(s[b - 1]));
    }
}

/// A text stands in another where all its characters do, one behind the other; the first
/// such place is the one that is found.
pub proof fn law_finding(hay: Seq<char>, needle: Seq<char>, i: int)
    ensures
        occurs_at(hay, needle, i) <==> 0 <= i && i + needle.len() <= hay.len() && forall|j: int|
            0 <= j < needle.len() ==> #[trigger] needle[j] == hay[i + j],
        contains(hay, needle) <==> exists|k: int| #[trigger] occurs_at(hay, needle, k),
        index_of(hay, needle) == Some(i) <==> occurs_at(hay, needle, i) && forall|k: int|
            0 <= k < i ==> !#[trigger] occurs_at(hay, needle, k),
        index_of(hay, needle) is None <==> !contains(hay, needle),
        starts_with(hay, needle) <==> occurs_at(hay, needle, 0),
{
    if occurs_at(hay, needle, i) {
        assert forall|j: int| 0 <= j < needle.len() implies #[trigger] needle[j] == hay[i + j] by {
            assert(hay.subrange(i, i + needle.len())[j] == hay[i + j]);
        }
    }
    if 0 <= i && i + needle.len() <= hay.len() && forall|j: int|
        0 <= j < needle.len() ==> #[trigger] needle[j] == hay[i + j] {
        assert(hay.subrange(i, i + needle.len()) =~= needle);
    }
    lemma_index_from_shape(hay, needle, 0);
    if occurs_at(hay, needle, i) && forall|k: int| 0 <= k < i ==> !#[trigger] occurs_at(
        hay,
        needle,
        k,
    ) {
        lemma_index_from(hay, needle, 0, i);
    }
    if contains(hay, needle) {
        let k = choose|k: int| occurs_at(hay, needle, k);
        assert(occurs_at(hay, needle, k));
    }
}

/// The lines of a text that ends without a line feed, and of one that has none.
pub proof fn law_last_line_may_be_open(before: Seq<char>, last: Seq<char>)
    requires
        !last.contains('\n'),
        before.len() == 0 || before.last() == '\n',
    ensures
        last.len() > 0 ==> lines(before + last) == lines(before).push(last),
        last.len() == 0 ==> lines(before + last) == lines(before),
        lines(seq![]).len() == 0,
        lines(before + last.push('\n')) == lines(before).push(without_cr(last)),
{
    lemma_lines_append(before, last);
    lemma_lines_append(before, last.push('\n'));
    lemma_first_line(last, seq![]);
    assert(last.push('\n') + seq![] =~= last.push('\n'));
    assert(lines(last.push('\n')) =~= seq![without_cr(last)]);
    if last.len() > 0 {
        assert forall|j: int| 0 <= j < last.len() implies last[j] != '\n' by {
            assert(last.contains(last[j]));
        }
        lemma_upto(last, '\n', last.len() as int);
        assert(lines(last) == seq![last]);
        assert(lines(before) + seq![last] =~= lines(before).push(last));
    } else {
        assert(before + last =~= before);
    }
    assert(lines(before) + seq![without_cr(last)] =~= lines(before).push(without_cr(last)));
}

/// The number that decimal digits stand for.
pub open spec fn number_in(digits: Seq<char>) -> int
    decreases digits.len(),
{
    if digits.len() == 0 {
        0
    } else {
        10 * number_in(digits.drop_last()) + (digits.last() as int - '0' as int)
    }
}

/// A number is written with decimal digits alone, which stand for it, and without a zero
/// before them.
pub proof fn law_decimal_is_read_back(n: nat)
    ensures
        number_in(decimal(n)) == n,
        decimal(n).len() > 0,
        forall|i: int|
            0 <= i < decimal(n).len() ==> '0' <= #[trigger] decimal(n)[i] && decimal(n)[i] <= '9',
        n > 0 ==> decimal(n)[0] != '0',
        signed_decimal(n as int) == decimal(n),
        n > 0 ==> signed_decimal(-(n as int)) == seq!['-'] + decimal(n),
    decreases n,
{
    reveal_strlit("-");
    assert("-"@ =~= seq!['-']);
    if n >= 10 {
        law_decimal_is_read_back(n / 10);
        assert(decimal(n).drop_last() =~= decimal(n / 10));
        assert forall|i: int| 0 <= i < decimal(n).len() implies '0' <= #[trigger] decimal(n)[i]
            && decimal(n)[i] <= '9' by {
            if i < decimal(n / 10).len() {
                assert(decimal(n)[i] == decimal(n / 10)[i]);
            }
        }
        assert(decimal(n)[0] == decimal(n / 10)[0]);
        assert(number_in(decimal(n)) == 10 * number_in(decimal(n / 10)) + (decimal(n).last() as int
            - '0' as int));
    } else {
        assert(decimal(n).drop_last() =~= seq![]);
        assert(number_in(decimal(n).drop_last()) == 0);
        assert(number_in(decimal(n)) == decimal(n).last() as int - '0' as int);
    }
}

/// A text is filled up with spaces behind it, to the width and no further, and a longer one
/// is left as it is.
pub proof fn law_filling_up(s: Seq<char>, width: nat)
    ensures
        s.len() >= width ==> pad_right(s, width) == s,
        s.len() < width ==> pad_right(s, width).len() == width,
        pad_right(s, width).take(s.len() as int) == s,
        forall|i: int|
            s.len() <= i < pad_right(s, width).len() ==> #[trigger] pad_right(s, width)[i] == ' ',
{
    assert(pad_right(s, width).take(s.len() as int) =~= s);
}

/// A prefix is stripped as often as it stands there: what is left does not begin with it,
/// and putting it before a text changes nothing of what is left.
pub proof fn law_prefixes_are_stripped(s: Seq<char>, prefix: Seq<char>)
    requires
        prefix.len() > 0,
    ensures
        !starts_with(strip_repeated(s, prefix), prefix),
        strip_repeated(prefix + s, prefix) == strip_repeated(s, prefix),
        !starts_with(s, prefix) ==> strip_repeated(s, prefix) == s,
    decreases s.len(),
{
    assert((prefix + s).subrange(0, prefix.len() as int) =~= prefix);
    assert((prefix + s).skip(prefix.len() as int) =~= s);
    if starts_with(s, prefix) {
        law_prefixes_are_stripped(s.skip(prefix.len() as int), prefix);
    }
}

/// Only an open last line is terminated.
pub proof fn law_termination(s: Seq<char>)
    ensures
        s.len() == 0 ==> terminated(s) == s,
        s.len() > 0 && s.last() == '\n' ==> terminated(s) == s,
        s.len() > 0 && s.last() != '\n' ==> terminated(s) == s.push('\n'),
{
}

/// The bytes of a text are those of its encoding in UTF-8.
pub proof fn law_bytes_are_those_of_utf8(s: Seq<char>, c: char)
    ensures
        byte_len(s) == vstd::utf8::encode_utf8(s).len(),
        (c as u32) < 0x80 ==> byte_len(seq![c]) == 1,
        byte_len(seq![]) == 0,
{
    lemma_byte_len(s);
    assert(seq![c].drop_first() =~= Seq::<char>::empty());
    assert(byte_len(Seq::<char>::empty()) == 0);
}

} // verus!
