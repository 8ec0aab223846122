//! Text primitives.
//!
//! A string is modelled by the sequence of its characters. Searching, splitting and trimming are
//! written out over that model, so that every caller can speak of the exact characters that come
//! back.
use vstd::prelude::*;
use vstd::utf8::*;

verus! {

// ---------------------------------------------------------------------------------------------
// What the standard library decides about characters
// ---------------------------------------------------------------------------------------------

/// Whether a character has the Unicode property `White_Space`.
pub open spec fn white_space(c: char) -> bool {
    let n = c as u32;
    ||| 0x9 <= n <= 0xd
    ||| n == 0x20
    ||| n == 0x85
    ||| n == 0xa0
    ||| n == 0x1680
    ||| 0x2000 <= n <= 0x200a
    ||| n == 0x2028
    ||| n == 0x2029
    ||| n == 0x202f
    ||| n == 0x205f
    ||| n == 0x3000
}

/// `char::is_whitespace` tells whether a character has the Unicode property `White_Space`, which
/// these characters have and no others.
pub assume_specification[ char::is_whitespace ](c: char) -> (b: bool)
    ensures
        b == white_space(c),
;

/// The small form of a letter `A` to `Z`; any other character is left alone.
pub open spec fn ascii_lower_char(c: char) -> char {
    if 'A' <= c && c <= 'Z' {
        (c as u32 + 32) as char
    } else {
        c
    }
}

/// The text with each letter `A` to `Z` replaced by its small form.
pub open spec fn ascii_lower(s: Seq<char>) -> Seq<char> {
    s.map_values(|c: char| ascii_lower_char(c))
}

/// What `str::to_lowercase` makes of a text by the Unicode lower-casing tables.
pub uninterp spec fn unicode_lower(s: Seq<char>) -> Seq<char>;

/// The lower-case form of a text.
pub open spec fn lower_case(s: Seq<char>) -> Seq<char> {
    if is_ascii_chars(s) {
        ascii_lower(s)
    } else {
        unicode_lower(s)
    }
}

/// `str::to_lowercase` maps a text by the Unicode lower-casing rules, which [`unicode_lower`]
/// names. On text that is all ASCII these rules change the letters `A` to `Z` and nothing else.
pub assume_specification[ str::to_lowercase ](s: &str) -> (r: String)
    ensures
        is_ascii_chars(s@) ==> r@ == ascii_lower(s@),
        !is_ascii_chars(s@) ==> r@ == unicode_lower(s@),
;

/// `String::push` appends the character to the end of the string.
pub assume_specification[ String::push ](s: &mut String, c: char)
    ensures
        final(s)@ == old(s)@.push(c),
;

/// A text in small ASCII letters has no other small form.
pub proof fn lemma_ascii_lower_idempotent(s: Seq<char>)
    ensures
        ascii_lower(ascii_lower(s)) == ascii_lower(s),
{
}

// ---------------------------------------------------------------------------------------------
// Strings and vectors of characters
// ---------------------------------------------------------------------------------------------

/// The texts that a sequence of strings holds.
pub open spec fn texts(v: Seq<String>) -> Seq<Seq<char>> {
    v.map_values(|s: String| s@)
}

/// The text of an optional string.
pub open spec fn opt_text(s: Option<&str>) -> Option<Seq<char>> {
    match s {
        Some(t) => Some(t@),
        None => None,
    }
}

/// What [`Seq::filter_map`] keeps of one more item.
pub proof fn lemma_filter_map_step<A, B>(s: Seq<A>, f: spec_fn(A) -> Option<B>, i: int)
    requires
        0 <= i < s.len(),
    ensures
        s.take(i + 1).filter_map(f) == (match f(s[i]) {
            Some(b) => s.take(i).filter_map(f).push(b),
            None => s.take(i).filter_map(f),
        }),
{
    assert(s.take(i + 1).drop_last() == s.take(i));
    assert(s.take(i + 1).last() == s[i]);
}

/// What [`Seq::filter_map`] keeps of two sequences put together: what it keeps of the one, and then
/// what it keeps of the other.
pub proof fn lemma_filter_map_add<A, B>(a: Seq<A>, b: Seq<A>, f: spec_fn(A) -> Option<B>)
    ensures
        (a + b).filter_map(f) == a.filter_map(f) + b.filter_map(f),
    decreases b.len(),
{
    if b.len() == 0 {
        assert(a + b =~= a);
        assert(b.filter_map(f) =~= Seq::empty());
        assert(a.filter_map(f) + b.filter_map(f) =~= a.filter_map(f));
    } else {
        lemma_filter_map_add(a, b.drop_last(), f);
        assert((a + b).drop_last() =~= a + b.drop_last());
        assert((a + b).last() == b.last());
        let kept = a.filter_map(f) + b.drop_last().filter_map(f);
        if let Some(last) = f(b.last()) {
            assert(kept + seq![last] =~= a.filter_map(f) + (b.drop_last().filter_map(f) + seq![last]));
        }
    }
}

/// What [`Seq::filter_map`] keeps where it leaves nothing out.
pub proof fn lemma_filter_map_all<A, B>(s: Seq<A>, f: spec_fn(A) -> Option<B>, all: Seq<B>)
    requires
        s.len() == all.len(),
        forall|i: int| 0 <= i < s.len() ==> f(#[trigger] s[i]) == Some(all[i]),
    ensures
        s.filter_map(f) == all,
    decreases s.len(),
{
    if s.len() == 0 {
        assert(s.filter_map(f) =~= all);
    } else {
        let n = s.len() - 1;
        lemma_filter_map_all(s.drop_last(), f, all.drop_last());
        assert(f(s[n]) == Some(all[n]));
        assert(s.filter_map(f) =~= all);
    }
}

/// The characters of `s`, in order.
pub fn chars_of(s: &str) -> (v: Vec<char>)
    ensures
        v@ == s@,
{
    let mut v: Vec<char> = Vec::new();
    for c in it: s.chars()
        invariant
            v@ == s@.take(it.index()),
            it.seq() == s@,
    {
        assert(s@.take(it.index() + 1) == s@.take(it.index()).push(c));
        v.push(c);
    }
    assert(s@.take(s@.len() as int) == s@);
    v
}

/// The string made of the characters `from..to` of `v`.
pub fn string_of(v: &Vec<char>, from: usize, to: usize) -> (s: String)
    requires
        from <= to <= v@.len(),
    ensures
        s@ == v@.subrange(from as int, to as int),
{
    let mut s = String::new();
    let mut i: usize = from;
    while i < to
        invariant
            from <= i <= to <= v@.len(),
            s@ == v@.subrange(from as int, i as int),
        decreases to - i,
    {
        assert(v@.subrange(from as int, i + 1) == v@.subrange(from as int, i as int).push(v@[i as int]));
        s.push(v[i]);
        i = i + 1;
    }
    s
}

/// Whether two texts are equal.
pub fn same(a: &str, b: &str) -> (r: bool)
    ensures
        r == (a@ == b@),
{
    let x = a.as_bytes();
    let y = b.as_bytes();
    proof {
        encode_utf8_decode_utf8(a@);
        encode_utf8_decode_utf8(b@);
    }
    if x.len() != y.len() {
        return false;
    }
    let mut i: usize = 0;
    while i < x.len()
        invariant
            x@ == encode_utf8(a@),
            y@ == encode_utf8(b@),
            i <= x@.len() == y@.len(),
            forall|j: int| 0 <= j < i ==> x@[j] == y@[j],
        decreases x.len() - i,
    {
        if x[i] != y[i] {
            return false;
        }
        i = i + 1;
    }
    assert(x@ == y@);
    true
}

/// `a` followed by `b`.
pub fn joined(a: &str, b: &str) -> (r: String)
    ensures
        r@ == a@ + b@,
{
    let mut r = a.to_owned();
    r.append(b);
    r
}

/// The place at which a list of strings first holds a text.
pub fn list_position(list: &Vec<String>, text: &str) -> (r: Option<usize>)
    ensures
        match r {
            Some(i) => {
                &&& i < list@.len()
                &&& list@[i as int]@ == text@
                &&& texts(list@).contains(text@)
                &&& forall|j: int| 0 <= j < i ==> texts(list@)[j] != text@
            },
            None => !texts(list@).contains(text@),
        },
{
    let mut i: usize = 0;
    while i < list.len()
        invariant
            i <= list@.len(),
            forall|j: int| 0 <= j < i ==> texts(list@)[j] != text@,
        decreases list.len() - i,
    {
        if same(&list[i], text) {
            assert(texts(list@)[i as int] == text@);
            return Some(i);
        }
        i = i + 1;
    }
    None
}

/// A copy of a list of strings.
pub fn list_copy(list: &Vec<String>) -> (r: Vec<String>)
    ensures
        texts(r@) == texts(list@),
        r@ == list@,
{
    let mut r: Vec<String> = Vec::new();
    let mut i: usize = 0;
    while i < list.len()
        invariant
            i <= list@.len(),
            r@ == list@.take(i as int),
        decreases list.len() - i,
    {
        assert(list@.take(i + 1) == list@.take(i as int).push(list@[i as int]));
        r.push(list[i].clone());
        i = i + 1;
    }
    assert(list@.take(list@.len() as int) == list@);
    r
}

// ---------------------------------------------------------------------------------------------
// Prefixes, suffixes, substrings
// ---------------------------------------------------------------------------------------------

/// Whether `p` stands in `s` at position `i`.
pub open spec fn stands_at(s: Seq<char>, p: Seq<char>, i: int) -> bool {
    0 <= i && i + p.len() <= s.len() && s.subrange(i, i + p.len()) == p
}

/// Whether `p` stands anywhere in `s`.
pub open spec fn occurs(s: Seq<char>, p: Seq<char>) -> bool {
    exists|i: int| stands_at(s, p, i)
}

fn vec_stands_at(s: &Vec<char>, p: &Vec<char>, i: usize) -> (r: bool)
    requires
        i <= s@.len(),
    ensures
        r == stands_at(s@, p@, i as int),
{
    if p.len() > s.len() - i {
        return false;
    }
    let mut k: usize = 0;
    while k < p.len()
        invariant
            i + p.len() <= s.len(),
            k <= p.len(),
            forall|j: int| 0 <= j < k ==> s@[i + j] == p@[j],
        decreases p.len() - k,
    {
        if s[i + k] != p[k] {
            assert(s@.subrange(i as int, i + p@.len())[k as int] != p@[k as int]);
            return false;
        }
        k = k + 1;
    }
    assert(s@.subrange(i as int, i + p@.len()) == p@);
    true
}

/// Whether `s` begins with `p`.
pub fn starts_with(s: &str, p: &str) -> (r: bool)
    ensures
        r == p@.is_prefix_of(s@),
{
    let v = chars_of(s);
    let w = chars_of(p);
    vec_stands_at(&v, &w, 0)
}

/// Whether `s` ends with `p`.
pub fn ends_with(s: &str, p: &str) -> (r: bool)
    ensures
        r == p@.is_suffix_of(s@),
{
    let v = chars_of(s);
    let w = chars_of(p);
    if w.len() > v.len() {
        return false;
    }
    vec_stands_at(&v, &w, v.len() - w.len())
}

/// Whether `p` occurs in `s`.
pub fn contains(s: &str, p: &str) -> (r: bool)
    ensures
        r == occurs(s@, p@),
{
    let v = chars_of(s);
    let w = chars_of(p);
    let mut i: usize = 0;
    while i < v.len()
        invariant
            i <= v@.len(),
            v@ == s@,
            w@ == p@,
            forall|j: int| 0 <= j < i ==> !stands_at(s@, p@, j),
        decreases v.len() - i,
    {
        if vec_stands_at(&v, &w, i) {
            return true;
        }
        i = i + 1;
    }
    vec_stands_at(&v, &w, i)
}

/// The first character of a text.
pub fn first_char(s: &str) -> (r: Option<char>)
    ensures
        match r {
            Some(c) => s@.len() > 0 && s@[0] == c,
            None => s@.len() == 0,
        },
{
    let v = chars_of(s);
    if v.len() > 0 {
        Some(v[0])
    } else {
        None
    }
}

/// The text without its first `n` characters.
pub fn skip_chars(s: &str, n: usize) -> (r: String)
    requires
        n <= s@.len(),
    ensures
        r@ == s@.skip(n as int),
{
    let v = chars_of(s);
    string_of(&v, n, v.len())
}

/// What is left of `s` when every occurrence of `p`, found from left to right and without overlap,
/// is taken out.
pub open spec fn without(s: Seq<char>, p: Seq<char>) -> Seq<char>
    decreases s.len(),
{
    if s.len() == 0 || p.len() == 0 {
        s
    } else if stands_at(s, p, 0) {
        without(s.skip(p.len() as int), p)
    } else {
        seq![s[0]] + without(s.skip(1), p)
    }
}

/// Takes every occurrence of `p` out of `s`.
pub fn remove_all(s: &str, p: &str) -> (r: String)
    requires
        p@.len() > 0,
    ensures
        r@ == without(s@, p@),
{
    let v = chars_of(s);
    let w = chars_of(p);
    let mut r = String::new();
    let mut i: usize = 0;
    assert(s@.skip(0) == s@);
    while i < v.len()
        invariant
            i <= v@.len(),
            v@ == s@,
            w@ == p@,
            p@.len() > 0,
            r@ + without(s@.skip(i as int), p@) == without(s@, p@),
        decreases v.len() - i,
    {
        let ghost rest = s@.skip(i as int);
        assert(stands_at(rest, p@, 0) == stands_at(s@, p@, i as int)) by {
            if i + p@.len() <= s@.len() {
                assert(rest.subrange(0, p@.len() as int) == s@.subrange(i as int, i + p@.len()));
            }
        }
        if vec_stands_at(&v, &w, i) {
            assert(rest.skip(p@.len() as int) == s@.skip(i + p@.len()));
            i = i + w.len();
        } else {
            assert(rest.skip(1) == s@.skip(i + 1));
            assert(r@ + (seq![s@[i as int]] + without(s@.skip(i + 1), p@)) == r@.push(s@[i as int])
                + without(s@.skip(i + 1), p@));
            r.push(v[i]);
            i = i + 1;
        }
    }
    assert(s@.skip(i as int) == Seq::<char>::empty());
    r
}

// ---------------------------------------------------------------------------------------------
// Splitting
// ---------------------------------------------------------------------------------------------

/// The pieces of `s` between the separators: one more than there are separators, so a text without
/// any is its own single piece.
pub open spec fn split_on(s: Seq<char>, sep: char) -> Seq<Seq<char>>
    decreases s.len(),
{
    if s.len() == 0 {
        seq![Seq::<char>::empty()]
    } else {
        let init = split_on(s.drop_last(), sep);
        if s.last() == sep {
            init.push(Seq::<char>::empty())
        } else {
            init.drop_last().push(init.last().push(s.last()))
        }
    }
}

/// The pieces put together again, with the separator between each two.
pub open spec fn join_with(pieces: Seq<Seq<char>>, sep: char) -> Seq<char>
    decreases pieces.len(),
{
    if pieces.len() == 0 {
        Seq::<char>::empty()
    } else if pieces.len() == 1 {
        pieces[0]
    } else {
        join_with(pieces.drop_last(), sep).push(sep) + pieces.last()
    }
}

/// Splitting loses nothing: the pieces, joined by the separator, are the text again, and none of
/// them holds a separator.
pub proof fn law_split_loses_nothing(s: Seq<char>, sep: char)
    ensures
        split_on(s, sep).len() > 0,
        join_with(split_on(s, sep), sep) == s,
        forall|i: int|
            #![trigger split_on(s, sep)[i]]
            0 <= i < split_on(s, sep).len() ==> !split_on(s, sep)[i].contains(sep),
    decreases s.len(),
{
    let all = split_on(s, sep);
    if s.len() == 0 {
        assert(all[0] == s);
    } else {
        let init = split_on(s.drop_last(), sep);
        law_split_loses_nothing(s.drop_last(), sep);
        if s.last() == sep {
            assert(all.drop_last() == init);
            assert(join_with(all, sep) == s.drop_last().push(sep));
            assert forall|i: int| 0 <= i < all.len() implies !(#[trigger] all[i]).contains(sep) by {
                if i < init.len() {
                    assert(all[i] == init[i]);
                }
            }
        } else {
            assert(all.drop_last() == init.drop_last());
            assert(all.last() == init.last().push(s.last()));
            assert(join_with(all, sep) == join_with(init, sep).push(s.last()));
            assert forall|i: int| 0 <= i < all.len() implies !(#[trigger] all[i]).contains(sep) by {
                if i < init.len() - 1 {
                    assert(all[i] == init[i]);
                } else {
                    let piece = init[init.len() - 1];
                    assert(all[i] == piece.push(s.last()));
                    if all[i].contains(sep) {
                        let k = choose|k: int| 0 <= k < all[i].len() && all[i][k] == sep;
                        assert(k < piece.len());
                        assert(piece[k] == sep);
                    }
                }
            }
        }
        assert(s.drop_last().push(s.last()) == s);
    }
}

/// The pieces of `s` between the separators.
pub fn split(s: &str, sep: char) -> (r: Vec<String>)
    ensures
        texts(r@) == split_on(s@, sep),
        r@.len() > 0,
{
    let v = chars_of(s);
    let mut r: Vec<String> = Vec::new();
    let mut piece = String::new();
    let mut i: usize = 0;
    assert(texts(r@).push(piece@) == split_on(s@.take(0), sep));
    while i < v.len()
        invariant
            i <= v@.len(),
            v@ == s@,
            texts(r@).push(piece@) == split_on(s@.take(i as int), sep),
        decreases v.len() - i,
    {
        let ghost upto = s@.take(i + 1);
        let ghost before = texts(r@).push(piece@);
        assert(upto.drop_last() == s@.take(i as int));
        assert(upto.last() == s@[i as int]);
        if v[i] == sep {
            let ghost done = r@;
            let ghost last = piece@;
            r.push(piece);
            piece = String::new();
            assert(texts(r@) == texts(done).push(last));
        } else {
            assert(before.drop_last() == texts(r@));
            assert(before.last() == piece@);
            piece.push(v[i]);
        }
        i = i + 1;
    }
    assert(s@.take(s@.len() as int) == s@);
    let ghost done = r@;
    let ghost last = piece@;
    r.push(piece);
    assert(texts(r@) == texts(done).push(last));
    r
}

// ---------------------------------------------------------------------------------------------
// Trimming
// ---------------------------------------------------------------------------------------------

/// `s` without the white space at its start.
pub open spec fn trimmed_start(s: Seq<char>) -> Seq<char>
    decreases s.len(),
{
    if s.len() > 0 && white_space(s[0]) {
        trimmed_start(s.skip(1))
    } else {
        s
    }
}

/// `s` without the white space at its end.
pub open spec fn trimmed_end(s: Seq<char>) -> Seq<char>
    decreases s.len(),
{
    if s.len() > 0 && white_space(s.last()) {
        trimmed_end(s.drop_last())
    } else {
        s
    }
}

/// `s` without the white space at either end.
pub open spec fn trimmed(s: Seq<char>) -> Seq<char> {
    trimmed_end(trimmed_start(s))
}

/// `s` without the white space at either end.
pub fn trim(s: &str) -> (r: String)
    ensures
        r@ == trimmed(s@),
{
    let v = chars_of(s);
    let mut from: usize = 0;
    assert(s@.skip(0) == s@);
    while from < v.len() && v[from].is_whitespace()
        invariant
            from <= v@.len(),
            v@ == s@,
            trimmed_start(s@.skip(from as int)) == trimmed_start(s@),
        decreases v.len() - from,
    {
        assert(s@.skip(from as int).skip(1) == s@.skip(from + 1));
        from = from + 1;
    }
    assert(trimmed_start(s@) == s@.skip(from as int));
    let mut to: usize = v.len();
    assert(s@.subrange(from as int, to as int) == s@.skip(from as int));
    while from < to && v[to - 1].is_whitespace()
        invariant
            from <= to <= v@.len(),
            v@ == s@,
            trimmed_end(s@.subrange(from as int, to as int)) == trimmed(s@),
        decreases to - from,
    {
        assert(s@.subrange(from as int, to as int).drop_last() == s@.subrange(from as int, to - 1));
        to = to - 1;
    }
    string_of(&v, from, to)
}

/// Trimming keeps a text that has no white space at its ends.
pub proof fn lemma_trimmed_keeps(s: Seq<char>)
    requires
        s.len() > 0 ==> !white_space(s[0]) && !white_space(s.last()),
    ensures
        trimmed(s) == s,
{
}

/// A trimmed text has no white space at its ends, and is a part of the text it came from.
pub proof fn lemma_trimmed_ends(s: Seq<char>)
    ensures
        trimmed(s).len() > 0 ==> !white_space(trimmed(s)[0]) && !white_space(trimmed(s).last()),
        exists|i: int, j: int| 0 <= i <= j <= s.len() && trimmed(s) == #[trigger] s.subrange(i, j),
{
    lemma_trimmed_start(s);
    let t = trimmed_start(s);
    lemma_trimmed_end(t);
    let i = choose|i: int| 0 <= i <= s.len() && t == #[trigger] s.skip(i);
    let j = choose|j: int| 0 <= j <= t.len() && trimmed_end(t) == #[trigger] t.take(j);
    assert(s.skip(i).take(j) == s.subrange(i, i + j));
}

proof fn lemma_trimmed_start(s: Seq<char>)
    ensures
        trimmed_start(s).len() > 0 ==> !white_space(trimmed_start(s)[0]),
        exists|i: int| 0 <= i <= s.len() && trimmed_start(s) == #[trigger] s.skip(i),
    decreases s.len(),
{
    if s.len() > 0 && white_space(s[0]) {
        lemma_trimmed_start(s.skip(1));
        let i = choose|i: int| 0 <= i <= s.skip(1).len() && trimmed_start(s.skip(1)) == #[trigger] s.skip(1).skip(i);
        assert(s.skip(1).skip(i) == s.skip(i + 1));
    } else {
        assert(s.skip(0) == s);
    }
}

proof fn lemma_trimmed_end(s: Seq<char>)
    ensures
        trimmed_end(s).len() > 0 ==> !white_space(trimmed_end(s).last()) && trimmed_end(s)[0] == s[0],
        exists|j: int| 0 <= j <= s.len() && trimmed_end(s) == #[trigger] s.take(j),
    decreases s.len(),
{
    if s.len() > 0 && white_space(s.last()) {
        lemma_trimmed_end(s.drop_last());
        let t = s.drop_last();
        let j = choose|j: int| 0 <= j <= t.len() && trimmed_end(t) == #[trigger] t.take(j);
        assert(t.take(j) == s.take(j));
    } else {
        assert(s.take(s.len() as int) == s);
    }
}

// ---------------------------------------------------------------------------------------------
// Finding a character
// ---------------------------------------------------------------------------------------------

/// The place of the first `c` in `s`; the length of `s` where there is none.
pub open spec fn first_of(s: Seq<char>, c: char) -> int
    decreases s.len(),
{
    if s.len() == 0 || s[0] == c {
        0
    } else {
        1 + first_of(s.skip(1), c)
    }
}

/// The place of the last `c` in `s`; `-1` where there is none.
pub open spec fn last_of(s: Seq<char>, c: char) -> int
    decreases s.len(),
{
    if s.len() == 0 {
        -1
    } else if s.last() == c {
        s.len() - 1
    } else {
        last_of(s.drop_last(), c)
    }
}

/// The first and the last place of a character, where it stands at all, are places at which it
/// stands, with none before the first and none after the last.
pub proof fn lemma_first_and_last(s: Seq<char>, c: char)
    ensures
        0 <= first_of(s, c) <= s.len(),
        first_of(s, c) < s.len() ==> s[first_of(s, c)] == c,
        forall|i: int| 0 <= i < first_of(s, c) ==> s[i] != c,
        -1 <= last_of(s, c) < s.len(),
        last_of(s, c) >= 0 ==> s[last_of(s, c)] == c,
        forall|i: int| last_of(s, c) < i < s.len() ==> s[i] != c,
    decreases s.len(),
{
    if s.len() > 0 {
        lemma_first_and_last(s.skip(1), c);
        lemma_first_and_last(s.drop_last(), c);
        assert forall|i: int| 0 <= i < first_of(s, c) implies s[i] != c by {
            if i > 0 {
                assert(s.skip(1)[i - 1] != c);
            }
        }
        assert forall|i: int| last_of(s, c) < i < s.len() implies s[i] != c by {
            if i < s.len() - 1 {
                assert(s.drop_last()[i] != c);
            }
        }
    }
}

/// The place of the first `c`; the length where there is none.
pub fn find_first(v: &Vec<char>, c: char) -> (r: usize)
    ensures
        r == first_of(v@, c),
{
    let mut i: usize = 0;
    assert(v@.skip(0) == v@);
    while i < v.len() && v[i] != c
        invariant
            i <= v@.len(),
            i + first_of(v@.skip(i as int), c) == first_of(v@, c),
        decreases v.len() - i,
    {
        assert(v@.skip(i as int).skip(1) == v@.skip(i + 1));
        i = i + 1;
    }
    i
}

/// One past the place of the last `c`; zero where there is none.
pub fn find_last(v: &Vec<char>, c: char) -> (r: usize)
    ensures
        r == last_of(v@, c) + 1,
{
    let mut i: usize = v.len();
    assert(v@.take(v@.len() as int) == v@);
    while i > 0 && v[i - 1] != c
        invariant
            i <= v@.len(),
            last_of(v@.take(i as int), c) == last_of(v@, c),
        decreases i,
    {
        assert(v@.take(i as int).drop_last() == v@.take(i - 1));
        i = i - 1;
    }
    i
}

// ---------------------------------------------------------------------------------------------
// Cutting by bytes
// ---------------------------------------------------------------------------------------------

/// The part of a text that its first `n` bytes spell, or all of a text of fewer bytes.
pub open spec fn first_bytes(s: Seq<char>, n: int) -> Seq<char> {
    if encode_utf8(s).len() >= n {
        decode_utf8(encode_utf8(s).subrange(0, n))
    } else {
        s
    }
}

/// Whether a text can be cut after `n` bytes: no character spans the cut.
pub open spec fn cuts_at(s: Seq<char>, n: int) -> bool {
    encode_utf8(s).len() >= n ==> is_char_boundary(encode_utf8(s), n)
}

/// Whether a text can be cut after `n` bytes.
pub fn can_cut(s: &str, n: usize) -> (r: bool)
    ensures
        r == cuts_at(s@, n as int),
{
    s.as_bytes().len() < n || s.is_char_boundary(n)
}

/// The part of a text that its first `n` bytes spell, or all of a text of fewer bytes.
pub fn cut(s: &str, n: usize) -> (r: String)
    requires
        cuts_at(s@, n as int),
    ensures
        r@ == first_bytes(s@, n as int),
{
    if s.as_bytes().len() < n {
        s.to_owned()
    } else {
        let (head, _) = s.split_at(n);
        proof {
            encode_utf8_decode_utf8(head@);
        }
        head.to_owned()
    }
}

// ---------------------------------------------------------------------------------------------
// Numbers as text
// ---------------------------------------------------------------------------------------------

/// The character of a decimal digit.
pub open spec fn digit_char(d: nat) -> char {
    (48 + d) as char
}

/// A number in decimal digits, without leading zeros.
pub open spec fn digits(n: nat) -> Seq<char>
    decreases n,
{
    if n < 10 {
        seq![digit_char(n)]
    } else {
        digits(n / 10).push(digit_char(n % 10))
    }
}

/// A number in decimal digits, without leading zeros.
pub fn decimal(n: u64) -> (r: String)
    ensures
        r@ == digits(n as nat),
    decreases n,
{
    if n < 10 {
        let mut r = String::new();
        r.push((48u8 + n as u8) as char);
        assert(r@ == seq![digit_char(n as nat)]);
        r
    } else {
        let mut r = decimal(n / 10);
        r.push((48u8 + (n % 10) as u8) as char);
        r
    }
}

/// A number of at most two digits, filled with a zero to a width of two. A minus sign takes up
/// width as a digit does.
pub open spec fn two_wide(n: int) -> Seq<char> {
    if n < 0 {
        seq!['-'] + digits((-n) as nat)
    } else if n < 10 {
        seq!['0'] + digits(n as nat)
    } else {
        digits(n as nat)
    }
}

/// A number of at most two digits, filled with a zero to a width of two.
pub fn pad_two(n: i64) -> (r: String)
    requires
        -100 < n < 100,
    ensures
        r@ == two_wide(n as int),
{
    let mut r = String::new();
    if n < 0 {
        r.push('-');
        let d = decimal((-n) as u64);
        r.append(&d);
        assert(r@ == seq!['-'] + d@);
    } else {
        if n < 10 {
            r.push('0');
        }
        let d = decimal(n as u64);
        r.append(&d);
        assert(n < 10 ==> r@ == seq!['0'] + d@);
        assert(n >= 10 ==> r@ == d@);
    }
    r
}

// ---------------------------------------------------------------------------------------------
// Laws
// ---------------------------------------------------------------------------------------------

/// A text without the separator is its own single piece; and what follows the last separator of a text
/// is its last piece.
pub proof fn law_split_takes_parts(x: Seq<char>, y: Seq<char>, sep: char)
    requires
        !y.contains(sep),
    ensures
        split_on(y, sep) == Seq::empty().push(y),
        split_on(x + seq![sep] + y, sep) == split_on(x, sep).push(y),
    decreases y.len(),
{
    let s = x + seq![sep] + y;
    if y.len() == 0 {
        assert(s.drop_last() =~= x);
        assert(s.last() == sep);
        assert(Seq::<char>::empty() =~= y);
        assert(split_on(y, sep) =~= Seq::empty().push(y));
    } else {
        let shorter = y.drop_last();
        assert(!shorter.contains(sep)) by {
            if shorter.contains(sep) {
                let k = choose|k: int| 0 <= k < shorter.len() && shorter[k] == sep;
                assert(y[k] == sep);
            }
        }
        law_split_takes_parts(x, shorter, sep);
        assert(y.contains(y.last()));
        assert(s.drop_last() =~= x + seq![sep] + shorter);
        assert(s.last() == y.last());
        assert(shorter.push(y.last()) =~= y);
        assert(split_on(y, sep) =~= Seq::empty().push(y));
        assert(split_on(s, sep) =~= split_on(x, sep).push(y));
    }
}

/// Pieces without the separator, joined by it, are split into the same pieces again.
pub proof fn law_split_undoes_join(pieces: Seq<Seq<char>>, sep: char)
    requires
        pieces.len() > 0,
        forall|i: int| 0 <= i < pieces.len() ==> !(#[trigger] pieces[i]).contains(sep),
    ensures
        split_on(join_with(pieces, sep), sep) == pieces,
    decreases pieces.len(),
{
    if pieces.len() == 1 {
        law_split_takes_parts(Seq::empty(), pieces[0], sep);
        assert(pieces =~= Seq::empty().push(pieces[0]));
    } else {
        let init = pieces.drop_last();
        law_split_undoes_join(init, sep);
        let x = join_with(init, sep);
        assert(!pieces[pieces.len() - 1].contains(sep));
        law_split_takes_parts(x, pieces.last(), sep);
        assert(x.push(sep) + pieces.last() =~= x + seq![sep] + pieces.last());
        assert(pieces =~= init.push(pieces.last()));
    }
}

/// Trimming takes off exactly the white space around a text.
pub proof fn law_trim_takes_off_white_space(before: Seq<char>, core: Seq<char>, after: Seq<char>)
    requires
        forall|i: int| 0 <= i < before.len() ==> white_space(#[trigger] before[i]),
        forall|i: int| 0 <= i < after.len() ==> white_space(#[trigger] after[i]),
        core.len() > 0 ==> !white_space(core[0]) && !white_space(core.last()),
    ensures
        trimmed(before + core + after) == core,
    decreases before.len() + after.len(),
{
    let s = before + core + after;
    if before.len() > 0 {
        assert(white_space(before[0]) && s[0] == before[0]);
        assert(s.skip(1) =~= before.skip(1) + core + after);
        assert forall|i: int| 0 <= i < before.skip(1).len() implies white_space(
            #[trigger] before.skip(1)[i],
        ) by {
            assert(white_space(before[i + 1]));
        }
        law_trim_takes_off_white_space(before.skip(1), core, after);
    } else if core.len() == 0 {
        assert(s =~= after);
        lemma_all_white_space(after);
        assert(core =~= Seq::empty());
    } else {
        assert(s[0] == core[0]);
        if after.len() > 0 {
            assert(white_space(after[after.len() - 1]) && s.last() == after.last());
            assert(s.drop_last() =~= before + core + after.drop_last());
            assert forall|i: int| 0 <= i < after.drop_last().len() implies white_space(
                #[trigger] after.drop_last()[i],
            ) by {
                assert(white_space(after[i]));
            }
            law_trim_takes_off_white_space(before, core, after.drop_last());
            assert(s.drop_last()[0] == core[0]);
        } else {
            assert(s =~= core);
        }
    }
}

proof fn lemma_all_white_space(s: Seq<char>)
    requires
        forall|i: int| 0 <= i < s.len() ==> white_space(#[trigger] s[i]),
    ensures
        trimmed_start(s) == Seq::<char>::empty(),
    decreases s.len(),
{
    if s.len() > 0 {
        assert(white_space(s[0]));
        assert forall|i: int| 0 <= i < s.skip(1).len() implies white_space(#[trigger] s.skip(1)[i]) by {
            assert(white_space(s[i + 1]));
        }
        lemma_all_white_space(s.skip(1));
    } else {
        assert(s =~= Seq::empty());
    }
}

/// White space: the blank, the tab, the ends of lines, and the blanks of Chinese text; no letter,
/// digit or mark of ASCII.
pub proof fn law_white_space(c: char)
    ensures
        c == ' ' || c == '\t' || c == '\n' || c == '\r' || c == '\u{3000}' || c == '\u{a0}'
            ==> white_space(c),
        '!' <= c <= '~' ==> !white_space(c),
{
}

/// What is left of a text: all of it where the mark does not occur, and else what stands before its
/// first occurrence, and then what is left of what follows it.
pub proof fn law_without(before: Seq<char>, p: Seq<char>, rest: Seq<char>)
    requires
        p.len() > 0,
        forall|i: int| 0 <= i < before.len() ==> !stands_at(before + p + rest, p, i),
    ensures
        without(before + p + rest, p) == before + without(rest, p),
        !occurs(rest, p) ==> without(rest, p) == rest,
    decreases before.len(),
{
    let s = before + p + rest;
    if !occurs(rest, p) {
        lemma_without_nothing(rest, p);
    }
    if before.len() == 0 {
        assert(s.subrange(0, p.len() as int) =~= p);
        assert(stands_at(s, p, 0));
        assert(s.skip(p.len() as int) =~= rest);
        assert(before + without(rest, p) =~= without(rest, p));
    } else {
        assert(!stands_at(s, p, 0));
        let shorter = before.skip(1);
        assert(s.skip(1) =~= shorter + p + rest);
        assert forall|i: int| 0 <= i < shorter.len() implies !stands_at(shorter + p + rest, p, i) by {
            if stands_at(shorter + p + rest, p, i) {
                assert(s.subrange(i + 1, i + 1 + p.len()) =~= s.skip(1).subrange(i, i + p.len()));
                assert(stands_at(s, p, i + 1));
            }
        }
        law_without(shorter, p, rest);
        assert(seq![s[0]] + (shorter + without(rest, p)) =~= before + without(rest, p));
    }
}

proof fn lemma_without_nothing(s: Seq<char>, p: Seq<char>)
    requires
        p.len() > 0,
        !occurs(s, p),
    ensures
        without(s, p) == s,
    decreases s.len(),
{
    if s.len() > 0 {
        assert(!stands_at(s, p, 0));
        assert forall|i: int| !stands_at(s.skip(1), p, i) by {
            if stands_at(s.skip(1), p, i) {
                assert(s.subrange(i + 1, i + 1 + p.len()) =~= s.skip(1).subrange(i, i + p.len()));
                assert(stands_at(s, p, i + 1));
            }
        }
        lemma_without_nothing(s.skip(1), p);
        assert(seq![s[0]] + s.skip(1) =~= s);
    }
}

/// A mark occurs in a text that is made up of something, the mark, and something more.
pub proof fn law_occurs(before: Seq<char>, p: Seq<char>, after: Seq<char>)
    ensures
        occurs(before + p + after, p),
        stands_at(before + p + after, p, before.len() as int),
{
    let s = before + p + after;
    let n = before.len() as int;
    assert(s.subrange(n, n + p.len()) =~= p);
    assert(stands_at(s, p, before.len() as int));
}

/// Where a mark occurs, it stands there letter by letter: with what is before and what is after it, it
/// makes up the text.
pub proof fn law_occurrence(s: Seq<char>, p: Seq<char>)
    requires
        occurs(s, p),
    ensures
        exists|before: Seq<char>, after: Seq<char>| s == #[trigger] (before + p + after),
{
    let i = choose|i: int| stands_at(s, p, i);
    let before = s.take(i);
    let after = s.skip(i + p.len());
    assert(s.subrange(i, i + p.len()) == p);
    assert(s =~= before + p + after);
}

/// The first bytes of a text in ASCII are its first characters.
pub proof fn law_first_bytes(s: Seq<char>, n: int)
    requires
        is_ascii_chars(s),
        0 <= n,
    ensures
        first_bytes(s, n) == (if s.len() < n {
            s
        } else {
            s.take(n)
        }),
        cuts_at(s, n),
{
    is_ascii_chars_encode_utf8(s);
    if s.len() >= n {
        let head = s.take(n);
        assert(is_ascii_chars(head)) by {
            assert(forall|i: int| 0 <= i < head.len() ==> head[i] == s[i]);
        }
        is_ascii_chars_encode_utf8(head);
        assert(encode_utf8(s).subrange(0, n) =~= encode_utf8(head));
        encode_utf8_decode_utf8(head);
        encode_utf8_valid_utf8(s);
        if n < s.len() {
            let rest = s.skip(n);
            is_char_boundary_iff_is_leading_byte(encode_utf8(s), n);
        } else {
            is_char_boundary_start_end_of_seq(encode_utf8(s));
        }
    }
}

/// The number that decimal digits spell.
pub open spec fn value_of(s: Seq<char>) -> int
    decreases s.len(),
{
    if s.len() == 0 {
        0
    } else {
        10 * value_of(s.drop_last()) + (s.last() as int - '0' as int)
    }
}

/// The digits of a number spell it, are all digits, and begin with a zero only where it is zero.
pub proof fn law_digits(n: nat)
    ensures
        digits(n).len() > 0,
        value_of(digits(n)) == n,
        forall|i: int| 0 <= i < digits(n).len() ==> '0' <= #[trigger] digits(n)[i] <= '9',
        digits(n)[0] == '0' ==> n == 0 && digits(n).len() == 1,
    decreases n,
{
    reveal_with_fuel(value_of, 2);
    if n >= 10 {
        law_digits(n / 10);
        assert(digits(n).drop_last() =~= digits(n / 10));
    } else {
        assert(digits(n).drop_last() =~= Seq::empty());
    }
}

/// A number below a hundred takes two digits, the first of which is a zero where it is below ten.
pub proof fn law_two_wide(tens: int, ones: int)
    requires
        0 <= tens < 10,
        0 <= ones < 10,
    ensures
        two_wide(10 * tens + ones) == Seq::empty().push((48 + tens) as char).push(
            (48 + ones) as char,
        ),
{
    reveal_with_fuel(digits, 2);
    assert(two_wide(10 * tens + ones) =~= Seq::empty().push((48 + tens) as char).push(
        (48 + ones) as char,
    ));
}

} // verus!
