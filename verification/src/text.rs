//! Small verified helpers on text, stated over sequences of characters.

use vstd::prelude::*;

verus! {

/// `s` ends with `suffix`.
pub open spec fn has_suffix(s: Seq<char>, suffix: Seq<char>) -> bool {
    suffix.len() <= s.len() && s.subrange(s.len() - suffix.len(), s.len() as int) == suffix
}

/// `s` starts with `prefix`.
pub open spec fn has_prefix(s: Seq<char>, prefix: Seq<char>) -> bool {
    prefix.len() <= s.len() && s.subrange(0, prefix.len() as int) == prefix
}

/// The code of `c` with the letters `A` to `Z` folded onto `a` to `z`.
pub open spec fn fold_case(c: char) -> u32 {
    if 'A' <= c && c <= 'Z' {
        (c as u32 + 32) as u32
    } else {
        c as u32
    }
}

/// `a` and `b` are equal up to the case of ASCII letters.
pub open spec fn same_ignoring_case(a: Seq<char>, b: Seq<char>) -> bool {
    a.len() == b.len() && forall|i: int| 0 <= i < a.len() ==> fold_case(a[i]) == fold_case(b[i])
}

/// The code of `c` with ASCII upper case folded onto lower case.
pub fn folded(c: char) -> (code: u32)
    ensures
        code == fold_case(c),
{
    let code: u32 = c as u32;
    if 'A' <= c && c <= 'Z' {
        code + 32
    } else {
        code
    }
}

/// Whether `a` and `b` are equal up to the case of ASCII letters.
pub fn eq_ignoring_case(a: &Vec<char>, b: &Vec<char>) -> (same: bool)
    ensures
        same == same_ignoring_case(a@, b@),
{
    if a.len() != b.len() {
        return false;
    }
    let mut i: usize = 0;
    while i < a.len()
        invariant
            a.len() == b.len(),
            i <= a.len(),
            forall|j: int| 0 <= j < i ==> fold_case(a@[j]) == fold_case(b@[j]),
        decreases a.len() - i,
    {
        if folded(a[i]) != folded(b[i]) {
            return false;
        }
        i += 1;
    }
    true
}

/// Whether `c` is white space, as `char::is_whitespace` reports it.
pub uninterp spec fn is_white_space(c: char) -> bool;

/// `char::is_whitespace` of std: its answer depends on the character alone,
/// and is the one that `is_white_space` names.
pub assume_specification[ char::is_whitespace ](c: char) -> (b: bool)
    ensures
        b == is_white_space(c),
;

/// `s` without its leading white space.
pub open spec fn skip_white_space(s: Seq<char>) -> Seq<char>
    decreases s.len(),
{
    if s.len() > 0 && is_white_space(s[0]) {
        skip_white_space(s.drop_first())
    } else {
        s
    }
}

/// `s` without its trailing white space.
pub open spec fn drop_white_space(s: Seq<char>) -> Seq<char>
    decreases s.len(),
{
    if s.len() > 0 && is_white_space(s.last()) {
        drop_white_space(s.drop_last())
    } else {
        s
    }
}

/// `s` without leading and trailing white space.
pub open spec fn trimmed(s: Seq<char>) -> Seq<char> {
    drop_white_space(skip_white_space(s))
}

/// `s` without leading and trailing white space.
pub fn trim(s: &str) -> (out: String)
    ensures
        out@ == trimmed(s@),
{
    let chars = chars_of(s);
    let n: usize = chars.len();
    let mut start: usize = 0;
    assert(chars@.subrange(0, n as int) =~= chars@);
    while start < n && chars[start].is_whitespace()
        invariant
            n == chars@.len(),
            start <= n,
            skip_white_space(chars@) == skip_white_space(chars@.subrange(start as int, n as int)),
        decreases n - start,
    {
        proof {
            let rest = chars@.subrange(start as int, n as int);
            assert(rest[0] == chars@[start as int]);
            assert(rest.drop_first() =~= chars@.subrange(start + 1, n as int));
        }
        start += 1;
    }
    let ghost body = chars@.subrange(start as int, n as int);
    assert(skip_white_space(chars@) == body) by {
        if start < n {
            assert(body[0] == chars@[start as int]);
        }
    }
    let mut end: usize = n;
    while end > start && chars[end - 1].is_whitespace()
        invariant
            n == chars@.len(),
            start <= end <= n,
            drop_white_space(body) == drop_white_space(chars@.subrange(start as int, end as int)),
            body == chars@.subrange(start as int, n as int),
        decreases end - start,
    {
        proof {
            let part = chars@.subrange(start as int, end as int);
            assert(part.last() == chars@[end - 1]);
            assert(part.drop_last() =~= chars@.subrange(start as int, end - 1));
        }
        end -= 1;
    }
    assert(drop_white_space(body) == chars@.subrange(start as int, end as int)) by {
        let part = chars@.subrange(start as int, end as int);
        if end > start {
            assert(part.last() == chars@[end - 1]);
        }
    }
    s.substring_char(start, end).to_owned()
}

/// The characters of `s`, in order.
pub fn chars_of(s: &str) -> (out: Vec<char>)
    ensures
        out@ == s@,
{
    let mut out: Vec<char> = Vec::new();
    for c in it: s.chars()
        invariant
            it.seq() == s@,
            out@ == s@.take(it.index() as int),
    {
        out.push(c);
    }
    assert(s@.take(s@.len() as int) =~= s@);
    out
}

/// Whether `s` ends with `suffix`.
pub fn ends_with(s: &Vec<char>, suffix: &Vec<char>) -> (b: bool)
    ensures
        b == has_suffix(s@, suffix@),
{
    if suffix.len() > s.len() {
        return false;
    }
    let off: usize = s.len() - suffix.len();
    let mut i: usize = 0;
    while i < suffix.len()
        invariant
            off + suffix.len() == s.len(),
            i <= suffix.len(),
            forall|j: int| 0 <= j < i ==> s@[off + j] == suffix@[j],
        decreases suffix.len() - i,
    {
        if s[off + i] != suffix[i] {
            proof {
                let t = s@.subrange(s@.len() - suffix@.len(), s@.len() as int);
                assert(t[i as int] == s@[off + i]);
            }
            return false;
        }
        i += 1;
    }
    assert(s@.subrange(s@.len() - suffix@.len(), s@.len() as int) =~= suffix@);
    true
}

/// Whether `s` starts with `prefix`.
pub fn starts_with(s: &Vec<char>, prefix: &Vec<char>) -> (b: bool)
    ensures
        b == has_prefix(s@, prefix@),
{
    if prefix.len() > s.len() {
        return false;
    }
    let mut i: usize = 0;
    while i < prefix.len()
        invariant
            prefix.len() <= s.len(),
            i <= prefix.len(),
            forall|j: int| 0 <= j < i ==> s@[j] == prefix@[j],
        decreases prefix.len() - i,
    {
        if s[i] != prefix[i] {
            proof {
                let t = s@.subrange(0, prefix@.len() as int);
                assert(t[i as int] == s@[i as int]);
            }
            return false;
        }
        i += 1;
    }
    assert(s@.subrange(0, prefix@.len() as int) =~= prefix@);
    true
}

/// The first position of `c` in `s`, if `c` occurs.
pub open spec fn first_index(s: Seq<char>, c: char) -> Option<int>
    decreases s.len(),
{
    if s.len() == 0 {
        None
    } else if s[0] == c {
        Some(0)
    } else {
        match first_index(s.drop_first(), c) {
            Some(i) => Some(i + 1),
            None => None,
        }
    }
}

/// A position of `c` before which `c` does not occur is its first.
pub proof fn lemma_first_index_at(s: Seq<char>, c: char, k: int)
    requires
        0 <= k < s.len(),
        s[k] == c,
        forall|j: int| 0 <= j < k ==> s[j] != c,
    ensures
        first_index(s, c) == Some(k),
    decreases k,
{
    if k > 0 {
        let rest = s.drop_first();
        assert(rest[k - 1] == s[k]);
        assert forall|j: int| 0 <= j < k - 1 implies rest[j] != c by {
            assert(rest[j] == s[j + 1]);
        }
        lemma_first_index_at(rest, c, k - 1);
    }
}

/// A character that does not occur has no first position.
pub proof fn lemma_first_index_none(s: Seq<char>, c: char)
    requires
        forall|j: int| 0 <= j < s.len() ==> s[j] != c,
    ensures
        first_index(s, c) is None,
    decreases s.len(),
{
    if s.len() > 0 {
        let rest = s.drop_first();
        assert forall|j: int| 0 <= j < rest.len() implies rest[j] != c by {
            assert(rest[j] == s[j + 1]);
        }
        lemma_first_index_none(rest, c);
    }
}

/// The pieces of `s` between the occurrences of `sep`, in order. A text
/// without `sep` is one piece.
pub open spec fn split_on(s: Seq<char>, sep: char) -> Seq<Seq<char>>
    decreases s.len(),
    via split_on_decreases
{
    match first_index(s, sep) {
        None => seq![s],
        Some(i) => seq![s.subrange(0, i)] + split_on(s.subrange(i + 1, s.len() as int), sep),
    }
}

#[via_fn]
proof fn split_on_decreases(s: Seq<char>, sep: char) {
    lemma_first_index_bounds(s, sep);
}

/// A first position lies within the text and holds the character.
pub proof fn lemma_first_index_bounds(s: Seq<char>, c: char)
    ensures
        first_index(s, c) matches Some(i) ==> 0 <= i < s.len() && s[i] == c,
    decreases s.len(),
{
    if s.len() > 0 && s[0] != c {
        lemma_first_index_bounds(s.drop_first(), c);
    }
}

/// The views of `pieces`, in order.
pub open spec fn texts_view(pieces: Seq<String>) -> Seq<Seq<char>> {
    Seq::new(pieces.len(), |i: int| pieces[i]@)
}

/// The position from `from` on at which `c` first occurs in `chars`.
pub fn find_char(chars: &Vec<char>, from: usize, c: char) -> (at: Option<usize>)
    requires
        from <= chars.len(),
    ensures
        match at {
            Some(k) => from <= k < chars.len() && first_index(
                chars@.subrange(from as int, chars@.len() as int),
                c,
            ) == Some(k - from),
            None => first_index(chars@.subrange(from as int, chars@.len() as int), c) is None,
        },
{
    let ghost rest = chars@.subrange(from as int, chars@.len() as int);
    let mut k: usize = from;
    while k < chars.len()
        invariant
            from <= k <= chars.len(),
            rest == chars@.subrange(from as int, chars@.len() as int),
            forall|j: int| 0 <= j < k - from ==> rest[j] != c,
        decreases chars.len() - k,
    {
        if chars[k] == c {
            proof {
                lemma_first_index_at(rest, c, k - from);
            }
            return Some(k);
        }
        k += 1;
    }
    proof {
        lemma_first_index_none(rest, c);
    }
    None
}

/// Splits `s` at every occurrence of `sep`.
pub fn split(s: &str, sep: char) -> (pieces: Vec<String>)
    ensures
        texts_view(pieces@) == split_on(s@, sep),
{
    let chars = chars_of(s);
    let n: usize = chars.len();
    let mut pieces: Vec<String> = Vec::new();
    let mut start: usize = 0;
    assert(chars@.subrange(0, n as int) =~= chars@);
    assert(texts_view(pieces@) + split_on(chars@, sep) =~= split_on(chars@, sep));
    loop
        invariant_except_break
            split_on(s@, sep) == texts_view(pieces@) + split_on(
                chars@.subrange(start as int, n as int),
                sep,
            ),
        invariant
            n == chars@.len(),
            chars@ == s@,
            start <= n,
        ensures
            texts_view(pieces@) == split_on(s@, sep),
        decreases n - start,
    {
        let ghost rest = chars@.subrange(start as int, n as int);
        let ghost done = texts_view(pieces@);
        match find_char(&chars, start, sep) {
            Some(k) => {
                pieces.push(s.substring_char(start, k).to_owned());
                proof {
                    assert(rest.subrange(0, k - start) =~= chars@.subrange(start as int, k as int));
                    assert(rest.subrange(k - start + 1, rest.len() as int) =~= chars@.subrange(
                        k + 1,
                        n as int,
                    ));
                    assert(texts_view(pieces@) =~= done.push(
                        chars@.subrange(start as int, k as int),
                    ));
                    assert(texts_view(pieces@) + split_on(chars@.subrange(k + 1, n as int), sep)
                        =~= done + split_on(rest, sep));
                }
                start = k + 1;
            },
            None => {
                pieces.push(s.substring_char(start, n).to_owned());
                proof {
                    assert(texts_view(pieces@) =~= done.push(rest));
                    assert(texts_view(pieces@) =~= done + split_on(rest, sep));
                }
                break ;
            },
        }
    }
    pieces
}

/// `needle` occurs in `s`.
pub open spec fn has_substring(s: Seq<char>, needle: Seq<char>) -> bool {
    exists|i: int|
        0 <= i && i + needle.len() <= s.len() && #[trigger] s.subrange(i, i + needle.len())
            == needle
}

/// `needle` stands in `s` at position `at`.
pub open spec fn occurs_at(s: Seq<char>, needle: Seq<char>, at: int) -> bool {
    0 <= at && at + needle.len() <= s.len() && s.subrange(at, at + needle.len()) == needle
}

/// Whether `needle` stands in `s` at position `at`.
pub fn matches_at(s: &Vec<char>, needle: &Vec<char>, at: usize) -> (b: bool)
    requires
        at + needle.len() <= s.len(),
    ensures
        b == occurs_at(s@, needle@, at as int),
{
    let mut j: usize = 0;
    while j < needle.len()
        invariant
            at + needle.len() <= s.len(),
            j <= needle.len(),
            forall|k: int| 0 <= k < j ==> s@[at + k] == needle@[k],
        decreases needle.len() - j,
    {
        if s[at + j] != needle[j] {
            proof {
                let part = s@.subrange(at as int, at + needle@.len());
                assert(part[j as int] == s@[at + j]);
            }
            return false;
        }
        j += 1;
    }
    assert(s@.subrange(at as int, at + needle@.len()) =~= needle@);
    true
}

/// Whether `needle` occurs in `s`.
pub fn contains_text(s: &str, needle: &str) -> (b: bool)
    ensures
        b == has_substring(s@, needle@),
{
    let hay = chars_of(s);
    let pin = chars_of(needle);
    if pin.len() > hay.len() {
        return false;
    }
    if pin.len() == 0 {
        assert(occurs_at(hay@, pin@, 0)) by {
            assert(hay@.subrange(0, 0) =~= pin@);
        }
        return true;
    }
    let last: usize = hay.len() - pin.len();
    let mut i: usize = 0;
    while i <= last
        invariant
            last + pin.len() == hay.len(),
            pin.len() > 0,
            i <= last + 1,
            hay@ == s@,
            pin@ == needle@,
            forall|k: int| 0 <= k < i ==> !occurs_at(hay@, pin@, k),
        decreases last + 1 - i,
    {
        if matches_at(&hay, &pin, i) {
            assert(occurs_at(hay@, pin@, i as int));
            return true;
        }
        i += 1;
    }
    assert(!has_substring(hay@, pin@)) by {
        if has_substring(hay@, pin@) {
            let k = choose|k: int|
                0 <= k && k + pin@.len() <= hay@.len() && #[trigger] hay@.subrange(
                    k,
                    k + pin@.len(),
                ) == pin@;
            assert(occurs_at(hay@, pin@, k));
        }
    }
    false
}

} // verus!
