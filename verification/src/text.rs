//! Small verified helpers on text: equality, prefixes and character access.

use vstd::prelude::*;
use vstd::std_specs::iter::IteratorSpec;
use vstd::string::StringSliceAdditionalSpecFns;
use vstd::utf8::encode_utf8_decode_utf8;

verus! {

/// Two texts with the same UTF-8 bytes are the same text.
pub proof fn lemma_same_bytes_same_text(a: Seq<char>, b: Seq<char>)
    requires
        vstd::utf8::encode_utf8(a) == vstd::utf8::encode_utf8(b),
    ensures
        a == b,
{
    encode_utf8_decode_utf8(a);
    encode_utf8_decode_utf8(b);
}

/// Whether two texts are equal, decided on their bytes.
pub fn str_eq(a: &str, b: &str) -> (same: bool)
    ensures
        same == (a@ == b@),
{
    let x = a.as_bytes();
    let y = b.as_bytes();
    if x.len() != y.len() {
        return false;
    }
    let mut i: usize = 0;
    while i < x.len()
        invariant
            x@ == a.spec_bytes(),
            y@ == b.spec_bytes(),
            x@.len() == y@.len(),
            i <= x@.len(),
            forall|k: int| 0 <= k < i ==> x@[k] == y@[k],
        decreases x@.len() - i,
    {
        if x[i] != y[i] {
            return false;
        }
        i += 1;
    }
    proof {
        assert(x@ =~= y@);
        lemma_same_bytes_same_text(a@, b@);
    }
    true
}

/// The characters of a text, in order.
pub fn chars_of(s: &str) -> (chars: Vec<char>)
    ensures
        chars@ == s@,
{
    broadcast use vstd::string::group_string_axioms;

    let mut rest = s.chars();
    let mut chars: Vec<char> = Vec::new();
    proof {
        assert(chars@ + rest.remaining() =~= s@);
    }
    loop
        invariant
            rest.obeys_prophetic_iter_laws(),
            chars@ + rest.remaining() == s@,
        decreases s@.len() - chars@.len(),
    {
        let ghost before = rest.remaining();
        let ghost taken = chars@;
        match rest.next() {
            Some(c) => {
                chars.push(c);
                proof {
                    assert(before =~= seq![c] + before.drop_first());
                    assert(chars@ + rest.remaining() =~= taken + before);
                }
            },
            None => {
                proof {
                    assert(chars@ + before =~= chars@);
                }
                return chars;
            },
        }
    }
}

/// Whether a character is white space: the characters that `trim` removes
/// and that separate the words of a line.
pub open spec fn is_space_spec(c: char) -> bool {
    let u = c as u32;
    ||| 0x09 <= u <= 0x0D
    ||| u == 0x20
    ||| u == 0x85
    ||| u == 0xA0
    ||| u == 0x1680
    ||| 0x2000 <= u <= 0x200A
    ||| u == 0x2028
    ||| u == 0x2029
    ||| u == 0x202F
    ||| u == 0x205F
    ||| u == 0x3000
}

/// Whether a character is white space.
pub fn is_space(c: char) -> (space: bool)
    ensures
        space == is_space_spec(c),
{
    let u = c as u32;
    (0x09 <= u && u <= 0x0D) || u == 0x20 || u == 0x85 || u == 0xA0 || u == 0x1680 || (0x2000 <= u
        && u <= 0x200A) || u == 0x2028 || u == 0x2029 || u == 0x202F || u == 0x205F || u == 0x3000
}

/// The number of white-space characters at the start of a text.
pub open spec fn leading_spaces(s: Seq<char>) -> int
    decreases s.len(),
{
    if s.len() == 0 || !is_space_spec(s[0]) {
        0
    } else {
        1 + leading_spaces(s.drop_first())
    }
}

/// The length of a text without the white space at its end.
pub open spec fn unspaced_len(s: Seq<char>) -> int
    decreases s.len(),
{
    if s.len() == 0 || !is_space_spec(s.last()) {
        s.len() as int
    } else {
        unspaced_len(s.drop_last())
    }
}

/// A text without the white space at its start.
pub open spec fn trim_start(s: Seq<char>) -> Seq<char> {
    s.subrange(leading_spaces(s), s.len() as int)
}

/// A text without the white space at its start and at its end.
pub open spec fn trim(s: Seq<char>) -> Seq<char> {
    if leading_spaces(s) >= unspaced_len(s) {
        Seq::empty()
    } else {
        s.subrange(leading_spaces(s), unspaced_len(s))
    }
}

/// Whether `pattern` occurs in `s` at index `at`.
pub open spec fn occurs_at(s: Seq<char>, pattern: Seq<char>, at: int) -> bool {
    0 <= at && at + pattern.len() <= s.len() && s.subrange(at, at + pattern.len()) == pattern
}

/// Whether `pattern` occurs somewhere in `s`.
pub open spec fn contains_text(s: Seq<char>, pattern: Seq<char>) -> bool {
    exists|at: int| occurs_at(s, pattern, at)
}

/// The index of the first `c` in `s`, or the length of `s` where there is
/// none.
pub open spec fn first_index_of(s: Seq<char>, c: char) -> int
    decreases s.len(),
{
    if s.len() == 0 || s[0] == c {
        0
    } else {
        1 + first_index_of(s.drop_first(), c)
    }
}

/// The index just behind the last `c` in `s`, or 0 where there is none.
pub open spec fn after_last(s: Seq<char>, c: char) -> int
    decreases s.len(),
{
    if s.len() == 0 || s.last() == c {
        s.len() as int
    } else {
        after_last(s.drop_last(), c)
    }
}

/// The start of the word that holds or ends at index `at`: the index just
/// behind the last white space before `at`, or 0 where there is none.
pub open spec fn word_start(s: Seq<char>, at: int) -> int
    decreases at,
{
    if at <= 0 || at > s.len() || is_space_spec(s[at - 1]) {
        at
    } else {
        word_start(s, at - 1)
    }
}

/// What `leading_spaces` counts: the characters before it are all white
/// space, and the character at it, if there is one, is none.
pub proof fn lemma_leading_spaces_bounds(s: Seq<char>)
    ensures
        0 <= leading_spaces(s) <= s.len(),
        forall|i: int| 0 <= i < leading_spaces(s) ==> is_space_spec(#[trigger] s[i]),
        leading_spaces(s) < s.len() ==> !is_space_spec(s[leading_spaces(s)]),
    decreases s.len(),
{
    if s.len() == 0 || !is_space_spec(s[0]) {
    } else {
        lemma_leading_spaces_bounds(s.drop_first());
        assert forall|i: int| 0 <= i < leading_spaces(s) implies is_space_spec(#[trigger] s[i]) by {
            if i > 0 {
                assert(s[i] == s.drop_first()[i - 1]);
            }
        }
    }
}

/// What `unspaced_len` measures: the characters from it on are all white
/// space, and the character just before it, if there is one, is none.
pub proof fn lemma_unspaced_len_bounds(s: Seq<char>)
    ensures
        0 <= unspaced_len(s) <= s.len(),
        forall|i: int| unspaced_len(s) <= i < s.len() ==> is_space_spec(#[trigger] s[i]),
        unspaced_len(s) > 0 ==> !is_space_spec(s[unspaced_len(s) - 1]),
    decreases s.len(),
{
    if s.len() == 0 || !is_space_spec(s.last()) {
    } else {
        lemma_unspaced_len_bounds(s.drop_last());
        assert forall|i: int| unspaced_len(s) <= i < s.len() implies is_space_spec(
            #[trigger] s[i],
        ) by {
            if i < s.len() - 1 {
                assert(s[i] == s.drop_last()[i]);
            }
        }
    }
}

/// What `first_index_of` finds: no character before it is `c`, and the
/// character at it, if there is one, is `c`.
pub proof fn lemma_first_index_of_bounds(s: Seq<char>, c: char)
    ensures
        0 <= first_index_of(s, c) <= s.len(),
        forall|i: int| 0 <= i < first_index_of(s, c) ==> #[trigger] s[i] != c,
        first_index_of(s, c) < s.len() ==> s[first_index_of(s, c)] == c,
    decreases s.len(),
{
    if s.len() == 0 || s[0] == c {
    } else {
        lemma_first_index_of_bounds(s.drop_first(), c);
        assert forall|i: int| 0 <= i < first_index_of(s, c) implies #[trigger] s[i] != c by {
            if i > 0 {
                assert(s[i] == s.drop_first()[i - 1]);
            }
        }
    }
}

/// What `after_last` finds: no character from it on is `c`, and the
/// character just before it, if there is one, is `c`.
pub proof fn lemma_after_last_bounds(s: Seq<char>, c: char)
    ensures
        0 <= after_last(s, c) <= s.len(),
        forall|i: int| after_last(s, c) <= i < s.len() ==> #[trigger] s[i] != c,
        after_last(s, c) > 0 ==> s[after_last(s, c) - 1] == c,
    decreases s.len(),
{
    if s.len() == 0 || s.last() == c {
    } else {
        lemma_after_last_bounds(s.drop_last(), c);
        assert forall|i: int| after_last(s, c) <= i < s.len() implies #[trigger] s[i] != c by {
            if i < s.len() - 1 {
                assert(s[i] == s.drop_last()[i]);
            }
        }
    }
}

/// What `word_start` finds: no character between it and `at` is white
/// space, and the character just before it, if there is one, is.
pub proof fn lemma_word_start_bounds(s: Seq<char>, at: int)
    requires
        0 <= at <= s.len(),
    ensures
        0 <= word_start(s, at) <= at,
        forall|i: int| word_start(s, at) <= i < at ==> !is_space_spec(#[trigger] s[i]),
        word_start(s, at) > 0 ==> is_space_spec(s[word_start(s, at) - 1]),
    decreases at,
{
    if at <= 0 || is_space_spec(s[at - 1]) {
    } else {
        lemma_word_start_bounds(s, at - 1);
    }
}

/// The index of the first character at or after `from` that is no white
/// space, or `to` where the rest is white space.
pub fn skip_spaces(chars: &Vec<char>, from: usize, to: usize) -> (at: usize)
    requires
        from <= to <= chars.len(),
    ensures
        from <= at <= to,
        at - from == leading_spaces(chars@.subrange(from as int, to as int)),
{
    let mut at = from;
    while at < to && is_space(chars[at])
        invariant
            from <= at <= to <= chars.len(),
            leading_spaces(chars@.subrange(from as int, to as int)) == (at - from) + leading_spaces(
                chars@.subrange(at as int, to as int),
            ),
        decreases to - at,
    {
        proof {
            let rest = chars@.subrange(at as int, to as int);
            assert(rest[0] == chars@[at as int]);
            assert(rest.drop_first() =~= chars@.subrange(at + 1, to as int));
        }
        at += 1;
    }
    proof {
        let rest = chars@.subrange(at as int, to as int);
        if at < to {
            assert(rest[0] == chars@[at as int]);
        }
    }
    at
}

/// The index just behind the last character before `to`, and not before
/// `from`, that is no white space; `from` where there is none.
pub fn skip_spaces_back(chars: &Vec<char>, from: usize, to: usize) -> (at: usize)
    requires
        from <= to <= chars.len(),
    ensures
        from <= at <= to,
        at - from == unspaced_len(chars@.subrange(from as int, to as int)),
{
    let mut at = to;
    while at > from && is_space(chars[at - 1])
        invariant
            from <= at <= to <= chars.len(),
            unspaced_len(chars@.subrange(from as int, to as int)) == unspaced_len(
                chars@.subrange(from as int, at as int),
            ),
        decreases at - from,
    {
        proof {
            let part = chars@.subrange(from as int, at as int);
            assert(part.last() == chars@[at - 1]);
            assert(part.drop_last() =~= chars@.subrange(from as int, at - 1));
        }
        at -= 1;
    }
    proof {
        let part = chars@.subrange(from as int, at as int);
        if at > from {
            assert(part.last() == chars@[at - 1]);
        }
    }
    at
}

/// The bounds of the text between `from` and `to` without the white space
/// at its start and at its end.
pub fn trim_bounds(chars: &Vec<char>, from: usize, to: usize) -> (bounds: (usize, usize))
    requires
        from <= to <= chars.len(),
    ensures
        from <= bounds.0 <= bounds.1 <= to,
        chars@.subrange(bounds.0 as int, bounds.1 as int) == trim(
            chars@.subrange(from as int, to as int),
        ),
{
    let start = skip_spaces(chars, from, to);
    let end = skip_spaces_back(chars, from, to);
    let ghost part = chars@.subrange(from as int, to as int);
    if start >= end {
        proof {
            assert(chars@.subrange(start as int, start as int) =~= Seq::<char>::empty());
        }
        (start, start)
    } else {
        proof {
            assert(chars@.subrange(start as int, end as int) =~= part.subrange(
                start - from,
                end - from,
            ));
        }
        (start, end)
    }
}

/// Whether the text between `from` and `to` starts with `pattern`.
pub fn starts_with_at(chars: &Vec<char>, from: usize, to: usize, pattern: &Vec<char>) -> (starts:
    bool)
    requires
        from <= to <= chars.len(),
    ensures
        starts == pattern@.is_prefix_of(chars@.subrange(from as int, to as int)),
{
    let ghost part = chars@.subrange(from as int, to as int);
    if pattern.len() > to - from {
        return false;
    }
    let mut i: usize = 0;
    while i < pattern.len()
        invariant
            from <= to <= chars.len(),
            pattern.len() <= to - from,
            i <= pattern.len(),
            part == chars@.subrange(from as int, to as int),
            forall|k: int| 0 <= k < i ==> pattern@[k] == part[k],
        decreases pattern.len() - i,
    {
        if pattern[i] != chars[from + i] {
            proof {
                assert(part[i as int] == chars@[from + i]);
                if pattern@.is_prefix_of(part) {
                    assert(part.subrange(0, pattern@.len() as int)[i as int] == pattern@[i as int]);
                }
            }
            return false;
        }
        proof {
            assert(part[i as int] == chars@[from + i]);
        }
        i += 1;
    }
    proof {
        assert(pattern@ =~= part.subrange(0, pattern@.len() as int));
    }
    true
}

/// Whether `pattern` occurs somewhere in the text.
pub fn contains_chars(chars: &Vec<char>, pattern: &Vec<char>) -> (found: bool)
    ensures
        found == contains_text(chars@, pattern@),
{
    if pattern.len() > chars.len() {
        return false;
    }
    let last = chars.len() - pattern.len();
    let mut at: usize = 0;
    while at <= last
        invariant
            pattern.len() <= chars.len(),
            last == chars.len() - pattern.len(),
            at <= last + 1,
            forall|k: int| 0 <= k < at ==> !occurs_at(chars@, pattern@, k),
        decreases last + 1 - at,
    {
        if starts_with_at(chars, at, chars.len(), pattern) {
            proof {
                let part = chars@.subrange(at as int, chars.len() as int);
                assert(part.subrange(0, pattern@.len() as int) =~= chars@.subrange(
                    at as int,
                    at + pattern@.len(),
                ));
                assert(occurs_at(chars@, pattern@, at as int));
            }
            return true;
        }
        proof {
            let part = chars@.subrange(at as int, chars.len() as int);
            if occurs_at(chars@, pattern@, at as int) {
                assert(part.subrange(0, pattern@.len() as int) =~= chars@.subrange(
                    at as int,
                    at + pattern@.len(),
                ));
            }
        }
        at += 1;
    }
    false
}

/// The index of the first `c` between `from` and `to`, or `to` where there
/// is none.
pub fn find_char(chars: &Vec<char>, from: usize, to: usize, c: char) -> (at: usize)
    requires
        from <= to <= chars.len(),
    ensures
        from <= at <= to,
        at - from == first_index_of(chars@.subrange(from as int, to as int), c),
{
    let mut at = from;
    while at < to && chars[at] != c
        invariant
            from <= at <= to <= chars.len(),
            first_index_of(chars@.subrange(from as int, to as int), c) == (at - from)
                + first_index_of(chars@.subrange(at as int, to as int), c),
        decreases to - at,
    {
        proof {
            let rest = chars@.subrange(at as int, to as int);
            assert(rest[0] == chars@[at as int]);
            assert(rest.drop_first() =~= chars@.subrange(at + 1, to as int));
        }
        at += 1;
    }
    proof {
        let rest = chars@.subrange(at as int, to as int);
        if at < to {
            assert(rest[0] == chars@[at as int]);
        }
    }
    at
}

/// The index just behind the last `c` between `from` and `to`, or `from`
/// where there is none.
pub fn find_after_last(chars: &Vec<char>, from: usize, to: usize, c: char) -> (at: usize)
    requires
        from <= to <= chars.len(),
    ensures
        from <= at <= to,
        at - from == after_last(chars@.subrange(from as int, to as int), c),
{
    let mut at = to;
    while at > from && chars[at - 1] != c
        invariant
            from <= at <= to <= chars.len(),
            after_last(chars@.subrange(from as int, to as int), c) == after_last(
                chars@.subrange(from as int, at as int),
                c,
            ),
        decreases at - from,
    {
        proof {
            let part = chars@.subrange(from as int, at as int);
            assert(part.last() == chars@[at - 1]);
            assert(part.drop_last() =~= chars@.subrange(from as int, at - 1));
        }
        at -= 1;
    }
    proof {
        let part = chars@.subrange(from as int, at as int);
        if at > from {
            assert(part.last() == chars@[at - 1]);
        }
    }
    at
}

/// The start of the word that holds or ends at index `at`.
pub fn find_word_start(chars: &Vec<char>, at: usize) -> (start: usize)
    requires
        at <= chars.len(),
    ensures
        start <= at,
        start == word_start(chars@, at as int),
{
    let mut start = at;
    while start > 0 && !is_space(chars[start - 1])
        invariant
            start <= at <= chars.len(),
            word_start(chars@, at as int) == word_start(chars@, start as int),
        decreases start,
    {
        start -= 1;
    }
    start
}

/// A text without the copies of `pattern` that it starts with.
pub open spec fn strip_prefixes(s: Seq<char>, pattern: Seq<char>) -> Seq<char>
    decreases s.len(),
{
    if pattern.len() > 0 && pattern.len() <= s.len() && pattern.is_prefix_of(s) {
        strip_prefixes(s.subrange(pattern.len() as int, s.len() as int), pattern)
    } else {
        s
    }
}

/// The index behind the copies of `pattern` that the text between `from`
/// and `to` starts with.
pub fn skip_prefixes(chars: &Vec<char>, from: usize, to: usize, pattern: &Vec<char>) -> (at: usize)
    requires
        from <= to <= chars.len(),
    ensures
        from <= at <= to,
        chars@.subrange(at as int, to as int) == strip_prefixes(
            chars@.subrange(from as int, to as int),
            pattern@,
        ),
{
    let mut at = from;
    if pattern.len() == 0 {
        return at;
    }
    while starts_with_at(chars, at, to, pattern)
        invariant
            from <= at <= to <= chars.len(),
            pattern.len() > 0,
            strip_prefixes(chars@.subrange(from as int, to as int), pattern@) == strip_prefixes(
                chars@.subrange(at as int, to as int),
                pattern@,
            ),
        decreases to - at,
    {
        proof {
            let rest = chars@.subrange(at as int, to as int);
            assert(rest.subrange(pattern@.len() as int, rest.len() as int) =~= chars@.subrange(
                at + pattern@.len(),
                to as int,
            ));
        }
        at += pattern.len();
    }
    at
}

/// A line without the carriage return at its end, if it has one.
pub open spec fn strip_cr(line: Seq<char>) -> Seq<char> {
    if line.len() > 0 && line.last() == '\r' {
        line.drop_last()
    } else {
        line
    }
}

/// The lines of a text. A line ends at a line feed, or at a carriage return
/// directly followed by one; neither belongs to the line. What follows the
/// last line feed is a line of its own, unless nothing follows it.
pub open spec fn lines_of(s: Seq<char>) -> Seq<Seq<char>>
    decreases s.len(),
{
    let feed = first_index_of(s, '\n');
    if s.len() == 0 {
        Seq::empty()
    } else if 0 <= feed < s.len() {
        seq![strip_cr(s.subrange(0, feed))] + lines_of(s.subrange(feed + 1, s.len() as int))
    } else {
        seq![s]
    }
}

/// The texts of a sequence of string slices.
pub open spec fn texts(lines: Seq<&str>) -> Seq<Seq<char>> {
    Seq::new(lines.len(), |i: int| lines[i]@)
}

/// The lines of a text, as slices of it.
pub fn split_lines<'a>(source: &'a str) -> (lines: Vec<&'a str>)
    ensures
        texts(lines@) == lines_of(source@),
{
    let chars = chars_of(source);
    let n = chars.len();
    let mut lines: Vec<&'a str> = Vec::new();
    let mut start: usize = 0;
    proof {
        assert(texts(lines@) =~= Seq::<Seq<char>>::empty());
        assert(source@.subrange(0, n as int) =~= source@);
    }
    while start < n
        invariant
            start <= n,
            n == chars.len(),
            chars@ == source@,
            lines_of(source@) == texts(lines@) + lines_of(source@.subrange(start as int, n as int)),
        decreases n - start,
    {
        let ghost rest = source@.subrange(start as int, n as int);
        let ghost before = lines@;
        let feed = find_char(&chars, start, n, '\n');
        if feed == n {
            let line = source.substring_char(start, n);
            lines.push(line);
            proof {
                assert(lines_of(rest) == seq![rest]);
                assert(texts(lines@) =~= texts(before) + seq![rest]);
                assert(lines_of(source@.subrange(n as int, n as int)) =~= Seq::<Seq<char>>::empty());
                assert(texts(lines@) + Seq::<Seq<char>>::empty() =~= texts(lines@));
            }
            start = n;
        } else {
            let end = if feed > start && chars[feed - 1] == '\r' {
                feed - 1
            } else {
                feed
            };
            let line = source.substring_char(start, end);
            lines.push(line);
            proof {
                let head = rest.subrange(0, feed - start);
                assert(head =~= source@.subrange(start as int, feed as int));
                if feed > start {
                    assert(head.last() == chars@[feed - 1]);
                    assert(head.drop_last() =~= source@.subrange(start as int, feed - 1));
                }
                assert(strip_cr(head) == line@);
                assert(rest.subrange(feed - start + 1, rest.len() as int) =~= source@.subrange(
                    feed + 1,
                    n as int,
                ));
                assert(texts(lines@) =~= texts(before) + seq![line@]);
                assert(texts(before) + (seq![line@] + lines_of(source@.subrange(feed + 1, n as int)))
                    =~= texts(lines@) + lines_of(source@.subrange(feed + 1, n as int)));
            }
            start = feed + 1;
        }
    }
    proof {
        assert(lines_of(source@.subrange(start as int, n as int)) =~= Seq::<Seq<char>>::empty());
        assert(texts(lines@) + Seq::<Seq<char>>::empty() =~= texts(lines@));
    }
    lines
}

/// Lines joined by `separator`.
pub open spec fn joined(lines: Seq<Seq<char>>, separator: Seq<char>) -> Seq<char>
    decreases lines.len(),
{
    if lines.len() == 0 {
        Seq::empty()
    } else if lines.len() == 1 {
        lines[0]
    } else {
        joined(lines.drop_last(), separator) + separator + lines.last()
    }
}

/// Lines joined by `separator`.
pub fn join_lines(lines: &Vec<&str>, separator: &str) -> (text: String)
    ensures
        text@ == joined(texts(lines@), separator@),
{
    let mut text = String::new();
    let mut i: usize = 0;
    while i < lines.len()
        invariant
            i <= lines.len(),
            text@ == joined(texts(lines@).take(i as int), separator@),
        decreases lines.len() - i,
    {
        proof {
            let next = texts(lines@).take(i + 1);
            assert(next.drop_last() =~= texts(lines@).take(i as int));
            assert(next.last() == lines@[i as int]@);
            if i == 0 {
                assert(next[0] == lines@[0]@);
                assert(Seq::<char>::empty() + lines@[0]@ =~= lines@[0]@);
            }
        }
        if i > 0 {
            text.append(separator);
        }
        text.append(lines[i]);
        i += 1;
    }
    proof {
        assert(texts(lines@).take(lines.len() as int) =~= texts(lines@));
    }
    text
}

} // verus!
