//! Character-level helpers on strings: splitting at a separator, replacing
//! one character by another and comparing with a literal.
use vstd::prelude::*;
use vstd::string::*;

verus! {

/// Index of the first occurrence of `c` in `s` at or after `from`, or the
/// length of `s` when there is none.
pub open spec fn find_from(s: Seq<char>, from: int, c: char) -> int
    decreases s.len() - from,
{
    if from >= s.len() {
        s.len() as int
    } else if s[from] == c {
        from
    } else {
        find_from(s, from + 1, c)
    }
}

/// The pieces of `s` from position `from` on, cut at every `sep`.
pub open spec fn split_from(s: Seq<char>, from: int, sep: char) -> Seq<Seq<char>>
    decreases s.len() - from,
{
    let end = find_from(s, from, sep);
    if from < 0 || from > s.len() || end >= s.len() || end < from {
        seq![s.subrange(from, s.len() as int)]
    } else {
        seq![s.subrange(from, end)] + split_from(s, end + 1, sep)
    }
}

/// The pieces of `s` cut at every `sep`: never empty, one more than the
/// number of separators.
pub open spec fn split_on(s: Seq<char>, sep: char) -> Seq<Seq<char>> {
    split_from(s, 0, sep)
}

/// `s` with every `from` replaced by `to`.
pub open spec fn replace_char(s: Seq<char>, from: char, to: char) -> Seq<char> {
    s.map_values(|x: char| if x == from { to } else { x })
}

pub proof fn lemma_find_from_bounds(s: Seq<char>, from: int, c: char)
    requires
        0 <= from <= s.len(),
    ensures
        from <= find_from(s, from, c) <= s.len(),
        find_from(s, from, c) < s.len() ==> s[find_from(s, from, c)] == c,
    decreases s.len() - from,
{
    if from < s.len() && s[from] != c {
        lemma_find_from_bounds(s, from + 1, c);
    }
}

/// The first piece of a split runs up to the first separator; a second
/// piece exists exactly when a separator does.
pub proof fn lemma_split_from_head(s: Seq<char>, from: int, sep: char)
    requires
        0 <= from <= s.len(),
    ensures
        split_from(s, from, sep).len() >= 1,
        split_from(s, from, sep)[0] == s.subrange(from, find_from(s, from, sep)),
        split_from(s, from, sep).len() >= 2 <==> find_from(s, from, sep) < s.len(),
        find_from(s, from, sep) < s.len() ==> split_from(s, from, sep).drop_first()
            == split_from(s, find_from(s, from, sep) + 1, sep),
{
    lemma_find_from_bounds(s, from, sep);
    let end = find_from(s, from, sep);
    if end < s.len() {
        assert(split_from(s, end + 1, sep).len() >= 1);
        assert(split_from(s, from, sep).drop_first() =~= split_from(s, end + 1, sep));
    }
}

/// Position of the first `c` in `s` at or after `from`, or the length of `s`.
pub fn find_char(s: &str, len: usize, from: usize, c: char) -> (r: usize)
    requires
        len == s@.len(),
        from <= len,
    ensures
        r == find_from(s@, from as int, c),
{
    let mut i = from;
    while i < len
        invariant
            len == s@.len(),
            from <= i <= len,
            find_from(s@, from as int, c) == find_from(s@, i as int, c),
        decreases len - i,
    {
        if s.get_char(i) == c {
            return i;
        }
        i = i + 1;
    }
    i
}

/// Cuts `s` at every `sep`, as `str::split` does with a character.
pub fn split_str(s: &str, sep: char) -> (r: Vec<String>)
    ensures
        r.deep_view() == split_on(s@, sep),
{
    let len = s.unicode_len();
    let mut parts: Vec<String> = Vec::new();
    let mut from: usize = 0;
    loop
        invariant
            len == s@.len(),
            from <= len,
            parts.deep_view() + split_from(s@, from as int, sep) == split_on(s@, sep),
        decreases len - from,
    {
        let end = find_char(s, len, from, sep);
        proof {
            lemma_find_from_bounds(s@, from as int, sep);
            lemma_split_from_head(s@, from as int, sep);
        }
        let piece = String::from_str(s.substring_char(from, end));
        let ghost before = parts.deep_view();
        parts.push(piece);
        assert(parts.deep_view() =~= before.push(piece@));
        if end == len {
            assert(split_from(s@, from as int, sep) =~= seq![piece@]);
            assert(parts.deep_view() =~= before + split_from(s@, from as int, sep));
            return parts;
        }
        assert(split_from(s@, from as int, sep) =~= seq![piece@] + split_from(
            s@,
            end + 1,
            sep,
        ));
        assert(parts.deep_view() + split_from(s@, end + 1, sep) =~= before + split_from(
            s@,
            from as int,
            sep,
        ));
        from = end + 1;
    }
}

/// Whether `a` and `b` hold the same characters.
pub fn str_eq(a: &str, b: &str) -> (r: bool)
    ensures
        r == (a@ == b@),
{
    let n = a.unicode_len();
    if n != b.unicode_len() {
        return false;
    }
    let mut i: usize = 0;
    while i < n
        invariant
            n == a@.len(),
            n == b@.len(),
            i <= n,
            a@.subrange(0, i as int) == b@.subrange(0, i as int),
        decreases n - i,
    {
        if a.get_char(i) != b.get_char(i) {
            return false;
        }
        assert(a@.subrange(0, i + 1) =~= a@.subrange(0, i as int).push(a@[i as int]));
        assert(b@.subrange(0, i + 1) =~= b@.subrange(0, i as int).push(b@[i as int]));
        i = i + 1;
    }
    assert(a@ =~= a@.subrange(0, n as int));
    assert(b@ =~= b@.subrange(0, n as int));
    true
}

/// `s` with each `from` replaced by the one character of `to`, as
/// `str::replace` does.
pub fn replace_str(s: &str, from: char, to: &str) -> (r: String)
    requires
        to@.len() == 1,
    ensures
        r@ == replace_char(s@, from, to@[0]),
{
    let n = s.unicode_len();
    let mut out = String::new();
    let mut i: usize = 0;
    while i < n
        invariant
            n == s@.len(),
            i <= n,
            to@.len() == 1,
            out@ == replace_char(s@.subrange(0, i as int), from, to@[0]),
        decreases n - i,
    {
        let c = s.get_char(i);
        if c == from {
            out.append(to);
        } else {
            out.append(s.substring_char(i, i + 1));
        }
        assert(replace_char(s@.subrange(0, i + 1), from, to@[0]) =~= replace_char(
            s@.subrange(0, i as int),
            from,
            to@[0],
        ) + seq![if c == from { to@[0] } else { c }]);
        i = i + 1;
    }
    assert(s@ =~= s@.subrange(0, n as int));
    out
}

/// A character that may stand between the `{{` that opens a tag and the
/// `>` of a partial call: blanks, the whitespace omitter `~`, the `#` of a
/// partial block, and a further brace.
pub open spec fn is_tag_filler(c: char) -> bool {
    c == ' ' || c == '\t' || c == '\n' || c == '\r' || c == '~' || c == '#' || c == '{'
}

/// Index of the first character at or after `from` that is no tag filler,
/// or the length of `t`.
pub open spec fn skip_tag_filler(t: Seq<char>, from: int) -> int
    decreases t.len() - from,
{
    if from < 0 || from >= t.len() {
        t.len() as int
    } else if is_tag_filler(t[from]) {
        skip_tag_filler(t, from + 1)
    } else {
        from
    }
}

/// Whether a tag opened at `i` calls a partial (`{{> name}}`,
/// `{{~> name}}`, `{{#> name}}`).
pub open spec fn partial_call_at(t: Seq<char>, i: int) -> bool {
    &&& 0 <= i
    &&& i + 1 < t.len()
    &&& t[i] == '{'
    &&& t[i + 1] == '{'
    &&& skip_tag_filler(t, i + 2) < t.len()
    &&& t[skip_tag_filler(t, i + 2)] == '>'
}

/// Whether a template calls a partial anywhere. Such templates go beyond
/// substituting fields, and a partial that calls itself never ends.
pub open spec fn has_partial_call(t: Seq<char>) -> bool {
    exists|i: int| partial_call_at(t, i)
}

/// The first character at or after `from` that is no tag filler.
fn skip_filler(t: &str, len: usize, from: usize) -> (r: usize)
    requires
        len == t@.len(),
        from <= len,
    ensures
        r == skip_tag_filler(t@, from as int),
{
    let mut i = from;
    while i < len
        invariant
            len == t@.len(),
            from <= i <= len,
            skip_tag_filler(t@, from as int) == skip_tag_filler(t@, i as int),
        decreases len - i,
    {
        let c = t.get_char(i);
        if !(c == ' ' || c == '\t' || c == '\n' || c == '\r' || c == '~' || c == '#' || c == '{') {
            return i;
        }
        i = i + 1;
    }
    i
}

/// Whether the template `t` calls a partial anywhere.
pub fn template_has_partial_call(t: &str) -> (r: bool)
    ensures
        r == has_partial_call(t@),
{
    let len = t.unicode_len();
    let mut i: usize = 0;
    while i < len
        invariant
            len == t@.len(),
            i <= len,
            forall|k: int| 0 <= k < i ==> !partial_call_at(t@, k),
        decreases len - i,
    {
        if i + 1 < len && t.get_char(i) == '{' && t.get_char(i + 1) == '{' {
            let j = skip_filler(t, len, i + 2);
            if j < len && t.get_char(j) == '>' {
                assert(partial_call_at(t@, i as int));
                return true;
            }
        }
        assert(!partial_call_at(t@, i as int));
        i = i + 1;
    }
    assert forall|k: int| !partial_call_at(t@, k) by {
        if 0 <= k < i {
        }
    }
    false
}

} // verus!
