//! Verified character-level text operations.
//!
//! The launcher's data (feature tags, file names, lines of a platform
//! descriptor file) is plain text, so detection and selection rest on a few
//! small string operations. Each executable function here is specified
//! against a direct mathematical definition over `Seq<char>`.

use vstd::prelude::*;

verus! {

/// Relies on std's `String::push`: appends exactly the given character.
pub assume_specification[ String::push ](s: &mut String, ch: char)
    ensures
        final (s)@ == old(s)@.push(ch),
;

/// A character replaced by the tag-normalization rule: `'.'` becomes `'_'`,
/// every other character stays.
pub open spec fn normalize_char(c: char) -> char {
    if c == '.' {
        '_'
    } else {
        c
    }
}

/// A feature tag after separator normalization (`"sse4.2"` and `"sse4_2"`
/// normalize to the same text).
pub open spec fn normalize_spec(s: Seq<char>) -> Seq<char> {
    s.map_values(|c: char| normalize_char(c))
}

/// Whether `p` is a prefix of `s`.
pub open spec fn starts_with_spec(s: Seq<char>, p: Seq<char>) -> bool {
    p.len() <= s.len() && s.take(p.len() as int) == p
}

/// The pieces of `s` between occurrences of the separator `sep`.
///
/// Mirrors the splitting convention of the standard library: an empty input
/// yields one empty piece, and a trailing separator yields a trailing empty
/// piece.
pub open spec fn split_spec(s: Seq<char>, sep: char) -> Seq<Seq<char>>
    decreases s.len(),
{
    if s.len() == 0 {
        seq![Seq::<char>::empty()]
    } else {
        let rest = split_spec(s.drop_last(), sep);
        if s.last() == sep {
            rest.push(Seq::<char>::empty())
        } else {
            rest.drop_last().push(rest.last().push(s.last()))
        }
    }
}

/// The whitespace characters stripped by trimming.
pub open spec fn is_space(c: char) -> bool {
    c == ' ' || c == '\t' || c == '\n' || c == '\r'
}

/// `s` with its leading whitespace removed.
pub open spec fn trim_start_spec(s: Seq<char>) -> Seq<char>
    decreases s.len(),
{
    if s.len() > 0 && is_space(s.first()) {
        trim_start_spec(s.drop_first())
    } else {
        s
    }
}

/// `s` with its trailing whitespace removed.
pub open spec fn trim_end_spec(s: Seq<char>) -> Seq<char>
    decreases s.len(),
{
    if s.len() > 0 && is_space(s.last()) {
        trim_end_spec(s.drop_last())
    } else {
        s
    }
}

/// `s` with both leading and trailing whitespace removed.
pub open spec fn trim_spec(s: Seq<char>) -> Seq<char> {
    trim_end_spec(trim_start_spec(s))
}

/// The pieces joined into one text, with `sep` between adjacent pieces.
pub open spec fn join_spec(parts: Seq<Seq<char>>, sep: Seq<char>) -> Seq<char>
    decreases parts.len(),
{
    if parts.len() == 0 {
        Seq::<char>::empty()
    } else if parts.len() == 1 {
        parts[0]
    } else {
        join_spec(parts.drop_last(), sep) + sep + parts.last()
    }
}

/// Compares two string slices character by character.
pub fn str_eq(a: &str, b: &str) -> (r: bool)
    ensures
        r == (a@ == b@),
{
    let a_len = a.unicode_len();
    let b_len = b.unicode_len();
    if a_len != b_len {
        return false;
    }
    let mut i: usize = 0;
    while i < a_len
        invariant
            i <= a_len,
            a_len == a@.len(),
            a_len == b@.len(),
            forall|j: int| 0 <= j < i ==> a@[j] == b@[j],
        decreases a_len - i,
    {
        if a.get_char(i) != b.get_char(i) {
            return false;
        }
        i = i + 1;
    }
    proof {
        assert(a@ =~= b@);
    }
    true
}

/// Whether `s` starts with the prefix `p`.
pub fn starts_with(s: &str, p: &str) -> (r: bool)
    ensures
        r == starts_with_spec(s@, p@),
{
    let s_len = s.unicode_len();
    let p_len = p.unicode_len();
    if p_len > s_len {
        return false;
    }
    let mut i: usize = 0;
    while i < p_len
        invariant
            i <= p_len,
            p_len == p@.len(),
            p_len <= s@.len(),
            forall|j: int| 0 <= j < i ==> s@[j] == p@[j],
        decreases p_len - i,
    {
        if s.get_char(i) != p.get_char(i) {
            proof {
                assert(s@.take(p@.len() as int)[i as int] == s@[i as int]);
            }
            return false;
        }
        i = i + 1;
    }
    proof {
        assert(s@.take(p@.len() as int) =~= p@);
    }
    true
}

/// Splits `s` into the pieces between occurrences of `sep`.
pub fn split_char(s: &str, sep: char) -> (r: Vec<String>)
    ensures
        r@.map_values(|t: String| t@) == split_spec(s@, sep),
{
    let len = s.unicode_len();
    let mut parts: Vec<String> = Vec::new();
    let mut cur = String::new();
    let mut i: usize = 0;
    while i < len
        invariant
            i <= len,
            len == s@.len(),
            parts@.map_values(|t: String| t@).push(cur@) == split_spec(s@.take(i as int), sep),
        decreases len - i,
    {
        let c = s.get_char(i);
        proof {
            assert(s@.take(i + 1).drop_last() =~= s@.take(i as int));
            assert(s@.take(i + 1).last() == s@[i as int]);
        }
        if c == sep {
            parts.push(cur);
            cur = String::new();
            proof {
                assert(parts@.map_values(|t: String| t@).push(cur@) =~~= split_spec(
                    s@.take(i + 1),
                    sep,
                ));
            }
        } else {
            cur.push(c);
            proof {
                assert(parts@.map_values(|t: String| t@).push(cur@) =~~= split_spec(
                    s@.take(i + 1),
                    sep,
                ));
            }
        }
        i = i + 1;
    }
    parts.push(cur);
    proof {
        assert(s@.take(len as int) =~= s@);
        assert(parts@.map_values(|t: String| t@) =~~= split_spec(s@, sep));
    }
    parts
}

/// Rewrites a feature tag to its normalized form, replacing `'.'` with `'_'`.
pub fn normalize_tag(s: &str) -> (r: String)
    ensures
        r@ == normalize_spec(s@),
{
    let len = s.unicode_len();
    let mut r = String::new();
    let mut i: usize = 0;
    while i < len
        invariant
            i <= len,
            len == s@.len(),
            r@ == normalize_spec(s@.take(i as int)),
        decreases len - i,
    {
        let c = s.get_char(i);
        if c == '.' {
            r.push('_');
        } else {
            r.push(c);
        }
        proof {
            assert(r@ =~= normalize_spec(s@.take(i + 1)));
        }
        i = i + 1;
    }
    proof {
        assert(s@.take(len as int) =~= s@);
    }
    r
}

/// Whether `c` is one of the whitespace characters stripped by trimming.
pub fn is_space_char(c: char) -> (r: bool)
    ensures
        r == is_space(c),
{
    c == ' ' || c == '\t' || c == '\n' || c == '\r'
}

/// Skipping a fully-whitespace prefix does not change the trimmed-start text.
proof fn lemma_trim_start_skip(s: Seq<char>, i: int)
    requires
        0 <= i <= s.len(),
        forall|j: int| 0 <= j < i ==> is_space(s[j]),
    ensures
        trim_start_spec(s) == trim_start_spec(s.skip(i)),
    decreases i,
{
    if i > 0 {
        assert(is_space(s.first()));
        assert(s.drop_first() =~= s.skip(1));
        lemma_trim_start_skip(s.drop_first(), i - 1);
        assert(s.drop_first().skip(i - 1) =~= s.skip(i));
    } else {
        assert(s.skip(0) =~= s);
    }
}

/// Dropping a fully-whitespace suffix does not change the trimmed-end text.
proof fn lemma_trim_end_take(s: Seq<char>, i: int)
    requires
        0 <= i <= s.len(),
        forall|j: int| i <= j < s.len() ==> is_space(s[j]),
    ensures
        trim_end_spec(s) == trim_end_spec(s.take(i)),
    decreases s.len() - i,
{
    if i < s.len() {
        assert(is_space(s.last()));
        assert(s.drop_last() =~= s.take(s.len() - 1));
        lemma_trim_end_take(s.drop_last(), i);
        assert(s.drop_last().take(i) =~= s.take(i));
    } else {
        assert(s.take(s.len() as int) =~= s);
    }
}

/// Removes leading and trailing whitespace from `s`.
pub fn trim(s: &str) -> (r: String)
    ensures
        r@ == trim_spec(s@),
{
    let len = s.unicode_len();
    let mut start: usize = 0;
    while start < len && is_space_char(s.get_char(start))
        invariant
            start <= len,
            len == s@.len(),
            forall|j: int| 0 <= j < start ==> is_space(s@[j]),
        decreases len - start,
    {
        start = start + 1;
    }
    proof {
        lemma_trim_start_skip(s@, start as int);
    }
    if start == len {
        proof {
            assert(s@.skip(len as int) =~= Seq::<char>::empty());
        }
        return String::new();
    }
    // The character at `start` is not whitespace, so trimming the start of the
    // suffix leaves it unchanged.
    proof {
        assert(s@.skip(start as int).first() == s@[start as int]);
        assert(trim_start_spec(s@.skip(start as int)) == s@.skip(start as int));
    }
    let mut end: usize = len;
    while end > start && is_space_char(s.get_char(end - 1))
        invariant
            start <= end <= len,
            len == s@.len(),
            forall|j: int| end <= j < len ==> is_space(s@[j]),
        decreases end,
    {
        end = end - 1;
    }
    proof {
        let t = s@.skip(start as int);
        lemma_trim_end_take(t, end - start);
        assert(!is_space(s@[start as int]));
        assert(t.take(end - start).last() == s@[end - 1]);
        assert(trim_end_spec(t.take(end - start)) == t.take(end - start));
        assert(t.take(end - start) =~= s@.subrange(start as int, end as int));
    }
    let piece = s.substring_char(start, end);
    String::from_str(piece)
}

/// Joins the given pieces into one text, separated by `sep`.
pub fn join_with(parts: &Vec<String>, sep: &str) -> (r: String)
    ensures
        r@ == join_spec(parts@.map_values(|t: String| t@), sep@),
{
    let ghost m = parts@.map_values(|t: String| t@);
    let mut r = String::new();
    let mut i: usize = 0;
    while i < parts.len()
        invariant
            i <= parts@.len(),
            m == parts@.map_values(|t: String| t@),
            r@ == join_spec(m.take(i as int), sep@),
        decreases parts@.len() - i,
    {
        if i > 0 {
            r.append(sep);
        }
        r.append(parts[i].as_str());
        proof {
            assert(m.take(i + 1).drop_last() =~= m.take(i as int));
            assert(m.take(i + 1).last() == m[i as int]);
        }
        i = i + 1;
    }
    proof {
        assert(m.take(parts@.len() as int) =~= m);
    }
    r
}

} // verus!
