//! Specification vocabulary for strings, over sequences of characters.
use vstd::prelude::*;

verus! {

/// `c` with an ASCII upper-case letter turned into its lower-case form.
pub open spec fn ascii_lower_char(c: char) -> char {
    if 'A' <= c <= 'Z' {
        (c as u32 + 32) as char
    } else {
        c
    }
}

/// `s` with every ASCII upper-case letter turned into its lower-case form.
pub open spec fn ascii_lower(s: Seq<char>) -> Seq<char> {
    s.map_values(|c: char| ascii_lower_char(c))
}

/// `s` without one leading byte order mark, if it starts with one.
pub open spec fn strip_bom(s: Seq<char>) -> Seq<char> {
    if s.len() > 0 && s[0] == '\u{FEFF}' {
        s.skip(1)
    } else {
        s
    }
}

/// Whether `needle` stands in `hay` at index `at`.
pub open spec fn occurs_at(hay: Seq<char>, needle: Seq<char>, at: int) -> bool {
    &&& 0 <= at
    &&& at + needle.len() <= hay.len()
    &&& hay.subrange(at, at + needle.len()) == needle
}

/// Whether `needle` stands anywhere in `hay`.
pub open spec fn contains(hay: Seq<char>, needle: Seq<char>) -> bool {
    exists|at: int| #[trigger] occurs_at(hay, needle, at)
}

/// The first character of `s` that satisfies `bad`, if there is one.
pub open spec fn first_match(s: Seq<char>, bad: spec_fn(char) -> bool) -> Option<char>
    decreases s.len(),
{
    if s.len() == 0 {
        None
    } else if bad(s[0]) {
        Some(s[0])
    } else {
        first_match(s.skip(1), bad)
    }
}

/// The texts of `parts` one after the other, with `sep` between two of them.
pub open spec fn joined(parts: Seq<String>, sep: Seq<char>) -> Seq<char>
    decreases parts.len(),
{
    if parts.len() == 0 {
        Seq::empty()
    } else if parts.len() == 1 {
        parts[0]@
    } else {
        joined(parts.drop_last(), sep) + sep + parts.last()@
    }
}

/// A text in lower case has the same characters but for its ASCII capitals, each of which
/// has become the small letter.
pub proof fn law_lower_case_changes_capitals_only(s: Seq<char>, i: int)
    requires
        0 <= i < s.len(),
    ensures
        ascii_lower(s).len() == s.len(),
        'A' <= s[i] <= 'Z' ==> ascii_lower(s)[i] as int == s[i] as int + 32,
        !('A' <= s[i] <= 'Z') ==> ascii_lower(s)[i] == s[i],
{
}

/// A text with something in front of it and behind it still stands in the whole.
pub proof fn lemma_middle_is_contained(front: Seq<char>, middle: Seq<char>, back: Seq<char>)
    ensures
        contains(front + middle + back, middle),
{
    let whole = front + middle + back;
    let at = front.len() as int;
    assert(whole.subrange(at, at + middle.len()) =~= middle);
    assert(occurs_at(whole, middle, at));
}

/// What stands in a part stands in the whole.
pub proof fn lemma_contains_in_larger(
    needle: Seq<char>,
    front: Seq<char>,
    middle: Seq<char>,
    back: Seq<char>,
)
    requires
        contains(middle, needle),
    ensures
        contains(front + middle + back, needle),
{
    let at = choose|at: int| #[trigger] occurs_at(middle, needle, at);
    let whole = front + middle + back;
    let there = front.len() + at;
    assert(whole.subrange(there, there + needle.len()) =~= middle.subrange(
        at,
        at + needle.len(),
    ));
    assert(occurs_at(whole, needle, there));
}

/// Each part stands in the joined text.
pub proof fn lemma_joined_contains_each(parts: Seq<String>, sep: Seq<char>, i: int)
    requires
        0 <= i < parts.len(),
    ensures
        contains(joined(parts, sep), parts[i]@),
    decreases parts.len(),
{
    let none = Seq::<char>::empty();
    if parts.len() == 1 {
        lemma_middle_is_contained(none, parts[0]@, none);
        assert(none + parts[0]@ + none =~= parts[0]@);
    } else if i == parts.len() - 1 {
        let front = joined(parts.drop_last(), sep) + sep;
        lemma_middle_is_contained(front, parts[i]@, none);
        assert(front + parts[i]@ + none =~= front + parts[i]@);
    } else {
        let front = joined(parts.drop_last(), sep);
        assert(parts.drop_last()[i] == parts[i]);
        lemma_joined_contains_each(parts.drop_last(), sep, i);
        lemma_contains_in_larger(parts[i]@, none, front, sep + parts.last()@);
        assert(none + front + (sep + parts.last()@) =~= front + sep + parts.last()@);
    }
}

/// Joins `parts` with `sep` between two of them.
pub fn join(parts: &Vec<String>, sep: &str) -> (res: String)
    ensures
        res@ == joined(parts@, sep@),
{
    let mut res = String::new();
    let mut i: usize = 0;
    while i < parts.len()
        invariant
            i <= parts@.len(),
            res@ == joined(parts@.take(i as int), sep@),
        decreases parts@.len() - i,
    {
        if i > 0 {
            res.append(sep);
        }
        res.append(parts[i].as_str());
        proof {
            let next = parts@.take(i + 1);
            assert(next.drop_last() =~= parts@.take(i as int));
            assert(next.last() == parts@[i as int]);
        }
        i = i + 1;
    }
    assert(parts@.take(parts@.len() as int) =~= parts@);
    res
}

} // verus!
