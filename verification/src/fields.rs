//! Lines of text cut into fields at a separator character.

use vstd::prelude::*;

verus! {

/// Where `sep` first stands in `s`; `s.len()` where `s` does not hold it.
pub open spec fn first_index(s: Seq<char>, sep: char) -> nat
    decreases s.len(),
{
    if s.len() == 0 || s[0] == sep {
        0
    } else {
        1 + first_index(s.drop_first(), sep)
    }
}

/// The fields of `s`: the stretches between one `sep` and the next, the
/// separators themselves left out. A text without `sep` is one field, and so
/// is the empty text; `n` separators make `n + 1` fields, empty ones included.
pub open spec fn split(s: Seq<char>, sep: char) -> Seq<Seq<char>>
    decreases s.len(),
{
    let at = first_index(s, sep) as int;
    if at < s.len() {
        seq![s.take(at)] + split(s.skip(at + 1), sep)
    } else {
        seq![s]
    }
}

/// `first_index` stays within the text, lands on a separator unless it runs
/// off the end, and passes over none on its way.
pub proof fn lemma_first_index(s: Seq<char>, sep: char)
    ensures
        first_index(s, sep) <= s.len(),
        first_index(s, sep) < s.len() ==> s[first_index(s, sep) as int] == sep,
        forall|j: int| 0 <= j < first_index(s, sep) ==> s[j] != sep,
    decreases s.len(),
{
    if s.len() != 0 && s[0] != sep {
        let rest = s.drop_first();
        lemma_first_index(rest, sep);
        assert forall|j: int| 0 <= j < first_index(s, sep) implies s[j] != sep by {
            if j > 0 {
                assert(s[j] == rest[j - 1]);
            }
        }
    }
}

/// A position that no separator precedes, and that holds one or is the end of
/// the text, is the one `first_index` names.
pub proof fn lemma_first_index_unique(s: Seq<char>, sep: char, at: int)
    requires
        0 <= at <= s.len(),
        at < s.len() ==> s[at] == sep,
        forall|j: int| 0 <= j < at ==> s[j] != sep,
    ensures
        first_index(s, sep) == at,
{
    lemma_first_index(s, sep);
}

/// Every text has a first field; a text that holds a separator has a second.
pub proof fn lemma_split_len(s: Seq<char>, sep: char)
    ensures
        split(s, sep).len() >= 1,
        first_index(s, sep) < s.len() ==> split(s, sep).len() >= 2,
    decreases s.len(),
{
    let at = first_index(s, sep) as int;
    if at < s.len() {
        lemma_split_len(s.skip(at + 1), sep);
    }
}

/// A text is cut into exactly two fields when it holds one separator and no
/// more; the fields are then what stands before it and what stands after it.
pub proof fn lemma_split_pair(s: Seq<char>, sep: char)
    ensures
        ({
            let at = first_index(s, sep) as int;
            let rest = s.skip(at + 1);
            &&& split(s, sep).len() == 2 <==> at < s.len() && first_index(rest, sep) == rest.len()
            &&& split(s, sep).len() == 2 ==> split(s, sep) == seq![s.take(at), rest]
        }),
{
    let at = first_index(s, sep) as int;
    lemma_first_index(s, sep);
    if at < s.len() {
        let rest = s.skip(at + 1);
        lemma_first_index(rest, sep);
        lemma_split_len(rest, sep);
        if first_index(rest, sep) == rest.len() {
            assert(split(s, sep) =~= seq![s.take(at), rest]);
        }
    }
}

/// The characters of `text`, in order.
pub fn characters(text: &str) -> (out: Vec<char>)
    ensures
        out@ == text@,
{
    let mut out: Vec<char> = Vec::new();
    for c in it: text.chars()
        invariant
            it.seq() == text@,
            out@ == text@.take(it.index()),
    {
        out.push(c);
        assert(text@.take(it.index() + 1) == text@.take(it.index()).push(c));
    }
    assert(text@.take(text@.len() as int) == text@);
    out
}

/// The first place at or after `from` where `sep` stands in `s`, or the length
/// of `s` where none does.
pub fn find_first(s: &[char], from: usize, sep: char) -> (at: usize)
    requires
        from <= s.len(),
    ensures
        from <= at <= s.len(),
        at == from + first_index(s@.skip(from as int), sep),
{
    let mut at: usize = from;
    while at < s.len() && s[at] != sep
        invariant
            from <= at <= s.len(),
            forall|j: int| from <= j < at ==> s[j] != sep,
        decreases s.len() - at,
    {
        at += 1;
    }
    proof {
        lemma_first_index_unique(s@.skip(from as int), sep, at - from);
    }
    at
}

/// The place of the separator in a text of exactly two fields, and `None` for
/// a text of one field or of three and more.
pub fn sole_separator(s: &[char], sep: char) -> (at: Option<usize>)
    ensures
        at is Some <==> split(s@, sep).len() == 2,
        at matches Some(i) ==> {
            &&& i < s.len()
            &&& s[i as int] == sep
            &&& split(s@, sep) == seq![s@.take(i as int), s@.skip(i + 1)]
        },
{
    let first = find_first(s, 0, sep);
    proof {
        assert(s@.skip(0) =~= s@);
        lemma_first_index(s@, sep);
        lemma_split_pair(s@, sep);
    }
    if first >= s.len() {
        return None;
    }
    let second = find_first(s, first + 1, sep);
    if second < s.len() {
        None
    } else {
        Some(first)
    }
}

} // verus!
