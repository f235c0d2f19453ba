//! Mathematical views of owned text values, and the small text helpers that
//! the command types share.
use vstd::prelude::*;

verus! {

/// The characters of each string in a sequence of owned strings.
pub open spec fn text_seq(v: Seq<String>) -> Seq<Seq<char>> {
    v.map_values(|s: String| s@)
}

/// The characters of an optional owned string.
pub open spec fn opt_text(o: Option<String>) -> Option<Seq<char>> {
    match o {
        Some(s) => Some(s@),
        None => None,
    }
}

/// The characters of an optional borrowed string.
pub open spec fn opt_str_text(o: Option<&str>) -> Option<Seq<char>> {
    match o {
        Some(s) => Some(s@),
        None => None,
    }
}

/// Borrows the contents of an optional owned string.
pub fn opt_as_str(o: &Option<String>) -> (r: Option<&str>)
    ensures
        opt_str_text(r) == opt_text(*o),
{
    match o {
        Some(s) => Some(s.as_str()),
        None => None,
    }
}

/// Copies an optional borrowed string into an owned one.
pub fn opt_to_owned(o: Option<&str>) -> (r: Option<String>)
    ensures
        opt_text(r) == opt_str_text(o),
{
    match o {
        Some(s) => Some(s.to_owned()),
        None => None,
    }
}

/// Whether `list` holds a string equal to `item`.
pub fn contains_text(list: &Vec<String>, item: &String) -> (r: bool)
    ensures
        r == text_seq(list@).contains(item@),
{
    let n = list.len();
    let mut i: usize = 0;
    while i < n
        invariant
            n == list@.len(),
            0 <= i <= n,
            forall|j: int| 0 <= j < i ==> list@[j]@ != item@,
        decreases n - i,
    {
        if list[i] == *item {
            assert(text_seq(list@)[i as int] == item@);
            return true;
        }
        i = i + 1;
    }
    assert forall|k: int| 0 <= k < text_seq(list@).len() implies text_seq(list@)[k] != item@ by {
        assert(text_seq(list@)[k] == list@[k]@);
    }
    false
}

/// Appending a string appends its characters to the view.
pub proof fn lemma_text_seq_push(v: Seq<String>, s: String)
    ensures
        text_seq(v.push(s)) == text_seq(v).push(s@),
{
    assert(text_seq(v.push(s)) =~= text_seq(v).push(s@));
}

} // verus!
