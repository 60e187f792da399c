//! Grapheme-cluster segmentation of lines.
//!
//! A line of text is edited as a sequence of grapheme clusters, each held as
//! its own small `String`.  Splitting a stored line into clusters is done by
//! the `unicode-segmentation` crate and is the one operation here taken on
//! trust; joining the clusters back into a line is verified.

use unicode_segmentation::UnicodeSegmentation;
use vstd::prelude::*;

verus! {

/// The extended grapheme clusters of a string, in order.  This names the
/// result of `unicode-segmentation`'s segmentation; what is known of it is
/// stated on `split_graphemes`.
pub uninterp spec fn graphemes_of(s: Seq<char>) -> Seq<Seq<char>>;

/// The concatenation of a sequence of grapheme clusters.
pub open spec fn joined(gs: Seq<Seq<char>>) -> Seq<char>
    decreases gs.len(),
{
    if gs.len() == 0 {
        Seq::empty()
    } else {
        joined(gs.drop_last()) + gs.last()
    }
}

/// Relies on `unicode_segmentation::UnicodeSegmentation::graphemes` with
/// extended clusters: it yields the grapheme clusters of `s`, in order; they
/// are non-empty substrings whose concatenation is `s` itself.
#[verifier::external_body]
pub fn split_graphemes(s: &str) -> (r: Vec<String>)
    ensures
        r.deep_view() == graphemes_of(s@),
        joined(r.deep_view()) == s@,
        forall|i: int| 0 <= i < r.deep_view().len() ==> r.deep_view()[i].len() > 0,
{
    s.graphemes(true).map(|g| g.to_owned()).collect()
}

/// Relies on `char::to_string` (via `ToString`): the returned string holds
/// exactly the one character.
#[verifier::external_body]
pub fn char_to_string(c: char) -> (r: String)
    ensures
        r@ == seq![c],
{
    c.to_string()
}

/// Relies on `String::push`: it appends the character at the end.
#[verifier::external_body]
pub fn push_char(s: &mut String, c: char)
    ensures
        final(s)@ == old(s)@.push(c),
{
    s.push(c);
}

/// Joins grapheme clusters back into one line of text.
pub fn join_graphemes(gs: &Vec<String>) -> (r: String)
    ensures
        r@ == joined(gs.deep_view()),
{
    let mut r = String::new();
    let mut i: usize = 0;
    while i < gs.len()
        invariant
            i <= gs.len(),
            r@ == joined(gs.deep_view().subrange(0, i as int)),
        decreases gs.len() - i,
    {
        r.append(gs[i].as_str());
        proof {
            let dv = gs.deep_view();
            assert(dv.subrange(0, i + 1).drop_last() =~= dv.subrange(0, i as int));
            assert(dv.subrange(0, i + 1).last() == dv[i as int]);
        }
        i = i + 1;
    }
    proof {
        assert(gs.deep_view().subrange(0, gs.len() as int) =~= gs.deep_view());
    }
    r
}

} // verus!
