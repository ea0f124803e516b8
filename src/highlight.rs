use vstd::prelude::*;

use crate::text::{chars_of, find_chars, first_occurrence_from};

verus! {

/// What `str::to_lowercase` makes of a string.
pub uninterp spec fn lower_of(s: Seq<char>) -> Seq<char>;

/// Relies on `str::to_lowercase`: the result depends on the characters
/// alone, and an empty string stays empty.
#[verifier::external_body]
fn lowercase(s: &str) -> (r: String)
    ensures
        r@ == lower_of(s@),
        s@.len() == 0 ==> r@.len() == 0,
{
    s.to_lowercase()
}

/// The character range to emphasise, given the lowercased text and query
/// and the length of the text as shown: the first occurrence of the query,
/// when it lies within the shown text.
pub open spec fn folded_span(lower_text: Seq<char>, lower_query: Seq<char>, len: nat) -> Option<
    (int, int),
> {
    match first_occurrence_from(lower_text, lower_query, 0) {
        Some(a) => if a + lower_query.len() <= len {
            Some((a, a + lower_query.len()))
        } else {
            None
        },
        None => None,
    }
}

/// A title split for display, with the part matching the query emphasised.
#[derive(Clone, Debug)]
pub enum Highlighted {
    Plain(String),
    Marked { before: String, matched: String, after: String },
}

/// The range given by [`folded_span`], from the lowercased text and query.
pub fn span_in_folded(lower_text: &str, lower_query: &str, len: usize) -> (r: Option<(usize, usize)>)
    ensures
        r matches Some((a, b)) ==> folded_span(lower_text@, lower_query@, len as nat) == Some(
            (a as int, b as int),
        ),
        r is None ==> folded_span(lower_text@, lower_query@, len as nat) is None,
{
    let t = chars_of(lower_text);
    let q = chars_of(lower_query);
    match find_chars(&t, &q) {
        Some(a) => {
            if q.len() <= len && a <= len - q.len() {
                Some((a, a + q.len()))
            } else {
                None
            }
        },
        None => None,
    }
}

/// The display form of `text` for `query`: plain when the query is empty or
/// does not occur (ignoring case), else split round its first occurrence.
pub fn build_highlighted_item(text: &str, query: &str) -> (r: Highlighted)
    ensures
        match (if query@.len() == 0 {
            None
        } else {
            folded_span(lower_of(text@), lower_of(query@), text@.len())
        }) {
            None => (r matches Highlighted::Plain(s) && s@ == text@),
            Some((a, b)) => (r matches Highlighted::Marked { before, matched, after } && before@
                == text@.subrange(0, a) && matched@ == text@.subrange(a, b) && after@
                == text@.subrange(b, text@.len() as int)),
        },
{
    if query.unicode_len() == 0 {
        return Highlighted::Plain(String::from_str(text));
    }
    let lower_text = lowercase(text);
    let lower_query = lowercase(query);
    let len = text.unicode_len();
    match span_in_folded(lower_text.as_str(), lower_query.as_str(), len) {
        Some((a, b)) => {
            proof {
                assert(0 <= a <= b <= text@.len());
            }
            Highlighted::Marked {
                before: String::from_str(text.substring_char(0, a)),
                matched: String::from_str(text.substring_char(a, b)),
                after: String::from_str(text.substring_char(b, len)),
            }
        },
        None => Highlighted::Plain(String::from_str(text)),
    }
}

} // verus!
