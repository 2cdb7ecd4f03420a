//! One record returned by the remote search API, and the mapping from its
//! single-letter rating code to a [`Rating`].

use vstd::prelude::*;

use crate::rating::Rating;

verus! {

/// One media submission as returned by a page of the search endpoint.
/// Parsed from the response by the caller and handed to the filter
/// pipeline as plain values.
#[derive(Debug, Clone)]
pub struct Record {
    /// Unique numeric id of the submission.
    pub id: usize,
    pub image_width: usize,
    pub image_height: usize,
    /// URL of the media file, when the remote service exposes one.
    pub file_url: Option<String>,
    /// File extension of the media file, when known.
    pub file_ext: Option<String>,
    /// Whitespace-delimited tag set.
    pub tag_string: String,
    /// Single-letter rating code as sent by the remote service: one of
    /// `s`, `q`, `e` in a schema-conforming response.
    pub rating: String,
    pub is_deleted: bool,
}

/// The rating a code denotes: `s`, `q` and `e` map to `Safe`,
/// `Questionable` and `Explicit`; anything else is a schema violation and
/// maps to nothing.
pub open spec fn spec_rating_of_code(code: Seq<char>) -> Option<Rating> {
    if code == "s"@ {
        Some(Rating::Safe)
    } else if code == "q"@ {
        Some(Rating::Questionable)
    } else if code == "e"@ {
        Some(Rating::Explicit)
    } else {
        None
    }
}

/// Parses a single-letter rating code; `None` marks an unrecognized code,
/// which callers treat as a schema violation.
pub fn rating_of_code(code: &str) -> (r: Option<Rating>)
    ensures
        r == spec_rating_of_code(code@),
{
    proof {
        reveal_strlit("s");
        reveal_strlit("q");
        reveal_strlit("e");
    }
    if code.unicode_len() != 1 {
        return None;
    }
    let c = code.get_char(0);
    if c == 's' {
        proof {
            assert(code@ =~= "s"@);
        }
        Some(Rating::Safe)
    } else if c == 'q' {
        proof {
            assert(code@ =~= "q"@);
        }
        Some(Rating::Questionable)
    } else if c == 'e' {
        proof {
            assert(code@ =~= "e"@);
        }
        Some(Rating::Explicit)
    } else {
        proof {
            assert(code@ != "s"@ && code@ != "q"@ && code@ != "e"@);
        }
        None
    }
}

} // verus!
