//! The ingestion formats, and which extension names which.

use crate::path::chars_of;
use vstd::prelude::*;

verus! {

/// How a data file is read.
#[derive(Clone, Copy, Debug, PartialEq, Eq, Structural)]
pub enum Format {
    /// Comma-separated values, with a header row.
    Csv,
    /// One JSON object per line.
    Json,
}

/// `c` in lower case where it is one of `A` to `Z`, else `c` itself.
pub open spec fn ascii_lower(c: char) -> char {
    if 'A' <= c && c <= 'Z' {
        ((c as u8) + 32) as char
    } else {
        c
    }
}

/// `s` with each of its letters `A` to `Z` in lower case.
pub open spec fn fold_case(s: Seq<char>) -> Seq<char> {
    Seq::new(s.len(), |i: int| ascii_lower(s[i]))
}

impl Format {
    /// The extension that names this format, in lower case.
    pub open spec fn name(self) -> Seq<char> {
        match self {
            Format::Csv => seq!['c', 's', 'v'],
            Format::Json => seq!['j', 's', 'o', 'n'],
        }
    }

    /// The format that `ext` names, whatever the case of its letters.
    pub open spec fn named(ext: Seq<char>) -> Option<Format> {
        if fold_case(ext) == Format::Csv.name() {
            Some(Format::Csv)
        } else if fold_case(ext) == Format::Json.name() {
            Some(Format::Json)
        } else {
            None
        }
    }

    /// The extension that names this format, in lower case.
    pub fn extension(self) -> (ext: &'static str)
        ensures
            ext@ == self.name(),
    {
        match self {
            Format::Csv => {
                proof {
                    reveal_strlit("csv");
                }
                assert("csv"@ =~= Format::Csv.name());
                "csv"
            },
            Format::Json => {
                proof {
                    reveal_strlit("json");
                }
                assert("json"@ =~= Format::Json.name());
                "json"
            },
        }
    }

    /// The format that the extension `ext` names, if it names one.
    pub fn from_extension(ext: &str) -> (format: Option<Format>)
        ensures
            format == Format::named(ext@),
    {
        let chars = chars_of(ext);
        let ghost folded = fold_case(ext@);
        if chars.len() == 3 {
            if lower(chars[0]) == 'c' && lower(chars[1]) == 's' && lower(chars[2]) == 'v' {
                assert(folded =~= Format::Csv.name());
                return Some(Format::Csv);
            }
            assert(folded != Format::Csv.name()) by {
                if folded == Format::Csv.name() {
                    assert(folded[0] == 'c' && folded[1] == 's' && folded[2] == 'v');
                }
            }
            assert(folded.len() != Format::Json.name().len());
            None
        } else if chars.len() == 4 {
            if lower(chars[0]) == 'j' && lower(chars[1]) == 's' && lower(chars[2]) == 'o' && lower(
                chars[3],
            ) == 'n' {
                assert(folded =~= Format::Json.name());
                return Some(Format::Json);
            }
            assert(folded != Format::Json.name()) by {
                if folded == Format::Json.name() {
                    assert(folded[0] == 'j' && folded[1] == 's' && folded[2] == 'o' && folded[3]
                        == 'n');
                }
            }
            assert(folded.len() != Format::Csv.name().len());
            None
        } else {
            assert(folded.len() != Format::Csv.name().len());
            assert(folded.len() != Format::Json.name().len());
            None
        }
    }
}

/// `c` in lower case where it is one of `A` to `Z`, else `c` itself.
fn lower(c: char) -> (l: char)
    ensures
        l == ascii_lower(c),
{
    if 'A' <= c && c <= 'Z' {
        ((c as u8) + 32) as char
    } else {
        c
    }
}

} // verus!
