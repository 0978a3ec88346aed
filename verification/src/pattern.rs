//! A line written from a pattern with named places, filled by the `strfmt` crate.

use crate::glyph::{glyph, glyph_str, TablePos, TblGrp};
use crate::layout::TableColumnConfig;
use crate::render::TableTool;
use std::collections::HashMap;
use strfmt::{FmtError, Format};
use vstd::prelude::*;
use vstd::string::*;

verus! {

/// The error of the `strfmt` crate. Nothing is known of what it holds.
#[verifier::external_type_specification]
#[verifier::external_body]
pub struct ExFmtError(FmtError);

/// What `strfmt` makes of a pattern whose places `{name}` are filled from `names` and
/// `values` (the value at an index belongs to the name at that index, a later pair
/// replacing an earlier one of the same name): the text, or `None` where `strfmt`
/// reports an error.
pub uninterp spec fn strfmt_filled(
    pattern: Seq<char>,
    names: Seq<Seq<char>>,
    values: Seq<Seq<char>>,
) -> Option<Seq<char>>;

/// The views of a list of texts.
pub open spec fn texts_of(list: Seq<String>) -> Seq<Seq<char>> {
    list.map_values(|s: String| s@)
}

/// `strfmt::Format::format` on a `str`, with a map made of the pairs. The pattern
/// holds no `:`, so no place carries a format specification. The contract claims
/// that the result depends on the pattern and the pairs alone.
#[verifier::external_body]
fn fill_places(pattern: &str, names: &Vec<String>, values: &Vec<String>) -> (r: Result<
    String,
    FmtError,
>)
    requires
        !pattern@.contains(':'),
        names@.len() == values@.len(),
    ensures
        match r {
            Ok(text) => strfmt_filled(pattern@, texts_of(names@), texts_of(values@)) == Some(
                text@,
            ),
            Err(_) => strfmt_filled(pattern@, texts_of(names@), texts_of(values@)) is None,
        },
{
    let vars: HashMap<String, &str> = names.iter().cloned().zip(
        values.iter().map(|v| v.as_str()),
    ).collect();
    pattern.format(&vars)
}

/// The pattern of the sample line: the cell mark, a place `v1`, the left border, a
/// place `v2`, the crossing.
pub open spec fn sample_pattern() -> Seq<char> {
    seq![glyph(TablePos::InnerMark)] + "{v1}"@ + seq![glyph(TablePos::BorderLeft)] + "{v2}"@
        + seq![glyph(TablePos::InnerCross)]
}

/// The names of the places of the sample line.
pub open spec fn sample_names() -> Seq<Seq<char>> {
    seq!["v1"@, "v2"@]
}

/// The values of the places of the sample line.
pub open spec fn sample_values() -> Seq<Seq<char>> {
    seq!["a"@, "b"@]
}

/// What is handed out for a filled pattern: the text, or `None` for an error.
pub fn filled_text(filled: Result<String, FmtError>) -> (r: Option<String>)
    ensures
        match filled {
            Ok(text) => r == Some(text),
            Err(_) => r is None,
        },
{
    match filled {
        Ok(text) => Some(text),
        Err(_) => None,
    }
}

impl TableTool {
    /// Writes the sample line: the sample pattern with `a` and `b` at its two places.
    /// The kind of line and the columns play no part yet. `None` where `strfmt` reports
    /// an error.
    pub fn fmt_by_group(_grp: TblGrp, _columns: Vec<TableColumnConfig>) -> (line: Option<String>)
        ensures
            match line {
                Some(text) => strfmt_filled(sample_pattern(), sample_names(), sample_values())
                    == Some(text@),
                None => strfmt_filled(sample_pattern(), sample_names(), sample_values()) is None,
            },
    {
        proof {
            reveal_strlit("{v1}");
            reveal_strlit("{v2}");
        }
        let mut pattern = String::from_str(glyph_str(TablePos::InnerMark));
        pattern.append("{v1}");
        pattern.append(glyph_str(TablePos::BorderLeft));
        pattern.append("{v2}");
        pattern.append(glyph_str(TablePos::InnerCross));
        assert(pattern@ =~= sample_pattern());
        assert(pattern@.len() == 11);
        assert(!pattern@.contains(':')) by {
            assert forall|i: int| 0 <= i < 11 implies pattern@[i] != ':' by {}
        }

        let mut names: Vec<String> = Vec::new();
        names.push(String::from_str("v1"));
        names.push(String::from_str("v2"));
        let mut values: Vec<String> = Vec::new();
        values.push(String::from_str("a"));
        values.push(String::from_str("b"));
        assert(texts_of(names@) =~= sample_names());
        assert(texts_of(values@) =~= sample_values());

        filled_text(fill_places(pattern.as_str(), &names, &values))
    }
}

} // verus!
