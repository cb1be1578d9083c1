//! Reading the release notes of one version out of a changelog.
use vstd::prelude::*;
use crate::document::Step;
use crate::extract::{ExtractionError, extract, section, text_of};
use crate::markdown::{comrak_outline, outline_of};

verus! {

/// The notes for version `tag` in the changelog `source`.
pub open spec fn changelog_section(source: Seq<char>, tag: Seq<char>) -> Result<Seq<char>, ExtractionError> {
    section(comrak_outline(source), tag)
}

/// The outline of the changelog `source`: its nodes in document order, each
/// entered before the nodes under it and left after them.
pub fn outline(source: &str) -> (steps: Vec<Step>)
    ensures
        steps@ == comrak_outline(source@),
{
    outline_of(source)
}

/// The notes for version `tag` in the changelog `source`: everything between
/// the level-2 heading that reads `tag` and the next level-2 heading,
/// rendered back to commonmark. Empty when no such heading exists.
///
/// A changelog looks like this:
///
/// ```markdown
/// # Changelog
///
/// ## 0.1.0
///
/// ### FIXED
///
/// - Refrobnicate the spurious rilkefs
///
/// ## 0.0.1
///
/// First release, proof of concept.
/// ```
///
/// and `read(source, "0.1.0")` gives the `### FIXED` heading and its list.
pub fn read(source: &str, tag: &str) -> (r: Result<String, ExtractionError>)
    ensures
        text_of(r) == changelog_section(source@, tag@),
{
    let steps = outline_of(source);
    extract(&steps, tag)
}

} // verus!
