//! The random pick of a paragraph.

use crate::paragraph::AppParagraph;
use rand::seq::SliceRandom;
use vstd::prelude::*;

verus! {

/// rand's `SliceRandom::choose` with the generator of `thread_rng`: one of
/// the paragraphs, whichever the generator points at, or `None` where there
/// is none to pick from.
#[verifier::external_body]
pub(crate) fn choose_paragraph(paragraphs: &Vec<AppParagraph>) -> (chosen: Option<&AppParagraph>)
    ensures
        chosen is None <==> paragraphs@.len() == 0,
        chosen is Some ==> exists|i: int|
            0 <= i < paragraphs@.len() && #[trigger] paragraphs@[i] == *chosen.unwrap(),
{
    paragraphs.choose(&mut rand::thread_rng())
}

} // verus!
