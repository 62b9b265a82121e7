use google_fonts::Font;
use vstd::prelude::*;

verus! {

/// A Google font. Its variants carry no data, so the document model can
/// name and compare them.
#[verifier::external_type_specification]
pub struct ExFont(Font);

} // verus!
