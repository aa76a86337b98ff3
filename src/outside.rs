use vstd::prelude::*;

verus! {

/// `pathfinder_color::ColorU`: four public `u8` channels, read as they are.
#[verifier::external_type_specification]
pub struct ExColorU(pathfinder_color::ColorU);

/// `pathfinder_content::fill::FillRule`: a field-less enum, read as it is.
#[verifier::external_type_specification]
pub struct ExFillRule(pathfinder_content::fill::FillRule);

} // verus!

verus! {

/// `pathfinder_renderer::scene::Scene`: opaque.
#[verifier::external_type_specification]
#[verifier::external_body]
pub struct ExScene(pathfinder_renderer::scene::Scene);

/// `pathfinder_renderer::paint::Paint`: opaque.
#[verifier::external_type_specification]
#[verifier::external_body]
pub struct ExPaint(pathfinder_renderer::paint::Paint);

/// `pathfinder_renderer::paint::PaintId`: one public `u16`, read as it is.
#[verifier::external_type_specification]
pub struct ExPaintId(pathfinder_renderer::paint::PaintId);

} // verus!
