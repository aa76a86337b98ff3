use vstd::prelude::*;
use pathfinder_renderer::paint::{Paint, PaintId};
use pathfinder_renderer::scene::Scene;

verus! {

/// How many paints a scene's palette holds.
pub uninterp spec fn palette_len(scene: Scene) -> nat;

/// Relies on `Scene::push_paint` (through `Palette::push_paint`): it returns
/// the id that an equal paint got when it was added, or appends the paint
/// and returns its index; the palette never loses a paint.
#[verifier::external_body]
fn push_paint(scene: &mut Scene, paint: &Paint) -> (r: PaintId)
    ensures
        palette_len(*old(scene)) <= palette_len(*final(scene)),
        palette_len(*final(scene)) <= palette_len(*old(scene)) + 1,
        (r.0 as nat) < palette_len(*final(scene)),
{
    scene.push_paint(paint)
}

/// The fill and stroke paints of a graphics state, as ids into a scene.
#[derive(Clone, Copy, Debug)]
pub struct Paints {
    pub fill: PaintId,
    pub stroke: PaintId,
}

impl Paints {
    /// Both ids name paints of `scene`.
    pub open spec fn valid_in(self, scene: Scene) -> bool {
        (self.fill.0 as nat) < palette_len(scene) && (self.stroke.0 as nat) < palette_len(scene)
    }

    /// Fill and stroke both set to `initial`, interned in `scene`.
    pub fn new(scene: &mut Scene, initial: &Paint) -> (r: Paints)
        ensures
            r.fill == r.stroke,
            r.valid_in(*final(scene)),
            palette_len(*old(scene)) <= palette_len(*final(scene)),
    {
        let id = push_paint(scene, initial);
        Paints { fill: id, stroke: id }
    }

    /// Interns `paint` in `scene` and makes it the fill paint.
    pub fn set_fill(&mut self, scene: &mut Scene, paint: &Paint)
        ensures
            final(self).stroke == old(self).stroke,
            (final(self).fill.0 as nat) < palette_len(*final(scene)),
            palette_len(*old(scene)) <= palette_len(*final(scene)),
            old(self).valid_in(*old(scene)) ==> final(self).valid_in(*final(scene)),
    {
        self.fill = push_paint(scene, paint);
    }

    /// Interns `paint` in `scene` and makes it the stroke paint.
    pub fn set_stroke(&mut self, scene: &mut Scene, paint: &Paint)
        ensures
            final(self).fill == old(self).fill,
            (final(self).stroke.0 as nat) < palette_len(*final(scene)),
            palette_len(*old(scene)) <= palette_len(*final(scene)),
            old(self).valid_in(*old(scene)) ==> final(self).valid_in(*final(scene)),
    {
        self.stroke = push_paint(scene, paint);
    }
}

/// Paints that a scene holds stay paints of it while its palette grows:
/// with `Paints::new`, `set_fill` and `set_stroke`, which only add to the
/// palette, every paint id in the current or a saved graphics state names a
/// paint of the scene it was interned in.
pub proof fn lemma_paints_stay_valid(p: Paints, before: Scene, after: Scene)
    requires
        p.valid_in(before),
        palette_len(before) <= palette_len(after),
    ensures
        p.valid_in(after),
{
}

} // verus!
