use vstd::prelude::*;
use crate::operator::Operator;

verus! {

/// What a path is painted with, and in which order.
#[derive(Clone, Copy, Debug, PartialEq, Eq, Structural)]
pub enum DrawKind {
    Nothing,
    Fill,
    Stroke,
    FillThenStroke,
    StrokeThenFill,
}

/// One pass of painting a path.
#[derive(Clone, Copy, Debug, PartialEq, Eq, Structural)]
pub enum Pass {
    /// Fill the outline with the fill paint and the style's fill rule.
    Fill,
    /// Stroke the outline with the stroke paint and the line style.
    Stroke,
}

/// How a path-painting operator paints.
#[derive(Clone, Copy, Debug, PartialEq, Eq, Structural)]
pub struct Painting {
    /// Whether the current subpath is closed first.
    pub closes: bool,
    pub kind: DrawKind,
}

impl DrawKind {
    pub open spec fn passes_spec(self) -> Seq<Pass> {
        match self {
            DrawKind::Nothing => seq![],
            DrawKind::Fill => seq![Pass::Fill],
            DrawKind::Stroke => seq![Pass::Stroke],
            DrawKind::FillThenStroke => seq![Pass::Fill, Pass::Stroke],
            DrawKind::StrokeThenFill => seq![Pass::Stroke, Pass::Fill],
        }
    }

    /// The passes, in the order they are pushed into the scene.
    pub fn passes(self) -> (r: Vec<Pass>)
        ensures
            r@ == self.passes_spec(),
    {
        match self {
            DrawKind::Nothing => vec![],
            DrawKind::Fill => vec![Pass::Fill],
            DrawKind::Stroke => vec![Pass::Stroke],
            DrawKind::FillThenStroke => vec![Pass::Fill, Pass::Stroke],
            DrawKind::StrokeThenFill => vec![Pass::Stroke, Pass::Fill],
        }
    }
}

pub open spec fn painting_of(op: Operator) -> Option<Painting> {
    match op {
        Operator::Stroke => Some(Painting { closes: false, kind: DrawKind::Stroke }),
        Operator::CloseStroke => Some(Painting { closes: true, kind: DrawKind::Stroke }),
        Operator::Fill => Some(Painting { closes: true, kind: DrawKind::Fill }),
        Operator::FillThenStroke => Some(Painting { closes: true, kind: DrawKind::FillThenStroke }),
        Operator::CloseStrokeThenFill => Some(Painting { closes: true, kind: DrawKind::StrokeThenFill }),
        _ => None,
    }
}

impl Operator {
    /// How a path-painting operator paints; `None` for any other operator.
    pub fn painting(self) -> (r: Option<Painting>)
        ensures
            r == painting_of(self),
    {
        match self {
            Operator::Stroke => Some(Painting { closes: false, kind: DrawKind::Stroke }),
            Operator::CloseStroke => Some(Painting { closes: true, kind: DrawKind::Stroke }),
            Operator::Fill => Some(Painting { closes: true, kind: DrawKind::Fill }),
            Operator::FillThenStroke => Some(Painting { closes: true, kind: DrawKind::FillThenStroke }),
            Operator::CloseStrokeThenFill => Some(Painting { closes: true, kind: DrawKind::StrokeThenFill }),
            _ => None,
        }
    }
}

} // verus!
