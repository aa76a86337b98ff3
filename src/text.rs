use vstd::prelude::*;
use crate::style::DrawKind;

verus! {

/// How shown text is rendered (the operand of `Tr`).
#[derive(Clone, Copy, Debug, PartialEq, Eq, Structural)]
pub enum TextMode {
    Fill,
    Stroke,
    FillThenStroke,
    Invisible,
    FillAndClip,
    StrokeAndClip,
}

/// A `Tr` operand outside `0..=5`.
#[derive(Clone, Copy, Debug, PartialEq, Eq, Structural)]
pub struct InvalidRenderMode {
    pub mode: i32,
}

pub open spec fn text_mode_of(code: int) -> Option<TextMode> {
    if code == 0 {
        Some(TextMode::Fill)
    } else if code == 1 {
        Some(TextMode::Stroke)
    } else if code == 2 {
        Some(TextMode::FillThenStroke)
    } else if code == 3 {
        Some(TextMode::Invisible)
    } else if code == 4 {
        Some(TextMode::FillAndClip)
    } else if code == 5 {
        Some(TextMode::StrokeAndClip)
    } else {
        None
    }
}

impl TextMode {
    /// The render mode with number `code`; anything outside `0..=5` is an error.
    pub fn from_code(code: i32) -> (r: Result<TextMode, InvalidRenderMode>)
        ensures
            match text_mode_of(code as int) {
                Some(m) => r == Ok::<TextMode, InvalidRenderMode>(m),
                None => r == Err::<TextMode, InvalidRenderMode>(InvalidRenderMode { mode: code }),
            },
    {
        match code {
            0 => Ok(TextMode::Fill),
            1 => Ok(TextMode::Stroke),
            2 => Ok(TextMode::FillThenStroke),
            3 => Ok(TextMode::Invisible),
            4 => Ok(TextMode::FillAndClip),
            5 => Ok(TextMode::StrokeAndClip),
            _ => Err(InvalidRenderMode { mode: code }),
        }
    }

    pub open spec fn paint_spec(self) -> DrawKind {
        match self {
            TextMode::Fill => DrawKind::Fill,
            TextMode::Stroke => DrawKind::Stroke,
            TextMode::FillThenStroke => DrawKind::FillThenStroke,
            _ => DrawKind::Nothing,
        }
    }

    /// How glyphs are painted in this mode; the invisible and clipping
    /// modes draw nothing.
    pub fn paint(self) -> (r: DrawKind)
        ensures
            r == self.paint_spec(),
    {
        match self {
            TextMode::Fill => DrawKind::Fill,
            TextMode::Stroke => DrawKind::Stroke,
            TextMode::FillThenStroke => DrawKind::FillThenStroke,
            _ => DrawKind::Nothing,
        }
    }
}

} // verus!
