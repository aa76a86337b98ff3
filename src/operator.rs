use vstd::prelude::*;
use pathfinder_content::fill::FillRule;

verus! {

/// A content-stream operator, identified by its name.
#[derive(Clone, Copy, Debug, PartialEq, Eq, Structural)]
pub enum Operator {
    /// `m`
    MoveTo,
    /// `l`
    LineTo,
    /// `c`
    CurveTo,
    /// `v`: the current point is the first control point.
    CurveFromCurrent,
    /// `y`: the end point is the second control point.
    CurveToEnd,
    /// `h`
    ClosePath,
    /// `re`
    Rectangle,
    /// `S`
    Stroke,
    /// `s`
    CloseStroke,
    /// `f`, `F`, `f*`
    Fill,
    /// `B`, `B*`
    FillThenStroke,
    /// `b`, `b*`
    CloseStrokeThenFill,
    /// `n`
    EndPath,
    /// `W`, `W*`
    Clip,
    /// `q`
    Save,
    /// `Q`
    Restore,
    /// `cm`
    Concat,
    /// `w`
    LineWidth,
    /// `J`
    LineCap,
    /// `j`
    LineJoin,
    /// `M`
    MiterLimit,
    /// `d`
    Dash,
    /// `gs`
    ExtGState,
    /// `SC`, `SCN`, `RG`
    StrokeColor,
    /// `sc`, `scn`, `rg`
    FillColor,
    /// `G`
    StrokeGray,
    /// `g`
    FillGray,
    /// `K`
    StrokeCmyk,
    /// `k`
    FillCmyk,
    /// `CS`
    StrokeColorSpace,
    /// `cs`
    FillColorSpace,
    /// `BT`
    BeginText,
    /// `ET`
    EndText,
    /// `Tc`
    CharSpacing,
    /// `Tw`
    WordSpacing,
    /// `Tz`
    HorizScale,
    /// `TL`
    Leading,
    /// `Tf`
    TextFont,
    /// `Tr`
    RenderMode,
    /// `Ts`
    Rise,
    /// `Td`
    MoveText,
    /// `TD`
    MoveTextSetLeading,
    /// `Tm`
    TextMatrix,
    /// `T*`
    NextLine,
    /// `Tj`
    ShowText,
    /// `'`
    NextLineShowText,
    /// `"`
    SpacingNextLineShowText,
    /// `TJ`
    ShowTextArray,
    /// `Do`
    XObject,
    /// Any other name: ignored by the interpreter.
    Unknown,
}

pub open spec fn one_char_operator(a: char) -> Operator {
    match a {
        'm' => Operator::MoveTo,
        'l' => Operator::LineTo,
        'c' => Operator::CurveTo,
        'v' => Operator::CurveFromCurrent,
        'y' => Operator::CurveToEnd,
        'h' => Operator::ClosePath,
        'S' => Operator::Stroke,
        's' => Operator::CloseStroke,
        'f' => Operator::Fill,
        'F' => Operator::Fill,
        'B' => Operator::FillThenStroke,
        'b' => Operator::CloseStrokeThenFill,
        'n' => Operator::EndPath,
        'W' => Operator::Clip,
        'q' => Operator::Save,
        'Q' => Operator::Restore,
        'w' => Operator::LineWidth,
        'J' => Operator::LineCap,
        'j' => Operator::LineJoin,
        'M' => Operator::MiterLimit,
        'd' => Operator::Dash,
        'G' => Operator::StrokeGray,
        'g' => Operator::FillGray,
        'K' => Operator::StrokeCmyk,
        'k' => Operator::FillCmyk,
        '\'' => Operator::NextLineShowText,
        '"' => Operator::SpacingNextLineShowText,
        _ => Operator::Unknown,
    }
}

pub open spec fn two_char_operator(a: char, b: char) -> Operator {
    match (a, b) {
        ('r', 'e') => Operator::Rectangle,
        ('f', '*') => Operator::Fill,
        ('B', '*') => Operator::FillThenStroke,
        ('b', '*') => Operator::CloseStrokeThenFill,
        ('W', '*') => Operator::Clip,
        ('c', 'm') => Operator::Concat,
        ('g', 's') => Operator::ExtGState,
        ('S', 'C') => Operator::StrokeColor,
        ('R', 'G') => Operator::StrokeColor,
        ('s', 'c') => Operator::FillColor,
        ('r', 'g') => Operator::FillColor,
        ('C', 'S') => Operator::StrokeColorSpace,
        ('c', 's') => Operator::FillColorSpace,
        ('B', 'T') => Operator::BeginText,
        ('E', 'T') => Operator::EndText,
        ('T', 'c') => Operator::CharSpacing,
        ('T', 'w') => Operator::WordSpacing,
        ('T', 'z') => Operator::HorizScale,
        ('T', 'L') => Operator::Leading,
        ('T', 'f') => Operator::TextFont,
        ('T', 'r') => Operator::RenderMode,
        ('T', 's') => Operator::Rise,
        ('T', 'd') => Operator::MoveText,
        ('T', 'D') => Operator::MoveTextSetLeading,
        ('T', 'm') => Operator::TextMatrix,
        ('T', '*') => Operator::NextLine,
        ('T', 'j') => Operator::ShowText,
        ('T', 'J') => Operator::ShowTextArray,
        ('D', 'o') => Operator::XObject,
        _ => Operator::Unknown,
    }
}

pub open spec fn three_char_operator(a: char, b: char, c: char) -> Operator {
    match (a, b, c) {
        ('S', 'C', 'N') => Operator::StrokeColor,
        ('s', 'c', 'n') => Operator::FillColor,
        _ => Operator::Unknown,
    }
}

/// The operator that a name denotes; a name of no operator is `Unknown`.
pub open spec fn operator_of(name: Seq<char>) -> Operator {
    if name.len() == 1 {
        one_char_operator(name[0])
    } else if name.len() == 2 {
        two_char_operator(name[0], name[1])
    } else if name.len() == 3 {
        three_char_operator(name[0], name[1], name[2])
    } else {
        Operator::Unknown
    }
}

/// The fill rule that a painting or clipping operator asks for: even-odd
/// for a name that ends in `*`, nonzero winding otherwise.
pub open spec fn fill_rule_of(name: Seq<char>) -> FillRule {
    if name.len() > 0 && name.last() == '*' {
        FillRule::EvenOdd
    } else {
        FillRule::Winding
    }
}

impl Operator {
    /// Looks an operator up by its name.
    pub fn from_name(name: &str) -> (r: Operator)
        ensures
            r == operator_of(name@),
    {
        let n = name.unicode_len();
        if n == 1 {
            let a = name.get_char(0);
            match a {
                'm' => Operator::MoveTo,
                'l' => Operator::LineTo,
                'c' => Operator::CurveTo,
                'v' => Operator::CurveFromCurrent,
                'y' => Operator::CurveToEnd,
                'h' => Operator::ClosePath,
                'S' => Operator::Stroke,
                's' => Operator::CloseStroke,
                'f' | 'F' => Operator::Fill,
                'B' => Operator::FillThenStroke,
                'b' => Operator::CloseStrokeThenFill,
                'n' => Operator::EndPath,
                'W' => Operator::Clip,
                'q' => Operator::Save,
                'Q' => Operator::Restore,
                'w' => Operator::LineWidth,
                'J' => Operator::LineCap,
                'j' => Operator::LineJoin,
                'M' => Operator::MiterLimit,
                'd' => Operator::Dash,
                'G' => Operator::StrokeGray,
                'g' => Operator::FillGray,
                'K' => Operator::StrokeCmyk,
                'k' => Operator::FillCmyk,
                '\'' => Operator::NextLineShowText,
                '"' => Operator::SpacingNextLineShowText,
                _ => Operator::Unknown,
            }
        } else if n == 2 {
            let a = name.get_char(0);
            let b = name.get_char(1);
            match (a, b) {
                ('r', 'e') => Operator::Rectangle,
                ('f', '*') => Operator::Fill,
                ('B', '*') => Operator::FillThenStroke,
                ('b', '*') => Operator::CloseStrokeThenFill,
                ('W', '*') => Operator::Clip,
                ('c', 'm') => Operator::Concat,
                ('g', 's') => Operator::ExtGState,
                ('S', 'C') | ('R', 'G') => Operator::StrokeColor,
                ('s', 'c') | ('r', 'g') => Operator::FillColor,
                ('C', 'S') => Operator::StrokeColorSpace,
                ('c', 's') => Operator::FillColorSpace,
                ('B', 'T') => Operator::BeginText,
                ('E', 'T') => Operator::EndText,
                ('T', 'c') => Operator::CharSpacing,
                ('T', 'w') => Operator::WordSpacing,
                ('T', 'z') => Operator::HorizScale,
                ('T', 'L') => Operator::Leading,
                ('T', 'f') => Operator::TextFont,
                ('T', 'r') => Operator::RenderMode,
                ('T', 's') => Operator::Rise,
                ('T', 'd') => Operator::MoveText,
                ('T', 'D') => Operator::MoveTextSetLeading,
                ('T', 'm') => Operator::TextMatrix,
                ('T', '*') => Operator::NextLine,
                ('T', 'j') => Operator::ShowText,
                ('T', 'J') => Operator::ShowTextArray,
                ('D', 'o') => Operator::XObject,
                _ => Operator::Unknown,
            }
        } else if n == 3 {
            let a = name.get_char(0);
            let b = name.get_char(1);
            let c = name.get_char(2);
            match (a, b, c) {
                ('S', 'C', 'N') => Operator::StrokeColor,
                ('s', 'c', 'n') => Operator::FillColor,
                _ => Operator::Unknown,
            }
        } else {
            Operator::Unknown
        }
    }
}

/// The fill rule named by a painting or clipping operator.
pub fn fill_rule(name: &str) -> (r: FillRule)
    ensures
        r == fill_rule_of(name@),
{
    let n = name.unicode_len();
    if n > 0 && name.get_char(n - 1) == '*' {
        FillRule::EvenOdd
    } else {
        FillRule::Winding
    }
}

} // verus!
