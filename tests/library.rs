use pathfinder_color::ColorU;
use pathfinder_content::fill::FillRule;
use pdf_render::color::{indexed_color, ColorError, ColorOperands, IndexBase, IndexedColor, SpaceKind};
use pdf_render::items::label_of;
use pdf_render::font_encoding::{FontEncoding, Glyph, TextEncoding};
use pdf_render::image::{decode_pixels, ImageError};
use pdf_render::operator::{fill_rule, Operator};
use pdf_render::paints::Paints;
use pathfinder_renderer::paint::{Paint, PaintId};
use pathfinder_renderer::scene::Scene;
use pdf_render::state::{StackUnderflow, StateStack};
use pdf_render::style::{DrawKind, Pass, Painting};
use pdf_render::text::{InvalidRenderMode, TextMode};

#[test]
fn operator_names() {
    assert_eq!(Operator::from_name("m"), Operator::MoveTo);
    assert_eq!(Operator::from_name("re"), Operator::Rectangle);
    assert_eq!(Operator::from_name("f*"), Operator::Fill);
    assert_eq!(Operator::from_name("F"), Operator::Fill);
    assert_eq!(Operator::from_name("SCN"), Operator::StrokeColor);
    assert_eq!(Operator::from_name("scn"), Operator::FillColor);
    assert_eq!(Operator::from_name("rg"), Operator::FillColor);
    assert_eq!(Operator::from_name("T*"), Operator::NextLine);
    assert_eq!(Operator::from_name("'"), Operator::NextLineShowText);
    assert_eq!(Operator::from_name("\""), Operator::SpacingNextLineShowText);
    assert_eq!(Operator::from_name("TJ"), Operator::ShowTextArray);
    assert_eq!(Operator::from_name("Do"), Operator::XObject);
}

#[test]
fn unknown_operator_names() {
    assert_eq!(Operator::from_name(""), Operator::Unknown);
    assert_eq!(Operator::from_name("x"), Operator::Unknown);
    assert_eq!(Operator::from_name("BDC"), Operator::Unknown);
    assert_eq!(Operator::from_name("Tjj"), Operator::Unknown);
}

#[test]
fn fill_rules() {
    assert_eq!(fill_rule("f*"), FillRule::EvenOdd);
    assert_eq!(fill_rule("W*"), FillRule::EvenOdd);
    assert_eq!(fill_rule("f"), FillRule::Winding);
    assert_eq!(fill_rule("B"), FillRule::Winding);
    assert_eq!(fill_rule(""), FillRule::Winding);
}

#[test]
fn painting_operators() {
    assert_eq!(Operator::Stroke.painting(), Some(Painting { closes: false, kind: DrawKind::Stroke }));
    assert_eq!(Operator::CloseStroke.painting(), Some(Painting { closes: true, kind: DrawKind::Stroke }));
    assert_eq!(
        Operator::CloseStrokeThenFill.painting(),
        Some(Painting { closes: true, kind: DrawKind::StrokeThenFill })
    );
    assert_eq!(Operator::EndPath.painting(), None);
    assert_eq!(DrawKind::StrokeThenFill.passes(), vec![Pass::Stroke, Pass::Fill]);
    assert_eq!(DrawKind::FillThenStroke.passes(), vec![Pass::Fill, Pass::Stroke]);
    assert_eq!(DrawKind::Nothing.passes(), vec![]);
}

#[test]
fn move_line_stroke_is_one_stroke() {
    let ops: Vec<Operator> = ["m", "l", "S"].iter().map(|s| Operator::from_name(s)).collect();
    assert_eq!(ops, vec![Operator::MoveTo, Operator::LineTo, Operator::Stroke]);
    let p = ops[2].painting().unwrap();
    assert!(!p.closes);
    assert_eq!(p.kind.passes(), vec![Pass::Stroke]);
}

#[test]
fn render_modes() {
    assert_eq!(TextMode::from_code(0), Ok(TextMode::Fill));
    assert_eq!(TextMode::from_code(3), Ok(TextMode::Invisible));
    assert_eq!(TextMode::from_code(5), Ok(TextMode::StrokeAndClip));
    assert_eq!(TextMode::from_code(6), Err(InvalidRenderMode { mode: 6 }));
    assert_eq!(TextMode::from_code(-1), Err(InvalidRenderMode { mode: -1 }));
    assert_eq!(TextMode::FillThenStroke.paint(), DrawKind::FillThenStroke);
    assert_eq!(TextMode::FillAndClip.paint(), DrawKind::Nothing);
}

#[test]
fn cid_glyphs_read_byte_pairs() {
    let f = FontEncoding::build(false, None, true, &[], &[]);
    assert!(f.is_cid);
    assert!(matches!(f.encoding, TextEncoding::Cid));
    let g = f.glyphs(&[0x01, 0x02, 0x00, 0x20, 0x07]);
    assert_eq!(g, vec![Glyph { code: 0x0102, gid: 0x0102 }, Glyph { code: 0x20, gid: 0x20 }]);
    assert!(g[1].uses_word_space());
    assert!(!g[0].uses_word_space());
}

#[test]
fn cid_to_gid_table() {
    let f = FontEncoding::build(false, Some(&[5, 9, 3]), false, &[], &[]);
    assert!(f.is_cid);
    let g = f.glyphs(&[0, 2, 0, 1, 0, 7]);
    assert_eq!(g, vec![Glyph { code: 2, gid: 3 }, Glyph { code: 1, gid: 9 }, Glyph { code: 7, gid: 0 }]);
}

#[test]
fn simple_font_table_with_differences() {
    let gids = vec![None, Some(10), Some(11), None];
    let f = FontEncoding::build(false, None, false, &gids, &[(2, Some(40)), (3, Some(41)), (1, None)]);
    assert!(!f.is_cid);
    assert_eq!(f.encoding.lookup(1), Some(10));
    assert_eq!(f.encoding.lookup(2), Some(40));
    assert_eq!(f.encoding.lookup(3), Some(41));
    assert_eq!(f.encoding.lookup(0), None);
    let g = f.glyphs(b"\x01\x00\x03");
    assert_eq!(g, vec![Glyph { code: 1, gid: 10 }, Glyph { code: 0, gid: 0 }, Glyph { code: 3, gid: 41 }]);
}

#[test]
fn empty_simple_table_is_identity() {
    let f = FontEncoding::build(false, None, false, &[None, None], &[(4, None)]);
    assert!(matches!(f.encoding, TextEncoding::Cid));
    assert!(!f.is_cid);
    assert_eq!(f.glyphs(b"AB"), vec![Glyph { code: 65, gid: 65 }, Glyph { code: 66, gid: 66 }]);
}

#[test]
fn decode_gray_rgb_rgba() {
    let gray = decode_pixels(&[7, 9], 2, 1).unwrap();
    assert_eq!(gray, vec![ColorU::new(7, 7, 7, 255), ColorU::new(9, 9, 9, 255)]);
    let rgb = decode_pixels(&[1, 2, 3, 4, 5, 6], 1, 2).unwrap();
    assert_eq!(rgb, vec![ColorU::new(1, 2, 3, 255), ColorU::new(4, 5, 6, 255)]);
    let rgba = decode_pixels(&[1, 2, 3, 4, 5, 6, 7, 8, 9], 2, 1).unwrap();
    assert_eq!(rgba, vec![ColorU::new(1, 2, 3, 4), ColorU::new(5, 6, 7, 8)]);
}

#[test]
fn decode_errors() {
    assert_eq!(decode_pixels(&[1, 2], 0, 3), Err(ImageError::Empty));
    assert_eq!(decode_pixels(&[1, 2, 3, 4], 2, 1), Err(ImageError::UnsupportedChannels(2)));
    assert_eq!(decode_pixels(&[], 1, 1), Err(ImageError::UnsupportedChannels(0)));
    assert_eq!(decode_pixels(&[0; 10], 1, 2), Err(ImageError::UnsupportedChannels(5)));
}

#[test]
fn indexed_lookups() {
    let lut = [10, 20, 30, 40, 50, 60, 70, 80];
    assert_eq!(indexed_color(IndexBase::Rgb, &lut, 1), Ok(IndexedColor::Rgb(ColorU::new(40, 50, 60, 255))));
    assert_eq!(indexed_color(IndexBase::Cmyk, &lut, 1), Ok(IndexedColor::Cmyk(50, 60, 70, 80)));
    assert_eq!(indexed_color(IndexBase::Rgb, &lut, 2), Err(ColorError::IndexOutOfRange(2)));
    assert_eq!(indexed_color(IndexBase::Rgb, &lut, -1), Err(ColorError::IndexOutOfRange(-1)));
    assert_eq!(indexed_color(IndexBase::Other, &lut, 0), Err(ColorError::UnsupportedColorSpace));
}

#[test]
fn save_restore_isolation() {
    // q; w 5; Q; w 2
    let mut st = StateStack::new(1u32);
    st.save();
    st.set(5);
    assert_eq!(st.current(), 5);
    assert_eq!(st.restore(), Ok(()));
    assert_eq!(st.current(), 1);
    st.set(2);
    assert_eq!(st.current(), 2);
    assert_eq!(st.depth(), 0);
}

#[test]
fn restore_underflow() {
    let mut st = StateStack::new(3u8);
    assert_eq!(st.restore(), Err(StackUnderflow));
    assert_eq!(st.current(), 3);
}

#[test]
fn clip_persists_until_restore() {
    // (stroke width, clip id); W installs clip 0 inside a saved state
    let mut st = StateStack::new((1u32, None::<u32>));
    st.save();
    st.set((1, Some(0)));
    assert_eq!(Operator::from_name("n").painting(), None);
    st.set((3, st.current().1));
    assert_eq!(st.current().1, Some(0));
    st.restore().unwrap();
    assert_eq!(st.current(), (1, None));
}

#[test]
fn nested_saves_restore_in_order() {
    let mut st = StateStack::new('a');
    st.save();
    st.set('b');
    st.save();
    st.set('c');
    assert_eq!(st.depth(), 2);
    st.restore().unwrap();
    assert_eq!(st.current(), 'b');
    st.restore().unwrap();
    assert_eq!(st.current(), 'a');
    assert_eq!(st.depth(), 0);
}

#[test]
fn equal_bytes_resolve_equally() {
    let f = FontEncoding::build(false, None, false, &[None, Some(3), Some(4)], &[]);
    assert_eq!(f.glyphs(&[1, 2, 9]), f.glyphs(&[1, 2, 9]));
    assert_eq!(f.glyphs(&[1, 2, 9]), vec![Glyph { code: 1, gid: 3 }, Glyph { code: 2, gid: 4 }, Glyph { code: 9, gid: 0 }]);
}

#[test]
fn empty_stream_has_no_items() {
    assert_eq!(label_of(&[]), None);
}

#[test]
fn item_labels_join_in_order() {
    let hits = vec!["(A) Tj".to_string(), "[(B)] TJ".to_string(), "(C) '".to_string()];
    assert_eq!(label_of(&hits), Some("(A) Tj, [(B)] TJ, (C) '".to_string()));
    assert_eq!(label_of(&hits[..1]), Some("(A) Tj".to_string()));
}

#[test]
fn cmyk_color_space_switch() {
    // CS /DeviceCMYK; K 0 1 1 0
    assert_eq!(Operator::from_name("CS"), Operator::StrokeColorSpace);
    assert_eq!(Operator::from_name("K"), Operator::StrokeCmyk);
    assert_eq!(SpaceKind::DeviceCmyk.operands(), Ok(ColorOperands::Cmyk));
}

#[test]
fn color_operands_per_space() {
    assert_eq!(SpaceKind::DeviceRgb.operands(), Ok(ColorOperands::Rgb));
    assert_eq!(SpaceKind::Icc.operands(), Ok(ColorOperands::Rgb));
    assert_eq!(SpaceKind::DeviceGray.operands(), Ok(ColorOperands::Gray));
    assert_eq!(SpaceKind::Separation.operands(), Ok(ColorOperands::Tint));
    assert_eq!(SpaceKind::Indexed(IndexBase::Cmyk).operands(), Ok(ColorOperands::Index(IndexBase::Cmyk)));
    assert_eq!(SpaceKind::Indexed(IndexBase::Other).operands(), Err(ColorError::UnsupportedColorSpace));
    assert_eq!(SpaceKind::Other.operands(), Err(ColorError::UnsupportedColorSpace));
}

#[test]
fn paints_are_interned_in_the_scene() {
    let mut scene = Scene::new();
    let black = Paint::from_color(ColorU::black());
    let red = Paint::from_color(ColorU::new(255, 0, 0, 255));
    let mut p = Paints::new(&mut scene, &black);
    assert_eq!(p.fill, PaintId(0));
    assert_eq!(p.stroke, PaintId(0));
    p.set_stroke(&mut scene, &red);
    assert_eq!(p.stroke, PaintId(1));
    assert_eq!(p.fill, PaintId(0));
    p.set_fill(&mut scene, &red);
    assert_eq!(p.fill, PaintId(1));
    p.set_fill(&mut scene, &black);
    assert_eq!(p.fill, PaintId(0));
    assert_eq!(p.stroke, PaintId(1));
}
