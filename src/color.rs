use vstd::prelude::*;
use pathfinder_color::ColorU;

verus! {

/// The base colour space of an indexed colour space.
#[derive(Clone, Copy, Debug, PartialEq, Eq, Structural)]
pub enum IndexBase {
    Rgb,
    Cmyk,
    /// A base this renderer does not draw with.
    Other,
}

/// A colour read from an indexed colour space's lookup table.
#[derive(Clone, Copy, Debug, PartialEq, Eq)]
pub enum IndexedColor {
    /// An opaque device-RGB colour.
    Rgb(ColorU),
    /// The four CMYK bytes of the entry, each `0..=255` for `0.0..=1.0`.
    Cmyk(u8, u8, u8, u8),
}

/// Why an operand list could not be turned into a colour.
#[derive(Clone, Copy, Debug, PartialEq, Eq, Structural)]
pub enum ColorError {
    /// The colour space, or an indexed space's base, is not one drawn with.
    UnsupportedColorSpace,
    /// The index is negative or its entry runs past the end of the table.
    IndexOutOfRange(i32),
}

/// Bytes per entry of the lookup table.
pub open spec fn entry_width(base: IndexBase) -> int {
    match base {
        IndexBase::Rgb => 3,
        IndexBase::Cmyk => 4,
        IndexBase::Other => 0,
    }
}

/// Looks entry `index` up in the table of an indexed colour space.
pub fn indexed_color(base: IndexBase, lut: &[u8], index: i32) -> (r: Result<IndexedColor, ColorError>)
    ensures
        base == IndexBase::Other ==> r == Err::<IndexedColor, ColorError>(ColorError::UnsupportedColorSpace),
        base != IndexBase::Other ==> {
            let w = entry_width(base);
            let at = w * index;
            if index < 0 || at + w > lut@.len() {
                r == Err::<IndexedColor, ColorError>(ColorError::IndexOutOfRange(index))
            } else if base == IndexBase::Rgb {
                r == Ok::<IndexedColor, ColorError>(IndexedColor::Rgb(
                    ColorU { r: lut@[at], g: lut@[at + 1], b: lut@[at + 2], a: 255 },
                ))
            } else {
                r == Ok::<IndexedColor, ColorError>(IndexedColor::Cmyk(
                    lut@[at], lut@[at + 1], lut@[at + 2], lut@[at + 3],
                ))
            }
        },
{
    let w: u64 = match base {
        IndexBase::Rgb => 3,
        IndexBase::Cmyk => 4,
        IndexBase::Other => {
            return Err(ColorError::UnsupportedColorSpace);
        },
    };
    if index < 0 {
        return Err(ColorError::IndexOutOfRange(index));
    }
    let at: u64 = w * (index as u64);
    if at + w > lut.len() as u64 {
        return Err(ColorError::IndexOutOfRange(index));
    }
    let a: usize = at as usize;
    if w == 3 {
        Ok(IndexedColor::Rgb(ColorU { r: lut[a], g: lut[a + 1], b: lut[a + 2], a: 255 }))
    } else {
        Ok(IndexedColor::Cmyk(lut[a], lut[a + 1], lut[a + 2], lut[a + 3]))
    }
}

} // verus!

verus! {

/// The kind of a colour space, as far as reading colour operands goes.
#[derive(Clone, Copy, Debug, PartialEq, Eq, Structural)]
pub enum SpaceKind {
    DeviceRgb,
    /// ICC-based: drawn as device RGB.
    Icc,
    DeviceCmyk,
    DeviceGray,
    /// A separation, with its tint transform.
    Separation,
    Indexed(IndexBase),
    /// Any other space.
    Other,
}

/// Which operands a colour-setting operator reads under a colour space.
#[derive(Clone, Copy, Debug, PartialEq, Eq, Structural)]
pub enum ColorOperands {
    /// Three numbers in `0..=1`: red, green, blue.
    Rgb,
    /// Four numbers in `0..=1`: cyan, magenta, yellow, black.
    Cmyk,
    /// One number in `0..=1`, the same for red, green and blue.
    Gray,
    /// One number, mapped to red, green and blue by the tint transform.
    Tint,
    /// One integer, an entry of the lookup table over the given base.
    Index(IndexBase),
}

pub open spec fn operands_of(kind: SpaceKind) -> Option<ColorOperands> {
    match kind {
        SpaceKind::DeviceRgb => Some(ColorOperands::Rgb),
        SpaceKind::Icc => Some(ColorOperands::Rgb),
        SpaceKind::DeviceCmyk => Some(ColorOperands::Cmyk),
        SpaceKind::DeviceGray => Some(ColorOperands::Gray),
        SpaceKind::Separation => Some(ColorOperands::Tint),
        SpaceKind::Indexed(IndexBase::Other) => None,
        SpaceKind::Indexed(b) => Some(ColorOperands::Index(b)),
        SpaceKind::Other => None,
    }
}

impl SpaceKind {
    /// The operands that set a colour in this space; an error for a space
    /// that is not drawn with.
    pub fn operands(self) -> (r: Result<ColorOperands, ColorError>)
        ensures
            match operands_of(self) {
                Some(o) => r == Ok::<ColorOperands, ColorError>(o),
                None => r == Err::<ColorOperands, ColorError>(ColorError::UnsupportedColorSpace),
            },
    {
        match self {
            SpaceKind::DeviceRgb | SpaceKind::Icc => Ok(ColorOperands::Rgb),
            SpaceKind::DeviceCmyk => Ok(ColorOperands::Cmyk),
            SpaceKind::DeviceGray => Ok(ColorOperands::Gray),
            SpaceKind::Separation => Ok(ColorOperands::Tint),
            SpaceKind::Indexed(IndexBase::Other) => Err(ColorError::UnsupportedColorSpace),
            SpaceKind::Indexed(b) => Ok(ColorOperands::Index(b)),
            SpaceKind::Other => Err(ColorError::UnsupportedColorSpace),
        }
    }
}

} // verus!
