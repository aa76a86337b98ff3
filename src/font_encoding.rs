use vstd::prelude::*;
use std::collections::HashMap;

verus! {

broadcast use vstd::std_specs::hash::group_hash_axioms;

/// How character codes of a font become glyph ids.
#[derive(Debug)]
pub enum TextEncoding {
    /// The code is the glyph id.
    Cid,
    /// A table from codes to glyph ids; codes not in it have no glyph.
    Cmap(HashMap<u16, u32>),
}

/// One glyph of a shown string: its character code and its glyph id.
#[derive(Clone, Copy, Debug, PartialEq, Eq, Structural)]
pub struct Glyph {
    pub code: u16,
    pub gid: u32,
}

/// What a font resolves codes with: its encoding, and whether strings are
/// read two bytes per code.
#[derive(Debug)]
pub struct FontEncoding {
    pub encoding: TextEncoding,
    pub is_cid: bool,
}

impl TextEncoding {
    /// The table, or `None` where codes are glyph ids.
    pub open spec fn view(&self) -> Option<Map<u16, u32>> {
        match self {
            TextEncoding::Cid => None,
            TextEncoding::Cmap(m) => Some(m@),
        }
    }

    pub open spec fn lookup_spec(&self, code: u16) -> Option<u32> {
        match self.view() {
            None => Some(code as u32),
            Some(m) => if m.contains_key(code) {
                Some(m[code])
            } else {
                None
            },
        }
    }

    /// The glyph id of a code, if the encoding gives one.
    pub fn lookup(&self, code: u16) -> (r: Option<u32>)
        ensures
            r == self.lookup_spec(code),
    {
        match self {
            TextEncoding::Cid => Some(code as u32),
            TextEncoding::Cmap(m) => match m.get(&code) {
                Some(g) => Some(*g),
                None => None,
            },
        }
    }
}

/// The codes of a byte string: big-endian pairs when `is_cid` (a trailing
/// odd byte is dropped), single bytes otherwise.
pub open spec fn code_units(data: Seq<u8>, is_cid: bool) -> Seq<u16> {
    if is_cid {
        Seq::new(data.len() / 2, |i: int| (data[2 * i] as int * 256 + data[2 * i + 1] as int) as u16)
    } else {
        Seq::new(data.len(), |i: int| data[i] as u16)
    }
}

/// A glyph of a shown string: a code with no glyph in the table gets glyph 0.
pub open spec fn glyph_of(enc: TextEncoding, code: u16) -> Glyph {
    Glyph {
        code,
        gid: match enc.lookup_spec(code) {
            Some(g) => g,
            None => 0,
        },
    }
}

/// The table of a CIDToGIDMap: code `i` to `table[i]`, a later index
/// winning where two indices wrap to one code.
pub open spec fn cid_table(t: Seq<u16>) -> Map<u16, u32>
    decreases t.len(),
{
    if t.len() == 0 {
        Map::empty()
    } else {
        cid_table(t.drop_last()).insert((t.len() - 1) as u16, t.last() as u32)
    }
}

/// The table of a simple font: code `i` to the glyph found for it, if any.
pub open spec fn codepoint_table(g: Seq<Option<u32>>) -> Map<u16, u32>
    decreases g.len(),
{
    if g.len() == 0 {
        Map::empty()
    } else {
        let rest = codepoint_table(g.drop_last());
        match g.last() {
            Some(gid) => rest.insert((g.len() - 1) as u16, gid),
            None => rest,
        }
    }
}

/// `m` overridden, in order, by each difference whose glyph name was found.
pub open spec fn with_differences(m: Map<u16, u32>, d: Seq<(u32, Option<u32>)>) -> Map<u16, u32>
    decreases d.len(),
{
    if d.len() == 0 {
        m
    } else {
        let rest = with_differences(m, d.drop_last());
        match d.last().1 {
            Some(gid) => rest.insert(d.last().0 as u16, gid),
            None => rest,
        }
    }
}

/// The encoding a font gets: its CIDToGIDMap where it has one; identity for
/// `Identity-H`; else the transcoded table with the differences applied,
/// and identity where that table is empty.
pub open spec fn encoding_of(
    cid_to_gid: Option<Seq<u16>>,
    identity_h: bool,
    codepoint_gids: Seq<Option<u32>>,
    differences: Seq<(u32, Option<u32>)>,
) -> Option<Map<u16, u32>> {
    match cid_to_gid {
        Some(t) => Some(cid_table(t)),
        None => if identity_h {
            None
        } else {
            let m = with_differences(codepoint_table(codepoint_gids), differences);
            if m.is_empty() {
                None
            } else {
                Some(m)
            }
        },
    }
}

fn cid_map(table: &[u16]) -> (r: HashMap<u16, u32>)
    ensures
        r@ == cid_table(table@),
{
    let mut m: HashMap<u16, u32> = HashMap::new();
    let mut i: usize = 0;
    while i < table.len()
        invariant
            i <= table@.len(),
            m@ == cid_table(table@.take(i as int)),
        decreases table@.len() - i,
    {
        proof {
            assert(table@.take(i as int + 1).drop_last() =~= table@.take(i as int));
        }
        m.insert(i as u16, table[i] as u32);
        i = i + 1;
    }
    proof {
        assert(table@.take(i as int) =~= table@);
    }
    m
}

fn codepoint_map(gids: &[Option<u32>], differences: &[(u32, Option<u32>)]) -> (r: HashMap<u16, u32>)
    ensures
        r@ == with_differences(codepoint_table(gids@), differences@),
{
    let mut m: HashMap<u16, u32> = HashMap::new();
    let mut i: usize = 0;
    while i < gids.len()
        invariant
            i <= gids@.len(),
            m@ == codepoint_table(gids@.take(i as int)),
        decreases gids@.len() - i,
    {
        proof {
            assert(gids@.take(i as int + 1).drop_last() =~= gids@.take(i as int));
        }
        if let Some(gid) = gids[i] {
            m.insert(i as u16, gid);
        }
        i = i + 1;
    }
    proof {
        assert(gids@.take(i as int) =~= gids@);
    }
    let ghost base = m@;
    let mut j: usize = 0;
    while j < differences.len()
        invariant
            j <= differences@.len(),
            base == codepoint_table(gids@),
            m@ == with_differences(base, differences@.take(j as int)),
        decreases differences@.len() - j,
    {
        proof {
            assert(differences@.take(j as int + 1).drop_last() =~= differences@.take(j as int));
        }
        let (code, found) = differences[j];
        if let Some(gid) = found {
            m.insert(code as u16, gid);
        }
        j = j + 1;
    }
    proof {
        assert(differences@.take(j as int) =~= differences@);
    }
    m
}

impl FontEncoding {
    /// Builds the encoding of a font. `font_is_cid` says whether the font
    /// is a composite one; `cid_to_gid` is its CIDToGIDMap, if any;
    /// `identity_h` whether its base encoding is `Identity-H`;
    /// `codepoint_gids[i]` is the glyph that the font's own lookup gives
    /// for code `i` after transcoding; `differences` pairs each code of the
    /// encoding's differences with the glyph found for its glyph name.
    pub fn build(
        font_is_cid: bool,
        cid_to_gid: Option<&[u16]>,
        identity_h: bool,
        codepoint_gids: &[Option<u32>],
        differences: &[(u32, Option<u32>)],
    ) -> (r: FontEncoding)
        ensures
            r.encoding.view() == encoding_of(
                match cid_to_gid {
                    Some(t) => Some(t@),
                    None => None,
                },
                identity_h,
                codepoint_gids@,
                differences@,
            ),
            r.is_cid == (font_is_cid || cid_to_gid.is_some() || identity_h),
    {
        match cid_to_gid {
            Some(table) => FontEncoding { encoding: TextEncoding::Cmap(cid_map(table)), is_cid: true },
            None => if identity_h {
                FontEncoding { encoding: TextEncoding::Cid, is_cid: true }
            } else {
                let m = codepoint_map(codepoint_gids, differences);
                if m.is_empty() {
                    FontEncoding { encoding: TextEncoding::Cid, is_cid: font_is_cid }
                } else {
                    FontEncoding { encoding: TextEncoding::Cmap(m), is_cid: font_is_cid }
                }
            },
        }
    }

    /// The glyphs of a shown byte string, in order.
    pub fn glyphs(&self, data: &[u8]) -> (r: Vec<Glyph>)
        ensures
            r@ == code_units(data@, self.is_cid).map_values(|c: u16| glyph_of(self.encoding, c)),
    {
        let ghost units = code_units(data@, self.is_cid);
        let mut out: Vec<Glyph> = Vec::new();
        if self.is_cid {
            let n: usize = data.len() / 2;
            let mut i: usize = 0;
            while i < n
                invariant
                    n == data@.len() / 2,
                    2 * n <= data@.len(),
                    n <= usize::MAX / 2,
                    i <= n,
                    units == code_units(data@, self.is_cid),
                    self.is_cid,
                    out@ == units.take(i as int).map_values(|c: u16| glyph_of(self.encoding, c)),
                decreases n - i,
            {
                let k: usize = i + i;
                let hi = data[k];
                let lo = data[k + 1];
                let code: u16 = (hi as u16) * 256 + (lo as u16);
                let gid = match self.encoding.lookup(code) {
                    Some(g) => g,
                    None => 0,
                };
                out.push(Glyph { code, gid });
                proof {
                    assert(units[i as int] == code);
                    assert(units.take(i as int + 1) =~= units.take(i as int).push(code));
                }
                i = i + 1;
            }
            proof {
                assert(units.take(i as int) =~= units);
            }
        } else {
            let mut i: usize = 0;
            while i < data.len()
                invariant
                    i <= data@.len(),
                    units == code_units(data@, self.is_cid),
                    !self.is_cid,
                    out@ == units.take(i as int).map_values(|c: u16| glyph_of(self.encoding, c)),
                decreases data@.len() - i,
            {
                let code: u16 = data[i] as u16;
                let gid = match self.encoding.lookup(code) {
                    Some(g) => g,
                    None => 0,
                };
                out.push(Glyph { code, gid });
                proof {
                    assert(units.take(i as int + 1) =~= units.take(i as int).push(code));
                }
                i = i + 1;
            }
            proof {
                assert(units.take(i as int) =~= units);
            }
        }
        out
    }
}

/// Glyph resolution depends on the shown bytes and the font's encoding
/// alone: equal byte strings shown with one encoding resolve to equal
/// glyph sequences.
pub proof fn lemma_equal_bytes_equal_glyphs(enc: FontEncoding, a: Seq<u8>, b: Seq<u8>)
    requires
        a == b,
    ensures
        code_units(a, enc.is_cid).map_values(|c: u16| glyph_of(enc.encoding, c))
            == code_units(b, enc.is_cid).map_values(|c: u16| glyph_of(enc.encoding, c)),
{
}

impl Glyph {
    /// Whether the glyph advances by the word spacing (code 32, a space)
    /// rather than the character spacing.
    pub fn uses_word_space(&self) -> (r: bool)
        ensures
            r == (self.code == 32),
    {
        self.code == 32
    }
}

} // verus!
