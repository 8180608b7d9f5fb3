//! The fixed palette of body colors: a finite map from small integer
//! palette identifiers to 24-bit RGB values, plus the color profile types
//! built on it.

use vstd::prelude::*;

verus! {

/// Palette identifier used when a profile is absent or unparsable.
pub const DEFAULT_PALETTE_ID: u16 = 1001;

/// Flat mid-grey used for thumbnail jobs, which carry no color profile.
pub const THUMBNAIL_RGB: u32 = 0xBFBFBF;

/// The curated palette: which RGB value, if any, a palette identifier names.
/// Unknown identifiers map to None; callers substitute their own fallback.
pub open spec fn palette_rgb(id: u16) -> Option<u32> {
    match id {
        1003 => Some(0x111111),
        148 => Some(0x575857),
        2 => Some(0xA1A5A2),
        1002 => Some(0xCDCDCD),
        40 => Some(0xECECEC),
        1001 => Some(0xF8F8F8),
        348 => Some(0xEDEAEA),
        349 => Some(0xE9DADA),
        1025 => Some(0xFFC9C9),
        337 => Some(0xFF9494),
        344 => Some(0x965555),
        1007 => Some(0xA34B4B),
        350 => Some(0x883E3E),
        339 => Some(0x562424),
        331 => Some(0xFF5959),
        332 => Some(0x750000),
        327 => Some(0x970000),
        1004 => Some(0xFF0000),
        360 => Some(0x966766),
        338 => Some(0xBE6862),
        153 => Some(0x957977),
        41 => Some(0xCD544B),
        21 => Some(0xC4281C),
        101 => Some(0xDA867A),
        47 => Some(0xD9856C),
        176 => Some(0x97695B),
        100 => Some(0xEEC4B6),
        123 => Some(0xD36F4C),
        216 => Some(0x904C2A),
        345 => Some(0x8F4C2A),
        193 => Some(0xCF6024),
        133 => Some(0xD5733D),
        192 => Some(0x694028),
        18 => Some(0xCC8E69),
        361 => Some(0x564236),
        359 => Some(0xAF9483),
        128 => Some(0xAE7A59),
        38 => Some(0xA05F35),
        355 => Some(0x6C584B),
        217 => Some(0x7C5C46),
        364 => Some(0x5A4C42),
        137 => Some(0xE09864),
        125 => Some(0xEAB892),
        25 => Some(0x624732),
        106 => Some(0xDA8541),
        12 => Some(0xCB8442),
        178 => Some(0xB48455),
        365 => Some(0x6A3909),
        1014 => Some(0xAA5500),
        1030 => Some(0xFFCC99),
        168 => Some(0x756C62),
        225 => Some(0xEBB87F),
        105 => Some(0xE29B40),
        121 => Some(0xE7AC58),
        36 => Some(0xF3CF9B),
        127 => Some(0xDCBC81),
        362 => Some(0x7E683F),
        351 => Some(0xBC9B5D),
        356 => Some(0xA0844F),
        346 => Some(0xD3BE96),
        352 => Some(0xC7AC78),
        224 => Some(0xF0D5A0),
        180 => Some(0xD7A94B),
        191 => Some(0xE8AB2D),
        108 => Some(0x685C43),
        138 => Some(0x958A73),
        209 => Some(0xB08E44),
        1017 => Some(0xFFAF00),
        1005 => Some(0xFFB000),
        333 => Some(0xEFB838),
        5 => Some(0xD7C59A),
        353 => Some(0xCABFA3),
        340 => Some(0xF1E7C7),
        334 => Some(0xF8D96D),
        24 => Some(0xF5CD30),
        190 => Some(0xF9D62E),
        226 => Some(0xFDEA8D),
        3 => Some(0xF9E999),
        341 => Some(0xFEF3BB),
        347 => Some(0xE2DCBC),
        157 => Some(0xFFF67B),
        49 => Some(0xF8F184),
        44 => Some(0xF7F18D),
        1008 => Some(0xC1BE42),
        1029 => Some(0xFFFFCC),
        1009 => Some(0xFFFF00),
        134 => Some(0xD8DD56),
        115 => Some(0xC7D23C),
        200 => Some(0x828A5D),
        120 => Some(0xD9E4A7),
        119 => Some(0xA4BD47),
        1022 => Some(0x7F8E64),
        319 => Some(0xB9C4B1),
        324 => Some(0xA8BD99),
        29 => Some(0xA1C48C),
        1021 => Some(0x3A7D15),
        317 => Some(0x7C9C6B),
        323 => Some(0x94BE81),
        6 => Some(0xC2DAB8),
        304 => Some(0x2C651D),
        310 => Some(0x5B9A4C),
        328 => Some(0xB1E5A6),
        318 => Some(0x8AAB85),
        313 => Some(0x1F801D),
        1028 => Some(0xCCFFCC),
        37 => Some(0x4B974B),
        1020 => Some(0x00FF00),
        309 => Some(0x348E40),
        301 => Some(0x506D54),
        48 => Some(0x84B68D),
        141 => Some(0x27462D),
        210 => Some(0x709578),
        28 => Some(0x287F47),
        151 => Some(0x789082),
        1027 => Some(0x9FF3E9),
        1018 => Some(0x12EED4),
        118 => Some(0xB7D7D5),
        1019 => Some(0x00FFFF),
        107 => Some(0x008F9C),
        116 => Some(0x55A5AF),
        1013 => Some(0x04AFEC),
        315 => Some(0x0989CF),
        232 => Some(0x7DBBDD),
        11 => Some(0x80BBDC),
        42 => Some(0xC1DFF0),
        329 => Some(0x98C2DB),
        45 => Some(0xB4D2E4),
        23 => Some(0x0D69AC),
        26 => Some(0x1B2A35),
        1024 => Some(0xAFDDFF),
        43 => Some(0x7BB6E8),
        212 => Some(0x9FC3E9),
        140 => Some(0x203A56),
        143 => Some(0xCFE2F7),
        306 => Some(0x335882),
        102 => Some(0x6E99CA),
        305 => Some(0x527CAE),
        336 => Some(0xC7D4E4),
        135 => Some(0x74869D),
        314 => Some(0x9FADC0),
        145 => Some(0x7988A1),
        195 => Some(0x4667A4),
        196 => Some(0x23478B),
        1012 => Some(0x2154B9),
        1011 => Some(0x002060),
        213 => Some(0x6C81B7),
        149 => Some(0x161D32),
        110 => Some(0x435493),
        112 => Some(0x6874AC),
        307 => Some(0x102ADC),
        303 => Some(0x0010B0),
        220 => Some(0xA7A9CE),
        126 => Some(0xA5A5CB),
        1010 => Some(0x0000FF),
        1026 => Some(0xB1A7FF),
        268 => Some(0x342B75),
        219 => Some(0x6B629B),
        1031 => Some(0x6225D1),
        308 => Some(0x3D1585),
        1006 => Some(0xB480FF),
        1023 => Some(0x8C5B9F),
        104 => Some(0x6B327C),
        218 => Some(0x96709F),
        322 => Some(0x7B2F7B),
        312 => Some(0x592259),
        316 => Some(0x7B007B),
        1015 => Some(0xAA00AA),
        198 => Some(0x8E4285),
        321 => Some(0xA75E9B),
        1032 => Some(0xFF00BF),
        124 => Some(0x923978),
        1016 => Some(0xFF66CC),
        343 => Some(0xD490BD),
        330 => Some(0xFF98DC),
        342 => Some(0xE0B2D0),
        22 => Some(0xC470A0),
        221 => Some(0xCD6298),
        158 => Some(0xE1A4C2),
        222 => Some(0xE4ADC8),
        113 => Some(0xE5ADC8),
        9 => Some(0xE8BAC8),
        223 => Some(0xDC9095),
        _ => None,
    }
}

/// Looks a palette identifier up in the fixed color table.
pub fn from_brickcolor(id: u16) -> (r: Option<u32>)
    ensures
        r == palette_rgb(id),
{
    match id {
        1003 => Some(0x111111),
        148 => Some(0x575857),
        2 => Some(0xA1A5A2),
        1002 => Some(0xCDCDCD),
        40 => Some(0xECECEC),
        1001 => Some(0xF8F8F8),
        348 => Some(0xEDEAEA),
        349 => Some(0xE9DADA),
        1025 => Some(0xFFC9C9),
        337 => Some(0xFF9494),
        344 => Some(0x965555),
        1007 => Some(0xA34B4B),
        350 => Some(0x883E3E),
        339 => Some(0x562424),
        331 => Some(0xFF5959),
        332 => Some(0x750000),
        327 => Some(0x970000),
        1004 => Some(0xFF0000),
        360 => Some(0x966766),
        338 => Some(0xBE6862),
        153 => Some(0x957977),
        41 => Some(0xCD544B),
        21 => Some(0xC4281C),
        101 => Some(0xDA867A),
        47 => Some(0xD9856C),
        176 => Some(0x97695B),
        100 => Some(0xEEC4B6),
        123 => Some(0xD36F4C),
        216 => Some(0x904C2A),
        345 => Some(0x8F4C2A),
        193 => Some(0xCF6024),
        133 => Some(0xD5733D),
        192 => Some(0x694028),
        18 => Some(0xCC8E69),
        361 => Some(0x564236),
        359 => Some(0xAF9483),
        128 => Some(0xAE7A59),
        38 => Some(0xA05F35),
        355 => Some(0x6C584B),
        217 => Some(0x7C5C46),
        364 => Some(0x5A4C42),
        137 => Some(0xE09864),
        125 => Some(0xEAB892),
        25 => Some(0x624732),
        106 => Some(0xDA8541),
        12 => Some(0xCB8442),
        178 => Some(0xB48455),
        365 => Some(0x6A3909),
        1014 => Some(0xAA5500),
        1030 => Some(0xFFCC99),
        168 => Some(0x756C62),
        225 => Some(0xEBB87F),
        105 => Some(0xE29B40),
        121 => Some(0xE7AC58),
        36 => Some(0xF3CF9B),
        127 => Some(0xDCBC81),
        362 => Some(0x7E683F),
        351 => Some(0xBC9B5D),
        356 => Some(0xA0844F),
        346 => Some(0xD3BE96),
        352 => Some(0xC7AC78),
        224 => Some(0xF0D5A0),
        180 => Some(0xD7A94B),
        191 => Some(0xE8AB2D),
        108 => Some(0x685C43),
        138 => Some(0x958A73),
        209 => Some(0xB08E44),
        1017 => Some(0xFFAF00),
        1005 => Some(0xFFB000),
        333 => Some(0xEFB838),
        5 => Some(0xD7C59A),
        353 => Some(0xCABFA3),
        340 => Some(0xF1E7C7),
        334 => Some(0xF8D96D),
        24 => Some(0xF5CD30),
        190 => Some(0xF9D62E),
        226 => Some(0xFDEA8D),
        3 => Some(0xF9E999),
        341 => Some(0xFEF3BB),
        347 => Some(0xE2DCBC),
        157 => Some(0xFFF67B),
        49 => Some(0xF8F184),
        44 => Some(0xF7F18D),
        1008 => Some(0xC1BE42),
        1029 => Some(0xFFFFCC),
        1009 => Some(0xFFFF00),
        134 => Some(0xD8DD56),
        115 => Some(0xC7D23C),
        200 => Some(0x828A5D),
        120 => Some(0xD9E4A7),
        119 => Some(0xA4BD47),
        1022 => Some(0x7F8E64),
        319 => Some(0xB9C4B1),
        324 => Some(0xA8BD99),
        29 => Some(0xA1C48C),
        1021 => Some(0x3A7D15),
        317 => Some(0x7C9C6B),
        323 => Some(0x94BE81),
        6 => Some(0xC2DAB8),
        304 => Some(0x2C651D),
        310 => Some(0x5B9A4C),
        328 => Some(0xB1E5A6),
        318 => Some(0x8AAB85),
        313 => Some(0x1F801D),
        1028 => Some(0xCCFFCC),
        37 => Some(0x4B974B),
        1020 => Some(0x00FF00),
        309 => Some(0x348E40),
        301 => Some(0x506D54),
        48 => Some(0x84B68D),
        141 => Some(0x27462D),
        210 => Some(0x709578),
        28 => Some(0x287F47),
        151 => Some(0x789082),
        1027 => Some(0x9FF3E9),
        1018 => Some(0x12EED4),
        118 => Some(0xB7D7D5),
        1019 => Some(0x00FFFF),
        107 => Some(0x008F9C),
        116 => Some(0x55A5AF),
        1013 => Some(0x04AFEC),
        315 => Some(0x0989CF),
        232 => Some(0x7DBBDD),
        11 => Some(0x80BBDC),
        42 => Some(0xC1DFF0),
        329 => Some(0x98C2DB),
        45 => Some(0xB4D2E4),
        23 => Some(0x0D69AC),
        26 => Some(0x1B2A35),
        1024 => Some(0xAFDDFF),
        43 => Some(0x7BB6E8),
        212 => Some(0x9FC3E9),
        140 => Some(0x203A56),
        143 => Some(0xCFE2F7),
        306 => Some(0x335882),
        102 => Some(0x6E99CA),
        305 => Some(0x527CAE),
        336 => Some(0xC7D4E4),
        135 => Some(0x74869D),
        314 => Some(0x9FADC0),
        145 => Some(0x7988A1),
        195 => Some(0x4667A4),
        196 => Some(0x23478B),
        1012 => Some(0x2154B9),
        1011 => Some(0x002060),
        213 => Some(0x6C81B7),
        149 => Some(0x161D32),
        110 => Some(0x435493),
        112 => Some(0x6874AC),
        307 => Some(0x102ADC),
        303 => Some(0x0010B0),
        220 => Some(0xA7A9CE),
        126 => Some(0xA5A5CB),
        1010 => Some(0x0000FF),
        1026 => Some(0xB1A7FF),
        268 => Some(0x342B75),
        219 => Some(0x6B629B),
        1031 => Some(0x6225D1),
        308 => Some(0x3D1585),
        1006 => Some(0xB480FF),
        1023 => Some(0x8C5B9F),
        104 => Some(0x6B327C),
        218 => Some(0x96709F),
        322 => Some(0x7B2F7B),
        312 => Some(0x592259),
        316 => Some(0x7B007B),
        1015 => Some(0xAA00AA),
        198 => Some(0x8E4285),
        321 => Some(0xA75E9B),
        1032 => Some(0xFF00BF),
        124 => Some(0x923978),
        1016 => Some(0xFF66CC),
        343 => Some(0xD490BD),
        330 => Some(0xFF98DC),
        342 => Some(0xE0B2D0),
        22 => Some(0xC470A0),
        221 => Some(0xCD6298),
        158 => Some(0xE1A4C2),
        222 => Some(0xE4ADC8),
        113 => Some(0xE5ADC8),
        9 => Some(0xE8BAC8),
        223 => Some(0xDC9095),
        _ => None,
    }
}

/// A color profile: one palette identifier for each body part.
#[derive(Debug, Clone, Copy, PartialEq, Eq, Structural)]
pub struct BodyColors {
    pub trso: u16,
    pub head: u16,
    pub lleg: u16,
    pub larm: u16,
    pub rarm: u16,
    pub rleg: u16,
}

/// The profile used when none is given: every part wears the default
/// palette identifier.
pub open spec fn default_body_colors() -> BodyColors {
    BodyColors {
        trso: DEFAULT_PALETTE_ID,
        head: DEFAULT_PALETTE_ID,
        lleg: DEFAULT_PALETTE_ID,
        larm: DEFAULT_PALETTE_ID,
        rarm: DEFAULT_PALETTE_ID,
        rleg: DEFAULT_PALETTE_ID,
    }
}

impl Default for BodyColors {
    fn default() -> (r: Self)
        ensures
            r == default_body_colors(),
    {
        BodyColors {
            trso: DEFAULT_PALETTE_ID,
            head: DEFAULT_PALETTE_ID,
            lleg: DEFAULT_PALETTE_ID,
            larm: DEFAULT_PALETTE_ID,
            rarm: DEFAULT_PALETTE_ID,
            rleg: DEFAULT_PALETTE_ID,
        }
    }
}

/// Six 24-bit RGB values, one per body part, derived from a profile by
/// palette lookup.
#[derive(Debug, Clone, Copy, PartialEq, Eq, Structural)]
pub struct ResolvedColors {
    pub trso: u32,
    pub head: u32,
    pub lleg: u32,
    pub larm: u32,
    pub rarm: u32,
    pub rleg: u32,
}

/// The RGB value a palette identifier resolves to, with black substituted
/// for the "no color" sentinel of unknown identifiers.
pub open spec fn resolved_rgb(id: u16) -> u32 {
    match palette_rgb(id) {
        Some(c) => c,
        None => 0,
    }
}

/// A whole profile after palette lookup, part by part.
pub open spec fn body_colors_resolved(bc: BodyColors) -> ResolvedColors {
    ResolvedColors {
        trso: resolved_rgb(bc.trso),
        head: resolved_rgb(bc.head),
        lleg: resolved_rgb(bc.lleg),
        larm: resolved_rgb(bc.larm),
        rarm: resolved_rgb(bc.rarm),
        rleg: resolved_rgb(bc.rleg),
    }
}

/// The fixed neutral palette of thumbnail jobs: mid-grey on every part.
pub open spec fn thumbnail_colors() -> ResolvedColors {
    ResolvedColors {
        trso: THUMBNAIL_RGB,
        head: THUMBNAIL_RGB,
        lleg: THUMBNAIL_RGB,
        larm: THUMBNAIL_RGB,
        rarm: THUMBNAIL_RGB,
        rleg: THUMBNAIL_RGB,
    }
}

/// Resolves one palette identifier, substituting black for unknown ones.
pub fn resolve_one(id: u16) -> (r: u32)
    ensures
        r == resolved_rgb(id),
{
    match from_brickcolor(id) {
        Some(c) => c,
        None => 0,
    }
}

/// Resolves a whole color profile by palette lookup.
pub fn resolve_colors(bc: &BodyColors) -> (r: ResolvedColors)
    ensures
        r == body_colors_resolved(*bc),
{
    ResolvedColors {
        trso: resolve_one(bc.trso),
        head: resolve_one(bc.head),
        lleg: resolve_one(bc.lleg),
        larm: resolve_one(bc.larm),
        rarm: resolve_one(bc.rarm),
        rleg: resolve_one(bc.rleg),
    }
}

/// The four RGBA bytes of a flat, fully opaque 1x1 texture built from a
/// 24-bit `0xRRGGBB` color.
pub fn from_hex(hex: u32) -> (r: [u8; 4])
    ensures
        r@ == seq![
            crate::recolor::rgb_red(hex),
            crate::recolor::rgb_green(hex),
            crate::recolor::rgb_blue(hex),
            255u8,
        ],
{
    let b_r = ((hex / 0x10000) % 0x100) as u8;
    let b_g = ((hex / 0x100) % 0x100) as u8;
    let b_b = (hex % 0x100) as u8;
    let r = [b_r, b_g, b_b, 255u8];
    proof {
        assert(r@ =~= seq![
            crate::recolor::rgb_red(hex),
            crate::recolor::rgb_green(hex),
            crate::recolor::rgb_blue(hex),
            255u8,
        ]);
    }
    r
}

/// The colors a full-avatar job renders with: its profile resolved by
/// palette lookup, or the default profile when none was given.
pub open spec fn avatar_profile_colors(profile: Option<BodyColors>) -> ResolvedColors {
    match profile {
        Some(p) => body_colors_resolved(p),
        None => body_colors_resolved(default_body_colors()),
    }
}

} // verus!
