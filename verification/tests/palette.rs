use avatar_render::palette::BodyColors;
use avatar_render::palette::from_brickcolor;
use avatar_render::palette::from_hex;
use avatar_render::palette::resolve_colors;
use avatar_render::palette::resolve_one;

#[test]
fn known_identifiers_resolve_to_their_colors() {
    assert_eq!(from_brickcolor(1001), Some(0xF8F8F8));
    assert_eq!(from_brickcolor(1003), Some(0x111111));
    assert_eq!(from_brickcolor(23), Some(0x0D69AC));
    assert_eq!(from_brickcolor(223), Some(0xDC9095));
}

#[test]
fn unknown_identifiers_resolve_to_none() {
    assert_eq!(from_brickcolor(0), None);
    assert_eq!(from_brickcolor(9999), None);
    assert_eq!(from_brickcolor(u16::MAX), None);
}

#[test]
fn palette_resolution_is_pure() {
    for id in [1001u16, 1003, 23, 0, 9999] {
        let first = from_brickcolor(id);
        for _ in 0..3 {
            assert_eq!(from_brickcolor(id), first);
        }
    }
}

#[test]
fn unknown_identifier_falls_back_to_black() {
    assert_eq!(resolve_one(9999), 0x000000);
    assert_eq!(resolve_one(1001), 0xF8F8F8);
}

#[test]
fn from_hex_splits_channels_and_forces_opaque() {
    assert_eq!(from_hex(0x123456), [0x12, 0x34, 0x56, 255]);
    assert_eq!(from_hex(0x000000), [0, 0, 0, 255]);
    assert_eq!(from_hex(0xFFFFFF), [255, 255, 255, 255]);
    assert_eq!(from_hex(0xBFBFBF), [0xBF, 0xBF, 0xBF, 255]);
}

#[test]
fn default_profile_uses_the_default_identifier() {
    let d = BodyColors::default();
    assert_eq!(d.trso, 1001);
    assert_eq!(d.head, 1001);
    assert_eq!(d.lleg, 1001);
    assert_eq!(d.larm, 1001);
    assert_eq!(d.rarm, 1001);
    assert_eq!(d.rleg, 1001);
}

#[test]
fn resolving_the_default_profile_gives_institutional_white() {
    let r = resolve_colors(&BodyColors::default());
    assert_eq!(r.trso, 0xF8F8F8);
    assert_eq!(r.head, 0xF8F8F8);
    assert_eq!(r.lleg, 0xF8F8F8);
    assert_eq!(r.larm, 0xF8F8F8);
    assert_eq!(r.rarm, 0xF8F8F8);
    assert_eq!(r.rleg, 0xF8F8F8);
}
