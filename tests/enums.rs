use dash_rs::{Color, ModLevel};

#[test]
fn mod_level_every_code_round_trips() {
    for i in 0..=255u8 {
        assert_eq!(u8::from(ModLevel::from(i)), i);
    }
}

#[test]
fn mod_level_known_variants_round_trip() {
    for level in [ModLevel::NoMod, ModLevel::Normal, ModLevel::Elder, ModLevel::Unknown(3), ModLevel::Unknown(255)] {
        assert_eq!(ModLevel::from(u8::from(level)), level);
    }
}

#[test]
fn mod_level_codes() {
    assert_eq!(ModLevel::from(0), ModLevel::NoMod);
    assert_eq!(ModLevel::from(1), ModLevel::Normal);
    assert_eq!(ModLevel::from(2), ModLevel::Elder);
    assert_eq!(ModLevel::from(3), ModLevel::Unknown(3));
    assert_eq!(u8::from(ModLevel::Elder), 2);
    assert_eq!(u8::from(ModLevel::Unknown(77)), 77);
}

#[test]
fn color_every_index_round_trips() {
    for i in 0..=255u8 {
        assert_eq!(Color::from(i).to_code(), Some(i));
    }
}

#[test]
fn color_palette_entries() {
    assert_eq!(Color::from(0), Color::Known(125, 255, 0));
    assert_eq!(Color::from(9), Color::Known(255, 0, 0));
    assert_eq!(Color::from(10), Color::Known(255, 125, 0));
    assert_eq!(Color::from(12), Color::Known(255, 255, 255));
    assert_eq!(Color::from(15), Color::Known(0, 0, 0));
    assert_eq!(Color::from(16), Color::Known(0, 200, 255));
    assert_eq!(Color::from(41), Color::Known(125, 125, 255));
}

#[test]
fn color_outside_palette_is_kept() {
    assert_eq!(Color::from(42), Color::Unknown(42));
    assert_eq!(Color::from(255), Color::Unknown(255));
    assert_eq!(Color::Unknown(42).to_code(), Some(42));
}

#[test]
fn color_known_round_trips() {
    for color in [Color::Known(255, 0, 0), Color::Known(0, 0, 150), Color::Unknown(100)] {
        let code = color.to_code().unwrap();
        assert_eq!(Color::from(code), color);
    }
}

#[test]
fn color_without_palette_entry_has_no_code() {
    assert_eq!(Color::Known(1, 2, 3).to_code(), None);
}

#[test]
fn profile_fields_resolve_through_tables() {
    // a profile record with mod level 0 and colors 9 and 10
    assert_eq!(ModLevel::from(0), ModLevel::NoMod);
    assert_eq!(Color::from(9), Color::Known(255, 0, 0));
    assert_eq!(Color::from(10), Color::Known(255, 125, 0));
    assert_eq!(Color::Known(255, 0, 0).to_code(), Some(9));
    assert_eq!(Color::Known(255, 125, 0).to_code(), Some(10));
}
