use grisui::fonts::{all_supported_chars, FontName, TextureUnit};

#[test]
fn texture_unit_gl_indices() {
    assert_eq!(TextureUnit::DebugFontAtlas.gl_index(), 1);
    assert_eq!(TextureUnit::TalkFontAtlas.gl_index(), 2);
}

#[test]
fn texture_unit_of_each_font() {
    assert_eq!(TextureUnit::from_font(FontName::Debug), TextureUnit::DebugFontAtlas);
    assert_eq!(TextureUnit::from(FontName::Talk), TextureUnit::TalkFontAtlas);
}

#[test]
fn font_texture_unit_round_trip_values() {
    for f in [FontName::Debug, FontName::Talk] {
        assert_eq!(FontName::try_from_texture_unit(TextureUnit::from_font(f)), Some(f));
    }
}

#[test]
fn supported_chars_are_ascii_then_accents() {
    let expected = " !\"#$%&'()*+,-./0123456789:;<=>?@ABCDEFGHIJKLMNOPQRSTUVWXYZ[\\]^_`abcdefghijklmnopqrstuvwxyz{|}~°éèçàù";
    let chars = all_supported_chars();
    assert_eq!(chars, expected);
    assert_eq!(chars.chars().count(), 1 + 94 + 6);
}
