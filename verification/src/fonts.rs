//! Font names, the texture units that hold their atlases, and the characters they cover.
use vstd::prelude::*;
use crate::v::{Vec2, Aabr};
use crate::words::push_char;

verus! {

/// The fonts of the game.
#[derive(Debug, Copy, Clone, Hash, PartialEq, Eq, Structural)]
pub enum FontName {
    Debug,
    Talk,
}

/// The texture units that hold the font atlases.
#[derive(Debug, Copy, Clone, Hash, PartialEq, Eq, Structural)]
pub enum TextureUnit {
    DebugFontAtlas,
    TalkFontAtlas,
}

impl TextureUnit {
    /// The index of the texture unit, as handed to the graphics API.
    pub fn gl_index(self) -> (r: u32)
        ensures
            r == (match self {
                TextureUnit::DebugFontAtlas => 1u32,
                TextureUnit::TalkFontAtlas => 2u32,
            }),
    {
        match self {
            TextureUnit::DebugFontAtlas => 1,
            TextureUnit::TalkFontAtlas => 2,
        }
    }

    /// The texture unit that holds the atlas of font `f`.
    pub open spec fn spec_from_font(f: FontName) -> TextureUnit {
        match f {
            FontName::Debug => TextureUnit::DebugFontAtlas,
            FontName::Talk => TextureUnit::TalkFontAtlas,
        }
    }

    /// The texture unit that holds the atlas of font `f`.
    pub fn from_font(f: FontName) -> (r: TextureUnit)
        ensures
            r == TextureUnit::spec_from_font(f),
    {
        match f {
            FontName::Debug => TextureUnit::DebugFontAtlas,
            FontName::Talk => TextureUnit::TalkFontAtlas,
        }
    }
}

impl From<FontName> for TextureUnit {
    fn from(f: FontName) -> (r: TextureUnit) {
        TextureUnit::from_font(f)
    }
}

impl vstd::std_specs::convert::FromSpecImpl<FontName> for TextureUnit {
    open spec fn obeys_from_spec() -> bool {
        true
    }

    open spec fn from_spec(f: FontName) -> TextureUnit {
        TextureUnit::spec_from_font(f)
    }
}

impl FontName {
    /// The font whose atlas the texture unit `u` holds.
    pub open spec fn spec_try_from_texture_unit(u: TextureUnit) -> Option<FontName> {
        match u {
            TextureUnit::DebugFontAtlas => Some(FontName::Debug),
            TextureUnit::TalkFontAtlas => Some(FontName::Talk),
        }
    }

    /// The font whose atlas the texture unit `u` holds, if any.
    pub fn try_from_texture_unit(u: TextureUnit) -> (r: Option<FontName>)
        ensures
            r == FontName::spec_try_from_texture_unit(u),
    {
        match u {
            TextureUnit::DebugFontAtlas => Some(FontName::Debug),
            TextureUnit::TalkFontAtlas => Some(FontName::Talk),
        }
    }
}

/// Where a glyph lies in its font atlas, and how it is placed.
#[derive(Debug, Copy, Clone, Hash, PartialEq, Eq, Structural)]
pub struct GlyphInfo {
    /// The rectangle of the glyph in the atlas (the Y axis goes downwards).
    pub bounds: Aabr<u16>,
    /// Horizontal position relative to the cursor, and vertical position relative to
    /// the baseline, in pixels.
    pub offset: Vec2<i16>,
    /// How far to move the cursor for the next character.
    pub advance: Vec2<i16>,
}

/// The accented characters that the fonts cover besides printable ASCII.
pub open spec fn extra_chars() -> Seq<char> {
    seq!['°', 'é', 'è', 'ç', 'à', 'ù']
}

/// The characters that every font atlas holds: a space, every printable
/// ASCII character, then a few accented letters.
pub open spec fn spec_all_supported_chars() -> Seq<char> {
    seq![' '] + Seq::new(94, |i: int| (33 + i) as char) + extra_chars()
}

/// The characters that every font atlas holds.
pub fn all_supported_chars() -> (r: String)
    ensures
        r@ == spec_all_supported_chars(),
{
    let mut chars = String::new();
    push_char(&mut chars, ' ');
    let mut i: u8 = 33;
    while i < 127
        invariant
            33 <= i <= 127,
            chars@ == seq![' '] + Seq::new((i - 33) as nat, |j: int| (33 + j) as char),
        decreases 127 - i,
    {
        push_char(&mut chars, i as char);
        i += 1;
        assert(chars@ =~= seq![' '] + Seq::new((i - 33) as nat, |j: int| (33 + j) as char));
    }
    chars.append("°éèçàù");
    proof {
        reveal_strlit("°éèçàù");
    }
    assert(chars@ =~= spec_all_supported_chars());
    chars
}

} // verus!
