//! Properties that hold across the operations of the library.
use vstd::prelude::*;
use crate::command_file::{CommandErrorView, keyword_index, lemma_keyword_index, parse_words};
use crate::resources::{DirEntryInfo, ExpectedEntry, missing, satisfies};
use crate::scene_file::{ShapeInstanceRecordView, SceneLoadErrorView, apply_scene_commands, scene_arities, scene_keywords, spec_scene_records};
use crate::ecs::World;
use crate::events::{self, SubscriberCall, Sdl2EventSubscriber};
use crate::editor_controls::{EditorActionView, EditorControlsView, after_key as editor_after_key};
use crate::font_atlas::{GlyphBitmap, blit_row, blit_rows, fits, pack, whole_pixels};
use crate::fonts::GlyphInfo;
use crate::text_layout::{LayoutError, glyph_from, glyph_of, is_skipped, layout};
use crate::v::Vec2;
use crate::fonts::{FontName, TextureUnit};
use crate::game::{GameView, ShapeStrokeFlags, after_key};
use crate::message::Message;
use crate::engine_input::{Key, state_in};
use crate::input::{ButtonInput, InputView, MouseInput, key_in};
use crate::key_state::KeyState;
use crate::lazy::{Lazy, lazy_from_option};
use crate::message::GameMode;
use crate::platform_event::{
    Event, Keycode, MouseWheelDirection, KEYCODE_F6, KEYCODE_F7, KEYCODE_BACKSPACE, KEYCODE_COLON, KEYCODE_ESCAPE, KEYCODE_F, KEYCODE_F8, KEYCODE_G, KEYCODE_I, KEYCODE_J, KEYCODE_K,
    KEYCODE_L, KEYCODE_M, KEYCODE_O, KEYCODE_P, KEYCODE_R, KEYCODE_RETURN, KEYCODE_SPACE, KEYCODE_T, KEYCODE_TAB, KEYCODE_U,
};
use crate::color::Hsva;
use crate::cloth::{springs_of, springs_upto};
use crate::editor_command::{colon_joined, first_line_or_empty, has_components, spec_command_components, spec_completed, strip_colon};
use crate::words::spec_first_line;
use crate::words::{scan_words, spec_is_whitespace, words};
use crate::shape_file::{ShapeCommandKind, shape_arities, shape_keywords, shape_kind, spec_shape_commands};

verus! {

/// Flipping a key state twice gives it back.
pub proof fn law_key_state_flip_involutive(s: KeyState)
    ensures
        s.flipped().flipped() == s,
        s.flipped() != s,
{
}

/// Right after a tick begins, a button is neither just pressed nor just released.
pub proof fn law_begun_button_is_quiet(b: ButtonInput)
    ensures
        !b.begun().spec_was_just_pressed(),
        !b.begun().spec_was_just_released(),
        b.begun().is_pressed == b.is_pressed,
{
}

/// Pressing an already pressed button, or releasing a released one, changes nothing.
pub proof fn law_press_release_idempotent(b: ButtonInput)
    ensures
        b.pressed().pressed() == b.pressed(),
        b.released().released() == b.released(),
{
}

/// A button pressed during a tick in which it began up is reported as just pressed.
pub proof fn law_press_after_begin_is_just_pressed(b: ButtonInput)
    requires
        !b.is_pressed,
    ensures
        b.begun().pressed().spec_was_just_pressed(),
        !b.begun().pressed().spec_was_just_released(),
{
}

/// A button pressed and released within one tick is reported both as just pressed and
/// as just released, so that a quick tap is never missed.
pub proof fn law_tap_within_one_tick_is_seen(b: ButtonInput)
    requires
        !b.is_pressed,
    ensures
        b.begun().pressed().released().spec_was_just_pressed(),
        b.begun().pressed().released().spec_was_just_released(),
        !b.begun().pressed().released().is_pressed,
{
}

/// After a key is pressed (by a key-down event that is not a repeat), it is down; after
/// it is released, it is up; other keys keep their state.
pub proof fn law_key_events_set_key(v: InputView, k: i32, other: i32, scancode: Option<i32>)
    requires
        k != other,
    ensures
        key_in(v.after(Event::KeyDown { keycode: Some(k), scancode, repeat: false }).keys, k).is_pressed,
        !key_in(v.after(Event::KeyUp { keycode: Some(k), scancode }).keys, k).is_pressed,
        key_in(v.after(Event::KeyDown { keycode: Some(k), scancode, repeat: false }).keys, other)
            == key_in(v.keys, other),
        v.after(Event::KeyDown { keycode: Some(k), scancode, repeat: true }) == v,
{
}

/// A new tick forgets the text typed and the scroll amount of the previous one, and
/// remembers every key that was seen.
pub proof fn law_begin_tick_resets_tick_data(v: InputView)
    ensures
        v.begun().text == Seq::<char>::empty(),
        v.begun().mouse.scroll == crate::v::Vec2::<i32>::spec_zero(),
        v.begun().keys.dom() == v.keys.dom(),
        v.begun().wants_to_quit == v.wants_to_quit,
{
}

/// Typed text accumulates over the events of a tick, in order.
pub proof fn law_text_input_appends(v: InputView, a: String, b: String)
    ensures
        v.after(Event::TextInput { text: a }).after(Event::TextInput { text: b }).text == v.text
            + a@ + b@,
{
    assert(v.text + a@ + b@ == (v.text + a@) + b@);
}

/// Converting an `Option` to a `Lazy` and back gives it back, and the other way round.
pub proof fn law_lazy_option_round_trip<T>(o: Option<T>, l: Lazy<T>)
    ensures
        lazy_from_option(o).spec_into_option() == o,
        lazy_from_option(l.spec_into_option()) == l,
{
}

/// The font whose atlas a font's texture unit holds is that font.
pub proof fn law_font_texture_unit_round_trip(f: FontName, u: TextureUnit)
    ensures
        FontName::spec_try_from_texture_unit(TextureUnit::spec_from_font(f)) == Some(f),
        FontName::spec_try_from_texture_unit(u) matches Some(g) && TextureUnit::spec_from_font(g) == u,
{
}

/// Whatever event the world is notified of, it allows quitting exactly when it already
/// did or the event is a request to quit.
pub proof fn law_world_quits_only_on_quit(w: World, e: Event)
    ensures
        events::after_calls(w, events::subscriber_calls(e)).allows_quitting == (w.allows_quitting
            || e == Event::Quit),
{
    reveal_with_fuel(events::after_calls, 3);
    let calls = events::subscriber_calls(e);
    assert(calls.len() == 2 ==> calls.drop_first().drop_first() =~= Seq::<SubscriberCall>::empty());
    assert(calls.len() == 1 ==> calls.drop_first() =~= Seq::<SubscriberCall>::empty());
}

/// A mouse button event reports where the pointer is before it reports the button.
pub proof fn law_button_event_moves_pointer_first(btn: crate::platform_event::Sdl2MouseButton, x: i32, y: i32)
    ensures
        events::subscriber_calls(Event::MouseButtonDown { mouse_btn: btn, x, y }).len() == 2,
        events::subscriber_calls(Event::MouseButtonDown { mouse_btn: btn, x, y })[0]
            == SubscriberCall::MouseMotion(crate::v::Vec2 { x, y }),
{
}

/// The input system remembers the last state reported for a key.
pub proof fn law_input_system_records_key(g: GameView, key: Key)
    requires
        key.code is Some,
    ensures
        state_in(after_key(g, key).input.keys, key.code->0) == key.state,
{
}

/// Pressing F8 twice switches from editing to playing and back, and sends the four
/// messages of the two switches in order.
pub proof fn law_f8_toggles_game_mode(g: GameView, scancode: Option<i32>)
    ensures
        ({
            let down = Key { code: Some(KEYCODE_F8), scancode, state: KeyState::Down };
            let g2 = after_key(after_key(g, down), down);
            &&& g2.game_mode == g.game_mode
            &&& after_key(g, down).game_mode != g.game_mode
            &&& g2.messages.len() == g.messages.len() + 4
        }),
{
}

/// Every word of a text is non-empty and holds no whitespace.
pub proof fn law_words_are_nonempty_without_whitespace(s: Seq<char>)
    ensures
        forall|i: int| 0 <= i < words(s).len() ==> (#[trigger] words(s)[i]).len() > 0,
        forall|i: int, j: int|
            0 <= i < words(s).len() && 0 <= j < words(s)[i].len() ==> !spec_is_whitespace(
                #[trigger] words(s)[i][j],
            ),
{
    lemma_scan_words_clean(s);
}

/// What `scan_words` has completed, and the word it is reading, are clean.
proof fn lemma_scan_words_clean(s: Seq<char>)
    ensures
        ({
            let (done, cur) = scan_words(s);
            &&& forall|i: int| 0 <= i < done.len() ==> (#[trigger] done[i]).len() > 0
            &&& forall|i: int, j: int|
                0 <= i < done.len() && 0 <= j < done[i].len() ==> !spec_is_whitespace(#[trigger] done[i][j])
            &&& forall|j: int| 0 <= j < cur.len() ==> !spec_is_whitespace(#[trigger] cur[j])
        }),
    decreases s.len(),
{
    if s.len() > 0 {
        lemma_scan_words_clean(s.drop_last());
        let (done, cur) = scan_words(s.drop_last());
        let c = s.last();
        if !spec_is_whitespace(c) {
            let cur2 = cur.push(c);
            assert forall|j: int| 0 <= j < cur2.len() implies !spec_is_whitespace(#[trigger] cur2[j]) by {
                if j < cur.len() {
                    assert(cur2[j] == cur[j]);
                }
            }
        }
    }
}

/// A shape or scene file with no words holds no command; one whose first word is not a
/// keyword is refused for that word.
pub proof fn law_parse_empty_and_unknown(keywords: Seq<Seq<char>>, arities: Seq<usize>, ws: Seq<Seq<char>>)
    requires
        ws.len() > 0,
        forall|i: int| 0 <= i < keywords.len() ==> keywords[i] != ws[0],
    ensures
        parse_words(keywords, arities, Seq::empty()) == Ok::<Seq<(int, Seq<Seq<char>>)>, CommandErrorView>(
            Seq::empty(),
        ),
        parse_words(keywords, arities, ws) == Err::<Seq<(int, Seq<Seq<char>>)>, CommandErrorView>(
            CommandErrorView::UnknownCommand(ws[0]),
        ),
{
    crate::command_file::lemma_keyword_index(keywords, ws[0]);
    if let Some(k) = crate::command_file::keyword_index(keywords, ws[0]) {
        assert(keywords[k] != ws[0]);
    }
}

/// When glyphs pack without error, the atlas lists their characters in the order given,
/// and no character came twice.
pub proof fn law_packed_glyphs_keep_their_chars(w: int, lh: int, glyphs: Seq<(char, GlyphBitmap)>)
    requires
        pack(w, lh, glyphs) is Ok,
    ensures
        pack(w, lh, glyphs)->Ok_0.glyphs.len() == glyphs.len(),
        forall|i: int| 0 <= i < glyphs.len() ==> (#[trigger] pack(w, lh, glyphs)->Ok_0.glyphs[i]).0 == glyphs[i].0,
        forall|i: int, j: int| 0 <= i < j < glyphs.len() ==> glyphs[i].0 != glyphs[j].0,
    decreases glyphs.len(),
{
    if glyphs.len() > 0 {
        let init = glyphs.drop_last();
        law_packed_glyphs_keep_their_chars(w, lh, init);
        let st = pack(w, lh, init)->Ok_0;
        let c = glyphs.last().0;
        assert forall|i: int| 0 <= i < glyphs.len() - 1 implies glyphs[i].0 != c by {
            assert(st.glyphs[i].0 == init[i].0);
            if glyphs[i].0 == c {
                assert(crate::font_atlas::placed(st.glyphs, c));
            }
        }
        assert forall|i: int, j: int| 0 <= i < j < glyphs.len() implies glyphs[i].0 != glyphs[j].0 by {
            if j < glyphs.len() - 1 {
                assert(init[i] == glyphs[i] && init[j] == glyphs[j]);
            }
        }
    }
}

/// Releasing a key never makes the editor ask for anything: every action of the editor
/// comes from a key being pressed.
pub proof fn law_editor_release_asks_nothing(e: EditorControlsView, key: Key)
    requires
        key.state == KeyState::Up,
    ensures
        editor_after_key(e, key).1 == EditorActionView::Nothing,
{
}

/// Every glyph that laying out a text draws is one that the font has.
pub proof fn law_laid_out_glyphs_exist(text: Seq<char>, line_height: u16, glyphs: Seq<(char, GlyphInfo)>)
    requires
        layout(text, line_height, glyphs) is Ok,
    ensures
        forall|i: int| 0 <= i < layout(text, line_height, glyphs)->Ok_0.1.len() ==> glyph_of(
            glyphs,
            (#[trigger] layout(text, line_height, glyphs)->Ok_0.1[i]).0,
        ) is Some,
    decreases text.len(),
{
    if text.len() > 0 {
        law_laid_out_glyphs_exist(text.drop_last(), line_height, glyphs);
    }
}

/// In a realm whose identifiers are all at most `highest`, the fresh identifier
/// `highest + 1` is unused, and storing a value under it then removing it gives the map
/// back.
pub proof fn law_realm_remove_undoes_fresh_insert<T>(m: Map<u32, T>, highest: u32, v: T)
    requires
        highest < u32::MAX,
        forall|k: u32| #[trigger] m.contains_key(k) ==> k <= highest,
    ensures
        !m.contains_key((highest + 1) as u32),
        m.insert((highest + 1) as u32, v).remove((highest + 1) as u32) == m,
{
    assert(m.insert((highest + 1) as u32, v).remove((highest + 1) as u32) =~= m);
}

/// A line feed starts a new line one line height below the line it ends: a character
/// drawn right after a line feed is drawn at the left edge (x = 0), at the height where
/// the text before the line feed left the cursor plus `line_height`. So each line feed
/// moves the text one more line down.
pub proof fn law_line_feed_moves_one_line_down(
    text: Seq<char>,
    c: char,
    line_height: u16,
    glyphs: Seq<(char, GlyphInfo)>,
)
    requires
        c != '\n' && c != ' ' && c != '\t' && !is_skipped(c),
        glyph_of(glyphs, c) is Some,
        layout(text + seq!['\n', c], line_height, glyphs) is Ok,
    ensures
        layout(text, line_height, glyphs) is Ok,
        ({
            let before = layout(text, line_height, glyphs)->Ok_0;
            let after = layout(text + seq!['\n', c], line_height, glyphs)->Ok_0;
            &&& after.1 == before.1.push((c, Vec2 { x: 0i16, y: (before.0.y + (line_height as i16)) as i16 }))
            &&& before.0.y + (line_height as i16) <= i16::MAX
        }),
{
    let full = text + seq!['\n', c];
    let mid = text + seq!['\n'];
    assert(full.drop_last() =~= mid);
    assert(full.last() == c);
    assert(mid.drop_last() =~= text);
    assert(mid.last() == '\n');
    assert(full.len() > 0 && mid.len() > 0);
    assert(layout(full, line_height, glyphs) == match layout(mid, line_height, glyphs) {
        Err(e) => Err(e),
        Ok((adv, drawn)) => crate::text_layout::layout_step(adv, drawn, c, line_height, glyphs),
    });
    assert(layout(mid, line_height, glyphs) == match layout(text, line_height, glyphs) {
        Err(e) => Err(e),
        Ok((adv, drawn)) => crate::text_layout::layout_step(adv, drawn, '\n', line_height, glyphs),
    });
}

/// In the active editor, while no command is typed, holding R turns the camera one way
/// and holding T the other way: R gives rotation -1, T gives +1, and releasing either
/// stops the rotation. Nothing else about the editor changes, and no action is asked for.
pub proof fn law_r_and_t_turn_the_camera_opposite_ways(e: EditorControlsView, scancode: Option<i32>)
    requires
        e.is_active,
        !e.is_entering_command,
    ensures
        ({
            let r = editor_after_key(e, Key { code: Some(KEYCODE_R), scancode, state: KeyState::Down });
            let t = editor_after_key(e, Key { code: Some(KEYCODE_T), scancode, state: KeyState::Down });
            &&& r.0.camera_rotation == -1
            &&& t.0.camera_rotation == 1
            &&& t.0.camera_rotation == -r.0.camera_rotation
            &&& r.0 == EditorControlsView { camera_rotation: -1i8, ..e }
            &&& t.0 == EditorControlsView { camera_rotation: 1i8, ..e }
            &&& r.1 == EditorActionView::Nothing
            &&& t.1 == EditorActionView::Nothing
        }),
        editor_after_key(e, Key { code: Some(KEYCODE_R), scancode, state: KeyState::Up }).0.camera_rotation == 0,
        editor_after_key(e, Key { code: Some(KEYCODE_T), scancode, state: KeyState::Up }).0.camera_rotation == 0,
{
}

/// The scene keywords `I`, `P`, `R` and `S` are found at their own positions.
proof fn lemma_scene_keyword_positions()
    ensures
        keyword_index(scene_keywords(), "I"@) == Some(0int),
        keyword_index(scene_keywords(), "P"@) == Some(1int),
        keyword_index(scene_keywords(), "R"@) == Some(2int),
        keyword_index(scene_keywords(), "S"@) == Some(3int),
{
    reveal_strlit("I");
    reveal_strlit("P");
    reveal_strlit("R");
    reveal_strlit("S");
    let k = scene_keywords();
    assert(k[0] == "I"@ && k[1] == "P"@ && k[2] == "R"@ && k[3] == "S"@);
    assert("I"@[0] != "P"@[0] && "I"@[0] != "R"@[0] && "I"@[0] != "S"@[0]);
    assert("P"@[0] != "R"@[0] && "P"@[0] != "S"@[0] && "R"@[0] != "S"@[0]);
    lemma_keyword_index(k, "I"@);
    lemma_keyword_index(k, "P"@);
    lemma_keyword_index(k, "R"@);
    lemma_keyword_index(k, "S"@);
}

/// A scene file that places one instance and then gives its position, rotation and
/// scale yields that one instance, named as written, with the position words, the
/// rotation word and the scale words in the order they were written (first word x,
/// then y, then z).
pub proof fn law_scene_record_keeps_words_in_order(
    text: Seq<char>,
    source: Seq<char>,
    name: Seq<char>,
    px: Seq<char>,
    py: Seq<char>,
    pz: Seq<char>,
    degrees: Seq<char>,
    sx: Seq<char>,
    sy: Seq<char>,
)
    requires
        words(text) == seq!["I"@, source, name, "P"@, px, py, pz, "R"@, degrees, "S"@, sx, sy],
    ensures
        spec_scene_records(text) == Ok::<Seq<ShapeInstanceRecordView>, SceneLoadErrorView>(
            seq![
                ShapeInstanceRecordView {
                    source_shape_name: source,
                    name: name,
                    position: Some(seq![px, py, pz]),
                    rotation_degrees: Some(degrees),
                    scale: Some(seq![sx, sy]),
                },
            ],
        ),
{
    lemma_scene_keyword_positions();
    let k = scene_keywords();
    let a = scene_arities();
    let ws = words(text);
    let w3 = ws.skip(3);
    let w7 = ws.skip(7);
    let w9 = ws.skip(9);
    assert(w9 =~= seq!["S"@, sx, sy]);
    assert(w9.skip(3) =~= Seq::<Seq<char>>::empty());
    assert(w9.subrange(1, 3) =~= seq![sx, sy]);
    let c3 = seq![(3int, seq![sx, sy])];
    assert(parse_words(k, a, w9.skip(3)) == Ok::<Seq<(int, Seq<Seq<char>>)>, CommandErrorView>(Seq::empty()));
    assert(parse_words(k, a, w9) == Ok::<Seq<(int, Seq<Seq<char>>)>, CommandErrorView>(c3)) by {
        assert(c3 + Seq::<(int, Seq<Seq<char>>)>::empty() =~= c3);
    }
    assert(w7 =~= seq!["R"@, degrees, "S"@, sx, sy]);
    assert(w7.skip(2) =~= w9);
    assert(w7.subrange(1, 2) =~= seq![degrees]);
    let c2 = seq![(2int, seq![degrees])] + c3;
    assert(parse_words(k, a, w7) == Ok::<Seq<(int, Seq<Seq<char>>)>, CommandErrorView>(c2));
    assert(w3 =~= seq!["P"@, px, py, pz, "R"@, degrees, "S"@, sx, sy]);
    assert(w3.skip(4) =~= w7);
    assert(w3.subrange(1, 4) =~= seq![px, py, pz]);
    let c1 = seq![(1int, seq![px, py, pz])] + c2;
    assert(parse_words(k, a, w3) == Ok::<Seq<(int, Seq<Seq<char>>)>, CommandErrorView>(c1));
    assert(ws.skip(3) =~= w3);
    assert(ws.subrange(1, 3) =~= seq![source, name]);
    let c0 = seq![(0int, seq![source, name])] + c1;
    assert(parse_words(k, a, ws) == Ok::<Seq<(int, Seq<Seq<char>>)>, CommandErrorView>(c0));
    assert(c0.len() == 4);
    let r0 = ShapeInstanceRecordView { source_shape_name: source, name: name, position: None, rotation_degrees: None, scale: None };
    let r1 = ShapeInstanceRecordView { position: Some(seq![px, py, pz]), ..r0 };
    let r2 = ShapeInstanceRecordView { rotation_degrees: Some(degrees), ..r1 };
    let r3 = ShapeInstanceRecordView { scale: Some(seq![sx, sy]), ..r2 };
    assert(c0.take(0) =~= Seq::<(int, Seq<Seq<char>>)>::empty());
    assert(c0.take(1).drop_last() =~= c0.take(0));
    assert(c0.take(1).last() == (0int, seq![source, name]));
    assert(apply_scene_commands(c0.take(0)) == Some(Seq::<ShapeInstanceRecordView>::empty()));
    assert(apply_scene_commands(c0.take(1)) == Some(seq![r0])) by {
        let args = seq![source, name];
        assert(args[0] == source && args[1] == name);
        assert(crate::scene_file::apply_scene_command(Seq::empty(), 0, args) == Some(Seq::<ShapeInstanceRecordView>::empty().push(r0)));
        assert(Seq::<ShapeInstanceRecordView>::empty().push(r0) =~= seq![r0]);
    }
    assert(c0.take(2).drop_last() =~= c0.take(1));
    assert(c0.take(2).last() == (1int, seq![px, py, pz]));
    assert(apply_scene_commands(c0.take(2)) == Some(seq![r1])) by {
        assert(seq![r0].drop_last().push(r1) =~= seq![r1]);
    }
    assert(c0.take(3).drop_last() =~= c0.take(2));
    assert(c0.take(3).last() == (2int, seq![degrees]));
    assert(apply_scene_commands(c0.take(3)) == Some(seq![r2])) by {
        assert(seq![r1].drop_last().push(r2) =~= seq![r2]);
    }
    assert(c0.drop_last() =~= c0.take(3));
    assert(c0.last() == (3int, seq![sx, sy]));
    assert(apply_scene_commands(c0) == Some(seq![r3])) by {
        assert(seq![r2].drop_last().push(r3) =~= seq![r3]);
    }
}

/// Truncating to 16 bits before or after adding gives the same result.
proof fn lemma_u16_add_wraps(a: u64, b: u64)
    by (bit_vector)
    requires
        a < 0x4_0000_0000,
        b < 0x1_0000_0000,
    ensures
        ((a + b) as u16) == (((a as u16) as u64 + b) as u16),
{
}

/// Placement facts about every glyph packed so far: the pen never goes left of or above
/// the origin, and each glyph's rectangle spans exactly its bitmap.
proof fn lemma_packed_bounds(w: int, lh: int, glyphs: Seq<(char, GlyphBitmap)>)
    requires
        0 <= w <= 0x1_0000_0000,
        lh >= 0,
        pack(w, lh, glyphs) is Ok,
    ensures
        pack(w, lh, glyphs)->Ok_0.pen_x >= 0,
        pack(w, lh, glyphs)->Ok_0.pen_y >= 0,
        pack(w, lh, glyphs)->Ok_0.glyphs.len() == glyphs.len(),
        forall|i: int| 0 <= i < glyphs.len() ==> {
            let info = (#[trigger] pack(w, lh, glyphs)->Ok_0.glyphs[i]).1;
            let bmp = glyphs[i].1;
            &&& info.bounds.max.x == (info.bounds.min.x + bmp.width) as u16
            &&& info.bounds.max.y == (info.bounds.min.y + bmp.rows) as u16
        },
    decreases glyphs.len(),
{
    if glyphs.len() > 0 {
        let init = glyphs.drop_last();
        lemma_packed_bounds(w, lh, init);
        let st = pack(w, lh, init)->Ok_0;
        let bmp = glyphs.last().1;
        let (x, y) = if st.pen_x + bmp.width >= w {
            (0int, st.pen_y + lh + 1)
        } else {
            (st.pen_x, st.pen_y)
        };
        assert(0 <= x < 0x1_0000_0000 && 0 <= y < 0x1_0000_0000);
        lemma_u16_add_wraps(x as u64, bmp.width as u64);
        lemma_u16_add_wraps(y as u64, bmp.rows as u64);
        let info = crate::font_atlas::glyph_info_at(bmp, x, y);
        assert(info.bounds.max.x == (info.bounds.min.x + bmp.width) as u16);
        assert(info.bounds.max.y == (info.bounds.min.y + bmp.rows) as u16);
        let after = pack(w, lh, glyphs)->Ok_0;
        assert forall|i: int| 0 <= i < glyphs.len() implies {
            let info = (#[trigger] pack(w, lh, glyphs)->Ok_0.glyphs[i]).1;
            let bmp = glyphs[i].1;
            &&& info.bounds.max.x == (info.bounds.min.x + bmp.width) as u16
            &&& info.bounds.max.y == (info.bounds.min.y + bmp.rows) as u16
        } by {
            if i < glyphs.len() - 1 {
                assert(after.glyphs[i] == st.glyphs[i]);
                assert(glyphs[i] == init[i]);
            }
        }
    }
}

/// In an atlas whose side fits the machine (its area fits in 64 bits), every packed
/// glyph's rectangle spans exactly its bitmap: the bottom-right corner is the top-left
/// corner moved by the bitmap's width and height (in 16-bit texture coordinates).
pub proof fn law_packed_glyph_spans_its_bitmap(w: int, lh: int, glyphs: Seq<(char, GlyphBitmap)>)
    requires
        0 <= w,
        w * w <= 0xffff_ffff_ffff_ffff,
        lh >= 0,
        pack(w, lh, glyphs) is Ok,
    ensures
        pack(w, lh, glyphs)->Ok_0.glyphs.len() == glyphs.len(),
        forall|i: int| 0 <= i < glyphs.len() ==> {
            let info = (#[trigger] pack(w, lh, glyphs)->Ok_0.glyphs[i]).1;
            let bmp = glyphs[i].1;
            &&& info.bounds.max.x == (info.bounds.min.x + bmp.width) as u16
            &&& info.bounds.max.y == (info.bounds.min.y + bmp.rows) as u16
        },
{
    assert(w <= 0x1_0000_0000) by (nonlinear_arith)
        requires
            0 <= w,
            w * w <= 0xffff_ffff_ffff_ffff,
    ;
    lemma_packed_bounds(w, lh, glyphs);
}

/// A name is reported missing exactly when some expected entry with that name has no
/// found entry that satisfies it (same name, and a directory or a file as required); so
/// when every expected entry is found, nothing is reported missing.
pub proof fn law_missing_means_not_found(expected: Seq<ExpectedEntry>, found: Seq<DirEntryInfo>)
    ensures
        forall|n: Seq<char>| #[trigger] missing(expected, found).contains(n) <==> exists|i: int|
            0 <= i < expected.len() && expected[i].name@ == n && forall|j: int|
                0 <= j < found.len() ==> !satisfies(#[trigger] found[j], expected[i]),
        (forall|i: int| 0 <= i < expected.len() ==> exists|j: int|
            0 <= j < found.len() && satisfies(#[trigger] found[j], #[trigger] expected[i]))
            ==> missing(expected, found).len() == 0,
    decreases expected.len(),
{
    if expected.len() > 0 {
        let init = expected.drop_last();
        let e = expected.last();
        law_missing_means_not_found(init, found);
        let rest = missing(init, found);
        assert forall|n: Seq<char>| #[trigger] missing(expected, found).contains(n) <==> exists|i: int|
            0 <= i < expected.len() && expected[i].name@ == n && forall|j: int|
                0 <= j < found.len() ==> !satisfies(#[trigger] found[j], expected[i]) by {
            if missing(expected, found).contains(n) {
                if rest.contains(n) {
                    let i = choose|i: int| 0 <= i < init.len() && init[i].name@ == n && forall|j: int|
                        0 <= j < found.len() ==> !satisfies(#[trigger] found[j], init[i]);
                    assert(expected[i] == init[i]);
                } else {
                    let k = choose|k: int| 0 <= k < missing(expected, found).len() && missing(expected, found)[k] == n;
                    assert(!crate::resources::is_present(found, e));
                    assert(n == e.name@);
                    assert(expected[expected.len() - 1] == e);
                }
            }
            if exists|i: int| 0 <= i < expected.len() && expected[i].name@ == n && forall|j: int|
                0 <= j < found.len() ==> !satisfies(#[trigger] found[j], expected[i]) {
                let i = choose|i: int| 0 <= i < expected.len() && expected[i].name@ == n && forall|j: int|
                    0 <= j < found.len() ==> !satisfies(#[trigger] found[j], expected[i]);
                if i < expected.len() - 1 {
                    assert(init[i] == expected[i]);
                    assert(rest.contains(n));
                    if crate::resources::is_present(found, e) {
                    } else {
                        assert(missing(expected, found) == rest.push(e.name@));
                        assert(missing(expected, found)[rest.len() as int] == e.name@);
                        let k = choose|k: int| 0 <= k < rest.len() && rest[k] == n;
                        assert(missing(expected, found)[k] == n);
                    }
                } else {
                    assert(expected[i] == e);
                    assert(!crate::resources::is_present(found, e));
                    assert(missing(expected, found) == rest.push(e.name@));
                    assert(missing(expected, found)[rest.len() as int] == n);
                }
            }
        }
        if forall|i: int| 0 <= i < expected.len() ==> exists|j: int|
            0 <= j < found.len() && satisfies(#[trigger] found[j], #[trigger] expected[i]) {
            assert forall|i: int| 0 <= i < init.len() implies exists|j: int|
                0 <= j < found.len() && satisfies(#[trigger] found[j], #[trigger] init[i]) by {
                assert(init[i] == expected[i]);
            }
            assert(expected[expected.len() - 1] == e);
            let j = choose|j: int| 0 <= j < found.len() && satisfies(#[trigger] found[j], e);
            assert(crate::resources::is_present(found, e));
        }
    }
}

/// What one more character does to a laid-out text: a character the font has is drawn
/// where the cursor is, and the cursor then moves by that glyph's advance; a character
/// the font lacks is drawn as `?` in the same way; a space moves the cursor by the space's
/// advance and a tab by four times it, drawing nothing; other control characters change
/// nothing.
pub proof fn law_each_character_moves_the_cursor(
    text: Seq<char>,
    c: char,
    line_height: u16,
    glyphs: Seq<(char, GlyphInfo)>,
)
    requires
        c != '\n',
        layout(text.push(c), line_height, glyphs) is Ok,
    ensures
        layout(text, line_height, glyphs) is Ok,
        ({
            let before = layout(text, line_height, glyphs)->Ok_0;
            let after = layout(text.push(c), line_height, glyphs)->Ok_0;
            let space = glyph_of(glyphs, ' ');
            &&& (c == ' ' || c == '\t') ==> {
                let k: int = if c == ' ' { 1 } else { 4 };
                &&& space is Some
                &&& after.1 == before.1
                &&& after.0.x == before.0.x + k * space->0.advance.x
                &&& after.0.y == before.0.y + k * space->0.advance.y
            }
            &&& (c != ' ' && c != '\t' && is_skipped(c)) ==> after == before
            &&& (c != ' ' && c != '\t' && !is_skipped(c)) ==> {
                let d = if glyph_of(glyphs, c) is Some { c } else { '?' };
                let g = glyph_of(glyphs, d);
                &&& g is Some
                &&& after.1 == before.1.push((d, before.0))
                &&& after.0.x == before.0.x + g->0.advance.x
                &&& after.0.y == before.0.y + g->0.advance.y
            }
        }),
{
    assert(text.push(c).drop_last() =~= text);
    assert(text.push(c).last() == c);
}

/// Each packed glyph starts where the previous one left the pen: on the same line, one
/// pixel after the previous glyph's right edge; or at the start of the next line, one
/// line height plus one pixel below the previous glyph's top. The first glyph starts at
/// the top-left corner, or at the start of the second line when it is too wide for the
/// first.
pub proof fn law_packed_glyphs_follow_each_other(w: int, lh: int, glyphs: Seq<(char, GlyphBitmap)>)
    requires
        0 <= w,
        w * w <= 0xffff_ffff_ffff_ffff,
        lh >= 0,
        pack(w, lh, glyphs) is Ok,
    ensures
        pack(w, lh, glyphs)->Ok_0.glyphs.len() == glyphs.len(),
        glyphs.len() > 0 ==> {
            let first = pack(w, lh, glyphs)->Ok_0.glyphs[0].1.bounds.min;
            ||| first == Vec2 { x: 0u16, y: 0u16 }
            ||| first == Vec2 { x: 0u16, y: (lh + 1) as u16 }
        },
        forall|i: int| 0 < i < glyphs.len() ==> {
            let prev = pack(w, lh, glyphs)->Ok_0.glyphs[i - 1].1.bounds;
            let cur = (#[trigger] pack(w, lh, glyphs)->Ok_0.glyphs[i]).1.bounds;
            ||| cur.min == Vec2 { x: (prev.max.x + 1) as u16, y: prev.min.y }
            ||| cur.min == Vec2 { x: 0u16, y: (prev.min.y + lh + 1) as u16 }
        },
{
    assert(w <= 0x1_0000_0000) by (nonlinear_arith)
        requires
            0 <= w,
            w * w <= 0xffff_ffff_ffff_ffff,
    ;
    lemma_packed_follow(w, lh, glyphs);
}

/// Where the pen is after packing, relative to the last glyph packed.
proof fn lemma_pack_pen(w: int, lh: int, glyphs: Seq<(char, GlyphBitmap)>)
    requires
        0 <= w <= 0x1_0000_0000,
        lh >= 0,
        pack(w, lh, glyphs) is Ok,
    ensures
        ({
            let st = pack(w, lh, glyphs)->Ok_0;
            &&& st.glyphs.len() == glyphs.len()
            &&& 0 <= st.pen_y
            &&& (st.pen_y < w || st.pen_y == 0)
            &&& 0 <= st.pen_x < 0x2_0000_0000
            &&& glyphs.len() == 0 ==> st.pen_x == 0 && st.pen_y == 0
            &&& glyphs.len() > 0 ==> {
                let last = st.glyphs[glyphs.len() - 1].1.bounds;
                &&& last.min.y == st.pen_y as u16
                &&& st.pen_x as u16 == (last.max.x + 1) as u16
            }
        }),
    decreases glyphs.len(),
{
    if glyphs.len() > 0 {
        let init = glyphs.drop_last();
        lemma_pack_pen(w, lh, init);
        let st = pack(w, lh, init)->Ok_0;
        let bmp = glyphs.last().1;
        let (x, y) = if st.pen_x + bmp.width >= w {
            (0int, st.pen_y + lh + 1)
        } else {
            (st.pen_x, st.pen_y)
        };
        assert(0 <= x < 0x1_0000_0000 && 0 <= y < w);
        lemma_u16_add_wraps((x + bmp.width) as u64, 1);
        let info = crate::font_atlas::glyph_info_at(bmp, x, y);
        assert(pack(w, lh, glyphs)->Ok_0.glyphs[glyphs.len() - 1].1 == info);
    }
}

/// Where the last packed glyph starts relative to the one before it.
proof fn lemma_packed_follow_last(w: int, lh: int, glyphs: Seq<(char, GlyphBitmap)>)
    requires
        0 <= w <= 0x1_0000_0000,
        lh >= 0,
        pack(w, lh, glyphs) is Ok,
        glyphs.len() > 0,
    ensures
        ({
            let after = pack(w, lh, glyphs)->Ok_0;
            let n = glyphs.len() - 1;
            let cur = after.glyphs[n].1.bounds;
            &&& after.glyphs.len() == glyphs.len()
            &&& after.glyphs.drop_last() == pack(w, lh, glyphs.drop_last())->Ok_0.glyphs
            &&& n == 0 ==> (cur.min == Vec2 { x: 0u16, y: 0u16 } || cur.min == Vec2 {
                x: 0u16,
                y: (lh + 1) as u16,
            })
            &&& n > 0 ==> {
                let prev = after.glyphs[n - 1].1.bounds;
                ||| cur.min == Vec2 { x: (prev.max.x + 1) as u16, y: prev.min.y }
                ||| cur.min == Vec2 { x: 0u16, y: (prev.min.y + lh + 1) as u16 }
            }
        }),
{
    let init = glyphs.drop_last();
    lemma_pack_pen(w, lh, init);
    let st = pack(w, lh, init)->Ok_0;
    let after = pack(w, lh, glyphs)->Ok_0;
    let bmp = glyphs.last().1;
    let (x, y) = if st.pen_x + bmp.width >= w {
        (0int, st.pen_y + lh + 1)
    } else {
        (st.pen_x, st.pen_y)
    };
    let info = crate::font_atlas::glyph_info_at(bmp, x, y);
    assert(after.glyphs == st.glyphs.push((glyphs.last().0, info)));
    assert(after.glyphs.drop_last() =~= st.glyphs);
    let n = glyphs.len() - 1;
    if n > 0 {
        let prev = st.glyphs[n - 1].1.bounds;
        if x == 0 && y == st.pen_y + lh + 1 {
            lemma_u16_add_wraps(st.pen_y as u64, (lh + 1) as u64);
        }
        assert(after.glyphs[n - 1] == st.glyphs[n - 1]);
    }
}

/// Where each glyph starts relative to the one before.
#[verifier::spinoff_prover]
proof fn lemma_packed_follow(w: int, lh: int, glyphs: Seq<(char, GlyphBitmap)>)
    requires
        0 <= w <= 0x1_0000_0000,
        lh >= 0,
        pack(w, lh, glyphs) is Ok,
    ensures
        pack(w, lh, glyphs)->Ok_0.glyphs.len() == glyphs.len(),
        glyphs.len() > 0 ==> {
            let first = pack(w, lh, glyphs)->Ok_0.glyphs[0].1.bounds.min;
            ||| first == Vec2 { x: 0u16, y: 0u16 }
            ||| first == Vec2 { x: 0u16, y: (lh + 1) as u16 }
        },
        forall|i: int| 0 < i < glyphs.len() ==> {
            let prev = pack(w, lh, glyphs)->Ok_0.glyphs[i - 1].1.bounds;
            let cur = (#[trigger] pack(w, lh, glyphs)->Ok_0.glyphs[i]).1.bounds;
            ||| cur.min == Vec2 { x: (prev.max.x + 1) as u16, y: prev.min.y }
            ||| cur.min == Vec2 { x: 0u16, y: (prev.min.y + lh + 1) as u16 }
        },
    decreases glyphs.len(),
{
    if glyphs.len() > 0 {
        let init = glyphs.drop_last();
        lemma_packed_follow(w, lh, init);
        lemma_packed_follow_last(w, lh, glyphs);
        let a = pack(w, lh, glyphs)->Ok_0.glyphs;
        let b = pack(w, lh, init)->Ok_0.glyphs;
        let n = glyphs.len() - 1;
        assert forall|i: int| 0 <= i < n implies a[i] == b[i] by {
            assert(a.drop_last()[i] == a[i]);
        }
        if n > 0 {
            assert(a[0] == b[0]);
        }
        assert forall|i: int| 0 < i < glyphs.len() implies {
            let prev = a[i - 1].1.bounds;
            let cur = (#[trigger] a[i]).1.bounds;
            ||| cur.min == Vec2 { x: (prev.max.x + 1) as u16, y: prev.min.y }
            ||| cur.min == Vec2 { x: 0u16, y: (prev.min.y + lh + 1) as u16 }
        } by {
            if i < n {
                assert(a[i] == b[i]);
                assert(a[i - 1] == b[i - 1]);
            }
        }
    }
}

/// Reading two word lists one after the other gives the commands of the first followed
/// by those of the second (or the second's error), once the first reads without error.
pub proof fn law_joined_words_read_as_joined_commands(
    keywords: Seq<Seq<char>>,
    arities: Seq<usize>,
    ws: Seq<Seq<char>>,
    tail: Seq<Seq<char>>,
)
    requires
        parse_words(keywords, arities, ws) is Ok,
    ensures
        parse_words(keywords, arities, ws + tail) == match parse_words(keywords, arities, tail) {
            Ok(c) => Ok::<Seq<(int, Seq<Seq<char>>)>, CommandErrorView>(
                parse_words(keywords, arities, ws)->Ok_0 + c,
            ),
            Err(e) => Err(e),
        },
    decreases ws.len(),
{
    if ws.len() == 0 {
        assert(ws + tail =~= tail);
        assert(parse_words(keywords, arities, ws)->Ok_0 =~= Seq::<(int, Seq<Seq<char>>)>::empty());
        if let Ok(c) = parse_words(keywords, arities, tail) {
            assert(Seq::<(int, Seq<Seq<char>>)>::empty() + c =~= c);
        }
    } else {
        let all = ws + tail;
        assert(all[0] == ws[0]);
        let k = keyword_index(keywords, ws[0])->0;
        let n = arities[k] as int;
        assert(all.skip(1 + n) =~= ws.skip(1 + n) + tail);
        assert(all.subrange(1, 1 + n) =~= ws.subrange(1, 1 + n));
        law_joined_words_read_as_joined_commands(keywords, arities, ws.skip(1 + n), tail);
        if let Ok(c) = parse_words(keywords, arities, tail) {
            let head = seq![(k, ws.subrange(1, 1 + n))];
            let rest = parse_words(keywords, arities, ws.skip(1 + n))->Ok_0;
            assert(head + (rest + c) =~= (head + rest) + c);
        }
    }
}

/// What one placement, position, rotation or scale command reads as.
proof fn lemma_scene_single_commands(source: Seq<char>, name: Seq<char>, a: Seq<char>, b: Seq<char>, c: Seq<char>)
    ensures
        parse_words(scene_keywords(), scene_arities(), seq!["I"@, source, name])
            == Ok::<Seq<(int, Seq<Seq<char>>)>, CommandErrorView>(seq![(0int, seq![source, name])]),
        parse_words(scene_keywords(), scene_arities(), seq!["P"@, a, b, c])
            == Ok::<Seq<(int, Seq<Seq<char>>)>, CommandErrorView>(seq![(1int, seq![a, b, c])]),
        parse_words(scene_keywords(), scene_arities(), seq!["R"@, a])
            == Ok::<Seq<(int, Seq<Seq<char>>)>, CommandErrorView>(seq![(2int, seq![a])]),
        parse_words(scene_keywords(), scene_arities(), seq!["S"@, a, b])
            == Ok::<Seq<(int, Seq<Seq<char>>)>, CommandErrorView>(seq![(3int, seq![a, b])]),
{
    lemma_scene_keyword_positions();
    let k = scene_keywords();
    let ar = scene_arities();
    let e = Seq::<(int, Seq<Seq<char>>)>::empty();
    let wi = seq!["I"@, source, name];
    let wp = seq!["P"@, a, b, c];
    let wr = seq!["R"@, a];
    let wsc = seq!["S"@, a, b];
    assert(parse_words(k, ar, Seq::<Seq<char>>::empty()) == Ok::<Seq<(int, Seq<Seq<char>>)>, CommandErrorView>(e));
    assert(wi[0] == "I"@ && ar[0] == 2);
    assert(wi.skip(3) =~= Seq::<Seq<char>>::empty());
    assert(wi.subrange(1, 3) =~= seq![source, name]);
    assert(seq![(0int, seq![source, name])] + e =~= seq![(0int, seq![source, name])]);
    assert(wp[0] == "P"@ && ar[1] == 3);
    assert(wp.skip(4) =~= Seq::<Seq<char>>::empty());
    assert(wp.subrange(1, 4) =~= seq![a, b, c]);
    assert(seq![(1int, seq![a, b, c])] + e =~= seq![(1int, seq![a, b, c])]);
    assert(wr.skip(2) =~= Seq::<Seq<char>>::empty());
    assert(wr.subrange(1, 2) =~= seq![a]);
    assert(seq![(2int, seq![a])] + e =~= seq![(2int, seq![a])]);
    assert(wsc.skip(3) =~= Seq::<Seq<char>>::empty());
    assert(wsc.subrange(1, 3) =~= seq![a, b]);
    assert(seq![(3int, seq![a, b])] + e =~= seq![(3int, seq![a, b])]);
}

/// One more command after a scene that reads without error: its effect on the
/// instances read so far.
proof fn lemma_scene_one_more(before: Seq<char>, after: Seq<char>, extra: Seq<Seq<char>>, cmd: (int, Seq<Seq<char>>))
    requires
        spec_scene_records(before) is Ok,
        words(after) == words(before) + extra,
        parse_words(scene_keywords(), scene_arities(), extra)
            == Ok::<Seq<(int, Seq<Seq<char>>)>, CommandErrorView>(seq![cmd]),
    ensures
        spec_scene_records(after) == match crate::scene_file::apply_scene_command(
            spec_scene_records(before)->Ok_0,
            cmd.0,
            cmd.1,
        ) {
            Some(recs) => Ok::<Seq<ShapeInstanceRecordView>, SceneLoadErrorView>(recs),
            None => Err(SceneLoadErrorView::NoInstance),
        },
{
    let k = scene_keywords();
    let ar = scene_arities();
    law_joined_words_read_as_joined_commands(k, ar, words(before), extra);
    let cmds = parse_words(k, ar, words(before))->Ok_0;
    let all = cmds + seq![cmd];
    assert(all.drop_last() =~= cmds);
    assert(all.last() == cmd);
}

/// Each command of a scene file acts on the instance placed last, with its words in the
/// order written: after a scene that reads without error, `I source name` adds an
/// instance named `name` of shape `source`; `P x y z` sets the last instance's position
/// to `[x, y, z]`, `R d` its rotation to `d` and `S x y` its scale to `[x, y]`; every
/// other instance stays as it was. With no instance yet, `P`, `R` and `S` are refused.
pub proof fn law_scene_commands_act_on_the_last_instance(
    before: Seq<char>,
    after: Seq<char>,
    source: Seq<char>,
    name: Seq<char>,
    a: Seq<char>,
    b: Seq<char>,
    c: Seq<char>,
)
    requires
        spec_scene_records(before) is Ok,
    ensures
        ({
            let recs = spec_scene_records(before)->Ok_0;
            let placed = ShapeInstanceRecordView {
                source_shape_name: source,
                name: name,
                position: None,
                rotation_degrees: None,
                scale: None,
            };
            &&& words(after) == words(before) + seq!["I"@, source, name] ==> spec_scene_records(after)
                == Ok::<Seq<ShapeInstanceRecordView>, SceneLoadErrorView>(recs.push(placed))
            &&& recs.len() == 0 && (words(after) == words(before) + seq!["P"@, a, b, c]
                || words(after) == words(before) + seq!["R"@, a]
                || words(after) == words(before) + seq!["S"@, a, b])
                ==> spec_scene_records(after) == Err::<Seq<ShapeInstanceRecordView>, SceneLoadErrorView>(
                SceneLoadErrorView::NoInstance,
            )
            &&& recs.len() > 0 ==> {
                let last = recs.last();
                &&& words(after) == words(before) + seq!["P"@, a, b, c] ==> spec_scene_records(after)
                    == Ok::<Seq<ShapeInstanceRecordView>, SceneLoadErrorView>(recs.drop_last().push(
                    ShapeInstanceRecordView {
                        source_shape_name: last.source_shape_name,
                        name: last.name,
                        position: Some(seq![a, b, c]),
                        rotation_degrees: last.rotation_degrees,
                        scale: last.scale,
                    },
                ))
                &&& words(after) == words(before) + seq!["R"@, a] ==> spec_scene_records(after)
                    == Ok::<Seq<ShapeInstanceRecordView>, SceneLoadErrorView>(recs.drop_last().push(
                    ShapeInstanceRecordView {
                        source_shape_name: last.source_shape_name,
                        name: last.name,
                        position: last.position,
                        rotation_degrees: Some(a),
                        scale: last.scale,
                    },
                ))
                &&& words(after) == words(before) + seq!["S"@, a, b] ==> spec_scene_records(after)
                    == Ok::<Seq<ShapeInstanceRecordView>, SceneLoadErrorView>(recs.drop_last().push(
                    ShapeInstanceRecordView {
                        source_shape_name: last.source_shape_name,
                        name: last.name,
                        position: last.position,
                        rotation_degrees: last.rotation_degrees,
                        scale: Some(seq![a, b]),
                    },
                ))
            }
        }),
{
    lemma_scene_single_commands(source, name, a, b, c);
    let recs = spec_scene_records(before)->Ok_0;
    if words(after) == words(before) + seq!["I"@, source, name] {
        lemma_scene_one_more(before, after, seq!["I"@, source, name], (0int, seq![source, name]));
    }
    if words(after) == words(before) + seq!["P"@, a, b, c] {
        lemma_scene_one_more(before, after, seq!["P"@, a, b, c], (1int, seq![a, b, c]));
    }
    if words(after) == words(before) + seq!["R"@, a] {
        lemma_scene_one_more(before, after, seq!["R"@, a], (2int, seq![a]));
    }
    if words(after) == words(before) + seq!["S"@, a, b] {
        lemma_scene_one_more(before, after, seq!["S"@, a, b], (3int, seq![a, b]));
    }
}

/// The key `code` with the given state.
pub open spec fn key_with(code: Keycode, scancode: Option<i32>, down: bool) -> Key {
    Key { code: Some(code), scancode, state: if down { KeyState::Down } else { KeyState::Up } }
}

/// In the active editor, while no command is typed, the color keys come in pairs that
/// move one slider opposite ways while held: J raises the value and K lowers it, M raises
/// the saturation and L lowers it, I turns the hue forward and U back (six times as
/// fast), O raises the alpha and P lowers it. Releasing the key stops that slider; the
/// other sliders and the rest of the editor stay as they were, and no action is asked for.
pub proof fn law_color_keys_slide_opposite_ways(e: EditorControlsView, scancode: Option<i32>, down: bool)
    requires
        e.is_active,
        !e.is_entering_command,
    ensures
        ({
            let s = e.hsva_sliding_speed;
            let d: i8 = if down { 1 } else { 0 };
            let slid = |h: Hsva<i8>| (EditorControlsView { hsva_sliding_speed: h, ..e }, EditorActionView::Nothing);
            &&& editor_after_key(e, key_with(KEYCODE_J, scancode, down)) == slid(Hsva { v: d, ..s })
            &&& editor_after_key(e, key_with(KEYCODE_K, scancode, down)) == slid(Hsva { v: -d as i8, ..s })
            &&& editor_after_key(e, key_with(KEYCODE_M, scancode, down)) == slid(Hsva { s: d, ..s })
            &&& editor_after_key(e, key_with(KEYCODE_L, scancode, down)) == slid(Hsva { s: -d as i8, ..s })
            &&& editor_after_key(e, key_with(KEYCODE_I, scancode, down)) == slid(Hsva { h: (6 * d) as i8, ..s })
            &&& editor_after_key(e, key_with(KEYCODE_U, scancode, down)) == slid(Hsva { h: (-6 * d) as i8, ..s })
            &&& editor_after_key(e, key_with(KEYCODE_O, scancode, down)) == slid(Hsva { a: d, ..s })
            &&& editor_after_key(e, key_with(KEYCODE_P, scancode, down)) == slid(Hsva { a: -d as i8, ..s })
        }),
{
}

/// In the active editor, while no command is typed: pressing G switches the grid on or
/// off and pressing F switches whether it is drawn first (releasing either changes
/// nothing, so two presses give the editor back); the space bar pans the camera exactly
/// while it is held; pressing `:` starts typing a command.
pub proof fn law_editor_switch_keys(e: EditorControlsView, scancode: Option<i32>, down: bool)
    requires
        e.is_active,
        !e.is_entering_command,
    ensures
        editor_after_key(e, key_with(KEYCODE_G, scancode, true)).0 == (EditorControlsView { do_draw_grid: !e.do_draw_grid, ..e }),
        editor_after_key(e, key_with(KEYCODE_F, scancode, true)).0 == (EditorControlsView { draw_grid_first: !e.draw_grid_first, ..e }),
        editor_after_key(e, key_with(KEYCODE_G, scancode, false)).0 == e,
        editor_after_key(e, key_with(KEYCODE_F, scancode, false)).0 == e,
        editor_after_key(editor_after_key(e, key_with(KEYCODE_G, scancode, true)).0, key_with(KEYCODE_G, scancode, true)).0 == e,
        editor_after_key(editor_after_key(e, key_with(KEYCODE_F, scancode, true)).0, key_with(KEYCODE_F, scancode, true)).0 == e,
        editor_after_key(e, key_with(KEYCODE_SPACE, scancode, down)).0 == (EditorControlsView { is_panning_camera: down, ..e }),
        editor_after_key(e, key_with(KEYCODE_COLON, scancode, true)).0 == (EditorControlsView { is_entering_command: true, ..e }),
{
    let g = editor_after_key(e, key_with(KEYCODE_G, scancode, true)).0;
    assert(editor_after_key(g, key_with(KEYCODE_G, scancode, true)).0 =~= e);
    let f = editor_after_key(e, key_with(KEYCODE_F, scancode, true)).0;
    assert(editor_after_key(f, key_with(KEYCODE_F, scancode, true)).0 =~= e);
}

/// While a command is typed: pressing Return submits the command typed so far and
/// pressing Escape drops it, both ending the typing with an empty line; Backspace removes
/// the last character of the first line; Tab asks for the last word to be completed.
pub proof fn law_command_line_keys(e: EditorControlsView, scancode: Option<i32>)
    requires
        e.is_active,
        e.is_entering_command,
    ensures
        editor_after_key(e, key_with(KEYCODE_RETURN, scancode, true)) == (
            EditorControlsView { is_entering_command: false, command_text: Seq::empty(), ..e },
            EditorActionView::ExecuteCommand(e.command_text),
        ),
        editor_after_key(e, key_with(KEYCODE_ESCAPE, scancode, true)) == (
            EditorControlsView { is_entering_command: false, command_text: Seq::empty(), ..e },
            EditorActionView::Nothing,
        ),
        first_line_or_empty(e.command_text).len() > 0 ==> editor_after_key(e, key_with(KEYCODE_BACKSPACE, scancode, true)) == (
            EditorControlsView { command_text: first_line_or_empty(e.command_text).drop_last(), ..e },
            EditorActionView::Nothing,
        ),
        editor_after_key(e, key_with(KEYCODE_TAB, scancode, true)) == (e, EditorActionView::Autocomplete),
{
}

/// Laying out no text draws nothing and leaves the cursor at the origin.
pub proof fn law_empty_text_draws_nothing(line_height: u16, glyphs: Seq<(char, GlyphInfo)>)
    ensures
        layout(Seq::empty(), line_height, glyphs) == Ok::<(Vec2<i16>, Seq<(char, Vec2<i16>)>), LayoutError>(
            (Vec2 { x: 0i16, y: 0i16 }, Seq::empty()),
        ),
{
}

/// A line feed draws nothing and puts the cursor at the left edge, one line height
/// (taken as a 16-bit signed number) below where it was; when that leaves the 16-bit
/// range, the text cannot be laid out.
pub proof fn law_line_feed_returns_to_the_left_edge(text: Seq<char>, line_height: u16, glyphs: Seq<(char, GlyphInfo)>)
    requires
        layout(text, line_height, glyphs) is Ok,
    ensures
        ({
            let (adv, drawn) = layout(text, line_height, glyphs)->Ok_0;
            let y = adv.y + (line_height as i16);
            layout(text.push('\n'), line_height, glyphs) == if i16::MIN <= y <= i16::MAX {
                Ok::<(Vec2<i16>, Seq<(char, Vec2<i16>)>), LayoutError>((Vec2 { x: 0i16, y: y as i16 }, drawn))
            } else {
                Err(LayoutError::Overflow)
            }
        }),
{
    assert(text.push('\n').drop_last() =~= text);
}

/// A space or a tab needs the font's space glyph, and a character to draw needs its own
/// glyph or the `?` glyph: without it the text cannot be laid out, and the error names
/// the glyph that is missing.
pub proof fn law_missing_glyph_is_named(text: Seq<char>, c: char, line_height: u16, glyphs: Seq<(char, GlyphInfo)>)
    requires
        layout(text, line_height, glyphs) is Ok,
        c != '\n',
    ensures
        (c == ' ' || c == '\t') && glyph_of(glyphs, ' ') is None ==> layout(text.push(c), line_height, glyphs)
            == Err::<(Vec2<i16>, Seq<(char, Vec2<i16>)>), LayoutError>(LayoutError::MissingGlyph(' ')),
        c != ' ' && c != '\t' && !is_skipped(c) && glyph_of(glyphs, c) is None && glyph_of(glyphs, '?') is None
            ==> layout(text.push(c), line_height, glyphs) == Err::<(Vec2<i16>, Seq<(char, Vec2<i16>)>), LayoutError>(
            LayoutError::MissingGlyph('?'),
        ),
{
    assert(text.push(c).drop_last() =~= text);
}

/// Once a text cannot be laid out, no text that continues it can: the first error stays.
/// When both can, what the longer text draws begins with what the shorter one draws.
pub proof fn law_layout_extends_its_prefix(
    text: Seq<char>,
    more: Seq<char>,
    line_height: u16,
    glyphs: Seq<(char, GlyphInfo)>,
)
    ensures
        layout(text, line_height, glyphs) is Err ==> layout(text + more, line_height, glyphs) == layout(
            text,
            line_height,
            glyphs,
        ),
        layout(text + more, line_height, glyphs) is Ok ==> {
            &&& layout(text, line_height, glyphs) is Ok
            &&& layout(text, line_height, glyphs)->Ok_0.1.is_prefix_of(layout(text + more, line_height, glyphs)->Ok_0.1)
        },
    decreases more.len(),
{
    if more.len() == 0 {
        assert(text + more =~= text);
        assert(layout(text, line_height, glyphs)->Ok_0.1.is_prefix_of(layout(text, line_height, glyphs)->Ok_0.1)) by {
            let d = layout(text, line_height, glyphs)->Ok_0.1;
            assert(d.subrange(0, d.len() as int) =~= d);
        }
    } else {
        let shorter = more.drop_last();
        law_layout_extends_its_prefix(text, shorter, line_height, glyphs);
        assert((text + more).drop_last() =~= text + shorter);
        assert((text + more).last() == more.last());
        if layout(text + more, line_height, glyphs) is Ok {
            let a = layout(text, line_height, glyphs)->Ok_0.1;
            let b = layout(text + shorter, line_height, glyphs)->Ok_0.1;
            let c = layout(text + more, line_height, glyphs)->Ok_0.1;
            assert(c == b || c == b.push(c.last()));
            assert(a.is_prefix_of(c)) by {
                assert(a.len() <= b.len() && b.subrange(0, a.len() as int) == a);
                assert forall|i: int| 0 <= i < a.len() implies c[i] == a[i] by {
                    assert(b.subrange(0, a.len() as int)[i] == b[i]);
                    if c != b {
                        assert(c[i] == b.push(c.last())[i]);
                    }
                }
                assert(c.subrange(0, a.len() as int) =~= a);
            }
        }
    }
}

/// The byte of an atlas `w` pixels wide at line `r` and column `c` of a glyph whose
/// top-left corner is at `(x, y)`.
pub open spec fn atlas_index(w: int, x: int, y: int, r: int, c: int) -> int {
    (y + r) * w + x + c
}

/// Copying `n` bytes at `dst_base` changes exactly those bytes, each to its source byte.
proof fn lemma_blit_row_at(pixels: Seq<u8>, dst_base: int, src: Seq<u8>, src_base: int, n: int)
    requires
        0 <= n,
        n > 0 ==> 0 <= dst_base && dst_base + n <= pixels.len(),
    ensures
        blit_row(pixels, dst_base, src, src_base, n).len() == pixels.len(),
        forall|i: int| 0 <= i < pixels.len() ==> #[trigger] blit_row(pixels, dst_base, src, src_base, n)[i] == if dst_base <= i
            < dst_base + n {
            src[src_base + i - dst_base]
        } else {
            pixels[i]
        },
    decreases n,
{
    if n > 0 {
        lemma_blit_row_at(pixels, dst_base, src, src_base, n - 1);
    }
}

/// Lines of an atlas `w` pixels wide follow each other without overlap.
proof fn lemma_rows_apart(y: int, r: int, k: int, w: int, x: int, width: int, rows: int)
    by (nonlinear_arith)
    requires
        0 <= r < k,
        0 <= w,
        0 <= y,
        k < rows,
    ensures
        (y + r) * w + w <= (y + k) * w,
        0 <= (y + r) * w,
        (y + k) * w + x + width <= (y + rows - 1) * w + x + width,
{
}

/// Copying the first `n` lines of a glyph no wider than the atlas: each copied byte lands
/// at its line and column from the glyph's top-left corner, and every other byte stays.
proof fn lemma_blit_rows_at(pixels: Seq<u8>, w: int, x: int, y: int, bmp: GlyphBitmap, n: int)
    requires
        0 <= x,
        0 <= y,
        0 <= w,
        x + bmp.width <= w,
        0 <= n <= bmp.rows,
        pixels.len() == w * w,
        fits(bmp, w, w * w, x, y),
    ensures
        blit_rows(pixels, w, x, y, bmp, n).len() == pixels.len(),
        forall|r: int, c: int| 0 <= r < n && 0 <= c < bmp.width ==> #[trigger] blit_rows(pixels, w, x, y, bmp, n)[(y + r) * w + x + c]
            == bmp.buffer@[r * bmp.pitch + c],
        forall|i: int|
            0 <= i < pixels.len() && (forall|r: int, c: int| 0 <= r < n && 0 <= c < bmp.width ==> i != #[trigger] atlas_index(w, x, y, r, c))
                ==> #[trigger] blit_rows(pixels, w, x, y, bmp, n)[i] == pixels[i],
    decreases n,
{
    if n > 0 {
        lemma_blit_rows_at(pixels, w, x, y, bmp, n - 1);
        let prev = blit_rows(pixels, w, x, y, bmp, n - 1);
        let d = (y + n - 1) * w + x;
        let width = bmp.width as int;
        if width > 0 {
            if n - 1 > 0 {
                lemma_rows_apart(y, 0, n - 1, w, x, width, bmp.rows as int);
            } else {
                assert(0 <= (y + n - 1) * w) by (nonlinear_arith)
                    requires
                        0 <= y,
                        n == 1,
                        0 <= w,
                ;
                if n - 1 < bmp.rows - 1 {
                    lemma_rows_apart(y, n - 1, bmp.rows - 1, w, x, width, bmp.rows as int);
                }
            }
            if n - 1 < bmp.rows - 1 {
                lemma_rows_apart(y, n - 1, bmp.rows - 1, w, x, width, bmp.rows as int);
            }
            assert(d + width <= pixels.len());
        }
        lemma_blit_row_at(prev, d, bmp.buffer@, (n - 1) * bmp.pitch, width);
        assert forall|r: int, c: int| 0 <= r < n && 0 <= c < bmp.width implies #[trigger] blit_rows(pixels, w, x, y, bmp, n)[(y + r)
            * w + x + c] == bmp.buffer@[r * bmp.pitch + c] by {
            if r < n - 1 {
                lemma_rows_apart(y, r, n - 1, w, x, width, bmp.rows as int);
                assert(prev[(y + r) * w + x + c] == bmp.buffer@[r * bmp.pitch + c]);
            } else {
                assert((n - 1) * bmp.pitch + ((y + r) * w + x + c) - d == r * bmp.pitch + c);
            }
        }
        assert forall|i: int|
            0 <= i < pixels.len() && (forall|r: int, c: int| 0 <= r < n && 0 <= c < bmp.width ==> i != #[trigger] atlas_index(w, x, y, r, c)) implies
                #[trigger] blit_rows(pixels, w, x, y, bmp, n)[i] == pixels[i] by {
            assert forall|r: int, c: int| 0 <= r < n - 1 && 0 <= c < bmp.width implies i != #[trigger] atlas_index(w, x, y, r, c) by {
                assert(0 <= r < n && 0 <= c < bmp.width);
            }
            if d <= i < d + width {
                let c = i - d;
                assert(i == atlas_index(w, x, y, n - 1, c));
                assert(false);
            }
        }
    }
}

/// An atlas of side `w` holds `w * w` pixels however many glyphs are packed into it.
proof fn lemma_pack_pixels_len(w: int, lh: int, glyphs: Seq<(char, GlyphBitmap)>)
    requires
        0 <= w,
        lh >= 0,
        pack(w, lh, glyphs) is Ok,
    ensures
        pack(w, lh, glyphs)->Ok_0.pixels.len() == w * w,
        pack(w, lh, glyphs)->Ok_0.pen_x >= 0,
        pack(w, lh, glyphs)->Ok_0.pen_y >= 0,
    decreases glyphs.len(),
{
    if glyphs.len() > 0 {
        let init = glyphs.drop_last();
        lemma_pack_pixels_len(w, lh, init);
        let st = pack(w, lh, init)->Ok_0;
        let bmp = glyphs.last().1;
        let (x, y) = if st.pen_x + bmp.width >= w {
            (0int, st.pen_y + lh + 1)
        } else {
            (st.pen_x, st.pen_y)
        };
        if bmp.width > 0 {
            crate::font_atlas::lemma_blit_rows_len(st.pixels, w, x, y, bmp, bmp.rows as int);
        } else {
            crate::font_atlas::lemma_blit_empty_rows(st.pixels, w, x, y, bmp, bmp.rows as int);
        }
    }
}

/// Packing a glyph copies its bitmap into the atlas: in an atlas whose side fits 16-bit
/// texture coordinates, each byte of the glyph's coverage (line `r`, column `c`) lands at
/// line `r` and column `c` from the top-left corner recorded for the glyph, and every
/// pixel outside that rectangle keeps the value it had before the glyph was packed. This
/// holds of a glyph no wider than the atlas (a wider one would overwrite its own lines).
pub proof fn law_packed_glyph_is_copied_into_its_rectangle(w: int, lh: int, glyphs: Seq<(char, GlyphBitmap)>)
    requires
        0 <= w <= 0x1_0000,
        lh >= 0,
        glyphs.len() > 0,
        glyphs.last().1.width <= w,
        pack(w, lh, glyphs) is Ok,
    ensures
        pack(w, lh, glyphs.drop_last()) is Ok,
        ({
            let before = pack(w, lh, glyphs.drop_last())->Ok_0.pixels;
            let after = pack(w, lh, glyphs)->Ok_0;
            let bmp = glyphs.last().1;
            let min = after.glyphs.last().1.bounds.min;
            let x = min.x as int;
            let y = min.y as int;
            &&& before.len() == w * w
            &&& after.pixels.len() == w * w
            &&& forall|r: int, c: int| 0 <= r < bmp.rows && 0 <= c < bmp.width ==> after.pixels[#[trigger] atlas_index(w, x, y, r, c)]
                == bmp.buffer@[r * bmp.pitch + c]
            &&& forall|i: int|
                0 <= i < w * w && (forall|r: int, c: int| 0 <= r < bmp.rows && 0 <= c < bmp.width ==> i != #[trigger] atlas_index(w, x, y, r, c))
                    ==> after.pixels[i] == before[i]
        }),
{
    let init = glyphs.drop_last();
    lemma_pack_pixels_len(w, lh, init);
    lemma_pack_pixels_len(w, lh, glyphs);
    let st = pack(w, lh, init)->Ok_0;
    let bmp = glyphs.last().1;
    let (x, y) = if st.pen_x + bmp.width >= w {
        (0int, st.pen_y + lh + 1)
    } else {
        (st.pen_x, st.pen_y)
    };
    assert(0 <= x < w && 0 <= y < w);
    let after = pack(w, lh, glyphs)->Ok_0;
    assert(after.pixels == blit_rows(st.pixels, w, x, y, bmp, bmp.rows as int));
    assert(after.glyphs.last().1 == crate::font_atlas::glyph_info_at(bmp, x, y));
    lemma_blit_rows_at(st.pixels, w, x, y, bmp, bmp.rows as int);
    let min = after.glyphs.last().1.bounds.min;
    assert(min.x as int == x && min.y as int == y);
    let out = blit_rows(st.pixels, w, x, y, bmp, bmp.rows as int);
    assert forall|r: int, c: int| 0 <= r < bmp.rows && 0 <= c < bmp.width implies after.pixels[#[trigger] atlas_index(
        w,
        min.x as int,
        min.y as int,
        r,
        c,
    )] == bmp.buffer@[r * bmp.pitch + c] by {
        assert(out[atlas_index(w, x, y, r, c)] == bmp.buffer@[r * bmp.pitch + c]);
    }
    assert forall|i: int|
        0 <= i < w * w && (forall|r: int, c: int| 0 <= r < bmp.rows && 0 <= c < bmp.width ==> i != #[trigger] atlas_index(
            w,
            min.x as int,
            min.y as int,
            r,
            c,
        )) implies after.pixels[i] == st.pixels[i] by {
        assert(out[i] == st.pixels[i]);
    }
}

/// One expected entry against one found entry: it is found only by an entry of the same
/// name that is a directory where a directory is expected, a file where a file is
/// expected, or anything where the kind is left open; otherwise its name is reported.
pub proof fn law_missing_checks_name_and_kind(e: ExpectedEntry, f: DirEntryInfo)
    ensures
        missing(seq![e], seq![f]) == if f.name@ == e.name@ && (e.kind == Some(true) ==> f.is_dir) && (e.kind == Some(false)
            ==> f.is_file) {
            Seq::<Seq<char>>::empty()
        } else {
            seq![e.name@]
        },
{
    let ex = seq![e];
    let fs = seq![f];
    assert(ex.drop_last() =~= Seq::<ExpectedEntry>::empty());
    assert(ex.last() == e);
    assert(missing(Seq::<ExpectedEntry>::empty(), fs) == Seq::<Seq<char>>::empty());
    assert(fs[0] == f);
    if f.name@ == e.name@ && (e.kind == Some(true) ==> f.is_dir) && (e.kind == Some(false) ==> f.is_file) {
        assert(satisfies(fs[0], e));
        assert(crate::resources::is_present(fs, e));
    } else {
        assert(!satisfies(f, e));
        assert(!crate::resources::is_present(fs, e));
        assert(Seq::<Seq<char>>::empty().push(e.name@) =~= seq![e.name@]);
    }
}

/// Checking two lists of expected entries one after the other reports the missing names
/// of the first list, then those of the second: names come out in the order expected.
pub proof fn law_missing_keeps_the_expected_order(first: Seq<ExpectedEntry>, second: Seq<ExpectedEntry>, found: Seq<DirEntryInfo>)
    ensures
        missing(first + second, found) == missing(first, found) + missing(second, found),
    decreases second.len(),
{
    if second.len() == 0 {
        assert(first + second =~= first);
        assert(missing(first, found) + Seq::<Seq<char>>::empty() =~= missing(first, found));
    } else {
        let init = second.drop_last();
        law_missing_keeps_the_expected_order(first, init, found);
        assert((first + second).drop_last() =~= first + init);
        assert((first + second).last() == second.last());
        let e = second.last();
        if !crate::resources::is_present(found, e) {
            assert(missing(first, found) + missing(init, found).push(e.name@) =~= (missing(first, found) + missing(
                init,
                found,
            )).push(e.name@));
        }
    }
}

/// A word list made of one keyword followed by as many words as it takes reads as that
/// one command, with those words as its arguments, when no earlier keyword is the same.
pub proof fn law_one_command_reads_as_itself(
    keywords: Seq<Seq<char>>,
    arities: Seq<usize>,
    i: int,
    args: Seq<Seq<char>>,
)
    requires
        0 <= i < keywords.len(),
        keywords.len() == arities.len(),
        forall|j: int| 0 <= j < i ==> #[trigger] keywords[j] != keywords[i],
        args.len() == arities[i],
    ensures
        parse_words(keywords, arities, seq![keywords[i]] + args)
            == Ok::<Seq<(int, Seq<Seq<char>>)>, CommandErrorView>(seq![(i, args)]),
{
    lemma_keyword_index(keywords, keywords[i]);
    let ws = seq![keywords[i]] + args;
    let n = arities[i] as int;
    assert(ws[0] == keywords[i]);
    assert(ws.skip(1 + n) =~= Seq::<Seq<char>>::empty());
    assert(ws.subrange(1, 1 + n) =~= args);
    assert(parse_words(keywords, arities, Seq::<Seq<char>>::empty())
        == Ok::<Seq<(int, Seq<Seq<char>>)>, CommandErrorView>(Seq::empty()));
    assert(seq![(i, args)] + Seq::<(int, Seq<Seq<char>>)>::empty() =~= seq![(i, args)]);
}

/// The keywords of shape files are all different.
proof fn lemma_shape_keywords_differ()
    ensures
        forall|a: int, b: int| 0 <= a < b < 13 ==> #[trigger] shape_keywords()[a] != #[trigger] shape_keywords()[b],
{
    reveal_strlit("M");
    reveal_strlit("L");
    reveal_strlit("Q");
    reveal_strlit("C");
    reveal_strlit("Z");
    reveal_strlit("z");
    reveal_strlit("stroke_thickness");
    reveal_strlit("stroke_color");
    reveal_strlit("fill_color");
    reveal_strlit("fill_gradient_start_color");
    reveal_strlit("fill_gradient_end_color");
    reveal_strlit("fill_gradient_start_position");
    reveal_strlit("fill_gradient_end_position");
    let k = shape_keywords();
    assert forall|a: int, b: int| 0 <= a < b < 13 implies #[trigger] k[a] != #[trigger] k[b] by {
        if k[a].len() == k[b].len() {
            assert(k[a][0] != k[b][0]);
        }
    }
}

/// One shape command alone.
proof fn lemma_shape_single(text: Seq<char>, i: int, args: Seq<Seq<char>>)
    requires
        0 <= i < 13,
        words(text) == seq![shape_keywords()[i]] + args,
        args.len() == shape_arities()[i],
    ensures
        spec_shape_commands(text) == Ok::<Seq<(ShapeCommandKind, Seq<Seq<char>>)>, CommandErrorView>(
            seq![(shape_kind(i), args)],
        ),
{
    lemma_shape_keywords_differ();
    law_one_command_reads_as_itself(shape_keywords(), shape_arities(), i, args);
    let c = seq![(i, args)];
    assert(c.map_values(|c: (int, Seq<Seq<char>>)| (shape_kind(c.0), c.1)) =~= seq![(shape_kind(i), args)]);
}

/// Each keyword of a shape file names its command: a file made of one keyword and the
/// words it takes reads as one command of that kind, with those words as its arguments
/// in the order written (`M` moves, `L` draws a line, `Q` and `C` draw curves, `Z` and
/// `z` close the path, and the style keywords set the style property they name).
pub proof fn law_shape_keywords_name_their_commands(text: Seq<char>, args: Seq<Seq<char>>)
    ensures
        words(text) == seq!["M"@] + args && args.len() == 2 ==> spec_shape_commands(text)
            == Ok::<Seq<(ShapeCommandKind, Seq<Seq<char>>)>, CommandErrorView>(seq![(ShapeCommandKind::MoveTo, args)]),
        words(text) == seq!["L"@] + args && args.len() == 2 ==> spec_shape_commands(text)
            == Ok::<Seq<(ShapeCommandKind, Seq<Seq<char>>)>, CommandErrorView>(seq![(ShapeCommandKind::LineTo, args)]),
        words(text) == seq!["Q"@] + args && args.len() == 4 ==> spec_shape_commands(text)
            == Ok::<Seq<(ShapeCommandKind, Seq<Seq<char>>)>, CommandErrorView>(seq![(ShapeCommandKind::Quadratic, args)]),
        words(text) == seq!["C"@] + args && args.len() == 6 ==> spec_shape_commands(text)
            == Ok::<Seq<(ShapeCommandKind, Seq<Seq<char>>)>, CommandErrorView>(seq![(ShapeCommandKind::Cubic, args)]),
        words(text) == seq!["Z"@] + args && args.len() == 0 ==> spec_shape_commands(text)
            == Ok::<Seq<(ShapeCommandKind, Seq<Seq<char>>)>, CommandErrorView>(seq![(ShapeCommandKind::Close, args)]),
        words(text) == seq!["z"@] + args && args.len() == 0 ==> spec_shape_commands(text)
            == Ok::<Seq<(ShapeCommandKind, Seq<Seq<char>>)>, CommandErrorView>(seq![(ShapeCommandKind::Close, args)]),
        words(text) == seq!["stroke_thickness"@] + args && args.len() == 1 ==> spec_shape_commands(text)
            == Ok::<Seq<(ShapeCommandKind, Seq<Seq<char>>)>, CommandErrorView>(seq![(ShapeCommandKind::StrokeThickness, args)]),
        words(text) == seq!["stroke_color"@] + args && args.len() == 4 ==> spec_shape_commands(text)
            == Ok::<Seq<(ShapeCommandKind, Seq<Seq<char>>)>, CommandErrorView>(seq![(ShapeCommandKind::StrokeColor, args)]),
        words(text) == seq!["fill_color"@] + args && args.len() == 4 ==> spec_shape_commands(text)
            == Ok::<Seq<(ShapeCommandKind, Seq<Seq<char>>)>, CommandErrorView>(seq![(ShapeCommandKind::FillColor, args)]),
        words(text) == seq!["fill_gradient_start_color"@] + args && args.len() == 4 ==> spec_shape_commands(text)
            == Ok::<Seq<(ShapeCommandKind, Seq<Seq<char>>)>, CommandErrorView>(seq![(ShapeCommandKind::FillGradientStartColor, args)]),
        words(text) == seq!["fill_gradient_end_color"@] + args && args.len() == 4 ==> spec_shape_commands(text)
            == Ok::<Seq<(ShapeCommandKind, Seq<Seq<char>>)>, CommandErrorView>(seq![(ShapeCommandKind::FillGradientEndColor, args)]),
        words(text) == seq!["fill_gradient_start_position"@] + args && args.len() == 2 ==> spec_shape_commands(text)
            == Ok::<Seq<(ShapeCommandKind, Seq<Seq<char>>)>, CommandErrorView>(seq![(ShapeCommandKind::FillGradientStartPosition, args)]),
        words(text) == seq!["fill_gradient_end_position"@] + args && args.len() == 2 ==> spec_shape_commands(text)
            == Ok::<Seq<(ShapeCommandKind, Seq<Seq<char>>)>, CommandErrorView>(seq![(ShapeCommandKind::FillGradientEndPosition, args)]),
{
    reveal_strlit("M");
    reveal_strlit("L");
    reveal_strlit("Q");
    reveal_strlit("C");
    reveal_strlit("Z");
    reveal_strlit("z");
    reveal_strlit("stroke_thickness");
    reveal_strlit("stroke_color");
    reveal_strlit("fill_color");
    reveal_strlit("fill_gradient_start_color");
    reveal_strlit("fill_gradient_end_color");
    reveal_strlit("fill_gradient_start_position");
    reveal_strlit("fill_gradient_end_position");
    let k = shape_keywords();
    if words(text) == seq!["M"@] + args && args.len() == 2 {
        assert(k[0] == "M"@);
        lemma_shape_single(text, 0, args);
    }
    if words(text) == seq!["L"@] + args && args.len() == 2 {
        assert(k[1] == "L"@);
        lemma_shape_single(text, 1, args);
    }
    if words(text) == seq!["Q"@] + args && args.len() == 4 {
        assert(k[2] == "Q"@);
        lemma_shape_single(text, 2, args);
    }
    if words(text) == seq!["C"@] + args && args.len() == 6 {
        assert(k[3] == "C"@);
        lemma_shape_single(text, 3, args);
    }
    if words(text) == seq!["Z"@] + args && args.len() == 0 {
        assert(k[4] == "Z"@);
        lemma_shape_single(text, 4, args);
    }
    if words(text) == seq!["z"@] + args && args.len() == 0 {
        assert(k[5] == "z"@);
        lemma_shape_single(text, 5, args);
    }
    if words(text) == seq!["stroke_thickness"@] + args && args.len() == 1 {
        assert(k[6] == "stroke_thickness"@);
        lemma_shape_single(text, 6, args);
    }
    if words(text) == seq!["stroke_color"@] + args && args.len() == 4 {
        assert(k[7] == "stroke_color"@);
        lemma_shape_single(text, 7, args);
    }
    if words(text) == seq!["fill_color"@] + args && args.len() == 4 {
        assert(k[8] == "fill_color"@);
        lemma_shape_single(text, 8, args);
    }
    if words(text) == seq!["fill_gradient_start_color"@] + args && args.len() == 4 {
        assert(k[9] == "fill_gradient_start_color"@);
        lemma_shape_single(text, 9, args);
    }
    if words(text) == seq!["fill_gradient_end_color"@] + args && args.len() == 4 {
        assert(k[10] == "fill_gradient_end_color"@);
        lemma_shape_single(text, 10, args);
    }
    if words(text) == seq!["fill_gradient_start_position"@] + args && args.len() == 2 {
        assert(k[11] == "fill_gradient_start_position"@);
        lemma_shape_single(text, 11, args);
    }
    if words(text) == seq!["fill_gradient_end_position"@] + args && args.len() == 2 {
        assert(k[12] == "fill_gradient_end_position"@);
        lemma_shape_single(text, 12, args);
    }
}

/// Reading on from a point where no word is being read: the words completed so far come
/// first, then those of the rest.
proof fn lemma_scan_words_from_clean(p: Seq<char>, b: Seq<char>)
    requires
        scan_words(p).1.len() == 0,
    ensures
        scan_words(p + b) == (scan_words(p).0 + scan_words(b).0, scan_words(b).1),
    decreases b.len(),
{
    let d = scan_words(p).0;
    if b.len() == 0 {
        assert(p + b =~= p);
        assert(d + Seq::<Seq<char>>::empty() =~= d);
        assert(scan_words(p).1 =~= Seq::<char>::empty());
    } else {
        lemma_scan_words_from_clean(p, b.drop_last());
        assert((p + b).drop_last() =~= p + b.drop_last());
        assert((p + b).last() == b.last());
        let (done, cur) = scan_words(b.drop_last());
        if spec_is_whitespace(b.last()) && cur.len() > 0 {
            assert((d + done).push(cur) =~= d + done.push(cur));
        }
    }
}

/// A text without whitespace that is not empty is one word.
proof fn lemma_scan_one_word(s: Seq<char>)
    requires
        forall|j: int| 0 <= j < s.len() ==> !spec_is_whitespace(#[trigger] s[j]),
    ensures
        scan_words(s) == (Seq::<Seq<char>>::empty(), s),
    decreases s.len(),
{
    if s.len() > 0 {
        lemma_scan_one_word(s.drop_last());
        assert(s.drop_last().push(s.last()) =~= s);
    } else {
        assert(s =~= Seq::<char>::empty());
    }
}

/// Whitespace separates words: a non-empty text without whitespace is exactly one word,
/// and the words of two texts joined by a whitespace character are the words of the
/// first followed by those of the second.
pub proof fn law_whitespace_separates_words(a: Seq<char>, c: char, b: Seq<char>)
    ensures
        a.len() > 0 && (forall|j: int| 0 <= j < a.len() ==> !spec_is_whitespace(#[trigger] a[j])) ==> words(a) == seq![a],
        spec_is_whitespace(c) ==> words(a + seq![c] + b) == words(a) + words(b),
{
    if a.len() > 0 && (forall|j: int| 0 <= j < a.len() ==> !spec_is_whitespace(#[trigger] a[j])) {
        lemma_scan_one_word(a);
        assert(Seq::<Seq<char>>::empty().push(a) =~= seq![a]);
    }
    if spec_is_whitespace(c) {
        let p = a.push(c);
        assert(a + seq![c] =~= p);
        assert(p.drop_last() =~= a);
        assert(scan_words(p) == (words(a), Seq::<char>::empty()));
        lemma_scan_words_from_clean(p, b);
        let (done, cur) = scan_words(b);
        if cur.len() > 0 {
            assert((words(a) + done).push(cur) =~= words(a) + done.push(cur));
        }
    }
}

/// Words joined by single spaces after a `:` read back, past the `:`, as those words,
/// on one line.
proof fn lemma_colon_joined_reads_back(ws: Seq<Seq<char>>)
    requires
        ws.len() >= 1,
        forall|i: int| 0 <= i < ws.len() ==> (#[trigger] ws[i]).len() > 0,
        forall|i: int, j: int| 0 <= i < ws.len() && 0 <= j < ws[i].len() ==> !spec_is_whitespace(#[trigger] ws[i][j]),
    ensures
        colon_joined(ws).len() > 1,
        colon_joined(ws)[0] == ':',
        words(colon_joined(ws).drop_first()) == ws,
        forall|j: int| 0 <= j < colon_joined(ws).len() ==> #[trigger] colon_joined(ws)[j] != '\n',
    decreases ws.len(),
{
    let cj = colon_joined(ws);
    if ws.len() == 1 {
        let w = ws[0];
        assert(cj == seq![':'] + w);
        assert(cj.drop_first() =~= w);
        assert forall|j: int| 0 <= j < w.len() implies !spec_is_whitespace(#[trigger] w[j]) by {
            assert(!spec_is_whitespace(ws[0][j]));
        }
        law_whitespace_separates_words(w, ' ', Seq::empty());
        assert(words(w) == seq![w]);
        assert(ws =~= seq![w]);
        assert forall|j: int| 0 <= j < cj.len() implies #[trigger] cj[j] != '\n' by {
            if j > 0 {
                assert(cj[j] == w[j - 1]);
                assert(!spec_is_whitespace(ws[0][j - 1]));
            }
        }
    } else {
        let init = ws.drop_last();
        let w = ws.last();
        assert forall|i: int| 0 <= i < init.len() implies (#[trigger] init[i]).len() > 0 by {
            assert(init[i] == ws[i]);
        }
        assert forall|i: int, j: int| 0 <= i < init.len() && 0 <= j < init[i].len() implies !spec_is_whitespace(
            #[trigger] init[i][j],
        ) by {
            assert(init[i] == ws[i]);
        }
        lemma_colon_joined_reads_back(init);
        let ci = colon_joined(init);
        assert(cj == ci + seq![' '] + w);
        let j_init = ci.drop_first();
        assert(cj.drop_first() =~= j_init + seq![' '] + w);
        assert forall|j: int| 0 <= j < w.len() implies !spec_is_whitespace(#[trigger] w[j]) by {
            assert(!spec_is_whitespace(ws[ws.len() - 1][j]));
        }
        law_whitespace_separates_words(j_init, ' ', w);
        law_whitespace_separates_words(w, ' ', Seq::empty());
        assert(init.push(w) =~= ws);
        assert(init + seq![w] =~= ws);
        assert forall|j: int| 0 <= j < cj.len() implies #[trigger] cj[j] != '\n' by {
            if j < ci.len() {
                assert(cj[j] == ci[j]);
            } else if j > ci.len() {
                assert(cj[j] == w[j - ci.len() - 1]);
                assert(!spec_is_whitespace(ws[ws.len() - 1][j - ci.len() - 1]));
            }
        }
    }
}

/// A line that holds no line feed is its own first line.
proof fn lemma_first_line_of_one_line(s: Seq<char>)
    requires
        s.len() > 0,
        forall|j: int| 0 <= j < s.len() ==> #[trigger] s[j] != '\n',
    ensures
        spec_first_line(s) == Some(s),
{
    assert(!s.contains('\n'));
}

/// Completing the last word of a command with the one name it can stand for gives a
/// command whose words are the same but for the last one, which is that name.
pub proof fn law_completion_replaces_the_last_word(text: Seq<char>, name: Seq<char>)
    requires
        has_components(text),
        spec_command_components(text).len() >= 2,
        name.len() > 0,
        forall|j: int| 0 <= j < name.len() ==> !spec_is_whitespace(#[trigger] name[j]),
    ensures
        spec_command_components(spec_completed(text, seq![name])) == spec_command_components(text).drop_last().push(name),
{
    let ws = spec_command_components(text);
    let line = spec_first_line(strip_colon(text))->0;
    assert(ws == words(line));
    law_words_are_nonempty_without_whitespace(line);
    let target = ws.drop_last().push(name);
    assert forall|i: int| 0 <= i < target.len() implies (#[trigger] target[i]).len() > 0 by {
        if i < ws.len() - 1 {
            assert(target[i] == ws[i]);
        }
    }
    assert forall|i: int, j: int| 0 <= i < target.len() && 0 <= j < target[i].len() implies !spec_is_whitespace(
        #[trigger] target[i][j],
    ) by {
        if i < ws.len() - 1 {
            assert(target[i] == ws[i]);
            assert(!spec_is_whitespace(words(line)[i][j]));
        }
    }
    lemma_colon_joined_reads_back(target);
    let cj = colon_joined(target);
    assert(spec_completed(text, seq![name]) == cj);
    assert(strip_colon(cj) == cj.drop_first());
    assert forall|j: int| 0 <= j < cj.drop_first().len() implies #[trigger] cj.drop_first()[j] != '\n' by {
        assert(cj.drop_first()[j] == cj[j + 1]);
    }
    lemma_first_line_of_one_line(cj.drop_first());
}

/// The first line of a text is what comes before its first line feed (without a carriage
/// return just before it), and a text with no line feed is one line: so typing on a
/// command of one line appends to it, and the candidate lines listed below a command go
/// away when it is edited.
pub proof fn law_first_line_ends_at_the_first_line_feed(line: Seq<char>, rest: Seq<char>)
    requires
        forall|j: int| 0 <= j < line.len() ==> #[trigger] line[j] != '\n',
    ensures
        first_line_or_empty(line) == line,
        line.len() == 0 || line.last() != '\r' ==> first_line_or_empty(line + seq!['\n'] + rest) == line,
{
    assert(!line.contains('\n'));
    if line.len() == 0 {
        assert(line =~= Seq::<char>::empty());
    }
    let t = line + seq!['\n'] + rest;
    assert(t[line.len() as int] == '\n');
    assert(t.contains('\n'));
    let k = t.index_of_first('\n');
    t.index_of_first_ensures('\n');
    assert(k == Some(line.len() as int)) by {
        let i = k->0;
        if i < line.len() {
            assert(t[i] == line[i]);
        }
    }
    assert(t.take(line.len() as int) =~= line);
}

/// The game's function keys: pressing F8 leaves the editor for gameplay or gameplay for
/// the editor, sending the message that the one mode is left and then the message that
/// the other is entered; pressing F6 switches drawing shape outlines and F7 drawing shape
/// vertices, each leaving the other switch alone. Whatever the key, its new state is
/// recorded, and a released key changes nothing else.
pub proof fn law_function_keys(g: GameView, code: Keycode, scancode: Option<i32>)
    ensures
        ({
            let f8 = after_key(g, key_with(KEYCODE_F8, scancode, true));
            let f6 = after_key(g, key_with(KEYCODE_F6, scancode, true));
            let f7 = after_key(g, key_with(KEYCODE_F7, scancode, true));
            let recorded = |c: Keycode, s: KeyState| GameView { input: crate::engine_input::InputView { keys: g.input.keys.insert(c, s), ..g.input }, ..g };
            &&& g.game_mode == GameMode::Editor ==> f8 == GameView {
                game_mode: GameMode::Gameplay,
                messages: g.messages + seq![Message::LeaveEditor, Message::EnterGameplay],
                ..recorded(KEYCODE_F8, KeyState::Down)
            }
            &&& g.game_mode == GameMode::Gameplay ==> f8 == GameView {
                game_mode: GameMode::Editor,
                messages: g.messages + seq![Message::LeaveGameplay, Message::EnterEditor],
                ..recorded(KEYCODE_F8, KeyState::Down)
            }
            &&& f6 == GameView {
                shape_stroke: ShapeStrokeFlags {
                    do_draw_shape_stroke_lines: !g.shape_stroke.do_draw_shape_stroke_lines,
                    do_draw_shape_stroke_points: g.shape_stroke.do_draw_shape_stroke_points,
                },
                ..recorded(KEYCODE_F6, KeyState::Down)
            }
            &&& f7 == GameView {
                shape_stroke: ShapeStrokeFlags {
                    do_draw_shape_stroke_lines: g.shape_stroke.do_draw_shape_stroke_lines,
                    do_draw_shape_stroke_points: !g.shape_stroke.do_draw_shape_stroke_points,
                },
                ..recorded(KEYCODE_F7, KeyState::Down)
            }
            &&& after_key(g, key_with(code, scancode, false)) == recorded(code, KeyState::Up)
        }),
{
    assert(g.messages.push(Message::LeaveEditor).push(Message::EnterGameplay) =~= g.messages + seq![
        Message::LeaveEditor,
        Message::EnterGameplay,
    ]);
    assert(g.messages.push(Message::LeaveGameplay).push(Message::EnterEditor) =~= g.messages + seq![
        Message::LeaveGameplay,
        Message::EnterEditor,
    ]);
}

/// Scrolling adds up over a tick: a wheel event adds its amounts to the scroll, negated
/// when the wheel's direction is flipped, and changes nothing else. Moving the pointer
/// records its new position (coordinates taken as unsigned) and leaves the buttons, the
/// scroll, the keys and the typed text alone.
pub proof fn law_wheel_and_motion(v: InputView, x: i32, y: i32, direction: MouseWheelDirection)
    ensures
        v.accepts(Event::MouseWheel { x, y, direction }) ==> {
            let (dx, dy) = if direction == MouseWheelDirection::Flipped { (-x, -y) } else { (x as int, y as int) };
            &&& v.mouse.scroll.x + dx <= i32::MAX && v.mouse.scroll.x + dx >= i32::MIN
            &&& v.mouse.scroll.y + dy <= i32::MAX && v.mouse.scroll.y + dy >= i32::MIN
            &&& v.after(Event::MouseWheel { x, y, direction }) == InputView {
                mouse: MouseInput {
                    scroll: Vec2 { x: (v.mouse.scroll.x + dx) as i32, y: (v.mouse.scroll.y + dy) as i32 },
                    ..v.mouse
                },
                ..v
            }
        },
        ({
            let m = v.after(Event::MouseMotion { x, y });
            &&& m.mouse.position == Vec2 { x: x as u32, y: y as u32 }
            &&& m.mouse.left == v.mouse.left && m.mouse.middle == v.mouse.middle && m.mouse.right == v.mouse.right
            &&& m.mouse.scroll == v.mouse.scroll
            &&& m.keys == v.keys && m.text == v.text && m.wants_to_quit == v.wants_to_quit
        }),
{
}

/// Whether `(a, b)` is a spring of the cloth's pattern: a moving particle joined to the
/// next one on its line of eight, or to the one below it on the moving lines; or a fixed
/// particle joined to the particle of its column on the second line.
pub open spec fn is_cloth_spring(a: int, b: int) -> bool {
    ||| 0 <= a < 56 && a % 8 != 7 && b == a + 1
    ||| 0 <= a < 48 && b == a + 8
    ||| 56 <= a < 64 && b == a % 8 + 8
}

/// The springs of the first `n` particles are those of the pattern whose first end is
/// among them, each once, in the order of their first end.
proof fn lemma_springs_upto(n: int)
    requires
        0 <= n <= 64,
    ensures
        forall|k: int| 0 <= k < springs_upto(n).len() ==> {
            let (a, b) = #[trigger] springs_upto(n)[k];
            a < n && is_cloth_spring(a as int, b as int)
        },
        forall|a: int, b: int| 0 <= a < n && is_cloth_spring(a, b) ==> #[trigger] springs_upto(n).contains((a as usize, b as usize)),
    decreases n,
{
    if n > 0 {
        lemma_springs_upto(n - 1);
        let prev = springs_upto(n - 1);
        let add = springs_of(n - 1);
        let all = springs_upto(n);
        assert(all == prev + add);
        assert forall|k: int| 0 <= k < all.len() implies {
            let (a, b) = #[trigger] all[k];
            a < n && is_cloth_spring(a as int, b as int)
        } by {
            if k < prev.len() {
                assert(all[k] == prev[k]);
            } else {
                assert(all[k] == add[k - prev.len()]);
            }
        }
        assert forall|a: int, b: int| 0 <= a < n && is_cloth_spring(a, b) implies #[trigger] all.contains((a as usize, b as usize)) by {
            if a < n - 1 {
                assert(springs_upto(n - 1).contains((a as usize, b as usize)));
                let k = choose|k: int| 0 <= k < prev.len() && prev[k] == (a as usize, b as usize);
                assert(all[k] == prev[k]);
            } else {
                let i = n - 1;
                if i < 56 {
                    let right: Seq<(usize, usize)> = if (i + 1) % 8 != 0 { seq![(i as usize, (i + 1) as usize)] } else { Seq::empty() };
                    let below: Seq<(usize, usize)> = if i + 8 < 56 { seq![(i as usize, (i + 8) as usize)] } else { Seq::empty() };
                    assert(add == right + below);
                    if b == a + 1 && a % 8 != 7 {
                        assert(add[0] == (a as usize, b as usize));
                        assert(all[prev.len() as int] == add[0]);
                    } else {
                        assert(b == a + 8 && a < 48);
                        assert(add[right.len() as int] == (a as usize, b as usize));
                        assert(all[(prev.len() + right.len()) as int] == add[right.len() as int]);
                    }
                } else {
                    assert(add[0] == (a as usize, b as usize));
                    assert(all[prev.len() as int] == add[0]);
                }
            }
        }
    }
}

/// The cloth's springs follow its pattern: every spring joins a moving particle to the
/// next one on its line or to the one below it, or a fixed particle to the particle of
/// its column on the second line; and every such pair is a spring.
pub proof fn law_cloth_springs_follow_the_pattern()
    ensures
        forall|k: int| 0 <= k < springs_upto(64).len() ==> {
            let (a, b) = #[trigger] springs_upto(64)[k];
            is_cloth_spring(a as int, b as int)
        },
        forall|a: int, b: int| is_cloth_spring(a, b) ==> #[trigger] springs_upto(64).contains((a as usize, b as usize)),
{
    lemma_springs_upto(64);
}

/// Looking up from position `i` on finds the first entry there for `c`.
proof fn lemma_glyph_from(glyphs: Seq<(char, GlyphInfo)>, c: char, i: int)
    requires
        0 <= i <= glyphs.len(),
    ensures
        match glyph_from(glyphs, c, i) {
            Some(g) => exists|k: int|
                i <= k < glyphs.len() && #[trigger] glyphs[k] == (c, g) && forall|j: int| i <= j < k ==> (#[trigger] glyphs[j]).0 != c,
            None => forall|j: int| i <= j < glyphs.len() ==> (#[trigger] glyphs[j]).0 != c,
        },
    decreases glyphs.len() - i,
{
    if i < glyphs.len() && glyphs[i].0 != c {
        lemma_glyph_from(glyphs, c, i + 1);
    }
}

/// A font's glyph for a character is that of the first entry for the character; a
/// character with no entry has no glyph.
pub proof fn law_glyph_is_the_first_entry(glyphs: Seq<(char, GlyphInfo)>, c: char)
    ensures
        match glyph_of(glyphs, c) {
            Some(g) => exists|k: int|
                0 <= k < glyphs.len() && #[trigger] glyphs[k] == (c, g) && forall|j: int| 0 <= j < k ==> (#[trigger] glyphs[j]).0 != c,
            None => forall|j: int| 0 <= j < glyphs.len() ==> (#[trigger] glyphs[j]).0 != c,
        },
{
    lemma_glyph_from(glyphs, c, 0);
}

/// Advances in 1/64 pixels become whole pixels rounded toward zero: a length and its
/// opposite give opposite pixel counts, and a multiple of 64 gives its exact quotient.
pub proof fn law_advance_rounds_toward_zero(v: i64)
    requires
        -0x1f_ffc0 <= v <= 0x1f_ffc0,
    ensures
        whole_pixels((-v) as i64) == -whole_pixels(v),
        0 <= v ==> 64 * whole_pixels(v) <= v < 64 * whole_pixels(v) + 64,
        v <= 0 ==> 64 * whole_pixels(v) - 64 < v <= 64 * whole_pixels(v),
{
}

} // verus!
