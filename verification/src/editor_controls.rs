//! What keys, typed text and clicks do in the shape editor: the editor's own switches
//! change here, and what needs the shapes, the camera or the files comes out as an action.
use vstd::prelude::*;
use crate::color::Hsva;
use crate::editor_command::{CommandLine, EditorCommand, first_arg, first_line_or_empty, has_components, parse_editor_command, spec_command_components};
use crate::engine_input::{Key, MouseButton};
use crate::key_state::KeyState;
use crate::platform_event::{
    Keycode, Sdl2MouseButton, KEYCODE_A, KEYCODE_BACKSPACE, KEYCODE_C, KEYCODE_COLON, KEYCODE_DELETE, KEYCODE_ESCAPE, KEYCODE_F, KEYCODE_G,
    KEYCODE_I, KEYCODE_J, KEYCODE_K, KEYCODE_KP_ENTER, KEYCODE_L, KEYCODE_M, KEYCODE_O, KEYCODE_P, KEYCODE_R, KEYCODE_RETURN, KEYCODE_RETURN2,
    KEYCODE_SPACE, KEYCODE_T, KEYCODE_TAB, KEYCODE_U, KEYCODE_X,
};

verus! {

/// What the editor asks of the rest of the game after an input.
#[derive(Debug, Clone, PartialEq, Eq)]
pub enum EditorAction {
    Nothing,
    /// Run the command that was being typed.
    ExecuteCommand(String),
    /// Complete the last word of the command being typed.
    Autocomplete,
    /// Put the camera back where it started.
    ResetCamera,
    /// Close the path of the shape being edited.
    EndPolygon,
    SelectAll,
    /// Remove the vertices of the shape being edited.
    DeleteSelected,
    /// Add a vertex where the pointer is.
    AddVertex,
}

/// The abstract form of an `EditorAction`.
pub enum EditorActionView {
    Nothing,
    ExecuteCommand(Seq<char>),
    Autocomplete,
    ResetCamera,
    EndPolygon,
    SelectAll,
    DeleteSelected,
    AddVertex,
}

impl View for EditorAction {
    type V = EditorActionView;

    open spec fn view(&self) -> EditorActionView {
        match self {
            EditorAction::Nothing => EditorActionView::Nothing,
            EditorAction::ExecuteCommand(s) => EditorActionView::ExecuteCommand(s@),
            EditorAction::Autocomplete => EditorActionView::Autocomplete,
            EditorAction::ResetCamera => EditorActionView::ResetCamera,
            EditorAction::EndPolygon => EditorActionView::EndPolygon,
            EditorAction::SelectAll => EditorActionView::SelectAll,
            EditorAction::DeleteSelected => EditorActionView::DeleteSelected,
            EditorAction::AddVertex => EditorActionView::AddVertex,
        }
    }
}

/// The switches of the shape editor.
#[derive(Debug, Clone, PartialEq, Eq)]
pub struct EditorControls {
    pub is_active: bool,
    pub command_line: CommandLine,
    pub do_draw_grid: bool,
    pub draw_grid_first: bool,
    pub is_panning_camera: bool,
    /// Which way the camera turns: -1, 0 or 1 times its rotation speed.
    pub camera_rotation: i8,
    /// How fast each color slider moves, per second.
    pub hsva_sliding_speed: Hsva<i8>,
    /// The name of the shape being edited.
    pub working_shape_name: String,
}

/// The abstract form of `EditorControls`.
#[verifier::ext_equal]
pub struct EditorControlsView {
    pub is_active: bool,
    pub is_entering_command: bool,
    pub command_text: Seq<char>,
    pub do_draw_grid: bool,
    pub draw_grid_first: bool,
    pub is_panning_camera: bool,
    pub camera_rotation: i8,
    pub hsva_sliding_speed: Hsva<i8>,
    pub working_shape_name: Seq<char>,
}

impl View for EditorControls {
    type V = EditorControlsView;

    open spec fn view(&self) -> EditorControlsView {
        EditorControlsView {
            is_active: self.is_active,
            is_entering_command: self.command_line.is_entering_command,
            command_text: self.command_line.text@,
            do_draw_grid: self.do_draw_grid,
            draw_grid_first: self.draw_grid_first,
            is_panning_camera: self.is_panning_camera,
            camera_rotation: self.camera_rotation,
            hsva_sliding_speed: self.hsva_sliding_speed,
            working_shape_name: self.working_shape_name@,
        }
    }
}

/// Whether `k` is one of the keys that submit a command.
pub open spec fn is_return_key(k: Keycode) -> bool {
    k == KEYCODE_RETURN || k == KEYCODE_RETURN2 || k == KEYCODE_KP_ENTER
}

/// `v` when the key is down, nothing when it is up.
pub open spec fn while_down(v: i8, down: bool) -> i8 {
    if down {
        v
    } else {
        0
    }
}

/// The editor, and what it asks for, once key `code` changes to `down` while a command is typed.
pub open spec fn after_command_key(e: EditorControlsView, code: Keycode, down: bool) -> (EditorControlsView, EditorActionView) {
    if code == KEYCODE_ESCAPE || is_return_key(code) {
        if !down {
            (e, EditorActionView::Nothing)
        } else {
            (
                EditorControlsView { is_entering_command: false, command_text: Seq::empty(), ..e },
                if is_return_key(code) {
                    EditorActionView::ExecuteCommand(e.command_text)
                } else {
                    EditorActionView::Nothing
                },
            )
        }
    } else if code == KEYCODE_BACKSPACE && down {
        let line = first_line_or_empty(e.command_text);
        (
            EditorControlsView { command_text: if line.len() > 0 { line.drop_last() } else { line }, ..e },
            EditorActionView::Nothing,
        )
    } else if code == KEYCODE_TAB && down {
        (e, EditorActionView::Autocomplete)
    } else {
        (e, EditorActionView::Nothing)
    }
}

/// The editor, and what it asks for, once key `code` changes to `down` while no command is typed.
pub open spec fn after_editing_key(e: EditorControlsView, code: Keycode, down: bool) -> (EditorControlsView, EditorActionView) {
    let s = e.hsva_sliding_speed;
    let nothing = EditorActionView::Nothing;
    if code == KEYCODE_COLON {
        (if down { EditorControlsView { is_entering_command: true, ..e } } else { e }, nothing)
    } else if code == KEYCODE_G {
        (if down { EditorControlsView { do_draw_grid: !e.do_draw_grid, ..e } } else { e }, nothing)
    } else if code == KEYCODE_F {
        (if down { EditorControlsView { draw_grid_first: !e.draw_grid_first, ..e } } else { e }, nothing)
    } else if code == KEYCODE_SPACE {
        (EditorControlsView { is_panning_camera: down, ..e }, nothing)
    } else if code == KEYCODE_R {
        (EditorControlsView { camera_rotation: while_down(-1i8, down), ..e }, nothing)
    } else if code == KEYCODE_T {
        (EditorControlsView { camera_rotation: while_down(1, down), ..e }, nothing)
    } else if code == KEYCODE_C {
        (e, if down { EditorActionView::ResetCamera } else { nothing })
    } else if code == KEYCODE_RETURN {
        (e, if down { EditorActionView::EndPolygon } else { nothing })
    } else if code == KEYCODE_A {
        (e, if down { EditorActionView::SelectAll } else { nothing })
    } else if code == KEYCODE_BACKSPACE || code == KEYCODE_DELETE || code == KEYCODE_X {
        (e, if down { EditorActionView::DeleteSelected } else { nothing })
    } else if code == KEYCODE_J {
        (EditorControlsView { hsva_sliding_speed: Hsva { v: while_down(1, down), ..s }, ..e }, nothing)
    } else if code == KEYCODE_K {
        (EditorControlsView { hsva_sliding_speed: Hsva { v: while_down(-1i8, down), ..s }, ..e }, nothing)
    } else if code == KEYCODE_L {
        (EditorControlsView { hsva_sliding_speed: Hsva { s: while_down(-1i8, down), ..s }, ..e }, nothing)
    } else if code == KEYCODE_M {
        (EditorControlsView { hsva_sliding_speed: Hsva { s: while_down(1, down), ..s }, ..e }, nothing)
    } else if code == KEYCODE_U {
        (EditorControlsView { hsva_sliding_speed: Hsva { h: while_down(-6i8, down), ..s }, ..e }, nothing)
    } else if code == KEYCODE_I {
        (EditorControlsView { hsva_sliding_speed: Hsva { h: while_down(6, down), ..s }, ..e }, nothing)
    } else if code == KEYCODE_O {
        (EditorControlsView { hsva_sliding_speed: Hsva { a: while_down(1, down), ..s }, ..e }, nothing)
    } else if code == KEYCODE_P {
        (EditorControlsView { hsva_sliding_speed: Hsva { a: while_down(-1i8, down), ..s }, ..e }, nothing)
    } else {
        (e, nothing)
    }
}

/// The editor, and what it asks for, once `key` is reported.
pub open spec fn after_key(e: EditorControlsView, key: Key) -> (EditorControlsView, EditorActionView) {
    if !e.is_active {
        (e, EditorActionView::Nothing)
    } else if e.is_entering_command {
        after_command_key(e, key.code->0, key.state == KeyState::Down)
    } else {
        after_editing_key(e, key.code->0, key.state == KeyState::Down)
    }
}

impl EditorControls {
    /// An inactive editor that draws the grid first, with nothing moving, editing the
    /// shape named `default`.
    pub fn new() -> (r: EditorControls)
        ensures
            !r@.is_active,
            !r@.is_entering_command,
            r@.command_text == Seq::<char>::empty(),
            r@.do_draw_grid,
            r@.draw_grid_first,
            !r@.is_panning_camera,
            r@.camera_rotation == 0,
            r@.hsva_sliding_speed == (Hsva::<i8> { h: 0, s: 0, v: 0, a: 0 }),
            r@.working_shape_name == "default"@,
    {
        EditorControls {
            is_active: false,
            command_line: CommandLine::new(),
            do_draw_grid: true,
            draw_grid_first: true,
            is_panning_camera: false,
            camera_rotation: 0,
            hsva_sliding_speed: Hsva { h: 0, s: 0, v: 0, a: 0 },
            working_shape_name: String::from_str("default"),
        }
    }

    /// The game enters the editor.
    pub fn enter(&mut self)
        requires
            !old(self).is_active,
        ensures
            final(self)@ == (EditorControlsView { is_active: true, ..old(self)@ }),
    {
        self.is_active = true;
    }

    /// The game leaves the editor.
    pub fn leave(&mut self)
        requires
            old(self).is_active,
        ensures
            final(self)@ == (EditorControlsView { is_active: false, ..old(self)@ }),
    {
        self.is_active = false;
    }

    /// Text typed by the player goes to the command being typed, if any.
    pub fn on_text_input(&mut self, s: &str)
        ensures
            final(self)@ == (if old(self)@.is_active && old(self)@.is_entering_command {
                EditorControlsView { command_text: first_line_or_empty(old(self)@.command_text) + s@, ..old(self)@ }
            } else {
                old(self)@
            }),
    {
        if self.is_active && self.command_line.is_entering_command {
            self.command_line.type_text(s);
        }
    }

    /// A key changed state; in the editor, it must be a known key.
    pub fn on_key(&mut self, key: Key) -> (r: EditorAction)
        requires
            old(self).is_active ==> key.code is Some,
        ensures
            (final(self)@, r@) == after_key(old(self)@, key),
    {
        if !self.is_active {
            return EditorAction::Nothing;
        }
        let code = key.code.unwrap();
        let down = key.is_down();
        if self.command_line.is_entering_command {
            if code == KEYCODE_ESCAPE || code == KEYCODE_RETURN || code == KEYCODE_RETURN2 || code == KEYCODE_KP_ENTER {
                if !down {
                    return EditorAction::Nothing;
                }
                let action = if code == KEYCODE_ESCAPE {
                    EditorAction::Nothing
                } else {
                    EditorAction::ExecuteCommand(self.command_line.text.clone())
                };
                self.command_line.clear();
                return action;
            } else if code == KEYCODE_BACKSPACE && down {
                self.command_line.backspace();
                return EditorAction::Nothing;
            } else if code == KEYCODE_TAB && down {
                return EditorAction::Autocomplete;
            }
            return EditorAction::Nothing;
        }
        let d: i8 = if down { 1 } else { 0 };
        if code == KEYCODE_COLON {
            if down {
                self.command_line.is_entering_command = true;
            }
        } else if code == KEYCODE_G {
            if down {
                self.do_draw_grid = !self.do_draw_grid;
            }
        } else if code == KEYCODE_F {
            if down {
                self.draw_grid_first = !self.draw_grid_first;
            }
        } else if code == KEYCODE_SPACE {
            self.is_panning_camera = down;
        } else if code == KEYCODE_R {
            self.camera_rotation = -d;
        } else if code == KEYCODE_T {
            self.camera_rotation = d;
        } else if code == KEYCODE_C {
            return if down { EditorAction::ResetCamera } else { EditorAction::Nothing };
        } else if code == KEYCODE_RETURN {
            return if down { EditorAction::EndPolygon } else { EditorAction::Nothing };
        } else if code == KEYCODE_A {
            return if down { EditorAction::SelectAll } else { EditorAction::Nothing };
        } else if code == KEYCODE_BACKSPACE || code == KEYCODE_DELETE || code == KEYCODE_X {
            return if down { EditorAction::DeleteSelected } else { EditorAction::Nothing };
        } else if code == KEYCODE_J {
            self.hsva_sliding_speed.v = d;
        } else if code == KEYCODE_K {
            self.hsva_sliding_speed.v = -d;
        } else if code == KEYCODE_L {
            self.hsva_sliding_speed.s = -d;
        } else if code == KEYCODE_M {
            self.hsva_sliding_speed.s = d;
        } else if code == KEYCODE_U {
            self.hsva_sliding_speed.h = -6 * d;
        } else if code == KEYCODE_I {
            self.hsva_sliding_speed.h = 6 * d;
        } else if code == KEYCODE_O {
            self.hsva_sliding_speed.a = d;
        } else if code == KEYCODE_P {
            self.hsva_sliding_speed.a = -d;
        }
        EditorAction::Nothing
    }

    /// Runs the command `cmd`, which must hold a command word, and tells what it does:
    /// writing without a name writes the shape being edited; writing, or editing with a
    /// name, makes the named shape the one being edited.
    pub fn execute_command(&mut self, cmd: &str) -> (r: EditorCommand)
        requires
            has_components(cmd@),
            spec_command_components(cmd@).len() > 0,
        ensures
            ({
                let ws = spec_command_components(cmd@);
                let before = old(self)@;
                match r {
                    EditorCommand::Write { name } => {
                        &&& ws[0] == "w"@
                        &&& name matches Some(n)
                        &&& n@ == (match first_arg(ws) {
                            Some(a) => a,
                            None => before.working_shape_name,
                        })
                        &&& final(self)@ == (EditorControlsView { working_shape_name: n@, ..before })
                    },
                    EditorCommand::Edit { name } => {
                        &&& ws[0] == "e"@
                        &&& match name {
                            Some(n) => first_arg(ws) == Some(n@) && final(self)@ == (EditorControlsView {
                                working_shape_name: n@,
                                ..before
                            }),
                            None => first_arg(ws) is None && final(self)@ == before,
                        }
                    },
                    EditorCommand::Unrecognized { command } => {
                        &&& ws[0] != "w"@
                        &&& ws[0] != "e"@
                        &&& command@ == ws[0]
                        &&& final(self)@ == before
                    },
                }
            }),
    {
        match parse_editor_command(cmd) {
            EditorCommand::Write { name } => {
                let n = match name {
                    Some(n) => n,
                    None => self.working_shape_name.clone(),
                };
                self.working_shape_name = n.clone();
                EditorCommand::Write { name: Some(n) }
            },
            EditorCommand::Edit { name } => {
                match &name {
                    Some(n) => {
                        self.working_shape_name = n.clone();
                    },
                    None => {},
                }
                EditorCommand::Edit { name }
            },
            other => other,
        }
    }

    /// A mouse button changed state: in the editor, pressing the left one adds a vertex.
    pub fn on_mouse_button(&self, btn: MouseButton) -> (r: EditorAction)
        ensures
            r@ == (if self.is_active && btn.button == Sdl2MouseButton::Left && btn.state == KeyState::Down {
                EditorActionView::AddVertex
            } else {
                EditorActionView::Nothing
            }),
    {
        if self.is_active && btn.is_left() && btn.is_down() {
            EditorAction::AddVertex
        } else {
            EditorAction::Nothing
        }
    }
}

} // verus!
