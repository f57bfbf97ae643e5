use vstd::prelude::*;

pub mod camera;
pub mod cloth;
pub mod color;
pub mod command_file;
pub mod ecs;
pub mod editor_command;
pub mod editor_controls;
pub mod engine_input;
pub mod esystem;
pub mod events;
pub mod font_atlas;
pub mod fonts;
pub mod game;
pub mod global;
pub mod gx;
pub mod id_realm;
pub mod ids;
pub mod input;
pub mod key_state;
pub mod laws;
pub mod lazy;
pub mod message;
pub mod platform_event;
pub mod resources;
pub mod save;
pub mod scene_file;
pub mod shape_file;
pub mod sim_states;
pub mod system;
pub mod text_layout;
pub mod v;
pub mod words;

verus! {

} // verus!
