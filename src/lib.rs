//! A step sequencer core: notes, tracks that advance on tempo-scaled beats,
//! sample banks and the playback engine that owns every live sound.

pub mod note;
pub mod player;
pub mod notescale;
pub mod track;
pub mod filescale;
