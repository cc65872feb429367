pub mod actor_wrapper;
pub mod key_bindings;
pub mod state;
pub mod update_routine;

use crate::song_player::song_timer::SongTime;
use vstd::prelude::*;

verus! {

/// The clock stamp carried by every tick: the wall clock as a plain tick
/// count, and the song clock when a song is playing.
#[derive(Debug, Clone, Copy, PartialEq)]
pub struct GameTime {
    pub instant: i64,
    pub song_time: Option<SongTime>,
}

} // verus!
