pub mod governor;
pub mod keyframe;
pub mod lanes;
pub mod song_timer;
