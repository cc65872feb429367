use vstd::prelude::*;

verus! {

/// Raw tick representation of the song clock.
pub type SongTicker = i64;

/// A point on the currently playing song's clock, counted in ticks.
///
/// Comparisons and interval arithmetic are only meaningful between values
/// taken from the same song's clock.
#[derive(Hash, Debug, Copy, Clone, PartialEq, Eq, Structural, PartialOrd, Ord)]
pub struct SongTime(pub i64);

impl SongTime {
    /// Interval addition on the song clock.
    pub fn add(self, other: SongTime) -> (r: SongTime)
        requires
            i64::MIN <= self.0 + other.0 <= i64::MAX,
        ensures
            r.0 == self.0 + other.0,
    {
        SongTime(self.0 + other.0)
    }

    /// Interval subtraction on the song clock.
    pub fn sub(self, other: SongTime) -> (r: SongTime)
        requires
            i64::MIN <= self.0 - other.0 <= i64::MAX,
        ensures
            r.0 == self.0 - other.0,
    {
        SongTime(self.0 - other.0)
    }
}

} // verus!
