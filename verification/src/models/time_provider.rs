//! Where the library gets the current time from.

use vstd::prelude::*;

verus! {

/// A clock. The library never reads the time by itself: whoever asks for
/// "the next N weeks" supplies the clock.
pub trait TimeProvider: Sized {
    /// The current instant, in seconds from the Unix epoch.
    fn get_current_time() -> i64;

    /// A clock of this kind.
    fn new() -> Self;
}

} // verus!
