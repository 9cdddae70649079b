//! The times of the day that bound a fast, found from the altitude of the
//! sun.
//!
//! The position of the sun is not computed here: whoever asks for a time
//! brings a function that says, for an instant, whether the sun stands
//! below or above a wanted altitude.

pub mod prayer;
pub mod search;
