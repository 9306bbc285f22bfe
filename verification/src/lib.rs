//! Estimating the weight of each stone of a collection when only whole groups
//! of stones can be put on the scale.
//!
//! A refinement keeps one guess per stone. A step of it draws a few stones at
//! random, compares what their guesses weigh with what the scale shows for
//! them, and, where the two differ, corrects the guess for each stone that
//! was drawn. The guesses count as settled once a number of steps in a row
//! found nothing to correct.
//!
//! The crate keeps the books of that: which stones go on the scale together,
//! how far the guesses are off for them, which guesses are corrected, and
//! when the guesses are settled. What a weight is made of is left to the
//! caller: a guess is a value of a type parameter, and the scale, the weight
//! of a group of guesses and the correction of one guess are functions that
//! the caller hands in.
mod chance;
pub mod guessing;
pub mod options;
pub mod progress;
pub mod sampling;
