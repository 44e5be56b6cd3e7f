//! Randomised colour smudging of RGBA images, with the command line
//! rules of the `camoufler` tool around it.
//!
//! The crate is verified with Verus. Every executable function carries a
//! contract over the mathematical models defined next to it. The few calls
//! into `image` and `rand`, and into the parts of `std` that the verifier
//! knows nothing of, stand behind small wrappers whose doc comments say
//! what is taken on trust.

pub mod args;
pub mod canvas;
pub mod paths;
pub mod random;
pub mod smudge;
pub mod text;
