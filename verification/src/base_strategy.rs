//! The directories of the convention themselves, with no application in mind.

pub mod xdg;

pub use xdg::Xdg;
