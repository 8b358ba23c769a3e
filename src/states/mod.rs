//! The six state tags, each pairing a growth and a shrink policy and choosing the
//! operations a container offers.
mod dynamic;
mod fixed;
mod locked;
mod manual;
mod normal;
mod tight;
mod transitions;

pub use dynamic::Dynamic;
pub use fixed::Fixed;
pub use locked::Locked;
pub use manual::{manual_shrink_amount, Manual};
pub use normal::{doubled, Normal};
pub use tight::Tight;
