//! Removal of single-sample pops from a pulse-code audio signal.
//!
//! Each sample is compared with its two left and two right neighbours; a
//! sample that lies far outside the band spanned by those four neighbours is
//! replaced by their midpoint.  The sequence is padded with two extreme
//! sentinels on each side so that every sample has a full window.
pub mod filter;
pub mod laws;
pub mod window;

pub use filter::clean_data;
