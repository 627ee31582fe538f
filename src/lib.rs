pub mod buffer;
pub mod json;
pub mod laws;
pub mod seq_size;
pub mod shared;
pub mod size;
pub mod tracker;

pub use buffer::{Buffer, Table};
pub use shared::{Shared, SyncShared};
pub use size::{FixedSize, GetSize, Ignored};
pub use tracker::{GetSizeTracker, NoTracker, StandardTracker};
