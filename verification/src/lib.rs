//! Unicode-correct text operations at the granularity of user-perceived
//! characters (grapheme clusters): splitting a string into clusters,
//! counting them, slicing and truncating by cluster index, and applying
//! each of these over batches of strings in parallel.

pub mod batch;
pub mod cluster;
pub mod laws;
pub mod ops;
pub mod segment;

pub use batch::batch_grapheme_len;
pub use batch::batch_slice;
pub use batch::batch_split;
pub use batch::batch_truncate;
pub use ops::GraphemeError;
pub use ops::slice;
pub use ops::truncate;
pub use ops::valid_range;
pub use segment::grapheme_count;
pub use segment::grapheme_len;
pub use segment::graphemes_of;
pub use segment::split;
pub use cluster::concat_all;
pub use cluster::cluster_start;
pub use cluster::slice_clusters;
pub use cluster::views_of;
