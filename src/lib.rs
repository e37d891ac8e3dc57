//! A fixed-capacity byte ring buffer with deferred writes and deferred reads,
//! for one producer and one consumer.
mod error;
mod grant;
mod laws;
mod model;
mod queue;
mod split;

pub use error::Error;
pub use grant::{ReadGrant, WriteGrant};
pub use laws::{
    holds_unread, lemma_capacity_bound, lemma_commit_appends, lemma_no_overlap, lemma_partial_release,
    lemma_release_drops, lemma_wrap_invisible,
};
pub use model::QueueView;
pub use queue::{
    after_grant, after_read, grant_result, grant_result_unsplit, read_result, read_result_unsplit,
    BBQueue,
};
pub use split::{Consumer, Producer};
