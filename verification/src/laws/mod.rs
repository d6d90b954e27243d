//! What holds of the operations of the database on a storage that does what it is asked to, or
//! fails.

pub mod activation;
pub mod closing;
pub mod consistency;
pub mod counting;
pub mod files;
pub mod fill;
pub mod model;
pub mod opening;
pub mod reading;
pub mod rebuild;
pub mod recovery;
pub mod replay;
pub mod replies;
pub mod requests;
pub mod sessions;
pub mod stripes;
pub mod tips;
