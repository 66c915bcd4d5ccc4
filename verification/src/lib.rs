//! A small persistence layer for computer-vision feature records.
//!
//! Two record kinds are kept in a relational store: `ImageFeature` rows,
//! keyed by a caller-supplied unique `id` and looked up by `camera_id`,
//! and `ImageDescription` rows keyed by `image_name`.  Keypoint and
//! descriptor payloads travel through a verified binary codec before they
//! reach the store.

use vstd::prelude::*;

pub mod codec;
pub mod records;
pub mod store;

pub use records::ImageDescription;
pub use records::ImageFeature;
pub use records::KeyPointData;
pub use store::Store;
pub use store::clear_test_db;
pub use store::delete_image_feature;
pub use store::get_image_feature;
pub use store::image_description_table;
pub use store::insert_image_description;
pub use store::insert_image_feature;
pub use store::reset_image_feature;
pub use store::setup_database;

verus! {

/// The error kinds a storage operation can surface to its caller.
///
/// `StorageUnavailable` covers every failure of the backing store itself
/// (the file cannot be opened, a table is missing, the file is locked);
/// `UniqueViolation` is a primary-key conflict on insert; `DecodeError`
/// means a stored binary payload could not be parsed back.  An empty
/// fetch result is signalled by `Option::None`, never by an error.
#[derive(Clone, Copy, Debug, PartialEq, Eq, Structural)]
pub enum StoreError {
    StorageUnavailable,
    UniqueViolation,
    DecodeError,
}

} // verus!
