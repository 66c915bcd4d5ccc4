//! The two record kinds and their mathematical views.
//!
//! Keypoint coordinates and the motion statistics are IEEE-754 values to
//! the producers of these records; the library holds them as their bit
//! patterns (`u32` / `u64`), which is what the codec and the store work
//! on.  Callers that live in floating-point land convert at the boundary
//! with `to_bits` / `from_bits`.

use vstd::prelude::*;

use crate::StoreError;
use crate::codec::decode_bytes;
use crate::codec::decode_bytes_spec;
use crate::codec::decode_keypoints;
use crate::codec::decode_keypoints_spec;
use crate::codec::encode_bytes;
use crate::codec::encode_bytes_spec;
use crate::codec::encode_keypoints;
use crate::codec::encode_keypoints_spec;

verus! {

/// One detected point of interest: pixel position, scale and orientation
/// (in degrees), each held as the bit pattern of a 32-bit float.
#[derive(Clone, Copy, Debug, PartialEq, Eq, Structural)]
pub struct KeyPointData {
    pub x_bits: u32,
    pub y_bits: u32,
    pub size_bits: u32,
    pub angle_bits: u32,
}

/// One feature record, one row per capture event.
#[derive(Clone, Debug, PartialEq)]
pub struct ImageFeature {
    /// Caller-supplied primary key; must be unique across all rows.
    pub id: String,
    /// Ordered keypoint sequence.
    pub keypoints: Vec<KeyPointData>,
    /// Flattened binary descriptor data.
    pub descriptors: Vec<u8>,
    /// Bit pattern of the 64-bit float mean of inter-frame motion.
    pub motion_mean_bits: u64,
    /// Bit pattern of the 64-bit float standard deviation of motion.
    pub motion_std_bits: u64,
    /// ISO-8601 timestamp; required but not validated for format.
    pub created_at_utc: String,
    /// Absent when the feature was computed without a stored image.
    pub img_filename: Option<String>,
    /// Lookup key; several rows may share one camera.
    pub camera_id: String,
}

/// One metadata record, one row per named image.
#[derive(Clone, Debug, PartialEq)]
pub struct ImageDescription {
    /// Primary key.
    pub image_name: String,
    /// ISO-8601 timestamp; required but not validated for format.
    pub datetime: String,
    pub camera_id: String,
    /// Optional anomaly label, absent when none was detected.
    pub anomaly: Option<String>,
}

/// The shape an `ImageFeature` has inside the store: the keypoint and
/// descriptor payloads already encoded, everything else verbatim.
#[derive(Clone, Debug, PartialEq)]
pub struct FeatureRow {
    pub id: String,
    pub keypoints_blob: Vec<u8>,
    pub descriptors_blob: Vec<u8>,
    pub motion_mean_bits: u64,
    pub motion_std_bits: u64,
    pub created_at_utc: String,
    pub img_filename: Option<String>,
    pub camera_id: String,
}

/// Mathematical view of an `ImageFeature`.
pub struct ImageFeatureV {
    pub id: Seq<char>,
    pub keypoints: Seq<KeyPointData>,
    pub descriptors: Seq<u8>,
    pub motion_mean_bits: u64,
    pub motion_std_bits: u64,
    pub created_at_utc: Seq<char>,
    pub img_filename: Option<Seq<char>>,
    pub camera_id: Seq<char>,
}

/// Mathematical view of an `ImageDescription`.
pub struct ImageDescriptionV {
    pub image_name: Seq<char>,
    pub datetime: Seq<char>,
    pub camera_id: Seq<char>,
    pub anomaly: Option<Seq<char>>,
}

/// Mathematical view of a `FeatureRow`.
pub struct FeatureRowV {
    pub id: Seq<char>,
    pub keypoints_blob: Seq<u8>,
    pub descriptors_blob: Seq<u8>,
    pub motion_mean_bits: u64,
    pub motion_std_bits: u64,
    pub created_at_utc: Seq<char>,
    pub img_filename: Option<Seq<char>>,
    pub camera_id: Seq<char>,
}

pub open spec fn opt_string_view(o: Option<String>) -> Option<Seq<char>> {
    match o {
        Option::Some(s) => Option::Some(s@),
        Option::None => Option::None,
    }
}

impl View for ImageFeature {
    type V = ImageFeatureV;

    open spec fn view(&self) -> ImageFeatureV {
        ImageFeatureV {
            id: self.id@,
            keypoints: self.keypoints@,
            descriptors: self.descriptors@,
            motion_mean_bits: self.motion_mean_bits,
            motion_std_bits: self.motion_std_bits,
            created_at_utc: self.created_at_utc@,
            img_filename: opt_string_view(self.img_filename),
            camera_id: self.camera_id@,
        }
    }
}

impl View for ImageDescription {
    type V = ImageDescriptionV;

    open spec fn view(&self) -> ImageDescriptionV {
        ImageDescriptionV {
            image_name: self.image_name@,
            datetime: self.datetime@,
            camera_id: self.camera_id@,
            anomaly: opt_string_view(self.anomaly),
        }
    }
}

impl View for FeatureRow {
    type V = FeatureRowV;

    open spec fn view(&self) -> FeatureRowV {
        FeatureRowV {
            id: self.id@,
            keypoints_blob: self.keypoints_blob@,
            descriptors_blob: self.descriptors_blob@,
            motion_mean_bits: self.motion_mean_bits,
            motion_std_bits: self.motion_std_bits,
            created_at_utc: self.created_at_utc@,
            img_filename: opt_string_view(self.img_filename),
            camera_id: self.camera_id@,
        }
    }
}

/// The row a feature record is stored as: both payloads encoded, the
/// scalar fields carried over unchanged.
pub open spec fn row_of_feature(f: ImageFeatureV) -> FeatureRowV {
    FeatureRowV {
        id: f.id,
        keypoints_blob: encode_keypoints_spec(f.keypoints),
        descriptors_blob: encode_bytes_spec(f.descriptors),
        motion_mean_bits: f.motion_mean_bits,
        motion_std_bits: f.motion_std_bits,
        created_at_utc: f.created_at_utc,
        img_filename: f.img_filename,
        camera_id: f.camera_id,
    }
}

fn clone_opt_string(o: &Option<String>) -> (r: Option<String>)
    ensures
        opt_string_view(r) == opt_string_view(*o),
{
    match o {
        Option::Some(s) => Option::Some(s.clone()),
        Option::None => Option::None,
    }
}

/// Encode a feature record into its storage row.
pub fn feature_to_row(f: &ImageFeature) -> (row: FeatureRow)
    ensures
        row@ == row_of_feature(f@),
{
    FeatureRow {
        id: f.id.clone(),
        keypoints_blob: encode_keypoints(&f.keypoints),
        descriptors_blob: encode_bytes(&f.descriptors),
        motion_mean_bits: f.motion_mean_bits,
        motion_std_bits: f.motion_std_bits,
        created_at_utc: f.created_at_utc.clone(),
        img_filename: clone_opt_string(&f.img_filename),
        camera_id: f.camera_id.clone(),
    }
}

/// Decode a storage row back into a feature record.
///
/// Succeeds exactly when both payloads are well-formed; a malformed
/// payload surfaces as `DecodeError` and nothing else can fail.
pub fn feature_from_row(row: FeatureRow) -> (r: Result<ImageFeature, StoreError>)
    ensures
        match r {
            Ok(f) => {
                &&& decode_keypoints_spec(row.keypoints_blob@) == Some(f@.keypoints)
                &&& decode_bytes_spec(row.descriptors_blob@) == Some(f@.descriptors)
                &&& f@.id == row@.id
                &&& f@.motion_mean_bits == row@.motion_mean_bits
                &&& f@.motion_std_bits == row@.motion_std_bits
                &&& f@.created_at_utc == row@.created_at_utc
                &&& f@.img_filename == row@.img_filename
                &&& f@.camera_id == row@.camera_id
            },
            Err(e) => {
                &&& e == StoreError::DecodeError
                &&& (decode_keypoints_spec(row.keypoints_blob@) is None
                    || decode_bytes_spec(row.descriptors_blob@) is None)
            },
        },
{
    let keypoints = match decode_keypoints(&row.keypoints_blob) {
        Ok(kps) => kps,
        Err(e) => {
            return Err(e);
        },
    };
    let descriptors = match decode_bytes(&row.descriptors_blob) {
        Ok(d) => d,
        Err(e) => {
            return Err(e);
        },
    };
    Ok(ImageFeature {
        id: row.id,
        keypoints,
        descriptors,
        motion_mean_bits: row.motion_mean_bits,
        motion_std_bits: row.motion_std_bits,
        created_at_utc: row.created_at_utc,
        img_filename: row.img_filename,
        camera_id: row.camera_id,
    })
}

} // verus!
