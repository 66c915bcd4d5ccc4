use feature_store::KeyPointData;
use feature_store::StoreError;
use feature_store::codec::decode_bytes;
use feature_store::codec::decode_keypoints;
use feature_store::codec::encode_bytes;
use feature_store::codec::encode_keypoints;
use feature_store::records::FeatureRow;
use feature_store::records::feature_from_row;
use feature_store::records::feature_to_row;
use feature_store::ImageFeature;

fn kp(x: f32, y: f32, size: f32, angle: f32) -> KeyPointData {
    KeyPointData {
        x_bits: x.to_bits(),
        y_bits: y.to_bits(),
        size_bits: size.to_bits(),
        angle_bits: angle.to_bits(),
    }
}

#[test]
fn round_trip_keypoints() {
    let kps = vec![kp(0.0, 0.0, 1.0, 0.0), kp(1.0, 1.0, 2.0, 45.0), kp(-3.5, 7.25, 0.5, 270.0)];
    let blob = encode_keypoints(&kps);
    let back = decode_keypoints(&blob).unwrap();
    assert_eq!(back, kps);
}

#[test]
fn round_trip_keypoints_empty() {
    let kps: Vec<KeyPointData> = vec![];
    let blob = encode_keypoints(&kps);
    assert_eq!(blob, vec![0u8; 8]);
    let back = decode_keypoints(&blob).unwrap();
    assert_eq!(back, kps);
}

#[test]
fn round_trip_descriptors() {
    let d: Vec<u8> = (0u8..10).collect();
    let blob = encode_bytes(&d);
    let back = decode_bytes(&blob).unwrap();
    assert_eq!(back, d);
}

#[test]
fn round_trip_descriptors_empty() {
    let d: Vec<u8> = vec![];
    let blob = encode_bytes(&d);
    assert_eq!(blob, vec![0u8; 8]);
    let back = decode_bytes(&blob).unwrap();
    assert_eq!(back, d);
}

#[test]
fn encode_bytes_exact_layout() {
    let d: Vec<u8> = vec![9, 8, 7];
    let blob = encode_bytes(&d);
    assert_eq!(blob, vec![3, 0, 0, 0, 0, 0, 0, 0, 9, 8, 7]);
}

#[test]
fn encode_keypoints_exact_layout() {
    let kps = vec![kp(1.0, 2.0, 3.0, 4.0)];
    let blob = encode_keypoints(&kps);
    let mut expected: Vec<u8> = vec![1, 0, 0, 0, 0, 0, 0, 0];
    expected.extend_from_slice(&1.0f32.to_bits().to_le_bytes());
    expected.extend_from_slice(&2.0f32.to_bits().to_le_bytes());
    expected.extend_from_slice(&3.0f32.to_bits().to_le_bytes());
    expected.extend_from_slice(&4.0f32.to_bits().to_le_bytes());
    assert_eq!(blob, expected);
}

#[test]
fn decode_bytes_rejects_short_input() {
    let blob: Vec<u8> = vec![1, 2, 3];
    assert_eq!(decode_bytes(&blob), Err(StoreError::DecodeError));
}

#[test]
fn decode_bytes_rejects_wrong_count() {
    let blob: Vec<u8> = vec![5, 0, 0, 0, 0, 0, 0, 0, 1, 2, 3];
    assert_eq!(decode_bytes(&blob), Err(StoreError::DecodeError));
}

#[test]
fn decode_keypoints_rejects_short_input() {
    let blob: Vec<u8> = vec![0, 0, 0];
    assert_eq!(decode_keypoints(&blob), Err(StoreError::DecodeError));
}

#[test]
fn decode_keypoints_rejects_ragged_payload() {
    let mut blob: Vec<u8> = vec![1, 0, 0, 0, 0, 0, 0, 0];
    blob.extend_from_slice(&[0u8; 10]);
    assert_eq!(decode_keypoints(&blob), Err(StoreError::DecodeError));
}

#[test]
fn feature_row_round_trip() {
    let f = ImageFeature {
        id: String::from("f-1"),
        keypoints: vec![kp(5.0, 6.0, 7.0, 8.0)],
        descriptors: vec![1, 2, 3, 4],
        motion_mean_bits: 0.25f64.to_bits(),
        motion_std_bits: 0.125f64.to_bits(),
        created_at_utc: String::from("2024-06-12T12:34:56Z"),
        img_filename: None,
        camera_id: String::from("cam-a"),
    };
    let row = feature_to_row(&f);
    let back = feature_from_row(row).unwrap();
    assert_eq!(back, f);
}

#[test]
fn feature_from_row_rejects_bad_blob() {
    let row = FeatureRow {
        id: String::from("f-1"),
        keypoints_blob: vec![1, 2, 3],
        descriptors_blob: vec![0, 0, 0, 0, 0, 0, 0, 0],
        motion_mean_bits: 0,
        motion_std_bits: 0,
        created_at_utc: String::from("2024-06-12T12:34:56Z"),
        img_filename: None,
        camera_id: String::from("cam-a"),
    };
    assert_eq!(feature_from_row(row), Err(StoreError::DecodeError));
}
