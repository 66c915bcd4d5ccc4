use feature_store::ImageDescription;
use feature_store::ImageFeature;
use feature_store::KeyPointData;
use feature_store::StoreError;
use feature_store::clear_test_db;
use feature_store::delete_image_feature;
use feature_store::get_image_feature;
use feature_store::image_description_table;
use feature_store::insert_image_description;
use feature_store::insert_image_feature;
use feature_store::reset_image_feature;
use feature_store::setup_database;

fn kp(x: f32, y: f32, size: f32, angle: f32) -> KeyPointData {
    KeyPointData {
        x_bits: x.to_bits(),
        y_bits: y.to_bits(),
        size_bits: size.to_bits(),
        angle_bits: angle.to_bits(),
    }
}

fn sample_feature(id: &str, camera_id: &str) -> ImageFeature {
    ImageFeature {
        id: String::from(id),
        keypoints: vec![kp(0.0, 0.0, 1.0, 0.0), kp(1.0, 1.0, 2.0, 45.0)],
        descriptors: (0u8..10).collect(),
        motion_mean_bits: 0.5f64.to_bits(),
        motion_std_bits: 0.1f64.to_bits(),
        created_at_utc: String::from("2024-06-12T12:34:56Z"),
        img_filename: Some(String::from("image_1.jpg")),
        camera_id: String::from(camera_id),
    }
}

/// Start every test from an empty target: drop both tables if present.
fn fresh_target(name: &str) -> String {
    let path = format!("/tmp/feature_store_test_{name}.db");
    let conn = rusqlite::Connection::open(&path).unwrap();
    conn.execute("DROP TABLE IF EXISTS image_features", ()).unwrap();
    conn.execute("DROP TABLE IF EXISTS image_description", ()).unwrap();
    path
}

fn count_rows(path: &str, camera_id: &str) -> i64 {
    let conn = rusqlite::Connection::open(path).unwrap();
    conn.query_row(
        "SELECT COUNT(*) FROM image_features WHERE camera_id = ?1",
        (camera_id,),
        |row| row.get(0),
    )
    .unwrap()
}

#[test]
fn schema_creation_is_idempotent() {
    let db = fresh_target("schema_idempotent");
    assert_eq!(setup_database(&db), Ok(()));
    assert_eq!(setup_database(&db), Ok(()));
    let f = sample_feature("1", "camera_1");
    assert_eq!(insert_image_feature(&f, &db), Ok(()));
    // A third creation call sees the table and leaves its rows alone.
    assert_eq!(setup_database(&db), Ok(()));
    assert_eq!(get_image_feature("camera_1", &db), Ok(Some(f)));
}

#[test]
fn duplicate_id_is_a_unique_violation() {
    let db = fresh_target("unique_violation");
    setup_database(&db).unwrap();
    let first = sample_feature("dup", "cam-a");
    let mut second = sample_feature("dup", "cam-b");
    second.descriptors = vec![42];
    assert_eq!(insert_image_feature(&first, &db), Ok(()));
    assert_eq!(insert_image_feature(&second, &db), Err(StoreError::UniqueViolation));
    // The first record is still there, unchanged.
    assert_eq!(get_image_feature("cam-a", &db), Ok(Some(first)));
    assert_eq!(get_image_feature("cam-b", &db), Ok(None));
}

#[test]
fn delete_removes_every_row_of_the_camera() {
    let db = fresh_target("delete_all");
    setup_database(&db).unwrap();
    insert_image_feature(&sample_feature("1", "cam-x"), &db).unwrap();
    insert_image_feature(&sample_feature("2", "cam-x"), &db).unwrap();
    insert_image_feature(&sample_feature("3", "cam-x"), &db).unwrap();
    insert_image_feature(&sample_feature("4", "cam-y"), &db).unwrap();
    assert_eq!(count_rows(&db, "cam-x"), 3);
    assert_eq!(delete_image_feature("cam-x", &db), Ok(()));
    assert_eq!(count_rows(&db, "cam-x"), 0);
    assert_eq!(get_image_feature("cam-x", &db), Ok(None));
    // Another camera's rows are untouched.
    assert_eq!(count_rows(&db, "cam-y"), 1);
}

#[test]
fn delete_of_absent_camera_succeeds() {
    let db = fresh_target("delete_absent");
    setup_database(&db).unwrap();
    assert_eq!(delete_image_feature("nobody", &db), Ok(()));
}

#[test]
fn replace_leaves_exactly_the_new_row() {
    let db = fresh_target("replace");
    setup_database(&db).unwrap();
    insert_image_feature(&sample_feature("old-1", "cam-1"), &db).unwrap();
    insert_image_feature(&sample_feature("old-2", "cam-1"), &db).unwrap();
    let mut new = sample_feature("new-1", "cam-1");
    new.descriptors = vec![7, 7, 7];
    assert_eq!(reset_image_feature("cam-1", &new, &db), Ok(()));
    assert_eq!(count_rows(&db, "cam-1"), 1);
    assert_eq!(get_image_feature("cam-1", &db), Ok(Some(new)));
}

#[test]
fn end_to_end_scenario() {
    let db = fresh_target("end_to_end");
    assert_eq!(setup_database(&db), Ok(()));
    let inserted = sample_feature("1", "camera_1");
    assert_eq!(insert_image_feature(&inserted, &db), Ok(()));
    let fetched = get_image_feature("camera_1", &db).unwrap().unwrap();
    assert_eq!(fetched, inserted);
    assert_eq!(fetched.keypoints, vec![kp(0.0, 0.0, 1.0, 0.0), kp(1.0, 1.0, 2.0, 45.0)]);
    assert_eq!(fetched.descriptors, (0u8..10).collect::<Vec<u8>>());
    assert_eq!(f64::from_bits(fetched.motion_mean_bits), 0.5);
    assert_eq!(f64::from_bits(fetched.motion_std_bits), 0.1);
    assert_eq!(fetched.created_at_utc, "2024-06-12T12:34:56Z");
    assert_eq!(fetched.img_filename, Some(String::from("image_1.jpg")));
    assert_eq!(fetched.camera_id, "camera_1");
}

#[test]
fn fetch_of_absent_camera_is_empty_not_an_error() {
    let db = fresh_target("absent");
    setup_database(&db).unwrap();
    assert_eq!(get_image_feature("no-such-camera", &db), Ok(None));
}

#[test]
fn description_insert_and_duplicate() {
    let db = fresh_target("description");
    assert_eq!(image_description_table(&db), Ok(()));
    let d = ImageDescription {
        image_name: String::from("test_image.jpg"),
        datetime: String::from("2024-06-12T12:34:56Z"),
        camera_id: String::from("camera_1"),
        anomaly: None,
    };
    assert_eq!(insert_image_description(&d, &db), Ok(()));
    let mut again = d.clone();
    again.anomaly = Some(String::from("smudge"));
    assert_eq!(insert_image_description(&again, &db), Err(StoreError::UniqueViolation));
}

#[test]
fn missing_table_is_storage_unavailable() {
    let db = fresh_target("missing_table");
    let f = sample_feature("1", "cam-a");
    assert_eq!(insert_image_feature(&f, &db), Err(StoreError::StorageUnavailable));
    assert_eq!(get_image_feature("cam-a", &db), Err(StoreError::StorageUnavailable));
}

#[test]
fn clear_test_db_drops_the_feature_table() {
    let db = fresh_target("clear");
    setup_database(&db).unwrap();
    insert_image_feature(&sample_feature("1", "cam-a"), &db).unwrap();
    assert_eq!(clear_test_db(&db), Ok(()));
    // The table is gone, so the repository reports the store unusable...
    assert_eq!(
        insert_image_feature(&sample_feature("1", "cam-a"), &db),
        Err(StoreError::StorageUnavailable)
    );
    // ...until it is created again, empty.
    assert_eq!(setup_database(&db), Ok(()));
    assert_eq!(get_image_feature("cam-a", &db), Ok(None));
    // Clearing twice in a row is fine: the drop is conditional.
    assert_eq!(clear_test_db(&db), Ok(()));
    assert_eq!(clear_test_db(&db), Ok(()));
}

#[test]
fn corrupt_blob_surfaces_as_decode_error() {
    let db = fresh_target("corrupt");
    setup_database(&db).unwrap();
    let conn = rusqlite::Connection::open(&db).unwrap();
    conn.execute(
        "INSERT INTO image_features (id, keypoints, descriptors, motion_mean, motion_std, created_at_utc, img_filename, camera_id)
        VALUES (?1, ?2, ?3, ?4, ?5, ?6, ?7, ?8)",
        (
            "bad",
            vec![1u8, 2, 3],
            vec![0u8; 8],
            vec![0u8; 8],
            vec![0u8; 8],
            "2024-06-12T12:34:56Z",
            Option::<String>::None,
            "cam-bad",
        ),
    )
    .unwrap();
    assert_eq!(get_image_feature("cam-bad", &db), Err(StoreError::DecodeError));
}

#[test]
fn descriptors_blob_is_reencoded_not_raw() {
    // The stored descriptor column holds the encoded form, not the raw
    // bytes: a raw 10-byte value in the column does not decode.
    let db = fresh_target("reencoded");
    setup_database(&db).unwrap();
    let conn = rusqlite::Connection::open(&db).unwrap();
    conn.execute(
        "INSERT INTO image_features (id, keypoints, descriptors, motion_mean, motion_std, created_at_utc, img_filename, camera_id)
        VALUES (?1, ?2, ?3, ?4, ?5, ?6, ?7, ?8)",
        (
            "raw",
            vec![0u8; 8],
            (0u8..10).collect::<Vec<u8>>(),
            vec![0u8; 8],
            vec![0u8; 8],
            "2024-06-12T12:34:56Z",
            Option::<String>::None,
            "cam-raw",
        ),
    )
    .unwrap();
    assert_eq!(get_image_feature("cam-raw", &db), Err(StoreError::DecodeError));
}
