//! The schema manager and the record repository.
//!
//! Every operation opens its own connection to the named storage target
//! (a database file); no handle is shared between calls.  The contents
//! of the two tables behind a connection are modelled as multisets of
//! rows — a multiset because the store promises no row order, and a
//! fetch returns an arbitrary matching row.
//!
//! The model speaks of one connection at a time.  Nothing coordinates
//! concurrent writers from other processes; a caller that races another
//! process sees file-level lock errors surfaced as `StorageUnavailable`.
//!
//! The motion statistics are bound to their `REAL` columns as 8-byte
//! little-endian blobs of their IEEE-754 bit patterns, so that they
//! round-trip exactly; nothing outside this library reads the columns.

use vstd::prelude::*;
use vstd::bytes::spec_u64_from_le_bytes;
use vstd::bytes::u64_from_le_bytes;
use vstd::bytes::u64_to_le_bytes;
use vstd::multiset::Multiset;
use vstd::slice::slice_subrange;

use crate::StoreError;
use crate::codec::decode_bytes_spec;
use crate::codec::decode_keypoints_spec;
use crate::codec::lemma_bytes_canonical;
use crate::codec::lemma_keypoints_canonical;
use crate::records::FeatureRow;
use crate::records::FeatureRowV;
use crate::records::ImageDescription;
use crate::records::ImageDescriptionV;
use crate::records::ImageFeature;
use crate::records::feature_from_row;
use crate::records::feature_to_row;
use crate::records::row_of_feature;

verus! {

broadcast use vstd::multiset::group_multiset_axioms;

#[verifier::external_type_specification]
#[verifier::external_body]
pub struct ExConnection(rusqlite::Connection);

#[verifier::external_type_specification]
#[verifier::external_body]
pub struct ExSqlError(rusqlite::Error);

#[verifier::external_type_specification]
#[verifier::external_body]
pub struct ExRow<'a>(rusqlite::Row<'a>);

/// What the `image_features` table behind a connection holds.
pub uninterp spec fn feature_rows(c: rusqlite::Connection) -> Multiset<FeatureRowV>;

/// Whether the `image_features` table exists behind a connection.
pub uninterp spec fn feature_table_ready(c: rusqlite::Connection) -> bool;

/// What the `image_description` table behind a connection holds.
pub uninterp spec fn description_rows(c: rusqlite::Connection) -> Multiset<ImageDescriptionV>;

/// Whether the `image_description` table exists behind a connection.
pub uninterp spec fn description_table_ready(c: rusqlite::Connection) -> bool;

/// The value of an 8-byte little-endian blob, 0 for any other length.
pub open spec fn le8_bits(s: Seq<u8>) -> u64 {
    if s.len() == 8 {
        spec_u64_from_le_bytes(s)
    } else {
        0
    }
}

/// Read a motion-statistics blob back into its bit pattern.
fn bits_of_le8(v: &Vec<u8>) -> (r: u64)
    ensures
        r == le8_bits(v@),
{
    if v.len() == 8 {
        let sl = slice_subrange(v.as_slice(), 0, 8);
        proof {
            assert(sl@ =~= v@);
        }
        u64_from_le_bytes(sl)
    } else {
        0
    }
}

/// Relies on `rusqlite::Connection::open`: opens the database file named
/// by `db_name`, creating it when absent, and fails only when the file
/// cannot be opened or created.  Nothing is promised of the tables the
/// file already holds: they are whatever is on disk.
#[verifier::external_body]
fn open_connection(db_name: &str) -> (r: Result<rusqlite::Connection, StoreError>)
    ensures
        r matches Err(e) ==> e == StoreError::StorageUnavailable,
{
    match rusqlite::Connection::open(db_name) {
        Ok(c) => Ok(c),
        Err(_) => Err(StoreError::StorageUnavailable),
    }
}

/// Relies on `rusqlite::Error::SqliteFailure` carrying the SQLite result
/// code: a constraint conflict (here only the primary key can conflict)
/// surfaces as `ErrorCode::ConstraintViolation`; every other failure is a
/// storage problem.
#[verifier::external_body]
fn err_kind(e: rusqlite::Error) -> (r: StoreError)
    ensures
        r == StoreError::UniqueViolation || r == StoreError::StorageUnavailable,
{
    match e {
        rusqlite::Error::SqliteFailure(f, _) => {
            if f.code == rusqlite::ErrorCode::ConstraintViolation {
                StoreError::UniqueViolation
            } else {
                StoreError::StorageUnavailable
            }
        },
        _ => StoreError::StorageUnavailable,
    }
}

/// Relies on `rusqlite::Connection::execute` with `CREATE TABLE IF NOT
/// EXISTS`: creates the feature table empty when it is absent, leaves it
/// untouched when it exists, and changes nothing on failure.
#[verifier::external_body]
fn create_feature_table_raw(conn: &mut rusqlite::Connection) -> (r: Result<(), StoreError>)
    ensures
        r is Ok ==> feature_table_ready(*final(conn)),
        r is Ok && feature_table_ready(*old(conn)) ==> feature_rows(*final(conn)) == feature_rows(
            *old(conn),
        ),
        r is Ok && !feature_table_ready(*old(conn)) ==> feature_rows(*final(conn))
            == Multiset::<FeatureRowV>::empty(),
        r matches Err(e) ==> e == StoreError::StorageUnavailable && feature_table_ready(
            *final(conn),
        ) == feature_table_ready(*old(conn)) && feature_rows(*final(conn)) == feature_rows(
            *old(conn),
        ),
        description_table_ready(*final(conn)) == description_table_ready(*old(conn)),
        description_rows(*final(conn)) == description_rows(*old(conn)),
{
    let sql = "CREATE TABLE IF NOT EXISTS image_features (id TEXT PRIMARY KEY, \
        keypoints BLOB, descriptors BLOB, motion_mean REAL, motion_std REAL, \
        created_at_utc TEXT NOT NULL, img_filename TEXT, camera_id TEXT NOT NULL)";
    match conn.execute(sql, ()) {
        Ok(_) => Ok(()),
        Err(_) => Err(StoreError::StorageUnavailable),
    }
}

/// Relies on `rusqlite::Connection::execute` with `CREATE TABLE IF NOT
/// EXISTS`: the same, for the description table.
#[verifier::external_body]
fn create_description_table_raw(conn: &mut rusqlite::Connection) -> (r: Result<(), StoreError>)
    ensures
        r is Ok ==> description_table_ready(*final(conn)),
        r is Ok && description_table_ready(*old(conn)) ==> description_rows(*final(conn))
            == description_rows(*old(conn)),
        r is Ok && !description_table_ready(*old(conn)) ==> description_rows(*final(conn))
            == Multiset::<ImageDescriptionV>::empty(),
        r matches Err(e) ==> e == StoreError::StorageUnavailable && description_table_ready(
            *final(conn),
        ) == description_table_ready(*old(conn)) && description_rows(*final(conn))
            == description_rows(*old(conn)),
        feature_table_ready(*final(conn)) == feature_table_ready(*old(conn)),
        feature_rows(*final(conn)) == feature_rows(*old(conn)),
{
    let sql = "CREATE TABLE IF NOT EXISTS image_description (image_name TEXT PRIMARY KEY, \
        datetime TEXT NOT NULL, camera_id TEXT NOT NULL, anomaly TEXT)";
    match conn.execute(sql, ()) {
        Ok(_) => Ok(()),
        Err(_) => Err(StoreError::StorageUnavailable),
    }
}

/// Relies on `rusqlite::Connection::execute` with a single `INSERT`
/// statement: on success the row is added; a primary-key conflict (an
/// existing row with the same `id`) fails the statement with a
/// constraint violation; a failed statement changes nothing.
#[verifier::external_body]
fn insert_feature_raw(conn: &mut rusqlite::Connection, row: &FeatureRow) -> (r: Result<
    (),
    StoreError,
>)
    ensures
        r is Ok ==> feature_rows(*final(conn)) == feature_rows(*old(conn)).insert(row@),
        r is Ok ==> forall|q: FeatureRowV| feature_rows(*old(conn)).contains(q) ==> q.id != row@.id,
        r matches Err(e) ==> (e == StoreError::UniqueViolation || e
            == StoreError::StorageUnavailable) && feature_rows(*final(conn)) == feature_rows(
            *old(conn),
        ),
        r matches Err(e) && e == StoreError::UniqueViolation ==> exists|q: FeatureRowV|
            feature_rows(*old(conn)).contains(q) && q.id == row@.id,
        feature_table_ready(*final(conn)) == feature_table_ready(*old(conn)),
        description_table_ready(*final(conn)) == description_table_ready(*old(conn)),
        description_rows(*final(conn)) == description_rows(*old(conn)),
{
    let sql = "INSERT INTO image_features (id, keypoints, descriptors, motion_mean, \
        motion_std, created_at_utc, img_filename, camera_id) \
        VALUES (?1, ?2, ?3, ?4, ?5, ?6, ?7, ?8)";
    let params = (&row.id, &row.keypoints_blob, &row.descriptors_blob,
        u64_to_le_bytes(row.motion_mean_bits), u64_to_le_bytes(row.motion_std_bits),
        &row.created_at_utc, &row.img_filename, &row.camera_id);
    match conn.execute(sql, params) {
        Ok(_) => Ok(()),
        Err(e) => Err(err_kind(e)),
    }
}

/// Relies on `rusqlite::Connection::execute` with a single `INSERT`
/// statement: the same, for the description table, keyed by
/// `image_name`.
#[verifier::external_body]
fn insert_description_raw(conn: &mut rusqlite::Connection, d: &ImageDescription) -> (r: Result<
    (),
    StoreError,
>)
    ensures
        r is Ok ==> description_rows(*final(conn)) == description_rows(*old(conn)).insert(d@),
        r is Ok ==> forall|q: ImageDescriptionV|
            description_rows(*old(conn)).contains(q) ==> q.image_name != d@.image_name,
        r matches Err(e) ==> (e == StoreError::UniqueViolation || e
            == StoreError::StorageUnavailable) && description_rows(*final(conn))
            == description_rows(*old(conn)),
        r matches Err(e) && e == StoreError::UniqueViolation ==> exists|q: ImageDescriptionV|
            description_rows(*old(conn)).contains(q) && q.image_name == d@.image_name,
        description_table_ready(*final(conn)) == description_table_ready(*old(conn)),
        feature_table_ready(*final(conn)) == feature_table_ready(*old(conn)),
        feature_rows(*final(conn)) == feature_rows(*old(conn)),
{
    let sql = "INSERT INTO image_description (image_name, datetime, camera_id, anomaly) \
        VALUES (?1, ?2, ?3, ?4)";
    match conn.execute(sql, (&d.image_name, &d.datetime, &d.camera_id, &d.anomaly)) {
        Ok(_) => Ok(()),
        Err(e) => Err(err_kind(e)),
    }
}

/// Relies on `rusqlite::Connection::execute` with a single `DELETE`
/// statement: on success exactly the rows whose `camera_id` matches are
/// gone; a failed statement changes nothing.
#[verifier::external_body]
fn delete_features_raw(conn: &mut rusqlite::Connection, camera_id: &str) -> (r: Result<
    (),
    StoreError,
>)
    ensures
        r is Ok ==> feature_rows(*final(conn)) == feature_rows(*old(conn)).filter(
            |q: FeatureRowV| q.camera_id != camera_id@,
        ),
        r matches Err(e) ==> e == StoreError::StorageUnavailable && feature_rows(*final(conn))
            == feature_rows(*old(conn)),
        feature_table_ready(*final(conn)) == feature_table_ready(*old(conn)),
        description_table_ready(*final(conn)) == description_table_ready(*old(conn)),
        description_rows(*final(conn)) == description_rows(*old(conn)),
{
    match conn.execute("DELETE FROM image_features WHERE camera_id = ?1", (camera_id,)) {
        Ok(_) => Ok(()),
        Err(_) => Err(StoreError::StorageUnavailable),
    }
}

/// Relies on `rusqlite::Connection::execute` with `DROP TABLE IF
/// EXISTS`: on success the feature table is gone, whether or not it
/// existed; a failed statement changes nothing.
#[verifier::external_body]
fn drop_feature_table_raw(conn: &mut rusqlite::Connection) -> (r: Result<(), StoreError>)
    ensures
        r is Ok ==> !feature_table_ready(*final(conn)) && feature_rows(*final(conn))
            == Multiset::<FeatureRowV>::empty(),
        r matches Err(e) ==> e == StoreError::StorageUnavailable && feature_table_ready(
            *final(conn),
        ) == feature_table_ready(*old(conn)) && feature_rows(*final(conn)) == feature_rows(
            *old(conn),
        ),
        description_table_ready(*final(conn)) == description_table_ready(*old(conn)),
        description_rows(*final(conn)) == description_rows(*old(conn)),
{
    match conn.execute("DROP TABLE IF EXISTS image_features", ()) {
        Ok(_) => Ok(()),
        Err(_) => Err(StoreError::StorageUnavailable),
    }
}

/// Relies on `rusqlite::Row::get` for each column: `TEXT` columns read
/// as `String`, `BLOB` columns as `Vec<u8>`, the nullable `TEXT` column
/// as `Option<String>`, and the motion statistics as 8-byte blobs of
/// their bit patterns.
#[verifier::external_body]
fn read_feature_row(row: &rusqlite::Row<'_>) -> (r: Result<FeatureRow, rusqlite::Error>) {
    Ok(FeatureRow {
        id: row.get(0)?,
        keypoints_blob: row.get(1)?,
        descriptors_blob: row.get(2)?,
        motion_mean_bits: bits_of_le8(&row.get::<usize, Vec<u8>>(3)?),
        motion_std_bits: bits_of_le8(&row.get::<usize, Vec<u8>>(4)?),
        created_at_utc: row.get(5)?,
        img_filename: row.get(6)?,
        camera_id: row.get(7)?,
    })
}

/// Relies on `rusqlite::Connection::query_row`: it hands the first row
/// of the result set (in no promised order) to the reading closure and
/// returns `QueryReturnedNoRows` exactly when the result set is empty,
/// so `Ok(None)` means no row matches and `Ok(Some(row))` is a stored
/// row with the asked-for `camera_id`.
#[verifier::external_body]
fn query_feature_raw(conn: &rusqlite::Connection, camera_id: &str) -> (r: Result<
    Option<FeatureRow>,
    StoreError,
>)
    ensures
        r matches Ok(Some(row)) ==> feature_rows(*conn).contains(row@) && row@.camera_id
            == camera_id@,
        r matches Ok(None) ==> forall|q: FeatureRowV|
            feature_rows(*conn).contains(q) ==> q.camera_id != camera_id@,
        r matches Err(e) ==> e == StoreError::StorageUnavailable,
{
    let sql = "SELECT id, keypoints, descriptors, motion_mean, motion_std, \
        created_at_utc, img_filename, camera_id FROM image_features WHERE camera_id = ?1";
    match conn.query_row(sql, (camera_id,), |row| read_feature_row(row)) {
        Ok(row) => Ok(Some(row)),
        Err(rusqlite::Error::QueryReturnedNoRows) => Ok(None),
        Err(_) => Err(StoreError::StorageUnavailable),
    }
}

/// One open connection to a storage target, with the table contents it
/// sees modelled as multisets of rows.
pub struct Store {
    conn: rusqlite::Connection,
}

impl Store {
    /// The feature rows behind this store.
    pub closed spec fn features(self) -> Multiset<FeatureRowV> {
        feature_rows(self.conn)
    }

    /// Whether the feature table exists behind this store.
    pub closed spec fn feature_ready(self) -> bool {
        feature_table_ready(self.conn)
    }

    /// The description rows behind this store.
    pub closed spec fn descriptions(self) -> Multiset<ImageDescriptionV> {
        description_rows(self.conn)
    }

    /// Whether the description table exists behind this store.
    pub closed spec fn description_ready(self) -> bool {
        description_table_ready(self.conn)
    }

    /// Open a store on the named target, creating the file when absent.
    /// Its tables hold whatever is on disk.
    pub fn open(db_name: &str) -> (r: Result<Store, StoreError>)
        ensures
            r matches Err(e) ==> e == StoreError::StorageUnavailable,
    {
        match open_connection(db_name) {
            Ok(conn) => Ok(Store { conn }),
            Err(e) => Err(e),
        }
    }

    /// Idempotently create the feature table: absent, it is created
    /// empty; present, it and its rows are left exactly as they are.
    pub fn ensure_feature_table(&mut self) -> (r: Result<(), StoreError>)
        ensures
            r is Ok ==> final(self).feature_ready(),
            r is Ok && old(self).feature_ready() ==> final(self).features() == old(self).features(),
            r is Ok && !old(self).feature_ready() ==> final(self).features()
                == Multiset::<FeatureRowV>::empty(),
            r matches Err(e) ==> e == StoreError::StorageUnavailable && final(self).feature_ready()
                == old(self).feature_ready() && final(self).features() == old(self).features(),
            final(self).description_ready() == old(self).description_ready(),
            final(self).descriptions() == old(self).descriptions(),
    {
        create_feature_table_raw(&mut self.conn)
    }

    /// Idempotently create the description table; the same contract,
    /// for the other table.
    pub fn ensure_description_table(&mut self) -> (r: Result<(), StoreError>)
        ensures
            r is Ok ==> final(self).description_ready(),
            r is Ok && old(self).description_ready() ==> final(self).descriptions() == old(self).descriptions(),
            r is Ok && !old(self).description_ready() ==> final(self).descriptions()
                == Multiset::<ImageDescriptionV>::empty(),
            r matches Err(e) ==> e == StoreError::StorageUnavailable && final(self).description_ready() == old(self).description_ready() && final(self).descriptions()
                == old(self).descriptions(),
            final(self).feature_ready() == old(self).feature_ready(),
            final(self).features() == old(self).features(),
    {
        create_description_table_raw(&mut self.conn)
    }

    /// Insert one feature record.  Both payloads are encoded first; on
    /// success exactly the encoded row is added, and a `UniqueViolation`
    /// means a row with the same `id` was already present and nothing
    /// was written.
    pub fn insert_feature(&mut self, f: &ImageFeature) -> (r: Result<(), StoreError>)
        ensures
            r is Ok ==> final(self).features() == old(self).features().insert(row_of_feature(f@)),
            r is Ok ==> forall|q: FeatureRowV| old(self).features().contains(q) ==> q.id != f@.id,
            r matches Err(e) ==> (e == StoreError::UniqueViolation || e
                == StoreError::StorageUnavailable) && final(self).features() == old(self).features(),
            r == Err::<(), StoreError>(StoreError::UniqueViolation) ==> exists|q: FeatureRowV|
                old(self).features().contains(q) && q.id == f@.id,
            final(self).feature_ready() == old(self).feature_ready(),
            final(self).description_ready() == old(self).description_ready(),
            final(self).descriptions() == old(self).descriptions(),
    {
        let row = feature_to_row(f);
        let res = insert_feature_raw(&mut self.conn, &row);
        proof {
            if res == Err::<(), StoreError>(StoreError::UniqueViolation) {
                let q = choose|q: FeatureRowV|
                    feature_rows(old(self).conn).contains(q) && q.id == row@.id;
                assert(old(self).features().contains(q) && q.id == f@.id);
            }
        }
        res
    }

    /// Insert one description record; a `UniqueViolation` means a row
    /// with the same `image_name` was already present.
    pub fn insert_description(&mut self, d: &ImageDescription) -> (r: Result<(), StoreError>)
        ensures
            r is Ok ==> final(self).descriptions() == old(self).descriptions().insert(d@),
            r is Ok ==> forall|q: ImageDescriptionV|
                old(self).descriptions().contains(q) ==> q.image_name != d@.image_name,
            r matches Err(e) ==> (e == StoreError::UniqueViolation || e
                == StoreError::StorageUnavailable) && final(self).descriptions() == old(self).descriptions(),
            r == Err::<(), StoreError>(StoreError::UniqueViolation) ==> exists|
                q: ImageDescriptionV,
            | old(self).descriptions().contains(q) && q.image_name == d@.image_name,
            final(self).description_ready() == old(self).description_ready(),
            final(self).feature_ready() == old(self).feature_ready(),
            final(self).features() == old(self).features(),
    {
        let res = insert_description_raw(&mut self.conn, d);
        proof {
            if res == Err::<(), StoreError>(StoreError::UniqueViolation) {
                let q = choose|q: ImageDescriptionV|
                    description_rows(old(self).conn).contains(q) && q.image_name == d@.image_name;
                assert(old(self).descriptions().contains(q) && q.image_name == d@.image_name);
            }
        }
        res
    }

    /// Remove every feature row of one camera; removing none is a
    /// success too.
    pub fn delete_features_by_camera(&mut self, camera_id: &str) -> (r: Result<(), StoreError>)
        ensures
            r is Ok ==> final(self).features() == old(self).features().filter(
                |q: FeatureRowV| q.camera_id != camera_id@,
            ),
            r matches Err(e) ==> e == StoreError::StorageUnavailable && final(self).features()
                == old(self).features(),
            final(self).feature_ready() == old(self).feature_ready(),
            final(self).description_ready() == old(self).description_ready(),
            final(self).descriptions() == old(self).descriptions(),
    {
        delete_features_raw(&mut self.conn, camera_id)
    }

    /// Replace a camera's rows: delete them all, then insert the new
    /// record, as two independent statements with no surrounding
    /// transaction.  When the insert fails, the camera's prior rows are
    /// already gone — the middle case of the error postcondition keeps
    /// that window visible to callers.
    pub fn replace_features_by_camera(&mut self, camera_id: &str, f: &ImageFeature) -> (r: Result<
        (),
        StoreError,
    >)
        ensures
            r is Ok ==> final(self).features() == old(self).features().filter(
                |q: FeatureRowV| q.camera_id != camera_id@,
            ).insert(row_of_feature(f@)),
            r is Err ==> final(self).features() == old(self).features() || final(self).features()
                == old(self).features().filter(|q: FeatureRowV| q.camera_id != camera_id@),
            r matches Err(e) ==> e == StoreError::UniqueViolation || e
                == StoreError::StorageUnavailable,
            final(self).feature_ready() == old(self).feature_ready(),
            final(self).description_ready() == old(self).description_ready(),
            final(self).descriptions() == old(self).descriptions(),
    {
        let deleted = self.delete_features_by_camera(camera_id);
        if let Err(e) = deleted {
            return Err(e);
        }
        self.insert_feature(f)
    }

    /// Fetch one feature record of a camera — an arbitrary matching row,
    /// decoded; `None` exactly when the camera has no rows.  A stored
    /// row whose payloads do not decode surfaces as `DecodeError`, never
    /// as a corrupt record.
    pub fn get_feature_by_camera(&self, camera_id: &str) -> (r: Result<
        Option<ImageFeature>,
        StoreError,
    >)
        ensures
            r matches Ok(Some(f)) ==> self.features().contains(row_of_feature(f@)) && f@.camera_id
                == camera_id@,
            r matches Ok(None) ==> forall|q: FeatureRowV|
                self.features().contains(q) ==> q.camera_id != camera_id@,
            r matches Err(e) ==> e == StoreError::StorageUnavailable || e == StoreError::DecodeError,
            r == Err::<Option<ImageFeature>, StoreError>(StoreError::DecodeError) ==> exists|
                q: FeatureRowV,
            |
                self.features().contains(q) && q.camera_id == camera_id@ && (decode_keypoints_spec(
                    q.keypoints_blob,
                ) is None || decode_bytes_spec(q.descriptors_blob) is None),
    {
        let found = match query_feature_raw(&self.conn, camera_id) {
            Ok(found) => found,
            Err(e) => {
                return Err(e);
            },
        };
        let row = match found {
            Some(row) => row,
            None => {
                return Ok(None);
            },
        };
        let ghost row_v = row@;
        match feature_from_row(row) {
            Ok(f) => {
                proof {
                    lemma_keypoints_canonical(row_v.keypoints_blob, f@.keypoints);
                    lemma_bytes_canonical(row_v.descriptors_blob, f@.descriptors);
                    assert(row_of_feature(f@) =~= row_v);
                }
                Ok(Some(f))
            },
            Err(e) => {
                proof {
                    assert(self.features().contains(row_v) && row_v.camera_id == camera_id@ && (
                    decode_keypoints_spec(row_v.keypoints_blob) is None || decode_bytes_spec(
                        row_v.descriptors_blob,
                    ) is None));
                }
                Err(e)
            },
        }
    }

    /// Drop the feature table, whether or not it exists.
    pub fn drop_feature_table(&mut self) -> (r: Result<(), StoreError>)
        ensures
            r is Ok ==> !final(self).feature_ready() && final(self).features()
                == Multiset::<FeatureRowV>::empty(),
            r matches Err(e) ==> e == StoreError::StorageUnavailable && final(self).feature_ready()
                == old(self).feature_ready() && final(self).features() == old(self).features(),
            final(self).description_ready() == old(self).description_ready(),
            final(self).descriptions() == old(self).descriptions(),
    {
        drop_feature_table_raw(&mut self.conn)
    }
}

/// Idempotently create the feature table on the named target.
pub fn setup_database(db_name: &str) -> (r: Result<(), StoreError>)
    ensures
        r matches Err(e) ==> e == StoreError::StorageUnavailable,
{
    let mut store = match Store::open(db_name) {
        Ok(store) => store,
        Err(e) => {
            return Err(e);
        },
    };
    store.ensure_feature_table()
}

/// Idempotently create the description table on the named target.
pub fn image_description_table(db_name: &str) -> (r: Result<(), StoreError>)
    ensures
        r matches Err(e) ==> e == StoreError::StorageUnavailable,
{
    let mut store = match Store::open(db_name) {
        Ok(store) => store,
        Err(e) => {
            return Err(e);
        },
    };
    store.ensure_description_table()
}

/// Insert one description record on the named target.
pub fn insert_image_description(d: &ImageDescription, db_name: &str) -> (r: Result<(), StoreError>)
    ensures
        r matches Err(e) ==> e == StoreError::UniqueViolation || e
            == StoreError::StorageUnavailable,
{
    let mut store = match Store::open(db_name) {
        Ok(store) => store,
        Err(e) => {
            return Err(e);
        },
    };
    store.insert_description(d)
}

/// Drop the feature table on the named target, clearing a test database.
pub fn clear_test_db(db_name: &str) -> (r: Result<(), StoreError>)
    ensures
        r matches Err(e) ==> e == StoreError::StorageUnavailable,
{
    let mut store = match Store::open(db_name) {
        Ok(store) => store,
        Err(e) => {
            return Err(e);
        },
    };
    store.drop_feature_table()
}

/// Insert one feature record on the named target.
pub fn insert_image_feature(f: &ImageFeature, db_name: &str) -> (r: Result<(), StoreError>)
    ensures
        r matches Err(e) ==> e == StoreError::UniqueViolation || e
            == StoreError::StorageUnavailable,
{
    let mut store = match Store::open(db_name) {
        Ok(store) => store,
        Err(e) => {
            return Err(e);
        },
    };
    store.insert_feature(f)
}

/// Remove every feature row of one camera on the named target.
pub fn delete_image_feature(camera_id: &str, db_name: &str) -> (r: Result<(), StoreError>)
    ensures
        r matches Err(e) ==> e == StoreError::StorageUnavailable,
{
    let mut store = match Store::open(db_name) {
        Ok(store) => store,
        Err(e) => {
            return Err(e);
        },
    };
    store.delete_features_by_camera(camera_id)
}

/// Replace a camera's rows on the named target: delete them all, then
/// insert the new record.  The two steps open independent connections
/// with no surrounding transaction, so a failure in between leaves the
/// camera without rows — the same window the two-step contract of
/// `Store::replace_features_by_camera` describes.
pub fn reset_image_feature(camera_id: &str, f: &ImageFeature, db_name: &str) -> (r: Result<
    (),
    StoreError,
>)
    ensures
        r matches Err(e) ==> e == StoreError::UniqueViolation || e
            == StoreError::StorageUnavailable,
{
    let deleted = delete_image_feature(camera_id, db_name);
    if let Err(e) = deleted {
        return Err(e);
    }
    insert_image_feature(f, db_name)
}

/// Fetch one feature record of a camera from the named target, `None`
/// when the camera has no rows.
pub fn get_image_feature(camera_id: &str, db_name: &str) -> (r: Result<
    Option<ImageFeature>,
    StoreError,
>)
    ensures
        r matches Ok(Some(f)) ==> f@.camera_id == camera_id@,
        r matches Err(e) ==> e == StoreError::StorageUnavailable || e == StoreError::DecodeError,
{
    let store = match Store::open(db_name) {
        Ok(store) => store,
        Err(e) => {
            return Err(e);
        },
    };
    store.get_feature_by_camera(camera_id)
}

/// Delete-all-by-camera, stated generally: after a successful delete of
/// a camera's rows, no row of that camera is left, whatever the store
/// held before.
pub proof fn lemma_delete_removes_camera(
    rows: Multiset<FeatureRowV>,
    cam: Seq<char>,
    q: FeatureRowV,
)
    requires
        q.camera_id == cam,
    ensures
        rows.filter(|p: FeatureRowV| p.camera_id != cam).count(q) == 0,
{
}

/// Replace semantics, stated generally: a successful replace leaves
/// exactly one row for the replaced camera — the new one, once — and
/// rows of other cameras are untouched.
pub proof fn lemma_replace_leaves_one(
    rows: Multiset<FeatureRowV>,
    cam: Seq<char>,
    new_row: FeatureRowV,
    q: FeatureRowV,
)
    requires
        new_row.camera_id == cam,
    ensures
        q.camera_id == cam ==> rows.filter(|p: FeatureRowV| p.camera_id != cam).insert(
            new_row,
        ).count(q) == (if q == new_row {
            1nat
        } else {
            0nat
        }),
        q.camera_id != cam ==> rows.filter(|p: FeatureRowV| p.camera_id != cam).insert(
            new_row,
        ).count(q) == rows.count(q),
{
    let filtered = rows.filter(|p: FeatureRowV| p.camera_id != cam);
    assert(filtered.insert(new_row).count(new_row) == filtered.count(new_row) + 1);
    assert(filtered.count(new_row) == 0);
    if q != new_row {
        assert(filtered.insert(new_row).count(q) == filtered.count(q));
    }
}

} // verus!
