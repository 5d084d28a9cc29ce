//! Association records between users and cameras, the store that holds
//! them, and the check that admits a user to a camera.

use vstd::prelude::*;
use crate::api_error::{ApiError, Status};
use crate::camera::{camera_views, lists_camera, Camera, CameraView};
use crate::ident::{uuid_parse_str, Uuid};
use crate::join_table::{has_camera_id, join, lemma_join_empty, lemma_join_push, JoinTable};
use crate::user_tokens::UserToken;

verus! {

/// An association record: the user may reach the camera.
#[derive(Clone, Copy, Debug, PartialEq, Eq, Structural)]
pub struct UsersCamera {
    pub users_cameras_id: i32,
    pub camera_id: Uuid,
    pub user_id: Uuid,
}

/// A pair to insert: the store assigns the record's identifier.
#[derive(Clone, Copy, Debug, PartialEq, Eq, Structural)]
pub struct InsertableUsersCamera {
    pub camera_id: Uuid,
    pub user_id: Uuid,
}

/// Why the store could not do what was asked.
#[derive(Clone, Copy, Debug, PartialEq, Eq, Structural)]
pub enum StoreError {
    /// No record has the identifier that was asked for.
    NotFound,
    /// The store failed; on insert, no identifier is left to assign.
    DatabaseError,
}

/// The store: association records and the cameras they are joined against.
pub struct Store {
    rows: Vec<UsersCamera>,
    cameras: Vec<Camera>,
    next_id: i64,
}

impl View for Store {
    type V = JoinTable;

    closed spec fn view(&self) -> JoinTable {
        JoinTable {
            rows: self.rows@,
            cameras: camera_views(self.cameras@),
            next_id: self.next_id as int,
        }
    }
}

impl Store {
    /// Every store is a well-formed join table.
    #[verifier::type_invariant]
    pub open spec fn inv(&self) -> bool {
        self@.wf()
    }

    /// A store without association records, over the given cameras. The
    /// first record that is inserted gets the identifier 1.
    pub fn new(cameras: Vec<Camera>) -> (store: Store)
        ensures
            store@ == JoinTable::empty(camera_views(cameras@), 1),
    {
        Store { rows: Vec::new(), cameras, next_id: 1 }
    }

    /// A store without association records, over the given cameras, whose
    /// identifiers start at `first_id`.
    pub fn starting_at(cameras: Vec<Camera>, first_id: i32) -> (store: Store)
        ensures
            store@ == JoinTable::empty(camera_views(cameras@), first_id as int),
    {
        Store { rows: Vec::new(), cameras, next_id: first_id as i64 }
    }
}

/// Every association record, in storage order.
pub fn all(connection: &Store) -> (found: Result<Vec<UsersCamera>, StoreError>)
    ensures
        connection@.wf(),
        found matches Ok(records) && records@ == connection@.rows,
{
    proof {
        use_type_invariant(connection);
    }
    Ok(connection.rows.clone())
}

/// Where the record with the identifier is stored, if there is one.
fn find_row(connection: &Store, users_cameras_id: i32) -> (at: Option<usize>)
    ensures
        connection@.wf(),
        match at {
            Some(i) => connection@.has_id(users_cameras_id) && i == connection@.position(
                users_cameras_id,
            ) && i < connection@.rows.len(),
            None => !connection@.has_id(users_cameras_id),
        },
{
    proof {
        use_type_invariant(connection);
    }
    let mut i: usize = 0;
    while i < connection.rows.len()
        invariant
            i <= connection.rows.len(),
            connection@.wf(),
            connection@.rows == connection.rows@,
            forall|k: int| 0 <= k < i ==> (#[trigger] connection.rows@[k]).users_cameras_id
                != users_cameras_id,
        decreases connection.rows.len() - i,
    {
        if connection.rows[i].users_cameras_id == users_cameras_id {
            return Some(i);
        }
        i += 1;
    }
    None
}

/// Puts `rows` in the place of the store's records and hands out those
/// that were there. The records change outside the store, so that no call
/// that might unwind sees a store between two states.
fn exchange_rows(connection: &mut Store, rows: Vec<UsersCamera>) -> (previous: Vec<UsersCamera>)
    requires
        (JoinTable {
            rows: rows@,
            cameras: old(connection)@.cameras,
            next_id: old(connection)@.next_id,
        }).wf(),
    ensures
        previous@ == old(connection)@.rows,
        final(connection)@ == (JoinTable {
            rows: rows@,
            cameras: old(connection)@.cameras,
            next_id: old(connection)@.next_id,
        }),
{
    let mut rows = rows;
    core::mem::swap(&mut connection.rows, &mut rows);
    rows
}

/// The record with the identifier; `NotFound` where there is none.
pub fn get(users_cameras_id: i32, connection: &Store) -> (found: Result<UsersCamera, StoreError>)
    ensures
        connection@.wf(),
        found == match connection@.lookup(users_cameras_id) {
            Some(record) => Ok::<UsersCamera, StoreError>(record),
            None => Err::<UsersCamera, StoreError>(StoreError::NotFound),
        },
{
    match find_row(connection, users_cameras_id) {
        Some(i) => Ok(connection.rows[i]),
        None => Err(StoreError::NotFound),
    }
}

/// Stores a new record for the pair and returns it with the identifier that
/// it was given. Pairs are not compared with those already stored. Fails,
/// and changes nothing, only where no identifier is left.
pub fn insert(users_camera: InsertableUsersCamera, connection: &mut Store) -> (created: Result<
    UsersCamera,
    StoreError,
>)
    ensures
        old(connection)@.wf(),
        final(connection)@.wf(),
        old(connection)@.can_insert() ==> created == Ok::<UsersCamera, StoreError>(
            old(connection)@.fresh(users_camera),
        ) && final(connection)@ == old(connection)@.inserted(users_camera),
        !old(connection)@.can_insert() ==> created == Err::<UsersCamera, StoreError>(
            StoreError::DatabaseError,
        ) && final(connection)@ == old(connection)@,
{
    proof {
        use_type_invariant(&*connection);
    }
    if connection.next_id > i32::MAX as i64 {
        return Err(StoreError::DatabaseError);
    }
    let record = UsersCamera {
        users_cameras_id: connection.next_id as i32,
        camera_id: users_camera.camera_id,
        user_id: users_camera.user_id,
    };
    let mut rows = exchange_rows(connection, Vec::new());
    connection.next_id = connection.next_id + 1;
    rows.push(record);
    exchange_rows(connection, rows);
    Ok(record)
}

/// Replaces the camera and the user of the record with the identifier by
/// those of `users_camera`, and returns the record as it then stands. The
/// record keeps its identifier. `NotFound`, and no change, where there is no
/// such record.
pub fn update(users_cameras_id: i32, users_camera: UsersCamera, connection: &mut Store) -> (changed:
    Result<UsersCamera, StoreError>)
    ensures
        old(connection)@.wf(),
        final(connection)@.wf(),
        final(connection)@ == old(connection)@.updated(users_cameras_id, users_camera),
        changed == if old(connection)@.has_id(users_cameras_id) {
            Ok::<UsersCamera, StoreError>(JoinTable::replacement(users_cameras_id, users_camera))
        } else {
            Err::<UsersCamera, StoreError>(StoreError::NotFound)
        },
{
    match find_row(connection, users_cameras_id) {
        Some(i) => {
            let record = UsersCamera {
                users_cameras_id,
                camera_id: users_camera.camera_id,
                user_id: users_camera.user_id,
            };
            let mut rows = exchange_rows(connection, Vec::new());
            rows.set(i, record);
            exchange_rows(connection, rows);
            Ok(record)
        },
        None => Err(StoreError::NotFound),
    }
}

/// Removes the record with the identifier and returns how many records
/// went: 1, or 0 where there was none, which is no error.
pub fn delete(users_cameras_id: i32, connection: &mut Store) -> (removed: Result<usize, StoreError>)
    ensures
        old(connection)@.wf(),
        final(connection)@.wf(),
        final(connection)@ == old(connection)@.deleted(users_cameras_id),
        removed == Ok::<usize, StoreError>(
            if old(connection)@.has_id(users_cameras_id) {
                1usize
            } else {
                0usize
            },
        ),
{
    match find_row(connection, users_cameras_id) {
        Some(i) => {
            let mut rows = exchange_rows(connection, Vec::new());
            rows.remove(i);
            exchange_rows(connection, rows);
            Ok(1)
        },
        None => Ok(0),
    }
}

/// The cameras that the user may reach: the inner join of the user's
/// association records with the cameras. Empty, and no error, where the user
/// has no record.
pub fn get_users_cameras(user_id: Uuid, connection: &Store) -> (found: Result<
    Vec<Camera>,
    StoreError,
>)
    ensures
        connection@.wf(),
        found matches Ok(cameras) && camera_views(cameras@) == connection@.cameras_for_user(
            user_id,
        ),
{
    proof {
        use_type_invariant(connection);
        lemma_join_empty(connection@.cameras, user_id);
    }
    let mut out: Vec<Camera> = Vec::new();
    let mut i: usize = 0;
    while i < connection.rows.len()
        invariant
            i <= connection.rows.len(),
            camera_views(out@) == join(connection.rows@.take(i as int), connection@.cameras, user_id),
        decreases connection.rows.len() - i,
    {
        let row = connection.rows[i];
        proof {
            assert(connection.rows@.take(i + 1) =~= connection.rows@.take(i as int).push(row));
            lemma_join_push(connection.rows@.take(i as int), row, connection@.cameras, user_id);
        }
        if row.user_id == user_id {
            let ghost before = camera_views(out@);
            let ghost wanted = has_camera_id(row.camera_id);
            proof {
                reveal(Seq::filter);
            }
            let mut j: usize = 0;
            while j < connection.cameras.len()
                invariant
                    j <= connection.cameras.len(),
                    connection@.cameras == camera_views(connection.cameras@),
                    wanted == has_camera_id(row.camera_id),
                    camera_views(out@) == before + connection@.cameras.take(j as int).filter(
                        wanted,
                    ),
                decreases connection.cameras.len() - j,
            {
                let ghost seen = connection@.cameras.take(j as int);
                let ghost view = connection.cameras@[j as int]@;
                proof {
                    assert(connection@.cameras.take(j + 1) =~= seen.push(view));
                    seen.lemma_filter_push(view, wanted);
                }
                if connection.cameras[j].camera_id == row.camera_id {
                    let camera = connection.cameras[j].clone();
                    let ghost earlier = camera_views(out@);
                    out.push(camera);
                    assert(earlier.push(view) =~= before + seen.filter(wanted).push(view));
                }
                j += 1;
            }
            assert(connection@.cameras.take(j as int) =~= connection@.cameras);
        }
        i += 1;
    }
    assert(connection.rows@.take(i as int) =~= connection.rows@);
    Ok(out)
}

/// Whether a camera with the given identifier is in the list.
pub fn has_camera(cameras: &Vec<Camera>, camera_id: Uuid) -> (found: bool)
    ensures
        found == lists_camera(camera_views(cameras@), camera_id),
{
    let mut i: usize = 0;
    while i < cameras.len()
        invariant
            i <= cameras.len(),
            forall|k: int|
                0 <= k < i ==> (#[trigger] camera_views(cameras@)[k]).camera_id != camera_id,
        decreases cameras.len() - i,
    {
        if cameras[i].camera_id == camera_id {
            assert(camera_views(cameras@)[i as int].camera_id == camera_id);
            return true;
        }
        i += 1;
    }
    false
}

/// The camera identifier that a text stands for, or the error for a text
/// that is none.
pub fn camera_id_or_error(parsed: Option<Uuid>) -> (checked: Result<Uuid, ApiError>)
    ensures
        match parsed {
            Some(camera_id) => checked == Ok::<Uuid, ApiError>(camera_id),
            None => checked matches Err(e) && e.says(
                "Failed to parse camera ID string",
                Status::UnprocessableEntity,
            ),
        },
{
    match parsed {
        Some(camera_id) => Ok(camera_id),
        None => Err(
            ApiError {
                error: "Failed to parse camera ID string",
                status: Status::UnprocessableEntity,
            },
        ),
    }
}

/// Reads the camera identifier from the text that a caller sent.
pub fn parse_camera_id(camera_id_string: &String) -> (checked: Result<Uuid, ApiError>)
    ensures
        match uuid_parse_str(camera_id_string@) {
            Some(value) => checked == Ok::<Uuid, ApiError>(Uuid { value }),
            None => checked matches Err(e) && e.says(
                "Failed to parse camera ID string",
                Status::UnprocessableEntity,
            ),
        },
{
    camera_id_or_error(Uuid::parse_str(camera_id_string.as_str()))
}

/// Decides on access from what the store answered when asked for the
/// user's cameras: an internal error where the store failed, no access where
/// the camera is not among them.
pub fn authorize(camera_id: Uuid, owned: Result<Vec<Camera>, StoreError>) -> (verdict: Result<
    (),
    ApiError,
>)
    ensures
        match owned {
            Err(_) => verdict matches Err(e) && e.says(
                "Failed to get list of owned cameras",
                Status::InternalServerError,
            ),
            Ok(cameras) => if lists_camera(camera_views(cameras@), camera_id) {
                verdict is Ok
            } else {
                verdict matches Err(e) && e.says(
                    "User does not have access to camera",
                    Status::Unauthorized,
                )
            },
        },
{
    match owned {
        Err(_) => Err(
            ApiError {
                error: "Failed to get list of owned cameras",
                status: Status::InternalServerError,
            },
        ),
        Ok(cameras) => {
            if has_camera(&cameras, camera_id) {
                Ok(())
            } else {
                Err(
                    ApiError {
                        error: "User does not have access to camera",
                        status: Status::Unauthorized,
                    },
                )
            }
        },
    }
}

/// Checks whether the user of the token may reach the camera that the text
/// names. `Ok` where the user may; otherwise the error to answer with: the
/// text is no identifier, or the user has no access to that camera.
pub fn check_if_user_has_access_to_camera(
    conn: &Store,
    user_token: &UserToken,
    camera_id_string: &String,
) -> (verdict: Result<(), ApiError>)
    ensures
        conn@.wf(),
        match uuid_parse_str(camera_id_string@) {
            None => verdict matches Err(e) && e.says(
                "Failed to parse camera ID string",
                Status::UnprocessableEntity,
            ),
            Some(value) => if conn@.grants(user_token.user_id, Uuid { value }) {
                verdict is Ok
            } else {
                verdict matches Err(e) && e.says(
                    "User does not have access to camera",
                    Status::Unauthorized,
                )
            },
        },
{
    proof {
        use_type_invariant(conn);
    }
    let camera_id = match parse_camera_id(camera_id_string) {
        Ok(camera_id) => camera_id,
        Err(e) => {
            return Err(e);
        },
    };
    let users_cameras_list = get_users_cameras(user_token.user_id, conn);
    authorize(camera_id, users_cameras_list)
}

/// Answers a request for the user's cameras from what the store answered:
/// the cameras, or an internal error where the store failed.
pub fn camera_list_or_error(owned: Result<Vec<Camera>, StoreError>) -> (listed: Result<
    Vec<Camera>,
    ApiError,
>)
    ensures
        match owned {
            Ok(cameras) => listed == Ok::<Vec<Camera>, ApiError>(cameras),
            Err(_) => listed matches Err(e) && e.says(
                "Database failed to get list of cameras",
                Status::InternalServerError,
            ),
        },
{
    match owned {
        Ok(cameras) => Ok(cameras),
        Err(_) => Err(
            ApiError {
                error: "Database failed to get list of cameras",
                status: Status::InternalServerError,
            },
        ),
    }
}

/// The cameras that the user of the token may reach.
pub fn list_cameras(conn: &Store, user_token: UserToken) -> (listed: Result<Vec<Camera>, ApiError>)
    ensures
        conn@.wf(),
        listed matches Ok(cameras) && camera_views(cameras@) == conn@.cameras_for_user(
            user_token.user_id,
        ),
{
    proof {
        use_type_invariant(conn);
    }
    camera_list_or_error(get_users_cameras(user_token.user_id, conn))
}

} // verus!
