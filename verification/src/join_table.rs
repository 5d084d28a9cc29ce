//! The join table as a mathematical value, and what holds of its operations.

use vstd::prelude::*;
use crate::camera::{lists_camera, CameraView};
use crate::ident::Uuid;
use crate::users_cameras::{InsertableUsersCamera, UsersCamera};

verus! {

/// The state of the store: the association records in storage order, the
/// cameras they are joined against, and the identifier that the next new
/// record gets.
#[verifier::ext_equal]
pub struct JoinTable {
    pub rows: Seq<UsersCamera>,
    pub cameras: Seq<CameraView>,
    pub next_id: int,
}

/// The records of one user.
pub open spec fn belongs_to(user_id: Uuid) -> spec_fn(UsersCamera) -> bool {
    |row: UsersCamera| row.user_id == user_id
}

/// The cameras with one identifier.
pub open spec fn has_camera_id(camera_id: Uuid) -> spec_fn(CameraView) -> bool {
    |camera: CameraView| camera.camera_id == camera_id
}

/// For a record, the cameras that it points to, in table order.
pub open spec fn cameras_of(cameras: Seq<CameraView>) -> spec_fn(UsersCamera) -> Seq<CameraView> {
    |row: UsersCamera| cameras.filter(has_camera_id(row.camera_id))
}

/// The inner join of one user's records with the cameras, projected to the
/// cameras: the records of the user in their order, and for each of them the
/// cameras with the record's camera identifier in theirs.
pub open spec fn join(rows: Seq<UsersCamera>, cameras: Seq<CameraView>, user_id: Uuid) -> Seq<
    CameraView,
> {
    rows.filter(belongs_to(user_id)).map_values(cameras_of(cameras)).flatten()
}

/// The join over no records is empty.
pub proof fn lemma_join_empty(cameras: Seq<CameraView>, user_id: Uuid)
    ensures
        join(Seq::empty(), cameras, user_id) == Seq::<CameraView>::empty(),
{
    reveal(Seq::filter);
}

/// One more record adds the cameras it points to, if it is the user's, and
/// nothing otherwise.
pub proof fn lemma_join_push(
    rows: Seq<UsersCamera>,
    row: UsersCamera,
    cameras: Seq<CameraView>,
    user_id: Uuid,
)
    ensures
        join(rows.push(row), cameras, user_id) == if row.user_id == user_id {
            join(rows, cameras, user_id) + cameras.filter(has_camera_id(row.camera_id))
        } else {
            join(rows, cameras, user_id)
        },
{
    let kept = rows.filter(belongs_to(user_id));
    rows.lemma_filter_push(row, belongs_to(user_id));
    if row.user_id == user_id {
        assert(kept.push(row).map_values(cameras_of(cameras)) =~= kept.map_values(
            cameras_of(cameras),
        ).push(cameras.filter(has_camera_id(row.camera_id))));
        kept.map_values(cameras_of(cameras)).lemma_flatten_push(
            cameras.filter(has_camera_id(row.camera_id)),
        );
    }
}

impl JoinTable {
    /// Every record's identifier is below the next one to assign, and no two
    /// records share one.
    pub open spec fn wf(self) -> bool {
        &&& i32::MIN <= self.next_id <= i32::MAX + 1
        &&& forall|i: int|
            0 <= i < self.rows.len() ==> (#[trigger] self.rows[i]).users_cameras_id < self.next_id
        &&& forall|i: int, j: int|
            0 <= i < j < self.rows.len() ==> (#[trigger] self.rows[i]).users_cameras_id != (
            #[trigger] self.rows[j]).users_cameras_id
    }

    /// The table with no record yet, over the given cameras, whose first
    /// record gets the identifier `first_id`.
    pub open spec fn empty(cameras: Seq<CameraView>, first_id: int) -> JoinTable {
        JoinTable { rows: Seq::empty(), cameras, next_id: first_id }
    }

    /// Whether a record with this identifier is stored.
    pub open spec fn has_id(self, id: i32) -> bool {
        exists|i: int| 0 <= i < self.rows.len() && (#[trigger] self.rows[i]).users_cameras_id == id
    }

    /// Where the record with this identifier is stored, if there is one.
    pub open spec fn position(self, id: i32) -> int {
        choose|i: int| 0 <= i < self.rows.len() && (#[trigger] self.rows[i]).users_cameras_id == id
    }

    /// The record with this identifier, if there is one.
    pub open spec fn lookup(self, id: i32) -> Option<UsersCamera> {
        if self.has_id(id) {
            Some(self.rows[self.position(id)])
        } else {
            None
        }
    }

    /// Whether an identifier is left for one more record.
    pub open spec fn can_insert(self) -> bool {
        self.next_id <= i32::MAX
    }

    /// The record that inserting the pair creates.
    pub open spec fn fresh(self, pair: InsertableUsersCamera) -> UsersCamera {
        UsersCamera {
            users_cameras_id: self.next_id as i32,
            camera_id: pair.camera_id,
            user_id: pair.user_id,
        }
    }

    /// The table after the pair was inserted.
    pub open spec fn inserted(self, pair: InsertableUsersCamera) -> JoinTable {
        JoinTable {
            rows: self.rows.push(self.fresh(pair)),
            cameras: self.cameras,
            next_id: self.next_id + 1,
        }
    }

    /// The record that stands under `id` after an update with `change`: the
    /// camera and the user are those of `change`, the identifier stays.
    pub open spec fn replacement(id: i32, change: UsersCamera) -> UsersCamera {
        UsersCamera { users_cameras_id: id, camera_id: change.camera_id, user_id: change.user_id }
    }

    /// The table after the record under `id` was updated with `change`;
    /// the same table where there is no such record.
    pub open spec fn updated(self, id: i32, change: UsersCamera) -> JoinTable {
        if self.has_id(id) {
            JoinTable {
                rows: self.rows.update(self.position(id), Self::replacement(id, change)),
                cameras: self.cameras,
                next_id: self.next_id,
            }
        } else {
            self
        }
    }

    /// The table after the record under `id` was deleted; the same table
    /// where there is no such record.
    pub open spec fn deleted(self, id: i32) -> JoinTable {
        if self.has_id(id) {
            JoinTable {
                rows: self.rows.remove(self.position(id)),
                cameras: self.cameras,
                next_id: self.next_id,
            }
        } else {
            self
        }
    }

    /// The inner join of the user's records with the cameras: for each
    /// record of the user, in storage order, the cameras that it points to.
    pub open spec fn cameras_for_user(self, user_id: Uuid) -> Seq<CameraView> {
        join(self.rows, self.cameras, user_id)
    }

    /// Whether the user may reach the camera: the join lists it.
    pub open spec fn grants(self, user_id: Uuid, camera_id: Uuid) -> bool {
        lists_camera(self.cameras_for_user(user_id), camera_id)
    }
}

/// In a well-formed table the record stored at a place is the one found
/// under its identifier.
pub proof fn lemma_lookup_at(table: JoinTable, i: int)
    requires
        table.wf(),
        0 <= i < table.rows.len(),
    ensures
        table.has_id(table.rows[i].users_cameras_id),
        table.position(table.rows[i].users_cameras_id) == i,
        table.lookup(table.rows[i].users_cameras_id) == Some(table.rows[i]),
{
}

/// A table without records is well-formed and holds no identifier.
pub proof fn lemma_empty(cameras: Seq<CameraView>, first_id: i32, id: i32)
    ensures
        JoinTable::empty(cameras, first_id as int).wf(),
        JoinTable::empty(cameras, first_id as int).lookup(id) is None,
        JoinTable::empty(cameras, first_id as int).can_insert(),
{
}

/// Insert, then get: the new record is found under the identifier it was
/// given, with the camera and the user that were inserted, and every record
/// stored before is found as before.
pub proof fn lemma_insert_then_lookup(table: JoinTable, pair: InsertableUsersCamera)
    requires
        table.wf(),
        table.can_insert(),
    ensures
        table.inserted(pair).wf(),
        table.fresh(pair).users_cameras_id == table.next_id,
        table.fresh(pair).camera_id == pair.camera_id,
        table.fresh(pair).user_id == pair.user_id,
        !table.has_id(table.fresh(pair).users_cameras_id),
        table.inserted(pair).lookup(table.fresh(pair).users_cameras_id) == Some(table.fresh(pair)),
        forall|id: i32| #[trigger]
            table.has_id(id) ==> table.inserted(pair).lookup(id) == table.lookup(id),
{
    let after = table.inserted(pair);
    let last = table.rows.len() as int;
    assert forall|i: int, j: int| 0 <= i < j < after.rows.len() implies (#[trigger] after.rows[i]).users_cameras_id
        != (#[trigger] after.rows[j]).users_cameras_id by {}
    lemma_lookup_at(after, last);
    assert forall|id: i32| #[trigger] table.has_id(id) implies after.lookup(id) == table.lookup(
        id,
    ) by {
        let at = table.position(id);
        lemma_lookup_at(table, at);
        lemma_lookup_at(after, at);
    }
}

/// Update, then get: the record found under the identifier has the new
/// camera and the new user and the identifier it had, and every other
/// identifier gives what it gave before.
pub proof fn lemma_update_then_lookup(table: JoinTable, id: i32, change: UsersCamera)
    requires
        table.wf(),
        table.has_id(id),
    ensures
        table.updated(id, change).wf(),
        table.updated(id, change).lookup(id) == Some(
            UsersCamera {
                users_cameras_id: id,
                camera_id: change.camera_id,
                user_id: change.user_id,
            },
        ),
        table.updated(id, change).rows.len() == table.rows.len(),
        forall|other: i32|
            other != id ==> #[trigger] table.updated(id, change).lookup(other) == table.lookup(
                other,
            ),
{
    let after = table.updated(id, change);
    let at = table.position(id);
    assert forall|i: int| 0 <= i < after.rows.len() implies (#[trigger] after.rows[i]).users_cameras_id
        == table.rows[i].users_cameras_id by {}
    lemma_lookup_at(after, at);
    assert forall|other: i32| other != id implies #[trigger] after.lookup(other) == table.lookup(
        other,
    ) by {
        if table.has_id(other) {
            let k = table.position(other);
            lemma_lookup_at(table, k);
            lemma_lookup_at(after, k);
        }
    }
}

/// Updating under an identifier that is not stored changes nothing.
pub proof fn lemma_update_of_absent(table: JoinTable, id: i32, change: UsersCamera)
    requires
        !table.has_id(id),
    ensures
        table.updated(id, change) == table,
        table.lookup(id) is None,
{
}

/// Delete, then get: the identifier is no longer found, one record went,
/// and every other identifier gives what it gave before.
pub proof fn lemma_delete_then_lookup(table: JoinTable, id: i32)
    requires
        table.wf(),
        table.has_id(id),
    ensures
        table.deleted(id).wf(),
        table.deleted(id).lookup(id) is None,
        table.deleted(id).rows.len() == table.rows.len() - 1,
        forall|other: i32|
            other != id ==> #[trigger] table.deleted(id).lookup(other) == table.lookup(other),
{
    let after = table.deleted(id);
    let at = table.position(id);
    lemma_lookup_at(table, at);
    assert forall|i: int| 0 <= i < after.rows.len() implies #[trigger] after.rows[i] == table.rows[if i
        < at {
        i
    } else {
        i + 1
    }] by {}
    assert forall|i: int, j: int| 0 <= i < j < after.rows.len() implies (#[trigger] after.rows[i]).users_cameras_id
        != (#[trigger] after.rows[j]).users_cameras_id by {}
    if after.has_id(id) {
        let k = after.position(id);
        lemma_lookup_at(table, if k < at { k } else { k + 1 });
    }
    assert forall|other: i32| other != id implies #[trigger] after.lookup(other) == table.lookup(
        other,
    ) by {
        if table.has_id(other) {
            let k = table.position(other);
            lemma_lookup_at(table, k);
            lemma_lookup_at(after, if k < at { k } else { k - 1 });
        }
    }
}

/// Deleting under an identifier that is not stored changes nothing.
pub proof fn lemma_delete_of_absent(table: JoinTable, id: i32)
    requires
        !table.has_id(id),
    ensures
        table.deleted(id) == table,
{
}

/// What a filter keeps: the elements of the sequence that meet the test.
proof fn lemma_filter_members<A>(s: Seq<A>, pred: spec_fn(A) -> bool, x: A)
    ensures
        s.filter(pred).contains(x) <==> s.contains(x) && pred(x),
{
    if s.filter(pred).contains(x) {
        s.lemma_filter_contains_rev(pred, x);
        let k = choose|k: int| 0 <= k < s.filter(pred).len() && s.filter(pred)[k] == x;
        s.lemma_filter_pred(pred, k);
    }
    if s.contains(x) && pred(x) {
        let k = choose|k: int| 0 <= k < s.len() && s[k] == x;
        s.lemma_filter_contains(pred, k);
    }
}

/// The join holds exactly the cameras that a record of the user points to:
/// a camera is in it if and only if it is one of the table's cameras and
/// some record has the user's identifier and the camera's.
pub proof fn lemma_cameras_for_user_members(table: JoinTable, user_id: Uuid, camera: CameraView)
    ensures
        table.cameras_for_user(user_id).contains(camera) <==> table.cameras.contains(camera)
            && exists|i: int|
            0 <= i < table.rows.len() && (#[trigger] table.rows[i]).user_id == user_id
                && table.rows[i].camera_id == camera.camera_id,
    decreases table.rows.len(),
{
    let rows = table.rows;
    if rows.len() == 0 {
        lemma_join_empty(table.cameras, user_id);
    } else {
        let last = rows.last();
        let rest = JoinTable { rows: rows.drop_last(), cameras: table.cameras, next_id: table.next_id };
        assert(rows =~= rest.rows.push(last));
        lemma_join_push(rest.rows, last, table.cameras, user_id);
        lemma_cameras_for_user_members(rest, user_id, camera);
        lemma_filter_members(table.cameras, has_camera_id(last.camera_id), camera);
        let pointed = table.cameras.filter(has_camera_id(last.camera_id));
        let before = rest.cameras_for_user(user_id);
        let in_last = last.user_id == user_id && pointed.contains(camera);
        assert(table.cameras_for_user(user_id).contains(camera) <==> before.contains(camera)
            || in_last) by {
            let all = table.cameras_for_user(user_id);
            if last.user_id == user_id {
                if before.contains(camera) {
                    let k = choose|k: int| 0 <= k < before.len() && before[k] == camera;
                    assert(all[k] == camera);
                }
                if pointed.contains(camera) {
                    let k = choose|k: int| 0 <= k < pointed.len() && pointed[k] == camera;
                    assert(all[before.len() + k] == camera);
                }
            }
        }
    }
}

/// A user without association records has no cameras.
pub proof fn lemma_no_records_no_cameras(table: JoinTable, user_id: Uuid)
    requires
        forall|i: int| 0 <= i < table.rows.len() ==> (#[trigger] table.rows[i]).user_id != user_id,
    ensures
        table.cameras_for_user(user_id) == Seq::<CameraView>::empty(),
{
    let found = table.cameras_for_user(user_id);
    if found.len() > 0 {
        lemma_cameras_for_user_members(table, user_id, found[0]);
    }
}

/// Access is granted exactly for a camera of the table that some record
/// associates with the user.
pub proof fn lemma_grants_iff_associated(table: JoinTable, user_id: Uuid, camera_id: Uuid)
    ensures
        table.grants(user_id, camera_id) <==> (exists|k: int|
            0 <= k < table.cameras.len() && (#[trigger] table.cameras[k]).camera_id == camera_id)
            && (exists|i: int|
            0 <= i < table.rows.len() && (#[trigger] table.rows[i]).user_id == user_id
                && table.rows[i].camera_id == camera_id),
{
    let found = table.cameras_for_user(user_id);
    if table.grants(user_id, camera_id) {
        let k = choose|k: int| 0 <= k < found.len() && (#[trigger] found[k]).camera_id == camera_id;
        lemma_cameras_for_user_members(table, user_id, found[k]);
    }
    if (exists|k: int|
        0 <= k < table.cameras.len() && (#[trigger] table.cameras[k]).camera_id == camera_id) && (
    exists|i: int|
        0 <= i < table.rows.len() && (#[trigger] table.rows[i]).user_id == user_id
            && table.rows[i].camera_id == camera_id) {
        let k = choose|k: int|
            0 <= k < table.cameras.len() && (#[trigger] table.cameras[k]).camera_id == camera_id;
        let camera = table.cameras[k];
        lemma_cameras_for_user_members(table, user_id, camera);
    }
}

} // verus!
