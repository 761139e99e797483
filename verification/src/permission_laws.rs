//! Laws of the permissions service: what its operations promise of one another.

use vstd::prelude::*;

use crate::error::AppError;
use crate::models::{Permission, UserPermission};
use crate::permissions::{
    created, delete_outcome, find_grant, find_id, find_name, grant_outcome, initial_state,
    lemma_find_grant_some,
    lemma_find_name_some, lemma_max_id_bounds, remove_at_old_indices, revoke_outcome,
    PermissionsState,
};
use crate::token::holds_any;
use crate::text::same_name;

verus! {

/// No two permissions share a name up to case.
pub open spec fn unique_names(perms: Seq<Permission>) -> bool {
    forall|i: int, j: int|
        0 <= i < j < perms.len() ==> !same_name(#[trigger] perms[i].name@, #[trigger] perms[j].name@)
}

proof fn lemma_find_grant_absent(ups: Seq<UserPermission>, user_id: i64, permission_id: i64, from: int)
    requires
        0 <= from,
        forall|i: int|
            from <= i < ups.len() ==> !(ups[i].user_id == user_id && ups[i].permission_id
                == permission_id),
    ensures
        find_grant(ups, user_id, permission_id, from) == -1,
    decreases ups.len() - from,
{
    if from < ups.len() {
        lemma_find_grant_absent(ups, user_id, permission_id, from + 1);
    }
}

proof fn lemma_find_grant_push(
    ups: Seq<UserPermission>,
    x: UserPermission,
    user_id: i64,
    permission_id: i64,
    from: int,
)
    requires
        0 <= from <= ups.len(),
        find_grant(ups, user_id, permission_id, from) == -1,
        x.user_id == user_id,
        x.permission_id == permission_id,
    ensures
        find_grant(ups.push(x), user_id, permission_id, from) == ups.len(),
    decreases ups.len() - from,
{
    if from < ups.len() {
        assert(ups.push(x)[from] == ups[from]);
        lemma_find_grant_push(ups, x, user_id, permission_id, from + 1);
    }
}

proof fn lemma_find_name_none(perms: Seq<Permission>, name: Seq<char>, from: int)
    requires
        0 <= from,
        find_name(perms, name, from) == -1,
    ensures
        forall|i: int| from <= i < perms.len() ==> !same_name(perms[i].name@, name),
    decreases perms.len() - from,
{
    if from < perms.len() {
        lemma_find_name_none(perms, name, from + 1);
    }
}

proof fn lemma_find_name_absent(perms: Seq<Permission>, name: Seq<char>, from: int)
    requires
        0 <= from,
        forall|i: int| from <= i < perms.len() ==> !same_name(perms[i].name@, name),
    ensures
        find_name(perms, name, from) == -1,
    decreases perms.len() - from,
{
    if from < perms.len() {
        lemma_find_name_absent(perms, name, from + 1);
    }
}

proof fn lemma_find_name_push(perms: Seq<Permission>, p: Permission, name: Seq<char>, from: int)
    requires
        0 <= from <= perms.len(),
        find_name(perms, name, from) == -1,
        same_name(p.name@, name),
    ensures
        find_name(perms.push(p), name, from) == perms.len(),
    decreases perms.len() - from,
{
    if from < perms.len() {
        assert(perms.push(p)[from] == perms[from]);
        lemma_find_name_push(perms, p, name, from + 1);
    }
}

proof fn lemma_find_id_push(perms: Seq<Permission>, p: Permission, from: int)
    requires
        0 <= from <= perms.len(),
        forall|i: int| from <= i < perms.len() ==> perms[i].id != p.id,
    ensures
        find_id(perms.push(p), p.id, from) == perms.len(),
    decreases perms.len() - from,
{
    if from < perms.len() {
        assert(perms.push(p)[from] == perms[from]);
        lemma_find_id_push(perms, p, from + 1);
    }
}

/// Granting a permission makes the user hold it.
pub proof fn law_grant_then_has(s: PermissionsState, user_id: i64, name: Seq<char>)
    requires
        s.wf(),
        grant_outcome(s, user_id, name) is Ok,
    ensures
        grant_outcome(s, user_id, name)->Ok_0.has_grant(
            user_id,
            s.permissions[find_name(s.permissions, name, 0)].id,
        ),
{
    let k = find_name(s.permissions, name, 0);
    let pid = s.permissions[k].id;
    lemma_find_grant_some(s.user_permissions, user_id, pid, 0);
    lemma_find_grant_push(
        s.user_permissions,
        UserPermission { user_id, permission_id: pid },
        user_id,
        pid,
        0,
    );
}

/// Granting the same permission to the same user a second time is refused.
pub proof fn law_second_grant_refused(s: PermissionsState, user_id: i64, name: Seq<char>)
    requires
        s.wf(),
        grant_outcome(s, user_id, name) is Ok,
    ensures
        grant_outcome(grant_outcome(s, user_id, name)->Ok_0, user_id, name) == Err::<
            PermissionsState,
            AppError,
        >(AppError::UserAlreadyHasPermission),
{
    law_grant_then_has(s, user_id, name);
}

/// Revoking a permission right after granting it gives back the state before the grant.
pub proof fn law_revoke_undoes_grant(s: PermissionsState, user_id: i64, name: Seq<char>)
    requires
        s.wf(),
        grant_outcome(s, user_id, name) is Ok,
    ensures
        revoke_outcome(grant_outcome(s, user_id, name)->Ok_0, user_id, name) == Ok::<
            PermissionsState,
            AppError,
        >(s),
{
    let k = find_name(s.permissions, name, 0);
    let pid = s.permissions[k].id;
    let x = UserPermission { user_id, permission_id: pid };
    lemma_find_grant_some(s.user_permissions, user_id, pid, 0);
    lemma_find_grant_push(s.user_permissions, x, user_id, pid, 0);
    assert(s.user_permissions.push(x).remove(s.user_permissions.len() as int) =~= s.user_permissions);
}

/// After a permission is revoked from a user, the user no longer holds it.
pub proof fn law_revoke_then_lacks(s: PermissionsState, user_id: i64, name: Seq<char>)
    requires
        s.wf(),
        revoke_outcome(s, user_id, name) is Ok,
    ensures
        !revoke_outcome(s, user_id, name)->Ok_0.has_grant(
            user_id,
            s.permissions[find_name(s.permissions, name, 0)].id,
        ),
{
    let k = find_name(s.permissions, name, 0);
    let pid = s.permissions[k].id;
    let ups = s.user_permissions;
    let g = find_grant(ups, user_id, pid, 0);
    lemma_find_grant_some(ups, user_id, pid, 0);
    let r = ups.remove(g);
    assert forall|i: int| 0 <= i < r.len() implies !(r[i].user_id == user_id && r[i].permission_id
        == pid) by {
        let j = if i < g { i } else { i + 1 };
        assert(r[i] == ups[j]);
        if r[i].user_id == user_id && r[i].permission_id == pid {
            assert(ups[j] == ups[g]);
            if j < g {
                assert(ups[j] != ups[g]);
            } else {
                assert(ups[g] != ups[j]);
            }
        }
    }
    lemma_find_grant_absent(r, user_id, pid, 0);
}

/// After a permission is created, looking up its name finds it, and looking up its id finds it.
pub proof fn law_create_then_find(
    s: PermissionsState,
    name: Seq<char>,
    description: Seq<char>,
    s2: PermissionsState,
    p: Permission,
)
    requires
        created(s, name, description, s2, p),
    ensures
        find_name(s2.permissions, name, 0) == s.permissions.len(),
        find_id(s2.permissions, p.id, 0) == s.permissions.len(),
        s2.permissions[s.permissions.len() as int] == p,
{
    lemma_max_id_bounds(s.permissions);
    lemma_find_name_push(s.permissions, p, name, 0);
    lemma_find_id_push(s.permissions, p, 0);
}

/// A created permission gets an id above every id present before.
pub proof fn law_create_fresh_id(
    s: PermissionsState,
    name: Seq<char>,
    description: Seq<char>,
    s2: PermissionsState,
    p: Permission,
)
    requires
        created(s, name, description, s2, p),
    ensures
        forall|i: int| 0 <= i < s.permissions.len() ==> s.permissions[i].id < p.id,
        p.id >= 1,
{
    lemma_max_id_bounds(s.permissions);
}

/// Creating a permission keeps the names unique up to case.
pub proof fn law_create_keeps_names_unique(
    s: PermissionsState,
    name: Seq<char>,
    description: Seq<char>,
    s2: PermissionsState,
    p: Permission,
)
    requires
        unique_names(s.permissions),
        created(s, name, description, s2, p),
    ensures
        unique_names(s2.permissions),
{
    lemma_find_name_none(s.permissions, name, 0);
    let ps = s2.permissions;
    assert forall|i: int, j: int| 0 <= i < j < ps.len() implies !same_name(
        #[trigger] ps[i].name@,
        #[trigger] ps[j].name@,
    ) by {
        assert(ps[i] == s.permissions[i]);
        if j < s.permissions.len() {
            assert(ps[j] == s.permissions[j]);
        } else {
            assert(ps[j] == p);
            assert(!same_name(s.permissions[i].name@, name));
        }
    }
}

/// Deleting a permission, where names are unique up to case, leaves no permission of that name.
pub proof fn law_delete_then_absent(s: PermissionsState, name: Seq<char>)
    requires
        unique_names(s.permissions),
        delete_outcome(s, name) is Ok,
    ensures
        find_name(delete_outcome(s, name)->Ok_0.permissions, name, 0) == -1,
{
    let k = find_name(s.permissions, name, 0);
    lemma_find_name_some(s.permissions, name, 0);
    let r = s.permissions.remove(k);
    assert forall|i: int| 0 <= i < r.len() implies !same_name(r[i].name@, name) by {
        let j = if i < k { i } else { i + 1 };
        assert(r[i] == s.permissions[j]);
        if same_name(r[i].name@, name) {
            if j < k {
                assert(!same_name(s.permissions[j].name@, s.permissions[k].name@));
            } else {
                assert(!same_name(s.permissions[k].name@, s.permissions[j].name@));
            }
        }
    }
    lemma_find_name_absent(r, name, 0);
}

/// A permission that is not deletable stays: deleting it is refused and nothing changes.
pub proof fn law_undeletable_stays(s: PermissionsState, name: Seq<char>)
    requires
        find_name(s.permissions, name, 0) >= 0,
        !s.permissions[find_name(s.permissions, name, 0)].deletable,
    ensures
        delete_outcome(s, name) == Err::<PermissionsState, AppError>(
            AppError::PermissionNotDeletable,
        ),
{
}

proof fn lemma_walk_without_matches(
    current: Seq<UserPermission>,
    snapshot: Seq<UserPermission>,
    permission_id: i64,
    i: int,
)
    requires
        0 <= i <= snapshot.len(),
        forall|j: int| i <= j < snapshot.len() ==> snapshot[j].permission_id != permission_id,
    ensures
        remove_at_old_indices(current, snapshot, permission_id, i) == Some(current),
    decreases snapshot.len() - i,
{
    if i < snapshot.len() {
        lemma_walk_without_matches(current, snapshot, permission_id, i + 1);
    }
}

/// Deleting a permission that was just created, and that no grant names, gives back the state
/// from before the creation: the catalog and the grants as they were.
pub proof fn law_delete_undoes_create(
    s: PermissionsState,
    name: Seq<char>,
    description: Seq<char>,
    s2: PermissionsState,
    p: Permission,
)
    requires
        created(s, name, description, s2, p),
        forall|i: int| 0 <= i < s.user_permissions.len() ==> (#[trigger] s.user_permissions[i]).permission_id != p.id,
    ensures
        s2.delete_completes(name),
        delete_outcome(s2, name) == Ok::<PermissionsState, AppError>(s),
{
    law_create_then_find(s, name, description, s2, p);
    lemma_walk_without_matches(s2.user_permissions, s2.user_permissions, p.id, 0);
    assert(s2.permissions.remove(s.permissions.len() as int) =~= s.permissions);
    assert(delete_outcome(s2, name)->Ok_0 =~= s);
}

/// Permission ids rise strictly along the catalog.
pub open spec fn ids_increasing(perms: Seq<Permission>) -> bool {
    forall|i: int, j: int| 0 <= i < j < perms.len() ==> perms[i].id < perms[j].id
}

/// The catalog that a service starts with has rising ids.
pub proof fn law_initial_ids_increasing(s: PermissionsState)
    requires
        initial_state(s),
    ensures
        ids_increasing(s.permissions),
{
}

/// Creating a permission keeps the ids rising: the new one comes last, above every other.
pub proof fn law_create_keeps_ids_increasing(
    s: PermissionsState,
    name: Seq<char>,
    description: Seq<char>,
    s2: PermissionsState,
    p: Permission,
)
    requires
        ids_increasing(s.permissions),
        created(s, name, description, s2, p),
    ensures
        ids_increasing(s2.permissions),
{
    lemma_max_id_bounds(s.permissions);
    let ps = s2.permissions;
    assert forall|i: int, j: int| 0 <= i < j < ps.len() implies ps[i].id < ps[j].id by {
        assert(ps[i] == s.permissions[i]);
        if j < s.permissions.len() {
            assert(ps[j] == s.permissions[j]);
        }
    }
}

/// Deleting a permission keeps the ids rising; granting and revoking leave the catalog alone.
pub proof fn law_changes_keep_ids_increasing(s: PermissionsState, user_id: i64, name: Seq<char>)
    requires
        ids_increasing(s.permissions),
    ensures
        delete_outcome(s, name) is Ok ==> ids_increasing(delete_outcome(s, name)->Ok_0.permissions),
        grant_outcome(s, user_id, name) is Ok ==> grant_outcome(s, user_id, name)->Ok_0.permissions
            == s.permissions,
        revoke_outcome(s, user_id, name) is Ok ==> revoke_outcome(s, user_id, name)->Ok_0.permissions
            == s.permissions,
{
    if delete_outcome(s, name) is Ok {
        let k = find_name(s.permissions, name, 0);
        lemma_find_name_some(s.permissions, name, 0);
        let r = s.permissions.remove(k);
        assert forall|a: int, b: int| 0 <= a < b < r.len() implies r[a].id < r[b].id by {
            let a2 = if a < k { a } else { a + 1 };
            let b2 = if b < k { b } else { b + 1 };
            assert(r[a] == s.permissions[a2]);
            assert(r[b] == s.permissions[b2]);
        }
    }
}

/// Revoking takes away exactly one grant, the one of the permission to the user: the catalog stays,
/// there is one grant fewer, the user no longer holds that permission, and every other grant is
/// still held.
pub proof fn law_revoke_keeps_other_grants(s: PermissionsState, user_id: i64, name: Seq<char>)
    requires
        s.wf(),
        revoke_outcome(s, user_id, name) is Ok,
    ensures
        ({
            let s2 = revoke_outcome(s, user_id, name)->Ok_0;
            let pid = s.permissions[find_name(s.permissions, name, 0)].id;
            &&& s2.permissions == s.permissions
            &&& s2.user_permissions.len() + 1 == s.user_permissions.len()
            &&& !s2.has_grant(user_id, pid)
            &&& forall|x: UserPermission|
                #[trigger] s.user_permissions.contains(x) && x != (UserPermission {
                    user_id,
                    permission_id: pid,
                }) ==> s2.user_permissions.contains(x)
        }),
{
    law_revoke_then_lacks(s, user_id, name);
    let k = find_name(s.permissions, name, 0);
    let pid = s.permissions[k].id;
    let ups = s.user_permissions;
    let g = find_grant(ups, user_id, pid, 0);
    lemma_find_grant_some(ups, user_id, pid, 0);
    let r = ups.remove(g);
    assert forall|x: UserPermission|
        #[trigger] ups.contains(x) && x != (UserPermission { user_id, permission_id: pid })
            implies r.contains(x) by {
        let j = choose|j: int| 0 <= j < ups.len() && ups[j] == x;
        assert(j != g);
        if j < g {
            assert(r[j] == x);
        } else {
            assert(r[j - 1] == x);
        }
    }
}

/// Deleting a permission takes away exactly one entry of the catalog, the one of that name: there
/// is one permission fewer, and every permission of another name is still there.
pub proof fn law_delete_keeps_other_permissions(s: PermissionsState, name: Seq<char>)
    requires
        delete_outcome(s, name) is Ok,
    ensures
        ({
            let s2 = delete_outcome(s, name)->Ok_0;
            &&& s2.permissions.len() + 1 == s.permissions.len()
            &&& forall|p: Permission|
                #[trigger] s.permissions.contains(p) && !same_name(p.name@, name)
                    ==> s2.permissions.contains(p)
        }),
{
    let k = find_name(s.permissions, name, 0);
    lemma_find_name_some(s.permissions, name, 0);
    let ps = s.permissions;
    let r = ps.remove(k);
    assert forall|p: Permission| #[trigger] ps.contains(p) && !same_name(p.name@, name) implies r.contains(p) by {
        let j = choose|j: int| 0 <= j < ps.len() && ps[j] == p;
        assert(j != k);
        if j < k {
            assert(r[j] == p);
        } else {
            assert(r[j - 1] == p);
        }
    }
}

proof fn lemma_walk_to_single_match(snapshot: Seq<UserPermission>, permission_id: i64, g: int, i: int)
    requires
        0 <= i <= g < snapshot.len(),
        snapshot[g].permission_id == permission_id,
        forall|j: int| 0 <= j < snapshot.len() && j != g ==> snapshot[j].permission_id != permission_id,
    ensures
        remove_at_old_indices(snapshot, snapshot, permission_id, i) == Some(snapshot.remove(g)),
    decreases g - i,
{
    if i < g {
        lemma_walk_to_single_match(snapshot, permission_id, g, i + 1);
    } else {
        lemma_walk_without_matches(snapshot.remove(g), snapshot, permission_id, g + 1);
    }
}

/// Deleting a permission that is held by at most one grant removes that grant too: no grant of
/// the deleted permission remains.
pub proof fn law_delete_removes_a_single_grant(s: PermissionsState, name: Seq<char>)
    requires
        delete_outcome(s, name) is Ok,
        forall|i: int, j: int|
            0 <= i < j < s.user_permissions.len() && s.user_permissions[i].permission_id
                == s.permissions[find_name(s.permissions, name, 0)].id ==> s.user_permissions[j].permission_id
                != s.user_permissions[i].permission_id,
    ensures
        s.delete_completes(name),
        forall|i: int|
            0 <= i < delete_outcome(s, name)->Ok_0.user_permissions.len() ==> (#[trigger] delete_outcome(
                s,
                name,
            )->Ok_0.user_permissions[i]).permission_id != s.permissions[find_name(
                s.permissions,
                name,
                0,
            )].id,
{
    let ups = s.user_permissions;
    let pid = s.permissions[find_name(s.permissions, name, 0)].id;
    if exists|g: int| 0 <= g < ups.len() && ups[g].permission_id == pid {
        let g = choose|g: int| 0 <= g < ups.len() && ups[g].permission_id == pid;
        assert forall|j: int| 0 <= j < ups.len() && j != g implies ups[j].permission_id != pid by {
            if j < g {
                if ups[j].permission_id == pid {
                    assert(ups[g].permission_id != ups[j].permission_id);
                }
            } else {
                assert(ups[j].permission_id != ups[g].permission_id);
            }
        }
        lemma_walk_to_single_match(ups, pid, g, 0);
        let r = ups.remove(g);
        assert forall|i: int| 0 <= i < r.len() implies r[i].permission_id != pid by {
            let j = if i < g { i } else { i + 1 };
            assert(r[i] == ups[j]);
        }
    } else {
        lemma_walk_without_matches(ups, ups, pid, 0);
    }
}

/// Holding more permissions never takes access away: whatever a set of permissions grants, a
/// larger set grants too.
pub proof fn law_more_permissions_never_less_access(
    held: Seq<Seq<char>>,
    more: Seq<Seq<char>>,
    required: Seq<Seq<char>>,
)
    requires
        forall|p: Seq<char>| held.contains(p) ==> more.contains(p),
        holds_any(held, required),
    ensures
        holds_any(more, required),
{
    let i = choose|i: int| 0 <= i < required.len() && held.contains(#[trigger] required[i]);
    assert(more.contains(required[i]));
}

/// Accepting more permissions never takes access away: a token that meets a list of required
/// permissions meets any list that holds every one of them, in any order and with more beside.
pub proof fn law_more_accepted_never_less_access(
    held: Seq<Seq<char>>,
    required: Seq<Seq<char>>,
    wider: Seq<Seq<char>>,
)
    requires
        forall|p: Seq<char>| required.contains(p) ==> wider.contains(p),
        holds_any(held, required),
    ensures
        holds_any(held, wider),
{
    let i = choose|i: int| 0 <= i < required.len() && held.contains(#[trigger] required[i]);
    assert(required.contains(required[i]));
    let j = choose|j: int| 0 <= j < wider.len() && wider[j] == required[i];
    assert(held.contains(wider[j]));
}

/// A token without permissions opens no guarded endpoint.
pub proof fn law_no_permissions_no_access(required: Seq<Seq<char>>)
    ensures
        !holds_any(Seq::empty(), required),
{
}

} // verus!
