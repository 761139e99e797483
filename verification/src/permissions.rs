//! The permissions service: the catalog of permissions and the grants of permissions to users.

use vstd::prelude::*;

use crate::error::AppError;
use crate::logger::Logger;
use crate::models::{Permission, UserPermission};
use crate::text::{names_match, same_name};

verus! {

/// What a permissions service holds: its permissions and its grants, each in insertion order.
#[verifier::ext_equal]
pub struct PermissionsState {
    pub permissions: Seq<Permission>,
    pub user_permissions: Seq<UserPermission>,
}

/// Index of the first permission at or after `from` whose id is `id`; -1 when there is none.
pub open spec fn find_id(perms: Seq<Permission>, id: i64, from: int) -> int
    decreases perms.len() - from,
{
    if from < 0 || from >= perms.len() {
        -1
    } else if perms[from].id == id {
        from
    } else {
        find_id(perms, id, from + 1)
    }
}

/// Index of the first permission at or after `from` whose name is `name` up to case; -1 when there is none.
pub open spec fn find_name(perms: Seq<Permission>, name: Seq<char>, from: int) -> int
    decreases perms.len() - from,
{
    if from < 0 || from >= perms.len() {
        -1
    } else if same_name(perms[from].name@, name) {
        from
    } else {
        find_name(perms, name, from + 1)
    }
}

/// Index of the first grant at or after `from` of permission `permission_id` to user `user_id`; -1 when there is none.
pub open spec fn find_grant(ups: Seq<UserPermission>, user_id: i64, permission_id: i64, from: int) -> int
    decreases ups.len() - from,
{
    if from < 0 || from >= ups.len() {
        -1
    } else if ups[from].user_id == user_id && ups[from].permission_id == permission_id {
        from
    } else {
        find_grant(ups, user_id, permission_id, from + 1)
    }
}

/// The highest permission id, or 0 when no id is above 0.
pub open spec fn max_id(perms: Seq<Permission>) -> i64
    decreases perms.len(),
{
    if perms.len() == 0 {
        0
    } else {
        let m = max_id(perms.drop_last());
        if perms.last().id > m {
            perms.last().id
        } else {
            m
        }
    }
}

/// The grants held by user `user_id`, in order.
pub open spec fn grants_of(ups: Seq<UserPermission>, user_id: i64) -> Seq<UserPermission>
    decreases ups.len(),
{
    if ups.len() == 0 {
        Seq::empty()
    } else {
        let rest = grants_of(ups.drop_last(), user_id);
        if ups.last().user_id == user_id {
            rest.push(ups.last())
        } else {
            rest
        }
    }
}

/// The grants left after the grants of `permission_id` are removed as deleting a permission removes
/// them: the grants are walked as they stood before (`snapshot`), from index `i` on, and each grant of
/// the permission is removed from the current list at the index that it had in `snapshot`. `None` when
/// such an index lies past the end of the current, shrunk list.
pub open spec fn remove_at_old_indices(
    current: Seq<UserPermission>,
    snapshot: Seq<UserPermission>,
    permission_id: i64,
    i: int,
) -> Option<Seq<UserPermission>>
    decreases snapshot.len() - i,
{
    if i < 0 || i >= snapshot.len() {
        Some(current)
    } else if snapshot[i].permission_id == permission_id {
        if i < current.len() {
            remove_at_old_indices(current.remove(i), snapshot, permission_id, i + 1)
        } else {
            None
        }
    } else {
        remove_at_old_indices(current, snapshot, permission_id, i + 1)
    }
}

/// No two elements of the sequence of grants are equal.
pub open spec fn distinct_grants(ups: Seq<UserPermission>) -> bool {
    forall|i: int, j: int| 0 <= i < j < ups.len() ==> ups[i] != ups[j]
}

/// No two permissions share an id.
pub open spec fn distinct_ids(perms: Seq<Permission>) -> bool {
    forall|i: int, j: int| 0 <= i < j < perms.len() ==> perms[i].id != perms[j].id
}

/// A permission with the given fields.
pub open spec fn is_entry(
    p: Permission,
    id: int,
    name: Seq<char>,
    description: Seq<char>,
    deletable: bool,
) -> bool {
    &&& p.id == id
    &&& p.name@ == name
    &&& p.description@ == description
    &&& p.deletable == deletable
}

impl PermissionsState {
    /// Permission ids are unique and no grant is held twice.
    pub open spec fn wf(self) -> bool {
        &&& distinct_ids(self.permissions)
        &&& distinct_grants(self.user_permissions)
    }

    /// User `user_id` holds permission `permission_id`.
    pub open spec fn has_grant(self, user_id: i64, permission_id: i64) -> bool {
        find_grant(self.user_permissions, user_id, permission_id, 0) >= 0
    }

    /// The grants that deleting permission `name` leaves, `None` where the removal runs past the end.
    pub open spec fn grants_after_delete(self, name: Seq<char>) -> Option<Seq<UserPermission>> {
        let k = find_name(self.permissions, name, 0);
        if k >= 0 && self.permissions[k].deletable {
            remove_at_old_indices(
                self.user_permissions,
                self.user_permissions,
                self.permissions[k].id,
                0,
            )
        } else {
            Some(self.user_permissions)
        }
    }

    /// Deleting permission `name` runs to its end.
    pub open spec fn delete_completes(self, name: Seq<char>) -> bool {
        self.grants_after_delete(name) is Some
    }
}

/// What granting permission `name` to user `user_id` gives: the new state, or the error.
pub open spec fn grant_outcome(s: PermissionsState, user_id: i64, name: Seq<char>) -> Result<
    PermissionsState,
    AppError,
> {
    let k = find_name(s.permissions, name, 0);
    if k < 0 {
        Err(AppError::PermissionNotFound)
    } else if s.has_grant(user_id, s.permissions[k].id) {
        Err(AppError::UserAlreadyHasPermission)
    } else {
        Ok(
            PermissionsState {
                permissions: s.permissions,
                user_permissions: s.user_permissions.push(
                    UserPermission { user_id, permission_id: s.permissions[k].id },
                ),
            },
        )
    }
}

/// What withdrawing permission `name` from user `user_id` gives: the new state, or the error.
pub open spec fn revoke_outcome(s: PermissionsState, user_id: i64, name: Seq<char>) -> Result<
    PermissionsState,
    AppError,
> {
    let k = find_name(s.permissions, name, 0);
    if k < 0 {
        Err(AppError::PermissionNotFound)
    } else {
        let g = find_grant(s.user_permissions, user_id, s.permissions[k].id, 0);
        if g < 0 {
            Err(AppError::UserPermissionNotFound)
        } else {
            Ok(
                PermissionsState {
                    permissions: s.permissions,
                    user_permissions: s.user_permissions.remove(g),
                },
            )
        }
    }
}

/// What deleting permission `name` gives: the new state, or the error. Where the removal of its
/// grants runs past the end of the list, the state is left unspecified.
pub open spec fn delete_outcome(s: PermissionsState, name: Seq<char>) -> Result<
    PermissionsState,
    AppError,
> {
    let k = find_name(s.permissions, name, 0);
    if k < 0 {
        Err(AppError::PermissionNotFound)
    } else if !s.permissions[k].deletable {
        Err(AppError::PermissionNotDeletable)
    } else {
        Ok(
            PermissionsState {
                permissions: s.permissions.remove(k),
                user_permissions: s.grants_after_delete(name)->Some_0,
            },
        )
    }
}

/// `s2` and `p` are what creating permission `name` with `description` gives in state `s`.
pub open spec fn created(
    s: PermissionsState,
    name: Seq<char>,
    description: Seq<char>,
    s2: PermissionsState,
    p: Permission,
) -> bool {
    &&& find_name(s.permissions, name, 0) == -1
    &&& is_entry(p, max_id(s.permissions) + 1, name, description, true)
    &&& s2.permissions == s.permissions.push(p)
    &&& s2.user_permissions == s.user_permissions
}

/// A call that changes the state answered as `outcome` says: on success the state became the
/// outcome's state, on failure it returned the outcome's error and left the state alone.
pub open spec fn answered(
    r: Result<(), AppError>,
    before: PermissionsState,
    after: PermissionsState,
    outcome: Result<PermissionsState, AppError>,
) -> bool {
    match outcome {
        Ok(s2) => r == Ok::<(), AppError>(()) && after == s2,
        Err(e) => r == Err::<(), AppError>(e) && after == before,
    }
}

/// The permissions and grants that a service starts with.
pub open spec fn initial_state(s: PermissionsState) -> bool {
    &&& s.permissions.len() == 8
    &&& is_entry(s.permissions[0], 1, "users_full"@, "Full access to users endpoints"@, false)
    &&& is_entry(s.permissions[1], 2, "users_read"@, "Only access to users GET endpoints"@, false)
    &&& is_entry(
        s.permissions[2],
        3,
        "users_write"@,
        "Only access to users POST, PUT and DELETE endpoints"@,
        false,
    )
    &&& is_entry(
        s.permissions[3],
        4,
        "permissions_full"@,
        "Full access to permissions endpoints"@,
        false,
    )
    &&& is_entry(
        s.permissions[4],
        5,
        "permissions_read"@,
        "Only access to permissions GET endpoints"@,
        false,
    )
    &&& is_entry(
        s.permissions[5],
        6,
        "permissions_write"@,
        "Only access to permissions POST, PUT and DELETE endpoints"@,
        false,
    )
    &&& is_entry(s.permissions[6], 7, "grant_permission"@, "Grant a permission to an user"@, false)
    &&& is_entry(s.permissions[7], 8, "revoke_permission"@, "Revoke a permission to an user"@, false)
    &&& s.user_permissions == seq![
        UserPermission { user_id: 1, permission_id: 1 },
        UserPermission { user_id: 1, permission_id: 4 },
        UserPermission { user_id: 1, permission_id: 7 },
        UserPermission { user_id: 1, permission_id: 8 },
        UserPermission { user_id: 2, permission_id: 2 },
        UserPermission { user_id: 2, permission_id: 5 },
    ]
}

/// Every id is at most `max_id`, and `max_id` is not negative.
pub proof fn lemma_max_id_bounds(perms: Seq<Permission>)
    ensures
        max_id(perms) >= 0,
        forall|k: int| 0 <= k < perms.len() ==> perms[k].id <= max_id(perms),
    decreases perms.len(),
{
    if perms.len() > 0 {
        lemma_max_id_bounds(perms.drop_last());
        assert forall|k: int| 0 <= k < perms.len() implies perms[k].id <= max_id(perms) by {
            if k < perms.len() - 1 {
                assert(perms[k] == perms.drop_last()[k]);
            }
        }
    }
}

/// When no grant at or after `from` matches, none of those grants is the pair.
pub proof fn lemma_find_grant_none(ups: Seq<UserPermission>, user_id: i64, permission_id: i64, from: int)
    requires
        0 <= from,
        find_grant(ups, user_id, permission_id, from) == -1,
    ensures
        forall|i: int|
            from <= i < ups.len() ==> !(ups[i].user_id == user_id && ups[i].permission_id
                == permission_id),
    decreases ups.len() - from,
{
    if from < ups.len() {
        lemma_find_grant_none(ups, user_id, permission_id, from + 1);
    }
}

/// The index that `find_grant` gives holds a matching grant.
pub proof fn lemma_find_grant_some(ups: Seq<UserPermission>, user_id: i64, permission_id: i64, from: int)
    requires
        0 <= from,
    ensures
        find_grant(ups, user_id, permission_id, from) == -1 || (from <= find_grant(
            ups,
            user_id,
            permission_id,
            from,
        ) < ups.len() && ups[find_grant(ups, user_id, permission_id, from)].user_id == user_id
            && ups[find_grant(ups, user_id, permission_id, from)].permission_id == permission_id),
    decreases ups.len() - from,
{
    if from < ups.len() {
        lemma_find_grant_some(ups, user_id, permission_id, from + 1);
    }
}

/// The index that `find_name` gives holds a permission of that name.
pub proof fn lemma_find_name_some(perms: Seq<Permission>, name: Seq<char>, from: int)
    requires
        0 <= from,
    ensures
        find_name(perms, name, from) == -1 || (from <= find_name(perms, name, from) < perms.len()
            && same_name(perms[find_name(perms, name, from)].name@, name)),
    decreases perms.len() - from,
{
    if from < perms.len() {
        lemma_find_name_some(perms, name, from + 1);
    }
}

/// Removing an element keeps the grants distinct.
proof fn lemma_remove_keeps_distinct(ups: Seq<UserPermission>, i: int)
    requires
        distinct_grants(ups),
        0 <= i < ups.len(),
    ensures
        distinct_grants(ups.remove(i)),
{
    let r = ups.remove(i);
    assert forall|a: int, b: int| 0 <= a < b < r.len() implies r[a] != r[b] by {
        let a2 = if a < i { a } else { a + 1 };
        let b2 = if b < i { b } else { b + 1 };
        assert(r[a] == ups[a2]);
        assert(r[b] == ups[b2]);
    }
}

/// Removing an element keeps the ids distinct.
proof fn lemma_remove_keeps_ids(perms: Seq<Permission>, i: int)
    requires
        distinct_ids(perms),
        0 <= i < perms.len(),
    ensures
        distinct_ids(perms.remove(i)),
{
    let r = perms.remove(i);
    assert forall|a: int, b: int| 0 <= a < b < r.len() implies r[a].id != r[b].id by {
        let a2 = if a < i { a } else { a + 1 };
        let b2 = if b < i { b } else { b + 1 };
        assert(r[a] == perms[a2]);
        assert(r[b] == perms[b2]);
    }
}

/// Index of the first permission named `name` up to case.
fn position_by_name(permissions: &Vec<Permission>, name: &str) -> (r: Option<usize>)
    ensures
        match r {
            Some(i) => i as int == find_name(permissions@, name@, 0) && i < permissions@.len(),
            None => find_name(permissions@, name@, 0) == -1,
        },
{
    let mut i: usize = 0;
    while i < permissions.len()
        invariant
            0 <= i <= permissions@.len(),
            find_name(permissions@, name@, 0) == find_name(permissions@, name@, i as int),
        decreases permissions@.len() - i,
    {
        if names_match(permissions[i].name.as_str(), name) {
            return Some(i);
        }
        i += 1;
    }
    None
}

/// Holds the catalog of permissions and the grants of permissions to users.
pub struct PermissionsService {
    logger: Logger,
    permissions: Vec<Permission>,
    user_permissions: Vec<UserPermission>,
}

impl View for PermissionsService {
    type V = PermissionsState;

    closed spec fn view(&self) -> PermissionsState {
        PermissionsState { permissions: self.permissions@, user_permissions: self.user_permissions@ }
    }
}

impl PermissionsService {
    /// Permission ids are unique and no grant is held twice.
    #[verifier::type_invariant]
    pub open spec fn well_formed(self) -> bool {
        self@.wf()
    }
}

impl Clone for PermissionsService {
    fn clone(&self) -> (r: Self)
        ensures
            r@ == self@,
    {
        proof {
            use_type_invariant(self);
        }
        let permissions = self.permissions.clone();
        let user_permissions = self.user_permissions.clone();
        assert(permissions@ =~= self.permissions@);
        assert(user_permissions@ =~= self.user_permissions@);
        PermissionsService { logger: self.logger, permissions, user_permissions }
    }
}

impl PermissionsService {
    /// A service holding the eight built-in permissions and the grants of the two built-in users.
    pub fn new(logger: &Logger) -> (r: PermissionsService)
        ensures
            r@.wf(),
            initial_state(r@),
    {
        let permissions = vec![
            Permission {
                id: 1,
                name: String::from_str("users_full"),
                description: String::from_str("Full access to users endpoints"),
                deletable: false,
            },
            Permission {
                id: 2,
                name: String::from_str("users_read"),
                description: String::from_str("Only access to users GET endpoints"),
                deletable: false,
            },
            Permission {
                id: 3,
                name: String::from_str("users_write"),
                description: String::from_str("Only access to users POST, PUT and DELETE endpoints"),
                deletable: false,
            },
            Permission {
                id: 4,
                name: String::from_str("permissions_full"),
                description: String::from_str("Full access to permissions endpoints"),
                deletable: false,
            },
            Permission {
                id: 5,
                name: String::from_str("permissions_read"),
                description: String::from_str("Only access to permissions GET endpoints"),
                deletable: false,
            },
            Permission {
                id: 6,
                name: String::from_str("permissions_write"),
                description: String::from_str(
                    "Only access to permissions POST, PUT and DELETE endpoints",
                ),
                deletable: false,
            },
            Permission {
                id: 7,
                name: String::from_str("grant_permission"),
                description: String::from_str("Grant a permission to an user"),
                deletable: false,
            },
            Permission {
                id: 8,
                name: String::from_str("revoke_permission"),
                description: String::from_str("Revoke a permission to an user"),
                deletable: false,
            },
        ];
        let user_permissions = vec![
            UserPermission { user_id: 1, permission_id: 1 },
            UserPermission { user_id: 1, permission_id: 4 },
            UserPermission { user_id: 1, permission_id: 7 },
            UserPermission { user_id: 1, permission_id: 8 },
            UserPermission { user_id: 2, permission_id: 2 },
            UserPermission { user_id: 2, permission_id: 5 },
        ];
        let r = PermissionsService { logger: *logger, permissions, user_permissions };
        assert(r@.user_permissions =~= seq![
            UserPermission { user_id: 1, permission_id: 1 },
            UserPermission { user_id: 1, permission_id: 4 },
            UserPermission { user_id: 1, permission_id: 7 },
            UserPermission { user_id: 1, permission_id: 8 },
            UserPermission { user_id: 2, permission_id: 2 },
            UserPermission { user_id: 2, permission_id: 5 },
        ]);
        r
    }

    /// Adds a deletable permission with the next free id (one above the highest id), unless a
    /// permission of that name exists up to case.
    pub fn create(&mut self, name: &str, description: &str) -> (r: Result<Permission, AppError>)
        requires
            find_name(old(self)@.permissions, name@, 0) == -1 ==> max_id(old(self)@.permissions)
                < i64::MAX,
        ensures
            final(self)@.wf(),
            match r {
                Ok(p) => created(old(self)@, name@, description@, final(self)@, p),
                Err(e) => {
                    &&& e == AppError::PermissionAlreadyExists
                    &&& find_name(old(self)@.permissions, name@, 0) >= 0
                    &&& final(self)@ == old(self)@
                },
            },
    {
        proof {
            use_type_invariant(&*self);
        }
        let mut last_id: i64 = 0;
        let mut i: usize = 0;
        while i < self.permissions.len()
            invariant
                0 <= i <= self.permissions@.len(),
                self@ == old(self)@,
                old(self)@.wf(),
                find_name(self.permissions@, name@, 0) == find_name(
                    self.permissions@,
                    name@,
                    i as int,
                ),
                last_id == max_id(self.permissions@.take(i as int)),
            decreases self.permissions@.len() - i,
        {
            if names_match(self.permissions[i].name.as_str(), name) {
                return Err(AppError::PermissionAlreadyExists);
            }
            assert(self.permissions@.take(i + 1).drop_last() =~= self.permissions@.take(i as int));
            if self.permissions[i].id > last_id {
                last_id = self.permissions[i].id;
            }
            i += 1;
        }
        assert(self.permissions@.take(i as int) =~= self.permissions@);
        proof {
            lemma_max_id_bounds(self.permissions@);
        }
        let permission = Permission {
            id: last_id + 1,
            name: name.to_owned(),
            description: description.to_owned(),
            deletable: true,
        };
        let mut permissions = Vec::new();
        std::mem::swap(&mut permissions, &mut self.permissions);
        permissions.push(permission.clone());
        self.permissions = permissions;
        Ok(permission)
    }

    /// The highest permission id, or 0 when no id is above 0.
    pub fn max_id(&self) -> (r: i64)
        ensures
            r == max_id(self@.permissions),
    {
        let mut last_id: i64 = 0;
        let mut i: usize = 0;
        while i < self.permissions.len()
            invariant
                0 <= i <= self.permissions@.len(),
                last_id == max_id(self.permissions@.take(i as int)),
            decreases self.permissions@.len() - i,
        {
            assert(self.permissions@.take(i + 1).drop_last() =~= self.permissions@.take(i as int));
            if self.permissions[i].id > last_id {
                last_id = self.permissions[i].id;
            }
            i += 1;
        }
        assert(self.permissions@.take(i as int) =~= self.permissions@);
        last_id
    }

    /// The first permission with id `id`.
    pub fn get_by_id(&self, id: i64) -> (r: Option<&Permission>)
        ensures
            match r {
                Some(p) => {
                    let k = find_id(self@.permissions, id, 0);
                    &&& 0 <= k < self@.permissions.len()
                    &&& *p == self@.permissions[k]
                },
                None => find_id(self@.permissions, id, 0) == -1,
            },
    {
        let mut i: usize = 0;
        while i < self.permissions.len()
            invariant
                0 <= i <= self.permissions@.len(),
                find_id(self.permissions@, id, 0) == find_id(self.permissions@, id, i as int),
            decreases self.permissions@.len() - i,
        {
            if self.permissions[i].id == id {
                return Some(&self.permissions[i]);
            }
            i += 1;
        }
        None
    }

    /// The first permission whose name is `name` up to case.
    pub fn get_by_name(&self, name: &str) -> (r: Option<&Permission>)
        ensures
            match r {
                Some(p) => {
                    let k = find_name(self@.permissions, name@, 0);
                    &&& 0 <= k < self@.permissions.len()
                    &&& *p == self@.permissions[k]
                },
                None => find_name(self@.permissions, name@, 0) == -1,
            },
    {
        let mut i: usize = 0;
        while i < self.permissions.len()
            invariant
                0 <= i <= self.permissions@.len(),
                find_name(self.permissions@, name@, 0) == find_name(
                    self.permissions@,
                    name@,
                    i as int,
                ),
            decreases self.permissions@.len() - i,
        {
            if names_match(self.permissions[i].name.as_str(), name) {
                return Some(&self.permissions[i]);
            }
            i += 1;
        }
        None
    }

    /// All permissions, in order.
    pub fn get_all(&self) -> (r: Vec<Permission>)
        ensures
            r@ == self@.permissions,
    {
        let r = self.permissions.clone();
        assert(r@ =~= self.permissions@);
        r
    }

    /// Deleting permission `name` runs to its end: the removal of its grants stays within the list.
    pub fn delete_completes(&self, name: &str) -> (r: bool)
        ensures
            r == self@.delete_completes(name@),
    {
        let index = match position_by_name(&self.permissions, name) {
            None => {
                return true;
            },
            Some(index) => index,
        };
        if !self.permissions[index].deletable {
            return true;
        }
        let permission_id = self.permissions[index].id;
        let ghost grants = self.user_permissions@;
        let mut len: usize = self.user_permissions.len();
        let ghost mut current = self.user_permissions@;
        let mut i: usize = 0;
        while i < self.user_permissions.len()
            invariant
                0 <= i <= grants.len(),
                grants == self.user_permissions@,
                self@.grants_after_delete(name@) == remove_at_old_indices(
                    grants,
                    grants,
                    permission_id,
                    0,
                ),
                len == current.len(),
                remove_at_old_indices(current, grants, permission_id, i as int)
                    == remove_at_old_indices(grants, grants, permission_id, 0),
            decreases grants.len() - i,
        {
            if self.user_permissions[i].permission_id == permission_id {
                if i >= len {
                    assert(remove_at_old_indices(current, grants, permission_id, i as int) is None);
                    return false;
                }
                proof {
                    current = current.remove(i as int);
                }
                len = len - 1;
            }
            i += 1;
        }
        true
    }

    /// Deletes permission `name` (matched up to case) when it is deletable, then walks the grants
    /// as they stood and removes each grant of it at the index it had before the walk.
    pub fn delete(&mut self, name: &str) -> (r: Result<(), AppError>)
        requires
            old(self)@.delete_completes(name@),
        ensures
            final(self)@.wf(),
            answered(r, old(self)@, final(self)@, delete_outcome(old(self)@, name@)),
    {
        proof {
            use_type_invariant(&*self);
        }
        proof {
            lemma_find_name_some(self.permissions@, name@, 0);
        }
        let index = match position_by_name(&self.permissions, name) {
            None => {
                return Err(AppError::PermissionNotFound);
            },
            Some(index) => index,
        };
        let permission = self.permissions[index].clone();
        if !permission.deletable {
            return Err(AppError::PermissionNotDeletable);
        }
        let mut permissions = Vec::new();
        std::mem::swap(&mut permissions, &mut self.permissions);
        let mut grants = Vec::new();
        std::mem::swap(&mut grants, &mut self.user_permissions);
        permissions.remove(index);
        proof {
            lemma_remove_keeps_ids(old(self)@.permissions, index as int);
        }
        let snapshot = grants.clone();
        assert(snapshot@ =~= grants@);
        let ghost target = old(self)@.grants_after_delete(name@)->Some_0;
        let mut i: usize = 0;
        while i < snapshot.len()
            invariant
                0 <= i <= snapshot@.len(),
                snapshot@ == old(self)@.user_permissions,
                permissions@ == old(self)@.permissions.remove(index as int),
                distinct_ids(permissions@),
                distinct_grants(grants@),
                remove_at_old_indices(grants@, snapshot@, permission.id, i as int) == Some(target),
            decreases snapshot@.len() - i,
        {
            if snapshot[i].permission_id == permission.id {
                proof {
                    lemma_remove_keeps_distinct(grants@, i as int);
                }
                grants.remove(i);
            }
            i += 1;
        }
        self.permissions = permissions;
        self.user_permissions = grants;
        Ok(())
    }

    /// The grants held by user `user_id`, in order.
    pub fn get_permissions_for_user(self, user_id: i64) -> (r: Vec<UserPermission>)
        ensures
            r@ == grants_of(self@.user_permissions, user_id),
    {
        let mut r: Vec<UserPermission> = Vec::new();
        let mut i: usize = 0;
        while i < self.user_permissions.len()
            invariant
                0 <= i <= self.user_permissions@.len(),
                r@ == grants_of(self.user_permissions@.take(i as int), user_id),
            decreases self.user_permissions@.len() - i,
        {
            assert(self.user_permissions@.take(i + 1).drop_last() =~= self.user_permissions@.take(
                i as int,
            ));
            if self.user_permissions[i].user_id == user_id {
                r.push(self.user_permissions[i]);
            }
            i += 1;
        }
        assert(self.user_permissions@.take(i as int) =~= self.user_permissions@);
        r
    }

    /// Index of the first grant of permission `permission_id` to user `user_id`.
    fn position_of_grant(&self, user_id: i64, permission_id: i64) -> (r: Option<usize>)
        ensures
            match r {
                Some(i) => i as int == find_grant(self@.user_permissions, user_id, permission_id, 0)
                    && i < self@.user_permissions.len(),
                None => find_grant(self@.user_permissions, user_id, permission_id, 0) == -1,
            },
    {
        let mut i: usize = 0;
        while i < self.user_permissions.len()
            invariant
                0 <= i <= self.user_permissions@.len(),
                find_grant(self.user_permissions@, user_id, permission_id, 0) == find_grant(
                    self.user_permissions@,
                    user_id,
                    permission_id,
                    i as int,
                ),
            decreases self.user_permissions@.len() - i,
        {
            if self.user_permissions[i].user_id == user_id && self.user_permissions[i].permission_id
                == permission_id {
                return Some(i);
            }
            i += 1;
        }
        None
    }

    /// Whether user `user_id` holds permission `permission_id`.
    pub fn user_has_permission(&self, user_id: i64, permission_id: i64) -> (r: bool)
        ensures
            r == self@.has_grant(user_id, permission_id),
    {
        self.position_of_grant(user_id, permission_id).is_some()
    }

    /// Grants permission `permission_name` (matched up to case) to user `user_id`, unless the
    /// user holds it already.
    pub fn grant_permission(&mut self, user_id: i64, permission_name: &str) -> (r: Result<
        (),
        AppError,
    >)
        ensures
            final(self)@.wf(),
            answered(r, old(self)@, final(self)@, grant_outcome(old(self)@, user_id, permission_name@)),
    {
        proof {
            use_type_invariant(&*self);
        }
        let index = match position_by_name(&self.permissions, permission_name) {
            None => {
                return Err(AppError::PermissionNotFound);
            },
            Some(index) => index,
        };
        let permission_id = self.permissions[index].id;
        if self.user_has_permission(user_id, permission_id) {
            return Err(AppError::UserAlreadyHasPermission);
        }
        proof {
            lemma_find_grant_some(self.user_permissions@, user_id, permission_id, 0);
            lemma_find_grant_none(self.user_permissions@, user_id, permission_id, 0);
        }
        let mut grants = Vec::new();
        std::mem::swap(&mut grants, &mut self.user_permissions);
        grants.push(UserPermission { user_id, permission_id });
        self.user_permissions = grants;
        Ok(())
    }

    /// Withdraws permission `permission_name` (matched up to case) from user `user_id`, removing
    /// the first such grant.
    pub fn revoke_permission(&mut self, user_id: i64, permission_name: &str) -> (r: Result<
        (),
        AppError,
    >)
        ensures
            final(self)@.wf(),
            answered(r, old(self)@, final(self)@, revoke_outcome(old(self)@, user_id, permission_name@)),
    {
        proof {
            use_type_invariant(&*self);
        }
        let index = match position_by_name(&self.permissions, permission_name) {
            None => {
                return Err(AppError::PermissionNotFound);
            },
            Some(index) => index,
        };
        let permission_id = self.permissions[index].id;
        let position = match self.position_of_grant(user_id, permission_id) {
            None => {
                return Err(AppError::UserPermissionNotFound);
            },
            Some(position) => position,
        };
        proof {
            lemma_remove_keeps_distinct(self.user_permissions@, position as int);
        }
        let mut grants = Vec::new();
        std::mem::swap(&mut grants, &mut self.user_permissions);
        grants.remove(position);
        self.user_permissions = grants;
        Ok(())
    }
}

} // verus!
