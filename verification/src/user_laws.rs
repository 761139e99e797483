//! Laws of the users service: what its operations promise of one another.

use vstd::prelude::*;

use crate::auth_controller::{log_in_answer, signed_up_answer, token_answer, user_claims};
use crate::error::AppError;
use crate::models::{AuthResponse, User};
use crate::permissions::PermissionsState;
use crate::token::{authenticated, authenticated_at, AccessTokenPayload, TOKEN_LIFETIME_SECONDS};
use crate::text::same_name;
use crate::users::{
    find_user_id, find_username, lemma_find_username_some, lemma_max_user_id_bounds, otp_toggled,
    signed_up,
};

verus! {

/// No two users share a username up to case.
pub open spec fn unique_usernames(users: Seq<User>) -> bool {
    forall|i: int, j: int|
        0 <= i < j < users.len() ==> !same_name(#[trigger] users[i].username@, #[trigger] users[j].username@)
}

proof fn lemma_find_username_push(users: Seq<User>, u: User, name: Seq<char>, from: int)
    requires
        0 <= from <= users.len(),
        find_username(users, name, from) == -1,
        same_name(u.username@, name),
    ensures
        find_username(users.push(u), name, from) == users.len(),
    decreases users.len() - from,
{
    if from < users.len() {
        assert(users.push(u)[from] == users[from]);
        lemma_find_username_push(users, u, name, from + 1);
    }
}

proof fn lemma_find_user_id_push(users: Seq<User>, u: User, from: int)
    requires
        0 <= from <= users.len(),
        forall|i: int| from <= i < users.len() ==> users[i].id != u.id,
    ensures
        find_user_id(users.push(u), u.id, from) == users.len(),
    decreases users.len() - from,
{
    if from < users.len() {
        assert(users.push(u)[from] == users[from]);
        lemma_find_user_id_push(users, u, from + 1);
    }
}

proof fn lemma_find_username_none(users: Seq<User>, name: Seq<char>, from: int)
    requires
        0 <= from,
        find_username(users, name, from) == -1,
    ensures
        forall|i: int| from <= i < users.len() ==> !same_name(users[i].username@, name),
    decreases users.len() - from,
{
    if from < users.len() {
        lemma_find_username_none(users, name, from + 1);
    }
}

proof fn lemma_find_username_absent(users: Seq<User>, name: Seq<char>, from: int)
    requires
        0 <= from,
        forall|i: int| from <= i < users.len() ==> !same_name(users[i].username@, name),
    ensures
        find_username(users, name, from) == -1,
    decreases users.len() - from,
{
    if from < users.len() {
        lemma_find_username_absent(users, name, from + 1);
    }
}

/// After an account is opened, its name and its id both find it, and its password is the one
/// given: signing in with the same credentials finds the account.
pub proof fn law_sign_up_then_find(
    users: Seq<User>,
    username: Seq<char>,
    password: Seq<char>,
    users2: Seq<User>,
    u: User,
)
    requires
        signed_up(users, username, password, users2, u),
    ensures
        find_username(users2, username, 0) == users.len(),
        find_user_id(users2, u.id, 0) == users.len(),
        users2[users.len() as int] == u,
        u.password@ == password,
{
    lemma_max_user_id_bounds(users);
    lemma_find_username_push(users, u, username, 0);
    lemma_find_user_id_push(users, u, 0);
}

/// An account just opened signs in with its name and password, at any later time: the token names
/// the new account, with its permissions and no passed second factor.
pub proof fn law_sign_up_then_log_in(
    before: Seq<User>,
    after: Seq<User>,
    permissions: PermissionsState,
    username: Seq<char>,
    password: Seq<char>,
    now: i64,
    r: Result<AuthResponse, AppError>,
    later: i64,
    r2: Result<AuthResponse, AppError>,
)
    requires
        find_username(before, username, 0) == -1,
        !username.contains(':'),
        signed_up_answer(before, after, permissions, username, password, now, r),
        log_in_answer(after, permissions, username, password, later, r2),
    ensures
        token_answer(r2, user_claims(after, permissions, before.len() as int, false, later)),
        after[before.len() as int].username@ == username,
{
    law_sign_up_then_find(before, username, password, after, after.last());
}

/// The token that signing in gives, when the caller presents it and it is accepted, reads back as
/// the signed-in user's claims: id, name, permissions, second-factor state and expiry.
pub proof fn law_log_in_token_reads_back(
    users: Seq<User>,
    permissions: PermissionsState,
    username: Seq<char>,
    password: Seq<char>,
    now: i64,
    r: Result<AuthResponse, AppError>,
    r2: Result<AccessTokenPayload, AppError>,
)
    requires
        log_in_answer(users, permissions, username, password, now, r),
        r is Ok,
        authenticated(Some(r->Ok_0.access_token@), r2),
        r2 is Ok,
    ensures
        r2->Ok_0@ == user_claims(users, permissions, find_username(users, username, 0), false, now),
{
}

/// The token that signing in gives at time `now` is accepted at a time `later` exactly while
/// `later` is at most an hour and the leeway (60 seconds) after `now`, and then reads back as the
/// signed-in user's claims.
pub proof fn law_log_in_token_valid_for_an_hour(
    users: Seq<User>,
    permissions: PermissionsState,
    username: Seq<char>,
    password: Seq<char>,
    now: i64,
    r: Result<AuthResponse, AppError>,
    later: i64,
    r2: Result<AccessTokenPayload, AppError>,
)
    requires
        0 <= now,
        now + TOKEN_LIFETIME_SECONDS <= usize::MAX,
        log_in_answer(users, permissions, username, password, now, r),
        r is Ok,
        authenticated_at(Some(r->Ok_0.access_token@), later, r2),
    ensures
        r2 is Ok <==> later <= now + 3600 + 60,
        r2 is Ok ==> r2->Ok_0@ == user_claims(users, permissions, find_username(users, username, 0), false, now),
{
    let c = user_claims(users, permissions, find_username(users, username, 0), false, now);
    assert(c.exp == now + 3600);
    assert(crate::token::signed_token(c, crate::token::signing_secret()) == r->Ok_0.access_token@);
}

/// The token that opening an account gives at time `now` is accepted at a time `later` exactly
/// while `later` is at most an hour and the leeway after `now`, and then reads back as the new
/// account's claims, though the account holds no permission yet.
pub proof fn law_sign_up_token_valid_for_an_hour(
    before: Seq<User>,
    after: Seq<User>,
    permissions: PermissionsState,
    username: Seq<char>,
    password: Seq<char>,
    now: i64,
    r: Result<AuthResponse, AppError>,
    later: i64,
    r2: Result<AccessTokenPayload, AppError>,
)
    requires
        0 <= now,
        now + TOKEN_LIFETIME_SECONDS <= usize::MAX,
        find_username(before, username, 0) == -1,
        !username.contains(':'),
        signed_up_answer(before, after, permissions, username, password, now, r),
        authenticated_at(Some(r->Ok_0.access_token@), later, r2),
    ensures
        r is Ok,
        r2 is Ok <==> later <= now + 3600 + 60,
        r2 is Ok ==> r2->Ok_0@ == user_claims(after, permissions, before.len() as int, false, now),
        r2 is Ok ==> r2->Ok_0.username@ == username,
{
    let c = user_claims(after, permissions, before.len() as int, false, now);
    assert(c.exp == now + 3600);
    assert(crate::token::signed_token(c, crate::token::signing_secret()) == r->Ok_0.access_token@);
}

/// A new account gets an id above every id present before.
pub proof fn law_sign_up_fresh_id(
    users: Seq<User>,
    username: Seq<char>,
    password: Seq<char>,
    users2: Seq<User>,
    u: User,
)
    requires
        signed_up(users, username, password, users2, u),
    ensures
        forall|i: int| 0 <= i < users.len() ==> users[i].id < u.id,
        u.id >= 1,
{
    lemma_max_user_id_bounds(users);
}

/// Opening an account keeps usernames unique up to case.
pub proof fn law_sign_up_keeps_names_unique(
    users: Seq<User>,
    username: Seq<char>,
    password: Seq<char>,
    users2: Seq<User>,
    u: User,
)
    requires
        unique_usernames(users),
        signed_up(users, username, password, users2, u),
    ensures
        unique_usernames(users2),
{
    lemma_find_username_none(users, username, 0);
    assert forall|i: int, j: int| 0 <= i < j < users2.len() implies !same_name(
        #[trigger] users2[i].username@,
        #[trigger] users2[j].username@,
    ) by {
        assert(users2[i] == users[i]);
        if j < users.len() {
            assert(users2[j] == users[j]);
        } else {
            assert(!same_name(users[i].username@, username));
        }
    }
}

/// Switching the second-factor flag twice gives back the users as they were.
pub proof fn law_otp_toggle_twice(a: Seq<User>, b: Seq<User>, c: Seq<User>, k: int)
    requires
        otp_toggled(a, k, b),
        otp_toggled(b, k, c),
    ensures
        c == a,
{
    assert(c[k] == a[k]);
    assert(c =~= a);
}

/// Deleting a user, where usernames are unique up to case, leaves no user of that name.
pub proof fn law_delete_then_absent(users: Seq<User>, username: Seq<char>)
    requires
        unique_usernames(users),
        find_username(users, username, 0) >= 0,
    ensures
        find_username(users.remove(find_username(users, username, 0)), username, 0) == -1,
{
    let k = find_username(users, username, 0);
    lemma_find_username_some(users, username, 0);
    let r = users.remove(k);
    assert forall|i: int| 0 <= i < r.len() implies !same_name(r[i].username@, username) by {
        let j = if i < k { i } else { i + 1 };
        assert(r[i] == users[j]);
        if same_name(r[i].username@, username) {
            if j < k {
                assert(!same_name(users[j].username@, users[k].username@));
            } else {
                assert(!same_name(users[k].username@, users[j].username@));
            }
        }
    }
    lemma_find_username_absent(r, username, 0);
}

} // verus!
