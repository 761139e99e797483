//! The users service: the accounts that can sign in.

use vstd::prelude::*;

use crate::error::AppError;
use crate::logger::Logger;
use crate::models::User;
use crate::otp::{new_totp, random_secret, OtpAlgorithm, OtpGenerator, OtpModel};
use crate::text::{names_match, same_name};

verus! {

/// Index of the first user at or after `from` whose id is `id`; -1 when there is none.
pub open spec fn find_user_id(users: Seq<User>, id: i64, from: int) -> int
    decreases users.len() - from,
{
    if from < 0 || from >= users.len() {
        -1
    } else if users[from].id == id {
        from
    } else {
        find_user_id(users, id, from + 1)
    }
}

/// Index of the first user at or after `from` whose username is `name` up to case; -1 when there is none.
pub open spec fn find_username(users: Seq<User>, name: Seq<char>, from: int) -> int
    decreases users.len() - from,
{
    if from < 0 || from >= users.len() {
        -1
    } else if same_name(users[from].username@, name) {
        from
    } else {
        find_username(users, name, from + 1)
    }
}

/// The highest user id, or 0 when no id is above 0.
pub open spec fn max_user_id(users: Seq<User>) -> i64
    decreases users.len(),
{
    if users.len() == 0 {
        0
    } else {
        let m = max_user_id(users.drop_last());
        if users.last().id > m {
            users.last().id
        } else {
            m
        }
    }
}

/// No two users share an id.
pub open spec fn distinct_user_ids(users: Seq<User>) -> bool {
    forall|i: int, j: int| 0 <= i < j < users.len() ==> users[i].id != users[j].id
}

/// The generator that the service gives account `account_name`: SHA-1, codes of six digits, one
/// step of skew, steps of 30 seconds, a secret of 20 bytes, and "Rust Auth" as issuer.
pub open spec fn service_generator(g: OtpModel, account_name: Seq<char>) -> bool {
    &&& g.algorithm == OtpAlgorithm::Sha1
    &&& g.digits == 6
    &&& g.skew == 1
    &&& g.step == 30
    &&& g.secret.len() == 20
    &&& g.issuer == Some("Rust Auth"@)
    &&& g.account_name == account_name
}

/// A user with the given id, name, password and second-factor flag, and the service's generator
/// for that name.
pub open spec fn is_account(u: User, id: int, username: Seq<char>, password: Seq<char>, otp_enabled: bool) -> bool {
    &&& u.id == id
    &&& u.username@ == username
    &&& u.password@ == password
    &&& u.otp_enabled == otp_enabled
    &&& service_generator(u.otp@, username)
}

/// Every user's generator can check codes.
pub open spec fn generators_checkable(users: Seq<User>) -> bool {
    forall|i: int| 0 <= i < users.len() ==> (#[trigger] users[i]).otp@.checkable()
}

/// `users2` and `u` are what signing up `username` with `password` gives in `users`.
pub open spec fn signed_up(
    users: Seq<User>,
    username: Seq<char>,
    password: Seq<char>,
    users2: Seq<User>,
    u: User,
) -> bool {
    &&& find_username(users, username, 0) == -1
    &&& !username.contains(':')
    &&& is_account(u, max_user_id(users) + 1, username, password, false)
    &&& users2 == users.push(u)
}

/// `users2` is `users` with the second-factor flag of user `k` switched.
pub open spec fn otp_toggled(users: Seq<User>, k: int, users2: Seq<User>) -> bool {
    &&& 0 <= k < users.len()
    &&& users2.len() == users.len()
    &&& forall|i: int| 0 <= i < users.len() && i != k ==> users2[i] == users[i]
    &&& users2[k].id == users[k].id
    &&& users2[k].username == users[k].username
    &&& users2[k].password == users[k].password
    &&& users2[k].otp == users[k].otp
    &&& users2[k].otp_enabled == !users[k].otp_enabled
}

/// Every id is at most `max_user_id`, and `max_user_id` is not negative.
pub proof fn lemma_max_user_id_bounds(users: Seq<User>)
    ensures
        max_user_id(users) >= 0,
        forall|k: int| 0 <= k < users.len() ==> users[k].id <= max_user_id(users),
    decreases users.len(),
{
    if users.len() > 0 {
        lemma_max_user_id_bounds(users.drop_last());
        assert forall|k: int| 0 <= k < users.len() implies users[k].id <= max_user_id(users) by {
            if k < users.len() - 1 {
                assert(users[k] == users.drop_last()[k]);
            }
        }
    }
}

/// The index that `find_username` gives holds a user of that name.
pub proof fn lemma_find_username_some(users: Seq<User>, name: Seq<char>, from: int)
    requires
        0 <= from,
    ensures
        find_username(users, name, from) == -1 || (from <= find_username(users, name, from)
            < users.len() && same_name(users[find_username(users, name, from)].username@, name)),
    decreases users.len() - from,
{
    if from < users.len() {
        lemma_find_username_some(users, name, from + 1);
    }
}

/// Index of the first user named `name` up to case.
fn position_by_username(users: &Vec<User>, name: &str) -> (r: Option<usize>)
    ensures
        match r {
            Some(i) => i as int == find_username(users@, name@, 0) && i < users@.len(),
            None => find_username(users@, name@, 0) == -1,
        },
{
    let mut i: usize = 0;
    while i < users.len()
        invariant
            0 <= i <= users@.len(),
            find_username(users@, name@, 0) == find_username(users@, name@, i as int),
        decreases users@.len() - i,
    {
        if names_match(users[i].username.as_str(), name) {
            return Some(i);
        }
        i += 1;
    }
    None
}

/// Index of the first user with id `id`.
fn position_by_id(users: &Vec<User>, id: i64) -> (r: Option<usize>)
    ensures
        match r {
            Some(i) => i as int == find_user_id(users@, id, 0) && i < users@.len(),
            None => find_user_id(users@, id, 0) == -1,
        },
{
    let mut i: usize = 0;
    while i < users.len()
        invariant
            0 <= i <= users@.len(),
            find_user_id(users@, id, 0) == find_user_id(users@, id, i as int),
        decreases users@.len() - i,
    {
        if users[i].id == id {
            return Some(i);
        }
        i += 1;
    }
    None
}

/// A fresh one-time password generator for account `username`, issued by the service.
fn new_generator(username: &str) -> (r: Result<OtpGenerator, totp_rs::TotpUrlError>)
    ensures
        r is Ok <==> !username@.contains(':'),
        r matches Ok(g) ==> service_generator(g@, username@),
{
    let secret = random_secret();
    let issuer = String::from_str("Rust Auth");
    proof {
        reveal_strlit("Rust Auth");
    }
    new_totp(OtpAlgorithm::Sha1, 6, 1, 30, secret, Some(issuer), username.to_owned())
}

/// Holds the user accounts.
pub struct UsersService {
    logger: Logger,
    users: Vec<User>,
}

impl View for UsersService {
    type V = Seq<User>;

    closed spec fn view(&self) -> Seq<User> {
        self.users@
    }
}

impl UsersService {
    /// No two users share an id, and every user's generator can check codes.
    #[verifier::type_invariant]
    pub open spec fn well_formed(self) -> bool {
        &&& distinct_user_ids(self@)
        &&& generators_checkable(self@)
    }
}

impl Clone for UsersService {
    fn clone(&self) -> (r: Self)
        ensures
            r@ == self@,
    {
        proof {
            use_type_invariant(self);
        }
        let users = self.users.clone();
        assert(users@ =~= self.users@);
        UsersService { logger: self.logger, users }
    }
}

impl UsersService {
    /// A service holding the two built-in accounts, `admin` and `dsolarte`, without second factor,
    /// each with the service's generator for its name.
    pub fn new(logger: &Logger) -> (r: UsersService)
        ensures
            distinct_user_ids(r@),
            generators_checkable(r@),
            r@.len() == 2,
            is_account(r@[0], 1, "admin"@, "admin"@, false),
            is_account(r@[1], 2, "dsolarte"@, "1234"@, false),
    {
        proof {
            reveal_strlit("admin");
            reveal_strlit("dsolarte");
        }
        let admin_otp = new_generator("admin").unwrap();
        let other_otp = new_generator("dsolarte").unwrap();
        let users = vec![
            User {
                id: 1,
                username: String::from_str("admin"),
                password: String::from_str("admin"),
                otp_enabled: false,
                otp: admin_otp,
            },
            User {
                id: 2,
                username: String::from_str("dsolarte"),
                password: String::from_str("1234"),
                otp_enabled: false,
                otp: other_otp,
            },
        ];
        UsersService { logger: *logger, users }
    }

    /// Adds an account with the next free id (one above the highest id), no second factor and a
    /// fresh one-time password generator, unless an account of that name exists up to case. The
    /// generator refuses a name that holds `:`.
    pub fn create(&mut self, username: &str, password: &str) -> (r: Result<User, AppError>)
        requires
            find_username(old(self)@, username@, 0) == -1 ==> max_user_id(old(self)@) < i64::MAX,
        ensures
            distinct_user_ids(final(self)@),
            match r {
                Ok(u) => signed_up(old(self)@, username@, password@, final(self)@, u),
                Err(e) => {
                    &&& final(self)@ == old(self)@
                    &&& if find_username(old(self)@, username@, 0) >= 0 {
                        e == AppError::UserAlreadyExists
                    } else {
                        e == AppError::InternalServerError && username@.contains(':')
                    }
                },
            },
    {
        proof {
            use_type_invariant(&*self);
        }
        let mut last_id: i64 = 0;
        let mut i: usize = 0;
        while i < self.users.len()
            invariant
                0 <= i <= self.users@.len(),
                self@ == old(self)@,
                distinct_user_ids(old(self)@),
                generators_checkable(old(self)@),
                find_username(self.users@, username@, 0) == find_username(
                    self.users@,
                    username@,
                    i as int,
                ),
                last_id == max_user_id(self.users@.take(i as int)),
            decreases self.users@.len() - i,
        {
            if names_match(self.users[i].username.as_str(), username) {
                return Err(AppError::UserAlreadyExists);
            }
            assert(self.users@.take(i + 1).drop_last() =~= self.users@.take(i as int));
            if self.users[i].id > last_id {
                last_id = self.users[i].id;
            }
            i += 1;
        }
        assert(self.users@.take(i as int) =~= self.users@);
        proof {
            lemma_max_user_id_bounds(self.users@);
        }
        let otp = match new_generator(username) {
            Ok(otp) => otp,
            Err(_) => {
                return Err(AppError::InternalServerError);
            },
        };
        let user = User {
            id: last_id + 1,
            username: username.to_owned(),
            password: password.to_owned(),
            otp_enabled: false,
            otp,
        };
        let mut users = Vec::new();
        std::mem::swap(&mut users, &mut self.users);
        users.push(user.clone());
        assert(users@[users@.len() - 1].otp@.checkable());
        self.users = users;
        Ok(user)
    }

    /// The highest user id, or 0 when no id is above 0.
    pub fn max_id(&self) -> (r: i64)
        ensures
            r == max_user_id(self@),
    {
        let mut last_id: i64 = 0;
        let mut i: usize = 0;
        while i < self.users.len()
            invariant
                0 <= i <= self.users@.len(),
                last_id == max_user_id(self.users@.take(i as int)),
            decreases self.users@.len() - i,
        {
            assert(self.users@.take(i + 1).drop_last() =~= self.users@.take(i as int));
            if self.users[i].id > last_id {
                last_id = self.users[i].id;
            }
            i += 1;
        }
        assert(self.users@.take(i as int) =~= self.users@);
        last_id
    }

    /// The first user with id `id`.
    pub fn get_by_id(&self, id: i64) -> (r: Option<&User>)
        ensures
            match r {
                Some(u) => {
                    let k = find_user_id(self@, id, 0);
                    &&& 0 <= k < self@.len()
                    &&& *u == self@[k]
                },
                None => find_user_id(self@, id, 0) == -1,
            },
    {
        match position_by_id(&self.users, id) {
            Some(i) => Some(&self.users[i]),
            None => None,
        }
    }

    /// The first user whose username is `username` up to case.
    pub fn get_by_username(&self, username: &str) -> (r: Option<&User>)
        ensures
            match r {
                Some(u) => {
                    let k = find_username(self@, username@, 0);
                    &&& 0 <= k < self@.len()
                    &&& *u == self@[k]
                },
                None => find_username(self@, username@, 0) == -1,
            },
    {
        match position_by_username(&self.users, username) {
            Some(i) => Some(&self.users[i]),
            None => None,
        }
    }

    /// All users, in order.
    pub fn get_all(&self) -> (r: Vec<User>)
        ensures
            r@ == self@,
    {
        let r = self.users.clone();
        assert(r@ =~= self.users@);
        r
    }

    /// Removes the first user whose username is `username` up to case.
    pub fn delete(&mut self, username: &str) -> (r: Result<(), AppError>)
        ensures
            distinct_user_ids(final(self)@),
            ({
                let k = find_username(old(self)@, username@, 0);
                if k < 0 {
                    &&& r == Err::<(), AppError>(AppError::UserNotFound)
                    &&& final(self)@ == old(self)@
                } else {
                    &&& r == Ok::<(), AppError>(())
                    &&& final(self)@ == old(self)@.remove(k)
                }
            }),
    {
        proof {
            use_type_invariant(&*self);
        }
        let index = match position_by_username(&self.users, username) {
            None => {
                return Err(AppError::UserNotFound);
            },
            Some(index) => index,
        };
        let ghost before = self.users@;
        let mut users = Vec::new();
        std::mem::swap(&mut users, &mut self.users);
        users.remove(index);
        assert forall|a: int, b: int| 0 <= a < b < users@.len() implies users@[a].id != users@[b].id by {
            let a2 = if a < index { a } else { a + 1 };
            let b2 = if b < index { b } else { b + 1 };
            assert(users@[a] == before[a2]);
            assert(users@[b] == before[b2]);
        }
        assert forall|a: int| 0 <= a < users@.len() implies (#[trigger] users@[a]).otp@.checkable() by {
            let a2 = if a < index { a } else { a + 1 };
            assert(users@[a] == before[a2]);
        }
        self.users = users;
        Ok(())
    }

    /// Switches the second-factor flag of the first user with id `user_id`, and gives that user.
    pub fn change_otp_status_for_user(&mut self, user_id: i64) -> (r: Result<&User, AppError>)
        ensures
            distinct_user_ids(final(self)@),
            ({
                let k = find_user_id(old(self)@, user_id, 0);
                if k < 0 {
                    &&& r matches Err(e) && e == AppError::UserNotFound
                    &&& final(self)@ == old(self)@
                } else {
                    &&& otp_toggled(old(self)@, k, final(self)@)
                    &&& r matches Ok(u) && *u == final(self)@[k]
                }
            }),
    {
        proof {
            use_type_invariant(&*self);
        }
        let index = match position_by_id(&self.users, user_id) {
            None => {
                return Err(AppError::UserNotFound);
            },
            Some(index) => index,
        };
        let ghost before = self.users@;
        let mut users = Vec::new();
        std::mem::swap(&mut users, &mut self.users);
        let flag = !users[index].otp_enabled;
        users[index].otp_enabled = flag;
        assert forall|a: int| 0 <= a < users@.len() implies (#[trigger] users@[a]).otp@.checkable() by {
            assert(users@[a].otp == before[a].otp);
        }
        assert forall|a: int, b: int| 0 <= a < b < users@.len() implies users@[a].id != users@[b].id by {
            assert(users@[a].id == before[a].id);
            assert(users@[b].id == before[b].id);
        }
        self.users = users;
        Ok(&self.users[index])
    }
}

} // verus!
