use std::collections::HashMap;
use vstd::prelude::*;
use vstd::std_specs::iter::IteratorSpec;

verus! {

broadcast use vstd::std_specs::hash::group_hash_axioms;

/// Whether an account may be used.
#[derive(Debug, Clone, Copy, PartialEq, Eq, Structural)]
pub enum UserStatus {
    Active,
    Inactive,
}

/// A point in time, as chrono's `DateTime<Utc>` holds it: whole seconds
/// since the Unix epoch and the nanoseconds past that second.
#[derive(Debug, Clone, Copy, PartialEq, Eq, Structural)]
pub struct Timestamp {
    pub secs: i64,
    pub nanos: u32,
}

/// An account of the API server.
#[derive(Debug, Clone)]
pub struct User {
    pub id: i64,
    pub username: String,
    pub password: String,
    pub status: UserStatus,
    pub created_at: Timestamp,
    pub updated_at: Timestamp,
    pub last_login: Option<Timestamp>,
}

impl User {
    /// A field-by-field copy.
    pub fn duplicate(&self) -> (r: User)
        ensures
            r == *self,
    {
        User {
            id: self.id,
            username: self.username.clone(),
            password: self.password.clone(),
            status: self.status,
            created_at: self.created_at,
            updated_at: self.updated_at,
            last_login: self.last_login,
        }
    }
}

/// What a caller gives to create an account.
pub struct CreateUserDTO {
    pub username: String,
    pub password: String,
    pub status: UserStatus,
}

/// What a caller gives to change an account.
pub struct UpdateUserDTO {
    pub username: String,
    pub password: String,
    pub status: UserStatus,
    pub last_login: Option<Timestamp>,
}

/// Accounts by id, and the last id handed out.
pub struct InMemoryUserStore {
    pub counter: i64,
    pub items: HashMap<i64, User>,
}

/// Why a user operation failed.
#[derive(Debug, Clone, Copy, PartialEq, Eq, Structural)]
pub enum UserError {
    /// No account has this id.
    NotFound(i64),
}

/// The account service of the API server.
pub struct UserService {
    pub data: InMemoryUserStore,
}

/// `users` lists the accounts of `items` once each: `ids` holds each id of
/// `items` once, and the account at each place is the one under the id at
/// that place.
pub open spec fn listing(items: Map<i64, User>, ids: Seq<i64>, users: Seq<User>) -> bool {
    &&& ids.len() == users.len()
    &&& ids.len() == items.dom().len()
    &&& ids.no_duplicates()
    &&& forall|i: int| 0 <= i < ids.len() ==> items.contains_key(#[trigger] ids[i]) && users[i] == items[ids[i]]
}

/// The account that `create_user` makes from `req` with id `id` at time `now`.
pub open spec fn created_user(id: i64, req: CreateUserDTO, now: Timestamp) -> User {
    User {
        id: id,
        username: req.username,
        password: req.password,
        status: req.status,
        created_at: now,
        updated_at: now,
        last_login: None,
    }
}

/// `user` with the fields that `req` changes replaced.
pub open spec fn updated_user(user: User, req: UpdateUserDTO) -> User {
    User {
        username: req.username,
        password: req.password,
        status: req.status,
        last_login: req.last_login,
        ..user
    }
}

/// Reads the clock in milliseconds. Trusted: turns
/// `std::time::SystemTime::now()` into a `chrono::DateTime<Utc>` with
/// chrono's `From<SystemTime>` and takes its `timestamp_millis`; nothing is
/// claimed of the value, which is the time. Unlike `Utc::now`, that
/// conversion gives a negative reading for a clock set before 1970 instead of
/// panicking; it panics only for a reading more than about 262,000 years from
/// 1970, far outside what the kernel's clock (64-bit nanoseconds on Linux:
/// the years 1677 to 2262) can be set to.
#[verifier::external_body]
pub(crate) fn now_millis() -> (r: i64) {
    chrono::DateTime::<chrono::Utc>::from(std::time::SystemTime::now()).timestamp_millis()
}

/// Reads the clock to the nanosecond. Trusted: turns
/// `std::time::SystemTime::now()` into a `chrono::DateTime<Utc>` as
/// `now_millis` does and takes its `timestamp` and `timestamp_subsec_nanos`;
/// nothing is claimed of the value, which is the time.
#[verifier::external_body]
pub(crate) fn now_timestamp() -> (r: Timestamp) {
    let t = chrono::DateTime::<chrono::Utc>::from(std::time::SystemTime::now());
    Timestamp { secs: t.timestamp(), nanos: t.timestamp_subsec_nanos() }
}

impl Default for UserService {
    fn default() -> (r: Self)
        ensures
            r.data.counter == 0,
            r.data.items@ == Map::<i64, User>::empty(),
    {
        UserService { data: InMemoryUserStore { counter: 0, items: HashMap::new() } }
    }
}

impl UserService {
    /// Every account once, in the order the map is walked.
    pub fn get_all_users(&self) -> (r: Result<Vec<User>, UserError>)
        ensures
            r matches Ok(users) && exists|ids: Seq<i64>| #[trigger] listing(self.data.items@, ids, users@),
    {
        let mut users: Vec<User> = Vec::new();
        let entries = self.data.items.iter();
        let ghost walk = entries.remaining();
        let ghost m = self.data.items@;
        assert(walk.len() == m.dom().len());
        assert(walk.no_duplicates());
        for kv in it: entries
            invariant
                it.seq() == walk,
                m == self.data.items@,
                walk.len() == m.dom().len(),
                walk.no_duplicates(),
                forall|i: int| 0 <= i < walk.len() ==> m.contains_key(*(#[trigger] walk[i]).0) && m[*walk[i].0] == *walk[i].1,
                users@.len() == it.index(),
                forall|i: int| 0 <= i < it.index() ==> users@[i] == *(#[trigger] walk[i]).1,
        {
            users.push(kv.1.duplicate());
        }
        let ghost ids = walk.map_values(|kv: (&i64, &User)| *kv.0);
        assert forall|a: int, b: int| 0 <= a < ids.len() && 0 <= b < ids.len() && a != b
            implies ids[a] != ids[b] by {
            if ids[a] == ids[b] {
                assert(*walk[a].0 == *walk[b].0);
                assert(*walk[a].1 == m[*walk[a].0]);
                assert(*walk[b].1 == m[*walk[b].0]);
                assert(walk[a] == walk[b]);
            }
        }
        assert(listing(self.data.items@, ids, users@));
        let r: Result<Vec<User>, UserError> = Ok(users);
        assert(r matches Ok(us) && listing(self.data.items@, ids, us@));
        r
    }

    /// The account with id `id`.
    pub fn get_user_by_id(&self, id: i64) -> (r: Result<User, UserError>)
        ensures
            self.data.items@.contains_key(id) ==> r == Ok::<User, UserError>(self.data.items@[id]),
            !self.data.items@.contains_key(id) ==> r == Err::<User, UserError>(UserError::NotFound(id)),
    {
        match self.data.items.get(&id) {
            None => Err(UserError::NotFound(id)),
            Some(user) => Ok(user.duplicate()),
        }
    }
}

impl UserService {
    /// Some account named `name`, if there is one. Which one, where several
    /// share the name, depends on the order in which the map is walked.
    pub fn get_user_by_name(&self, name: &str) -> (r: Option<User>)
        ensures
            r matches Some(u) ==> self.data.items@.values().contains(u) && u.username@ == name@,
            r is None ==> forall|k: i64| #[trigger] self.data.items@.contains_key(k)
                ==> self.data.items@[k].username@ != name@,
    {
        let wanted: String = name.to_owned();
        let values = self.data.items.values();
        let ghost walk = values.remaining();
        assert(walk.unref().to_set() == self.data.items@.values());
        for u in it: values
            invariant
                it.seq() == walk,
                wanted@ == name@,
                walk.unref().to_set() == self.data.items@.values(),
                forall|i: int| 0 <= i < it.index() ==> (#[trigger] walk[i]).username@ != name@,
        {
            if u.username == wanted {
                assert(walk.unref()[it.index()] == *u);
                assert(walk.unref().to_set().contains(*u));
                return Some(u.duplicate());
            }
        }
        assert forall|k: i64| #[trigger] self.data.items@.contains_key(k)
            implies self.data.items@[k].username@ != name@ by {
            assert(self.data.items@.values().contains(self.data.items@[k]));
            assert(walk.unref().to_set().contains(self.data.items@[k]));
            let i = choose|i: int| 0 <= i < walk.unref().len() && walk.unref()[i] == self.data.items@[k];
            assert(walk[i].username@ != name@);
        }
        None
    }

    /// Creates an account at time `now` under the next id.
    pub fn create_user_at(&mut self, req: CreateUserDTO, now: Timestamp) -> (r: Result<User, UserError>)
        requires
            old(self).data.counter < i64::MAX,
        ensures
            final(self).data.counter == old(self).data.counter + 1,
            r == Ok::<User, UserError>(created_user(final(self).data.counter, req, now)),
            final(self).data.items@ == old(self).data.items@.insert(
                final(self).data.counter,
                created_user(final(self).data.counter, req, now),
            ),
            r is Ok,
            r->Ok_0.id == old(self).data.counter + 1,
            r->Ok_0.username == req.username,
            r->Ok_0.password == req.password,
            r->Ok_0.status == req.status,
            r->Ok_0.created_at == now,
            r->Ok_0.updated_at == now,
            r->Ok_0.last_login is None,
    {
        self.data.counter = self.data.counter + 1;
        let user = User {
            id: self.data.counter,
            username: req.username,
            password: req.password,
            status: req.status,
            created_at: now,
            updated_at: now,
            last_login: None,
        };
        let user_id = user.id;
        self.data.items.insert(user.id, user);
        match self.data.items.get(&user_id) {
            None => Err(UserError::NotFound(user_id)),
            Some(user) => Ok(user.duplicate()),
        }
    }

    /// Creates an account, stamped with the current time, under the next id.
    pub fn create_user(&mut self, req: CreateUserDTO) -> (r: Result<User, UserError>)
        requires
            old(self).data.counter < i64::MAX,
        ensures
            final(self).data.counter == old(self).data.counter + 1,
            exists|now: Timestamp| {
                &&& r == Ok::<User, UserError>(created_user(final(self).data.counter, req, now))
                &&& final(self).data.items@ == old(self).data.items@.insert(
                    final(self).data.counter,
                    created_user(final(self).data.counter, req, now),
                )
            },
            r is Ok,
            r->Ok_0.id == old(self).data.counter + 1,
            r->Ok_0.username == req.username,
            r->Ok_0.password == req.password,
            r->Ok_0.status == req.status,
            r->Ok_0.created_at == r->Ok_0.updated_at,
            r->Ok_0.last_login is None,
    {
        let now = now_timestamp();
        self.create_user_at(req, now)
    }

    /// Replaces the name, password, status and last login of account `id`,
    /// then reads back the account stored under the id of the changed record.
    pub fn update_user(&mut self, id: i64, req: UpdateUserDTO) -> (r: Result<User, UserError>)
        ensures
            final(self).data.counter == old(self).data.counter,
            !old(self).data.items@.contains_key(id) ==> {
                &&& r == Err::<User, UserError>(UserError::NotFound(id))
                &&& final(self).data.items@ == old(self).data.items@
            },
            old(self).data.items@.contains_key(id) ==> {
                let changed = updated_user(old(self).data.items@[id], req);
                let items = old(self).data.items@.insert(id, changed);
                &&& final(self).data.items@ == items
                &&& items.contains_key(changed.id) ==> r == Ok::<User, UserError>(items[changed.id])
                &&& !items.contains_key(changed.id) ==> r == Err::<User, UserError>(UserError::NotFound(id))
            },
            old(self).data.items@.contains_key(id) ==> {
                let stored = final(self).data.items@[id];
                &&& final(self).data.items@.contains_key(id)
                &&& stored.username == req.username
                &&& stored.password == req.password
                &&& stored.status == req.status
                &&& stored.last_login == req.last_login
                &&& stored.id == old(self).data.items@[id].id
                &&& stored.created_at == old(self).data.items@[id].created_at
                &&& stored.updated_at == old(self).data.items@[id].updated_at
            },
            old(self).data.items@.contains_key(id) && old(self).data.items@[id].id == id ==> {
                &&& r is Ok
                &&& r->Ok_0 == final(self).data.items@[id]
                &&& r->Ok_0.status == req.status
                &&& r->Ok_0.username == req.username
                &&& r->Ok_0.password == req.password
                &&& r->Ok_0.last_login == req.last_login
            },
    {
        let current = match self.data.items.get(&id) {
            None => {
                return Err(UserError::NotFound(id));
            },
            Some(user) => user.duplicate(),
        };
        let changed = User {
            id: current.id,
            username: req.username,
            password: req.password,
            status: req.status,
            created_at: current.created_at,
            updated_at: current.updated_at,
            last_login: req.last_login,
        };
        let user_id = changed.id;
        self.data.items.insert(id, changed);
        match self.data.items.get(&user_id) {
            None => Err(UserError::NotFound(id)),
            Some(user) => Ok(user.duplicate()),
        }
    }

    /// Removes account `id`.
    pub fn delete_user(&mut self, id: i64) -> (r: Result<(), UserError>)
        ensures
            final(self).data.counter == old(self).data.counter,
            final(self).data.items@ == old(self).data.items@.remove(id),
            r is Ok <==> old(self).data.items@.contains_key(id),
            r is Err ==> r == Err::<(), UserError>(UserError::NotFound(id)),
    {
        match self.data.items.remove(&id) {
            None => Err(UserError::NotFound(id)),
            Some(_) => Ok(()),
        }
    }
}

/// An account that was just created is found under its id, as created.
pub proof fn law_created_user_is_found(items: Map<i64, User>, id: i64, req: CreateUserDTO, now: Timestamp)
    ensures
        items.insert(id, created_user(id, req, now)).contains_key(id),
        items.insert(id, created_user(id, req, now))[id] == created_user(id, req, now),
        created_user(id, req, now).id == id,
        created_user(id, req, now).last_login is None,
{
}

/// A created account carries what was asked for: the given id, the
/// requested name, password and status, the creation time as both its
/// creation and change time, and no login yet.
pub proof fn law_created_user_has_requested_fields(id: i64, req: CreateUserDTO, now: Timestamp)
    ensures
        created_user(id, req, now).id == id,
        created_user(id, req, now).username == req.username,
        created_user(id, req, now).password == req.password,
        created_user(id, req, now).status == req.status,
        created_user(id, req, now).created_at == now,
        created_user(id, req, now).updated_at == now,
        created_user(id, req, now).last_login is None,
{
}

/// An update sets exactly the requested name, password, status and last
/// login, whatever the account held before (an inactive account can be made
/// active again), and keeps its id and times.
pub proof fn law_update_sets_requested_fields(user: User, req: UpdateUserDTO)
    ensures
        updated_user(user, req).username == req.username,
        updated_user(user, req).password == req.password,
        updated_user(user, req).status == req.status,
        updated_user(user, req).last_login == req.last_login,
        updated_user(user, req).id == user.id,
        updated_user(user, req).created_at == user.created_at,
        updated_user(user, req).updated_at == user.updated_at,
{
}

/// A deleted account is not found any more.
pub proof fn law_deleted_user_is_not_found(items: Map<i64, User>, id: i64)
    ensures
        !items.remove(id).contains_key(id),
{
}

/// In a store where no id is above the counter, creating an account never
/// replaces one: the new id is free.
pub proof fn law_new_id_is_fresh(items: Map<i64, User>, counter: i64)
    requires
        counter < i64::MAX,
        forall|k: i64| #[trigger] items.contains_key(k) ==> k <= counter,
    ensures
        !items.contains_key((counter + 1) as i64),
{
}

/// An update keeps the id and the creation and change times, and where each
/// account is stored under its own id, it gives back the changed account.
pub proof fn law_update_keeps_identity(items: Map<i64, User>, id: i64, req: UpdateUserDTO)
    requires
        items.contains_key(id),
        items[id].id == id,
    ensures
        ({
            let changed = updated_user(items[id], req);
            &&& changed.id == id
            &&& changed.created_at == items[id].created_at
            &&& changed.updated_at == items[id].updated_at
            &&& items.insert(id, changed).contains_key(changed.id)
            &&& items.insert(id, changed)[changed.id] == changed
        }),
{
}

/// A listing of the accounts holds every account: each id of the store
/// comes in it.
pub proof fn law_listing_is_complete(items: Map<i64, User>, ids: Seq<i64>, users: Seq<User>)
    requires
        items.dom().finite(),
        listing(items, ids, users),
    ensures
        forall|k: i64| items.contains_key(k) ==> #[trigger] ids.contains(k),
        ids.to_set() == items.dom(),
{
    ids.unique_seq_to_set();
    assert(ids.to_set().subset_of(items.dom())) by {
        assert forall|k: i64| ids.to_set().contains(k) implies items.dom().contains(k) by {
            let i = choose|i: int| 0 <= i < ids.len() && ids[i] == k;
            assert(items.contains_key(ids[i]));
        }
    }
    vstd::set_lib::lemma_subset_equality(ids.to_set(), items.dom());
    assert forall|k: i64| items.contains_key(k) implies #[trigger] ids.contains(k) by {
        assert(ids.to_set().contains(k));
    }
}

} // verus!
