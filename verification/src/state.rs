use vstd::prelude::*;

use crate::storage::Session;
use crate::suppression::SuppresionCache;

verus! {

/// The signed-in user of the desktop client.
#[derive(Debug, Clone)]
pub struct AuthSession {
    pub user_id: String,
    pub name: String,
    pub email: String,
    pub token: String,
    pub device_id: String,
}

impl AuthSession {
    /// A field-by-field copy.
    pub fn duplicate(&self) -> (r: Self)
        ensures
            r == *self,
    {
        AuthSession {
            user_id: self.user_id.clone(),
            name: self.name.clone(),
            email: self.email.clone(),
            token: self.token.clone(),
            device_id: self.device_id.clone(),
        }
    }
}

impl From<Session> for AuthSession {
    fn from(value: Session) -> (r: Self)
        ensures
            r.user_id == value.user_id,
            r.name == value.name,
            r.email == value.email,
            r.token == value.token,
            r.device_id == value.device_id,
    {
        AuthSession {
            user_id: value.user_id,
            name: value.name,
            email: value.email,
            token: value.token,
            device_id: value.device_id,
        }
    }
}

impl vstd::std_specs::convert::FromSpecImpl<Session> for AuthSession {
    open spec fn obeys_from_spec() -> bool {
        true
    }

    open spec fn from_spec(v: Session) -> AuthSession {
        AuthSession {
            user_id: v.user_id,
            name: v.name,
            email: v.email,
            token: v.token,
            device_id: v.device_id,
        }
    }
}

/// Restoring a stored session keeps every field in its place: the user id,
/// name, e-mail address, token and device id of the session are those that
/// were stored.
pub proof fn law_restored_session_keeps_fields(s: Session)
    ensures
        ({
            let a = <AuthSession as vstd::std_specs::convert::FromSpec<Session>>::from_spec(s);
            &&& a.user_id == s.user_id
            &&& a.name == s.name
            &&& a.email == s.email
            &&& a.token == s.token
            &&& a.device_id == s.device_id
        }),
{
}

/// Whether, and as whom, the desktop client is signed in.
pub struct AuthState {
    session: Option<AuthSession>,
}

impl View for AuthState {
    type V = Option<AuthSession>;

    closed spec fn view(&self) -> Option<AuthSession> {
        self.session
    }
}

impl AuthState {
    pub fn new(session: Option<AuthSession>) -> (r: Self)
        ensures
            r@ == session,
    {
        AuthState { session }
    }

    pub fn is_logged_in(&self) -> (r: bool)
        ensures
            r == self@.is_some(),
    {
        self.session.is_some()
    }

    pub fn session(&self) -> (r: Option<AuthSession>)
        ensures
            r == self@,
    {
        match &self.session {
            Some(s) => Some(s.duplicate()),
            None => None,
        }
    }

    pub fn set_session(&mut self, session: Option<AuthSession>)
        ensures
            final(self)@ == session,
    {
        self.session = session;
    }
}

/// The suppression cache that the socket listener and the clipboard watcher share.
pub struct CacheState {
    cache: SuppresionCache,
}

impl View for CacheState {
    type V = Set<Seq<char>>;

    closed spec fn view(&self) -> Set<Seq<char>> {
        self.cache@
    }
}

impl CacheState {
    pub fn new() -> (r: Self)
        ensures
            r@ == Set::<Seq<char>>::empty(),
    {
        CacheState { cache: SuppresionCache::new() }
    }

    /// The shared cache, to read.
    pub fn cache(&self) -> (r: &SuppresionCache)
        ensures
            r@ == self@,
    {
        &self.cache
    }

    /// The shared cache, to change.
    pub fn cache_mut(&mut self) -> (r: &mut SuppresionCache)
        ensures
            r@ == old(self)@,
            final(self)@ == final(r)@,
    {
        &mut self.cache
    }
}

} // verus!
