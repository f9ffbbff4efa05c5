use vstd::prelude::*;
use vstd::string::*;

use crate::state::AuthSession;

verus! {

/// The credentials that the socket client presents to the server.
#[derive(Debug, Clone)]
pub struct SocketAuth {
    pub token: String,
    pub user_id: String,
    pub email: String,
    pub name: String,
}

/// The error text when the socket service starts without a session.
pub open spec fn missing_session_message() -> Seq<char> {
    "socket service requires an authenticated session"@
}

/// The credentials of the signed-in user, or the error when nobody is signed in.
pub fn socket_auth(session: Option<AuthSession>) -> (r: Result<SocketAuth, String>)
    ensures
        r is Ok <==> session is Some,
        r matches Err(m) ==> m@ == missing_session_message(),
        r matches Ok(a) ==> session matches Some(s) && a.token == s.token && a.user_id == s.user_id
            && a.email == s.email && a.name == s.name,
{
    match session {
        Some(s) => Ok(SocketAuth { token: s.token, user_id: s.user_id, email: s.email, name: s.name }),
        None => Err(String::from_str("socket service requires an authenticated session")),
    }
}

} // verus!
