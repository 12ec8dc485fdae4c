//! The resource API served to authorized clients.
use vstd::prelude::*;

verus! {

/// A client the user has authorized.
#[derive(Clone, Debug)]
pub struct ClientInfo {
    pub id: String,
    pub name: String,
}

/// The user's account as the resource API reports it.
#[derive(Clone, Debug)]
pub struct UserInfo {
    pub id: String,
    pub login: String,
    pub name: String,
    pub authorized_clients: Vec<ClientInfo>,
}

/// A request to change the user's given name.
#[derive(Clone, Debug)]
pub struct ChangeResource {
    pub given_name: String,
}

/// Whether a change succeeded.
#[derive(Clone, Copy, PartialEq, Eq, Structural, Debug)]
pub struct MsgReply {
    pub success: bool,
}

impl Default for MsgReply {
    fn default() -> (r: Self)
        ensures
            !r.success,
    {
        MsgReply { success: false }
    }
}

/// A write to the account needs both an authorization grant and a body. The
/// grant is judged first: a request without one is refused for that, whatever
/// its body; only an authorized request can fail on its body.
pub fn authorized_write<G, B, E>(grant: Result<G, E>, body: Result<B, E>) -> (r: Result<(G, B), E>)
    ensures
        grant matches Err(e) ==> r == Err::<(G, B), E>(e),
        grant matches Ok(g) ==> match body {
            Ok(b) => r == Ok::<(G, B), E>((g, b)),
            Err(e) => r == Err::<(G, B), E>(e),
        },
{
    match grant {
        Err(e) => Err(e),
        Ok(g) => match body {
            Ok(b) => Ok((g, b)),
            Err(e) => Err(e),
        },
    }
}

} // verus!
