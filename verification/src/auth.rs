use vstd::prelude::*;

use crate::error::Error;

verus! {

/// Decides whether a client that presents an API key may use the service.
pub trait Authenticator: Send + Sync {
    /// Whether clients have to authenticate at all.
    fn auth_needed(&self) -> bool;

    /// Accepts or refuses the API key that a client presented.
    fn authenticate(&self, api_key: String) -> Result<(), Error>;
}

/// What authentication against a single configured key answers to `given`:
/// the key is accepted exactly when it equals the configured one.
pub open spec fn single_key_verdict(configured: Seq<char>, given: Seq<char>) -> Result<(), Error> {
    if given == configured {
        Ok(())
    } else {
        Err(Error::Unauthorized)
    }
}

/// An authenticator that accepts exactly one API key.
/// The empty key means that no authentication is needed.
pub struct SingleKeyAuthenticator {
    api_key: String,
}

impl View for SingleKeyAuthenticator {
    type V = Seq<char>;

    /// The configured API key.
    closed spec fn view(&self) -> Seq<char> {
        self.api_key@
    }
}

impl SingleKeyAuthenticator {
    /// Creates an authenticator that accepts `api_key`.
    pub fn new(api_key: String) -> (r: Self)
        ensures
            r@ == api_key@,
    {
        Self { api_key }
    }
}

impl Authenticator for SingleKeyAuthenticator {
    fn auth_needed(&self) -> (r: bool)
        ensures
            r == (self@.len() != 0),
    {
        !self.api_key.as_str().is_empty()
    }

    fn authenticate(&self, api_key: String) -> (r: Result<(), Error>)
        ensures
            r == single_key_verdict(self@, api_key@),
    {
        if api_key != self.api_key {
            return Err(Error::Unauthorized);
        }
        Ok(())
    }
}

/// A single-key authenticator accepts a key if and only if it is the key it
/// was made with; every other key is refused as unauthorized.
pub proof fn lemma_single_key_accepts_only_its_key(configured: Seq<char>, given: Seq<char>)
    ensures
        single_key_verdict(configured, given) is Ok <==> given == configured,
        given != configured ==> single_key_verdict(configured, given) == Err::<(), Error>(
            Error::Unauthorized,
        ),
{
}

/// When no authentication is needed (the configured key is empty), the empty
/// key that a client sends without credentials is accepted.
pub proof fn lemma_no_auth_needed_accepts_empty_key(configured: Seq<char>)
    requires
        configured.len() == 0,
    ensures
        single_key_verdict(configured, Seq::<char>::empty()) is Ok,
{
    assert(configured =~= Seq::<char>::empty());
}

/// Authentication keeps no state: `authenticate` and `auth_needed` take the
/// authenticator by shared reference and their results are fixed by its key
/// and the key presented. So whatever attempts came before, failed or not,
/// every later verdict, and whether authentication is needed, is what a fresh
/// authenticator made with the same key gives: failures lock nothing out.
pub proof fn lemma_authentication_keeps_no_state(
    used: SingleKeyAuthenticator,
    fresh: SingleKeyAuthenticator,
    given: Seq<char>,
)
    requires
        used@ == fresh@,
    ensures
        single_key_verdict(used@, given) == single_key_verdict(fresh@, given),
        (used@.len() != 0) == (fresh@.len() != 0),
{
}

} // verus!
