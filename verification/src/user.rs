use vstd::prelude::*;

verus! {

/// Marker state: the entity holds no session and carries no payload.
#[derive(Debug)]
pub struct Unauthorized;

/// State payload of an authorized entity: the timestamp at which the
/// current session began.
#[derive(Debug)]
pub struct Authorized {
    authorized_since: u64,
}

/// An entity whose legal operation set is fixed by its state type.
///
/// A `User<Unauthorized>` exposes only `login`; a `User<Authorized>` exposes
/// only `logout`. Each transition consumes the entity and produces a new one,
/// so an out-of-state call, or a second use of a consumed entity, is rejected
/// by the compiler rather than checked at run time.
#[derive(Debug)]
pub struct User<State> {
    name: String,
    state: State,
}

/// The credential policy: a credential is accepted exactly when it is
/// non-empty. An empty credential makes `login` fail.
pub open spec fn login_accepts(credential: Seq<char>) -> bool {
    credential.len() > 0
}

impl<State> User<State> {
    /// The entity's name, as a sequence of characters.
    pub closed spec fn spec_name(&self) -> Seq<char> {
        self.name@
    }

    /// The entity's name.
    pub fn name(&self) -> (r: &String)
        ensures
            r@ == self.spec_name(),
    {
        &self.name
    }
}

impl User<Unauthorized> {
    /// Creates an entity in the `Unauthorized` state, carrying `name`.
    pub fn new(name: String) -> (r: User<Unauthorized>)
        ensures
            r.spec_name() == name@,
    {
        User { name, state: Unauthorized }
    }

    /// The entity that a successful login of `self` at time `now` produces:
    /// the same name, authorized since `now`.
    pub closed spec fn spec_login(self, now: u64) -> User<Authorized> {
        User { name: self.name, state: Authorized { authorized_since: now } }
    }

    /// Attempts the transition to the `Authorized` state, consuming `self`.
    ///
    /// The credential is accepted exactly when it is non-empty; `now` is the
    /// current time, injected by the caller so that the clock can be replaced
    /// by a fixed value. On success the result carries the same name and is
    /// authorized since `now`; on failure the original entity is returned
    /// unchanged, so no entity is ever lost.
    pub fn login(self, credential: &str, now: u64) -> (r: Result<
        User<Authorized>,
        User<Unauthorized>,
    >)
        ensures
            r is Ok <==> login_accepts(credential@),
            r matches Ok(u) ==> u == self.spec_login(now),
            r matches Ok(u) ==> u.spec_name() == self.spec_name() && u.spec_authorized_since()
                == now,
            r matches Err(u) ==> u == self,
    {
        if credential.unicode_len() > 0 {
            Ok(User { name: self.name, state: Authorized { authorized_since: now } })
        } else {
            Err(self)
        }
    }
}

impl User<Authorized> {
    /// The timestamp at which the current session began.
    pub closed spec fn spec_authorized_since(&self) -> u64 {
        self.state.authorized_since
    }

    /// The timestamp at which the current session began.
    pub fn authorized_since(&self) -> (r: u64)
        ensures
            r == self.spec_authorized_since(),
    {
        self.state.authorized_since
    }

    /// The entity that logging `self` out produces: the same name, with the
    /// session payload dropped.
    pub closed spec fn spec_logout(self) -> User<Unauthorized> {
        User { name: self.name, state: Unauthorized }
    }

    /// Transitions back to the `Unauthorized` state, consuming `self`.
    ///
    /// Always succeeds: the result carries the same name, and the session
    /// timestamp is dropped.
    pub fn logout(self) -> (r: Result<User<Unauthorized>, User<Authorized>>)
        ensures
            r matches Ok(u) && u == self.spec_logout(),
            r matches Ok(u) ==> u.spec_name() == self.spec_name(),
    {
        Ok(User { name: self.name, state: Unauthorized })
    }
}

/// Law: logging in and then logging out returns an entity with the same name
/// as the original, while the authorization timestamp is dropped.
pub proof fn lemma_login_logout_preserves_name(u: User<Unauthorized>, now: u64)
    ensures
        u.spec_login(now).spec_logout().spec_name() == u.spec_name(),
{
}

} // verus!
