//! Authorization state: the process-wide set of privileged user identifiers,
//! seeded from the application owner on the first successful connection and
//! never altered by later ones.
use vstd::prelude::*;

verus! {

/// The privileged-user set together with a count of connection events seen.
pub struct AuthState {
    pub developers: Vec<u64>,
    pub connections: u64,
}

/// The mathematical shadow of the state.
#[verifier::ext_equal]
pub ghost struct AuthView {
    pub developers: Seq<u64>,
    pub connections: nat,
}

impl View for AuthState {
    type V = AuthView;

    open spec fn view(&self) -> AuthView {
        AuthView { developers: self.developers@, connections: self.connections as nat }
    }
}

/// What one connection-established event does: it always bumps the counter,
/// and only the very first event, when it carries an owner identifier, adds
/// that identifier to the privileged set. A first event without one (the
/// owner fetch failed) seeds nothing, and no later event retries.
pub open spec fn connection_transition(s: AuthView, owner: Option<u64>) -> AuthView {
    AuthView {
        developers: match owner {
            Some(id) => if s.connections == 0 {
                s.developers.push(id)
            } else {
                s.developers
            },
            None => s.developers,
        },
        connections: s.connections + 1,
    }
}

impl AuthState {
    /// The state at process start: nobody privileged, no connection seen.
    pub fn new() -> (s: Self)
        ensures
            s@.developers =~= Seq::<u64>::empty(),
            s@.connections == 0,
    {
        AuthState { developers: Vec::new(), connections: 0 }
    }

    /// Notes one connection-established event, with the application owner's
    /// identifier if it could be fetched.
    pub fn record_connection(&mut self, owner: Option<u64>)
        requires
            old(self)@.connections < u64::MAX,
        ensures
            final(self)@ == connection_transition(old(self)@, owner),
    {
        if self.connections == 0 {
            if let Some(id) = owner {
                self.developers.push(id);
            }
        }
        self.connections = self.connections + 1;
        proof {
            assert(self@ =~~= connection_transition(old(self)@, owner));
        }
    }

    /// Whether the identifier belongs to a privileged user.
    pub fn is_developer(&self, id: u64) -> (r: bool)
        ensures
            r == self@.developers.contains(id),
    {
        let n = self.developers.len();
        let mut i: usize = 0;
        while i < n
            invariant
                0 <= i <= n,
                n == self.developers.len(),
                forall|j: int| 0 <= j < i ==> self@.developers[j] != id,
            decreases n - i,
        {
            if self.developers[i] == id {
                proof {
                    assert(self@.developers[i as int] == id);
                }
                return true;
            }
            i = i + 1;
        }
        proof {
            assert(!self@.developers.contains(id));
        }
        false
    }
}

/// Law: seeding happens at most once per process lifetime. After any first
/// connection event, every later event leaves the privileged set exactly as
/// it was, whatever owner identifier it carries.
pub proof fn lemma_seed_at_most_once(s: AuthView, first: Option<u64>, second: Option<u64>)
    ensures
        connection_transition(connection_transition(s, first), second).developers
            == connection_transition(s, first).developers,
{
}

} // verus!
