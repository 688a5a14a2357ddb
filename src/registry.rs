use vstd::prelude::*;

use std::collections::HashSet;

use crate::session::{initial, Session};

verus! {

broadcast use vstd::std_specs::hash::group_hash_axioms;

/// A second enrollment for a user whose first one is still running.
#[derive(Clone, Copy, Debug, PartialEq, Eq, Structural)]
pub struct ConcurrentSessionRejected {
    pub user_id: u64,
}

/// The users with an enrollment in progress; at most one session each.
pub struct ActiveSessions {
    users: HashSet<u64>,
}

impl View for ActiveSessions {
    type V = Set<u64>;

    closed spec fn view(&self) -> Set<u64> {
        self.users@
    }
}

/// Opening a session for `user_id` on the registry `active`: the registry after,
/// and whether the session was created.
pub open spec fn open_spec(active: Set<u64>, user_id: u64) -> (Set<u64>, bool) {
    if active.contains(user_id) {
        (active, false)
    } else {
        (active.insert(user_id), true)
    }
}

impl ActiveSessions {
    pub fn new() -> (r: ActiveSessions)
        ensures
            r@ == Set::<u64>::empty(),
    {
        ActiveSessions { users: HashSet::new() }
    }

    pub fn is_active(&self, user_id: u64) -> (r: bool)
        ensures
            r == self@.contains(user_id),
    {
        self.users.contains(&user_id)
    }

    /// Creates the session for `user_id`, unless one is already running for that
    /// user: then nothing changes and the attempt is rejected.
    pub fn open(&mut self, session_id: u64, user_id: u64) -> (r: Result<
        Session,
        ConcurrentSessionRejected,
    >)
        ensures
            (final(self)@, r is Ok) == open_spec(old(self)@, user_id),
            r matches Ok(s) ==> s@ == initial(session_id, user_id) && s.wf(),
            r matches Err(e) ==> e.user_id == user_id,
    {
        if self.users.contains(&user_id) {
            return Err(ConcurrentSessionRejected { user_id });
        }
        self.users.insert(user_id);
        Ok(Session::new(session_id, user_id))
    }

    /// Gives back the slot of a session that reached its end, and drops the
    /// session; a session still running is handed back and the registry is
    /// unchanged.
    pub fn release(&mut self, session: Session) -> (r: Option<Session>)
        ensures
            session@.state.is_terminal() ==> r is None && final(self)@ == old(self)@.remove(
                session@.user_id,
            ),
            !session@.state.is_terminal() ==> r == Some(session) && final(self)@ == old(self)@,
    {
        if !session.is_terminal() {
            return Some(session);
        }
        let user_id = session.user_id();
        self.users.remove(&user_id);
        None
    }
}

/// Two attempts to open a session for one user: at most one of them succeeds, and
/// where none was running before exactly one does, the second being rejected.
pub proof fn lemma_one_session_per_user(active: Set<u64>, user_id: u64)
    ensures
        open_spec(active, user_id).0.contains(user_id),
        !(open_spec(active, user_id).1 && open_spec(open_spec(active, user_id).0, user_id).1),
        !active.contains(user_id) ==> open_spec(active, user_id).1 && !open_spec(
            open_spec(active, user_id).0,
            user_id,
        ).1,
        open_spec(open_spec(active, user_id).0, user_id).0 == open_spec(active, user_id).0,
{
}

} // verus!
