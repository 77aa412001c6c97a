//! The registry of live sessions, keyed by user id.
use vstd::prelude::*;
use crate::session::{AuthState, Session, handshake_done};
use crate::user::UserOptions;

verus! {

/// Some session in `s` has user id `id`.
pub open spec fn has_id(s: Seq<Session>, id: u16) -> bool {
    exists|i: int| 0 <= i < s.len() && #[trigger] s[i].user_id == id
}

/// Every user id is at least 1, and no two sessions share one.
pub open spec fn ids_valid(s: Seq<Session>) -> bool {
    &&& forall|i: int| 0 <= i < s.len() ==> #[trigger] s[i].user_id >= 1
    &&& forall|i: int, j: int|
        0 <= i < s.len() && 0 <= j < s.len() && i != j ==> #[trigger] s[i].user_id
            != #[trigger] s[j].user_id
}

/// The position of the session with user id `id`.
pub open spec fn index_of(s: Seq<Session>, id: u16) -> int {
    choose|i: int| 0 <= i < s.len() && #[trigger] s[i].user_id == id
}

/// The sessions of `s` by user id.
pub open spec fn session_map(s: Seq<Session>) -> Map<u16, Session> {
    Map::new(|id: u16| has_id(s, id), |id: u16| s[index_of(s, id)])
}

/// The `n`-th user id tried by allocation that starts at `start`, wrapping
/// from 65534 back to 1.
pub open spec fn candidate(start: int, n: int) -> int {
    if start + n <= 65534 {
        start + n
    } else {
        start + n - 65534
    }
}

proof fn lemma_index_of(s: Seq<Session>, i: int)
    requires
        ids_valid(s),
        0 <= i < s.len(),
    ensures
        index_of(s, s[i].user_id) == i,
{
    let j = index_of(s, s[i].user_id);
    assert(0 <= j < s.len() && s[j].user_id == s[i].user_id);
}

proof fn lemma_update(s: Seq<Session>, i: int, x: Session)
    requires
        ids_valid(s),
        0 <= i < s.len(),
        x.user_id == s[i].user_id,
    ensures
        ids_valid(s.update(i, x)),
        session_map(s.update(i, x)) == session_map(s).insert(x.user_id, x),
{
    let t = s.update(i, x);
    assert forall|id: u16| has_id(t, id) == has_id(s, id) by {
        if has_id(s, id) {
            let k = index_of(s, id);
            assert(t[k].user_id == id);
        }
        if has_id(t, id) {
            let k = index_of(t, id);
            assert(s[k].user_id == id);
        }
    }
    assert forall|id: u16| #[trigger] has_id(t, id) && id != x.user_id implies t[index_of(t, id)] == s[index_of(s, id)] by {
        let k = index_of(t, id);
        assert(s[k].user_id == id);
        lemma_index_of(s, k);
    }
    assert(has_id(t, x.user_id)) by {
        assert(t[i].user_id == x.user_id);
    }
    lemma_index_of(t, i);
    assert(session_map(t) =~= session_map(s).insert(x.user_id, x));
}

proof fn lemma_push(s: Seq<Session>, x: Session)
    requires
        ids_valid(s),
        !has_id(s, x.user_id),
        x.user_id >= 1,
    ensures
        ids_valid(s.push(x)),
        session_map(s.push(x)) == session_map(s).insert(x.user_id, x),
{
    let t = s.push(x);
    let n = s.len() as int;
    assert forall|i: int| 0 <= i < s.len() implies s[i].user_id != x.user_id by {
        if s[i].user_id == x.user_id {
            assert(has_id(s, x.user_id));
        }
    }
    assert(ids_valid(t));
    assert forall|id: u16| #[trigger] has_id(t, id) && id != x.user_id implies has_id(s, id)
        && t[index_of(t, id)] == s[index_of(s, id)] by {
        let k = index_of(t, id);
        assert(k < n);
        assert(s[k].user_id == id);
        lemma_index_of(s, k);
    }
    assert forall|id: u16| #[trigger] has_id(s, id) implies has_id(t, id) by {
        let k = index_of(s, id);
        assert(t[k].user_id == id);
    }
    assert(t[n].user_id == x.user_id);
    lemma_index_of(t, n);
    assert(session_map(t) =~= session_map(s).insert(x.user_id, x));
}

proof fn lemma_remove(s: Seq<Session>, i: int)
    requires
        ids_valid(s),
        0 <= i < s.len(),
    ensures
        ids_valid(s.remove(i)),
        session_map(s.remove(i)) == session_map(s).remove(s[i].user_id),
{
    let t = s.remove(i);
    let id0 = s[i].user_id;
    assert forall|a: int| 0 <= a < t.len() implies #[trigger] t[a] == s[if a < i { a } else { a + 1 }] by {}
    assert(ids_valid(t)) by {
        assert forall|a: int, b: int|
            0 <= a < t.len() && 0 <= b < t.len() && a != b implies #[trigger] t[a].user_id
                != #[trigger] t[b].user_id by {
            let a1 = if a < i { a } else { a + 1 };
            let b1 = if b < i { b } else { b + 1 };
            assert(t[a] == s[a1] && t[b] == s[b1]);
        }
        assert forall|a: int| 0 <= a < t.len() implies #[trigger] t[a].user_id >= 1 by {
            let a1 = if a < i { a } else { a + 1 };
            assert(t[a] == s[a1]);
        }
    }
    assert forall|id: u16| #[trigger] has_id(t, id) implies has_id(s, id) && id != id0
        && t[index_of(t, id)] == s[index_of(s, id)] by {
        let k = index_of(t, id);
        let k1 = if k < i { k } else { k + 1 };
        assert(t[k] == s[k1]);
        assert(s[k1].user_id == id);
        lemma_index_of(s, k1);
    }
    assert forall|id: u16| #[trigger] has_id(s, id) && id != id0 implies has_id(t, id) by {
        let k = index_of(s, id);
        assert(k != i);
        let k2 = if k < i { k } else { k - 1 };
        assert(t[k2] == s[k]);
    }
    assert(session_map(t) =~= session_map(s).remove(id0));
}

/// When every user id from 1 to 65534 is taken, at least 65534 sessions live.
proof fn lemma_all_taken_needs_many(s: Seq<Session>)
    requires
        forall|id: u16| 1 <= id <= 65534 ==> has_id(s, id),
    ensures
        s.len() >= 65534,
{
    let ids = s.map_values(|x: Session| x.user_id as int);
    let range = vstd::set_lib::set_int_range(1, 65535);
    vstd::set_lib::lemma_int_range(1, 65535);
    assert forall|i: int| range.contains(i) implies ids.to_set().contains(i) by {
        let id = i as u16;
        assert(has_id(s, id));
        let k = choose|k: int| 0 <= k < s.len() && #[trigger] s[k].user_id == id;
        assert(ids[k] == i);
    }
    ids.lemma_cardinality_of_set();
    vstd::seq_lib::seq_to_set_is_finite(ids);
    vstd::set_lib::lemma_len_subset(range, ids.to_set());
}

/// The live sessions of the server. Each has a user id from 1 to 65535 that
/// no other live session has.
pub struct SessionRegistry {
    sessions: Vec<Session>,
    next_user_id: u16,
}

impl SessionRegistry {
    /// The live sessions, in the order they were registered.
    pub closed spec fn sessions(&self) -> Seq<Session> {
        self.sessions@
    }

    /// The live sessions by user id.
    pub open spec fn view(&self) -> Map<u16, Session> {
        session_map(self.sessions())
    }

    pub open spec fn wf(&self) -> bool {
        ids_valid(self.sessions())
    }

    /// No live sessions; the first user id handed out is 1.
    pub fn new() -> (r: Self)
        ensures
            r.wf(),
            r.sessions() == Seq::<Session>::empty(),
            r@ == Map::<u16, Session>::empty(),
    {
        let r = SessionRegistry { sessions: Vec::new(), next_user_id: 1 };
        assert(r@ =~= Map::<u16, Session>::empty());
        r
    }

    fn find(&self, user_id: u16) -> (r: Option<usize>)
        requires
            self.wf(),
        ensures
            r is None ==> !has_id(self.sessions(), user_id),
            r matches Some(i) ==> i < self.sessions().len() && self.sessions()[i as int].user_id
                == user_id && index_of(self.sessions(), user_id) == i,
    {
        let mut i: usize = 0;
        while i < self.sessions.len()
            invariant
                self.wf(),
                i <= self.sessions@.len(),
                forall|j: int| 0 <= j < i ==> self.sessions@[j].user_id != user_id,
            decreases self.sessions@.len() - i,
        {
            if self.sessions[i].user_id == user_id {
                proof {
                    lemma_index_of(self.sessions@, i as int);
                }
                return Some(i);
            }
            i += 1;
        }
        None
    }

    /// Hands out a user id that no live session has, trying ids one after the
    /// other from where the last allocation stopped and wrapping from 65534
    /// back to 1. `None` when every id from 1 to 65534 is taken.
    pub fn allocate_user_id(&mut self) -> (r: Option<u16>)
        requires
            old(self).wf(),
        ensures
            final(self).wf(),
            final(self).sessions() == old(self).sessions(),
            r matches Some(id) ==> 1 <= id <= 65534 && !old(self)@.contains_key(id),
            r is None ==> forall|id: u16| 1 <= id <= 65534 ==> old(self)@.contains_key(id),
            old(self).sessions().len() < 65534 ==> r is Some,
    {
        let start: u16 = if self.next_user_id == 0 || self.next_user_id == 65535 {
            1
        } else {
            self.next_user_id
        };
        let mut n: u16 = 0;
        while n < 65534
            invariant
                1 <= start <= 65534,
                n <= 65534,
                self.wf(),
                self.sessions() == old(self).sessions(),
                forall|j: int| 0 <= j < n ==> has_id(self.sessions(), #[trigger] candidate(start as int, j) as u16),
            decreases 65534 - n,
        {
            let c: u16 = if start as u32 + n as u32 <= 65534 {
                start + n
            } else {
                (start as u32 + n as u32 - 65534) as u16
            };
            assert(c as int == candidate(start as int, n as int));
            match self.find(c) {
                None => {
                    self.next_user_id = c + 1;
                    return Some(c);
                },
                Some(i) => {
                    assert(self.sessions()[i as int].user_id == c);
                },
            }
            n += 1;
        }
        self.next_user_id = start;
        proof {
            assert forall|id: u16| 1 <= id <= 65534 implies has_id(self.sessions(), id) by {
                let j: int = if id >= start {
                    id - start
                } else {
                    id + 65534 - start
                };
                assert(candidate(start as int, j) == id);
                assert(has_id(self.sessions(), candidate(start as int, j) as u16));
            }
            lemma_all_taken_needs_many(self.sessions());
        }
        None
    }

    /// Adds a session, replacing the live session with the same user id if
    /// there is one. A session with user id 0 is refused.
    pub fn register_session(&mut self, session: Session) -> (r: bool)
        requires
            old(self).wf(),
        ensures
            final(self).wf(),
            r == (session.user_id != 0),
            r ==> final(self)@ == old(self)@.insert(session.user_id, session),
            !r ==> final(self)@ == old(self)@,
            !old(self)@.contains_key(session.user_id) && r ==> final(self).sessions() == old(
                self,
            ).sessions().push(session),
    {
        if session.user_id == 0 {
            return false;
        }
        match self.find(session.user_id) {
            Some(i) => {
                proof {
                    lemma_update(self.sessions@, i as int, session);
                }
                let _ = self.sessions.remove(i);
                self.sessions.insert(i, session);
                assert(self.sessions@ =~= old(self).sessions@.update(i as int, session));
            },
            None => {
                proof {
                    lemma_push(self.sessions@, session);
                }
                self.sessions.push(session);
            },
        }
        true
    }

    /// Removes the session with `user_id` and hands it back.
    pub fn unregister_session(&mut self, user_id: u16) -> (r: Option<Session>)
        requires
            old(self).wf(),
        ensures
            final(self).wf(),
            final(self)@ == old(self)@.remove(user_id),
            r is Some == old(self)@.contains_key(user_id),
            r matches Some(s) ==> s == old(self)@[user_id],
    {
        match self.find(user_id) {
            Some(i) => {
                proof {
                    lemma_remove(self.sessions@, i as int);
                }
                let s = self.sessions.remove(i);
                Some(s)
            },
            None => {
                assert(old(self)@.remove(user_id) =~= old(self)@);
                None
            },
        }
    }

    /// The session with `user_id`.
    pub fn get_session(&self, user_id: u16) -> (r: Option<&Session>)
        requires
            self.wf(),
        ensures
            r is Some == self@.contains_key(user_id),
            r matches Some(s) ==> *s == self@[user_id],
    {
        match self.find(user_id) {
            Some(i) => Some(&self.sessions[i]),
            None => None,
        }
    }

    /// The number of live sessions.
    pub fn session_count(&self) -> (r: usize)
        requires
            self.wf(),
        ensures
            r == self.sessions().len(),
    {
        self.sessions.len()
    }

    /// Position `i` of the registration order.
    pub fn session_at(&self, i: usize) -> (r: &Session)
        requires
            i < self.sessions().len(),
        ensures
            *r == self.sessions()[i as int],
    {
        &self.sessions[i]
    }

    fn put_back(&mut self, i: usize, s: Session, Ghost(before): Ghost<Seq<Session>>)
        requires
            ids_valid(before),
            i < before.len(),
            old(self).sessions() == before.remove(i as int),
            s.user_id == before[i as int].user_id,
        ensures
            final(self).wf(),
            final(self)@ == session_map(before).insert(s.user_id, s),
            final(self).sessions() == before.update(i as int, s),
    {
        proof {
            lemma_update(before, i as int, s);
        }
        self.sessions.insert(i, s);
        assert(self.sessions@ =~= before.update(i as int, s));
    }

    /// Records activity of `user_id` at time `now`; false when no such session lives.
    pub fn touch(&mut self, user_id: u16, now: u64) -> (r: bool)
        requires
            old(self).wf(),
        ensures
            final(self).wf(),
            r == old(self)@.contains_key(user_id),
            r ==> final(self)@ == old(self)@.insert(
                user_id,
                Session { last_activity: now, ..old(self)@[user_id] },
            ),
            !r ==> final(self)@ == old(self)@,
    {
        match self.find(user_id) {
            Some(i) => {
                let ghost before = self.sessions@;
                let mut s = self.sessions.remove(i);
                s.touch(now);
                self.put_back(i, s, Ghost(before));
                true
            },
            None => false,
        }
    }

    /// Marks the handshake of `user_id` as done.
    pub fn complete_handshake(&mut self, user_id: u16) -> (r: bool)
        requires
            old(self).wf(),
        ensures
            final(self).wf(),
            r == old(self)@.contains_key(user_id),
            r ==> final(self)@ == old(self)@.insert(user_id, handshake_done(old(self)@[user_id])),
            !r ==> final(self)@ == old(self)@,
    {
        match self.find(user_id) {
            Some(i) => {
                let ghost before = self.sessions@;
                let mut s = self.sessions.remove(i);
                s.complete_handshake();
                self.put_back(i, s, Ghost(before));
                true
            },
            None => false,
        }
    }

    /// Logs `user_id` in as a guest.
    pub fn authenticate_guest(&mut self, user_id: u16, nickname: String, icon_id: u16) -> (r: bool)
        requires
            old(self).wf(),
        ensures
            final(self).wf(),
            r == old(self)@.contains_key(user_id),
            r ==> final(self)@ == old(self)@.insert(
                user_id,
                Session {
                    nickname,
                    icon_id,
                    auth_state: AuthState::Authenticated,
                    ..old(self)@[user_id]
                },
            ),
            !r ==> final(self)@ == old(self)@,
    {
        match self.find(user_id) {
            Some(i) => {
                let ghost before = self.sessions@;
                let mut s = self.sessions.remove(i);
                s.authenticate_guest(nickname, icon_id);
                self.put_back(i, s, Ghost(before));
                true
            },
            None => false,
        }
    }

    /// Logs `user_id` in with an account.
    pub fn authenticate_user(&mut self, user_id: u16, account_id: i64, nickname: String, icon_id: u16) -> (r: bool)
        requires
            old(self).wf(),
        ensures
            final(self).wf(),
            r == old(self)@.contains_key(user_id),
            r ==> final(self)@ == old(self)@.insert(
                user_id,
                Session {
                    account_id: Some(account_id),
                    nickname,
                    icon_id,
                    auth_state: AuthState::Authenticated,
                    ..old(self)@[user_id]
                },
            ),
            !r ==> final(self)@ == old(self)@,
    {
        match self.find(user_id) {
            Some(i) => {
                let ghost before = self.sessions@;
                let mut s = self.sessions.remove(i);
                s.authenticate_user(account_id, nickname, icon_id);
                self.put_back(i, s, Ghost(before));
                true
            },
            None => false,
        }
    }

    /// Sets what `user_id` shows to others after agreeing to the terms.
    pub fn set_presence(
        &mut self,
        user_id: u16,
        nickname: String,
        icon_id: u16,
        flags: u16,
        options: UserOptions,
    ) -> (r: bool)
        requires
            old(self).wf(),
        ensures
            final(self).wf(),
            r == old(self)@.contains_key(user_id),
            r ==> final(self)@ == old(self)@.insert(
                user_id,
                Session { nickname, icon_id, flags, options, ..old(self)@[user_id] },
            ),
            !r ==> final(self)@ == old(self)@,
    {
        match self.find(user_id) {
            Some(i) => {
                let ghost before = self.sessions@;
                let mut s = self.sessions.remove(i);
                s.nickname = nickname;
                s.icon_id = icon_id;
                s.flags = flags;
                s.options = options;
                self.put_back(i, s, Ghost(before));
                true
            },
            None => false,
        }
    }
}

/// Every live session has a user id from 1 to 65535, and is filed under it.
pub proof fn lemma_live_user_ids_in_range(r: &SessionRegistry, id: u16)
    requires
        r.wf(),
        r@.contains_key(id),
    ensures
        1 <= id <= 65535,
        r@[id].user_id == id,
{
    let k = index_of(r.sessions(), id);
    assert(r.sessions()[k].user_id == id);
}

/// Two different live sessions never have the same user id.
pub proof fn lemma_live_user_ids_distinct(r: &SessionRegistry, i: int, j: int)
    requires
        r.wf(),
        0 <= i < r.sessions().len(),
        0 <= j < r.sessions().len(),
        i != j,
    ensures
        r.sessions()[i].user_id != r.sessions()[j].user_id,
{
}

} // verus!
