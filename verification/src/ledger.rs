//! The ledger store: keyed collections of room and user accounts plus the
//! global statistics register.
//!
//! The host environment persists this state transactionally; here it is a
//! plain value.  Accounts are kept in vectors whose identifiers are unique
//! (the well-formedness invariant [`LedgerView::wf`]), which makes them a
//! mathematical map from id to account.

use vstd::prelude::*;

use crate::types::PaymentStats;
use crate::types::RoomId;
use crate::types::RoomPaymentPool;
use crate::types::RoomPaymentPoolView;
use crate::types::UserId;
use crate::types::UserPaymentState;
use crate::types::UserPaymentStateView;

verus! {

/// The authoritative ledger: room pools, user accounts, global statistics.
#[derive(Debug)]
pub struct PaymentLedger {
    pub rooms: Vec<RoomPaymentPool>,
    pub users: Vec<UserPaymentState>,
    pub stats: PaymentStats,
}

/// Mathematical view of a [`PaymentLedger`].
#[verifier::ext_equal]
pub struct LedgerView {
    pub rooms: Seq<RoomPaymentPoolView>,
    pub users: Seq<UserPaymentStateView>,
    pub stats: PaymentStats,
}

impl View for PaymentLedger {
    type V = LedgerView;

    open spec fn view(&self) -> LedgerView {
        LedgerView {
            rooms: self.rooms@.map_values(|r: RoomPaymentPool| r@),
            users: self.users@.map_values(|u: UserPaymentState| u@),
            stats: self.stats,
        }
    }
}

impl LedgerView {
    /// Whether a room with identifier `id` exists.
    pub open spec fn has_room(self, id: Seq<char>) -> bool {
        exists|i: int| 0 <= i < self.rooms.len() && self.rooms[i].room_id == id
    }

    /// Index of the room with identifier `id` (meaningful when it exists
    /// and the ledger is well formed).
    pub open spec fn room_idx(self, id: Seq<char>) -> int {
        choose|i: int| 0 <= i < self.rooms.len() && self.rooms[i].room_id == id
    }

    /// The room with identifier `id`.
    pub open spec fn room_at(self, id: Seq<char>) -> RoomPaymentPoolView {
        self.rooms[self.room_idx(id)]
    }

    /// Whether a user with identifier `id` exists.
    pub open spec fn has_user(self, id: Seq<char>) -> bool {
        exists|i: int| 0 <= i < self.users.len() && self.users[i].user_id == id
    }

    /// Index of the user with identifier `id` (meaningful when it exists
    /// and the ledger is well formed).
    pub open spec fn user_idx(self, id: Seq<char>) -> int {
        choose|i: int| 0 <= i < self.users.len() && self.users[i].user_id == id
    }

    /// The user with identifier `id`.
    pub open spec fn user_at(self, id: Seq<char>) -> UserPaymentStateView {
        self.users[self.user_idx(id)]
    }

    /// Well-formedness: room and user identifiers are unique, so the
    /// vectors denote maps from id to account.
    pub open spec fn wf(self) -> bool {
        &&& forall|i: int, j: int|
            0 <= i < j < self.rooms.len() ==> self.rooms[i].room_id != self.rooms[j].room_id
        &&& forall|i: int, j: int|
            0 <= i < j < self.users.len() ==> self.users[i].user_id != self.users[j].user_id
    }
}

/// In a well-formed ledger any index whose room carries `id` is the index
/// that the lookup denotes.
pub proof fn lemma_room_idx_is(v: LedgerView, id: Seq<char>, i: int)
    requires
        v.wf(),
        0 <= i < v.rooms.len(),
        v.rooms[i].room_id == id,
    ensures
        v.has_room(id),
        v.room_idx(id) == i,
        v.room_at(id) == v.rooms[i],
{
    assert(v.has_room(id));
    let j = v.room_idx(id);
    assert(0 <= j < v.rooms.len() && v.rooms[j].room_id == id);
    if i < j {
        assert(v.rooms[i].room_id != v.rooms[j].room_id);
    } else if j < i {
        assert(v.rooms[j].room_id != v.rooms[i].room_id);
    }
}

/// In a well-formed ledger any index whose user carries `id` is the index
/// that the lookup denotes.
pub proof fn lemma_user_idx_is(v: LedgerView, id: Seq<char>, i: int)
    requires
        v.wf(),
        0 <= i < v.users.len(),
        v.users[i].user_id == id,
    ensures
        v.has_user(id),
        v.user_idx(id) == i,
        v.user_at(id) == v.users[i],
{
    assert(v.has_user(id));
    let j = v.user_idx(id);
    assert(0 <= j < v.users.len() && v.users[j].user_id == id);
    if i < j {
        assert(v.users[i].user_id != v.users[j].user_id);
    } else if j < i {
        assert(v.users[j].user_id != v.users[i].user_id);
    }
}

impl PaymentLedger {
    /// An empty ledger with zeroed statistics.
    pub fn new() -> (r: Self)
        ensures
            r@.wf(),
            r@.rooms.len() == 0,
            r@.users.len() == 0,
            r@.stats == (PaymentStats {
                total_processed: 0,
                total_tips: 0,
                total_access_fees: 0,
                active_users: 0,
                active_rooms: 0,
            }),
    {
        PaymentLedger {
            rooms: Vec::new(),
            users: Vec::new(),
            stats: PaymentStats {
                total_processed: 0,
                total_tips: 0,
                total_access_fees: 0,
                active_users: 0,
                active_rooms: 0,
            },
        }
    }

    /// Index of the room with identifier `room_id`, if any.
    pub(crate) fn find_room_index(&self, room_id: &RoomId) -> (r: Option<usize>)
        ensures
            match r {
                Some(i) => 0 <= i < self@.rooms.len() && self@.rooms[i as int].room_id
                    == room_id@,
                None => !self@.has_room(room_id@),
            },
    {
        let n = self.rooms.len();
        let mut i: usize = 0;
        while i < n
            invariant
                i <= n,
                n == self.rooms.len(),
                forall|j: int| 0 <= j < i ==> self@.rooms[j].room_id != room_id@,
            decreases n - i,
        {
            if self.rooms[i].room_id == *room_id {
                return Some(i);
            }
            i += 1;
        }
        None
    }

    /// Index of the user with identifier `user_id`, if any.
    pub(crate) fn find_user_index(&self, user_id: &UserId) -> (r: Option<usize>)
        ensures
            match r {
                Some(i) => 0 <= i < self@.users.len() && self@.users[i as int].user_id
                    == user_id@,
                None => !self@.has_user(user_id@),
            },
    {
        let n = self.users.len();
        let mut i: usize = 0;
        while i < n
            invariant
                i <= n,
                n == self.users.len(),
                forall|j: int| 0 <= j < i ==> self@.users[j].user_id != user_id@,
            decreases n - i,
        {
            if self.users[i].user_id == *user_id {
                return Some(i);
            }
            i += 1;
        }
        None
    }

    /// The room account keyed by `room_id`, if it exists.
    pub fn get_room_stats(&self, room_id: &RoomId) -> (r: Option<&RoomPaymentPool>)
        requires
            self@.wf(),
        ensures
            match r {
                Some(p) => self@.has_room(room_id@) && p@ == self@.room_at(room_id@),
                None => !self@.has_room(room_id@),
            },
    {
        match self.find_room_index(room_id) {
            Some(i) => {
                proof {
                    lemma_room_idx_is(self@, room_id@, i as int);
                }
                Some(&self.rooms[i])
            },
            None => None,
        }
    }

    /// The user account keyed by `user_id`, if it exists.
    pub fn get_user_state(&self, user_id: &UserId) -> (r: Option<&UserPaymentState>)
        requires
            self@.wf(),
        ensures
            match r {
                Some(u) => self@.has_user(user_id@) && u@ == self@.user_at(user_id@),
                None => !self@.has_user(user_id@),
            },
    {
        match self.find_user_index(user_id) {
            Some(i) => {
                proof {
                    lemma_user_idx_is(self@, user_id@, i as int);
                }
                Some(&self.users[i])
            },
            None => None,
        }
    }

    /// The global statistics register.
    pub fn get_global_stats(&self) -> (r: PaymentStats)
        ensures
            r == self@.stats,
    {
        self.stats
    }

    /// Replaces the global statistics register wholesale.
    pub fn update_stats(&mut self, stats: PaymentStats)
        ensures
            final(self)@ == (LedgerView { stats, ..old(self)@ }),
    {
        self.stats = stats;
    }

    /// Inserts or replaces the room account keyed by its own identifier.
    pub fn insert_room(&mut self, room: RoomPaymentPool)
        requires
            old(self)@.wf(),
        ensures
            final(self)@.wf(),
            final(self)@.users == old(self)@.users,
            final(self)@.stats == old(self)@.stats,
            old(self)@.has_room(room@.room_id) ==> final(self)@.rooms == old(
                self,
            )@.rooms.update(old(self)@.room_idx(room@.room_id), room@),
            !old(self)@.has_room(room@.room_id) ==> final(self)@.rooms == old(
                self,
            )@.rooms.push(room@),
            final(self)@.has_room(room@.room_id),
            final(self)@.room_at(room@.room_id) == room@,
    {
        let ghost pre = self@;
        match self.find_room_index(&room.room_id) {
            Some(i) => {
                proof {
                    lemma_room_idx_is(pre, room@.room_id, i as int);
                }
                self.rooms[i] = room;
                proof {
                    assert(self@.rooms =~= pre.rooms.update(pre.room_idx(self.rooms@[
                        i as int
                    ]@.room_id), self.rooms@[i as int]@));
                    assert(self@.users =~= pre.users);
                    lemma_room_idx_is(self@, self@.rooms[i as int].room_id, i as int);
                }
            },
            None => {
                let ghost rv = room@;
                self.rooms.push(room);
                proof {
                    assert(self@.rooms =~= pre.rooms.push(rv));
                    assert(self@.users =~= pre.users);
                    assert forall|i: int, j: int|
                        0 <= i < j < self@.rooms.len() implies self@.rooms[i].room_id
                        != self@.rooms[j].room_id by {
                        if j + 1 == self@.rooms.len() {
                            assert(!pre.has_room(rv.room_id));
                        }
                    }
                    lemma_room_idx_is(self@, rv.room_id, self@.rooms.len() - 1);
                }
            },
        }
    }

    /// Inserts or replaces the user account keyed by its own identifier.
    pub fn insert_user(&mut self, user: UserPaymentState)
        requires
            old(self)@.wf(),
        ensures
            final(self)@.wf(),
            final(self)@.rooms == old(self)@.rooms,
            final(self)@.stats == old(self)@.stats,
            old(self)@.has_user(user@.user_id) ==> final(self)@.users == old(
                self,
            )@.users.update(old(self)@.user_idx(user@.user_id), user@),
            !old(self)@.has_user(user@.user_id) ==> final(self)@.users == old(
                self,
            )@.users.push(user@),
            final(self)@.has_user(user@.user_id),
            final(self)@.user_at(user@.user_id) == user@,
    {
        let ghost pre = self@;
        match self.find_user_index(&user.user_id) {
            Some(i) => {
                proof {
                    lemma_user_idx_is(pre, user@.user_id, i as int);
                }
                self.users[i] = user;
                proof {
                    assert(self@.users =~= pre.users.update(pre.user_idx(self.users@[
                        i as int
                    ]@.user_id), self.users@[i as int]@));
                    assert(self@.rooms =~= pre.rooms);
                    lemma_user_idx_is(self@, self@.users[i as int].user_id, i as int);
                }
            },
            None => {
                let ghost uv = user@;
                self.users.push(user);
                proof {
                    assert(self@.users =~= pre.users.push(uv));
                    assert(self@.rooms =~= pre.rooms);
                    assert forall|i: int, j: int|
                        0 <= i < j < self@.users.len() implies self@.users[i].user_id
                        != self@.users[j].user_id by {
                        if j + 1 == self@.users.len() {
                            assert(!pre.has_user(uv.user_id));
                        }
                    }
                    lemma_user_idx_is(self@, uv.user_id, self@.users.len() - 1);
                }
            },
        }
    }

    /// Whether a room account keyed by `room_id` exists.
    pub fn has_room(&self, room_id: &RoomId) -> (r: bool)
        ensures
            r == self@.has_room(room_id@),
    {
        self.find_room_index(room_id).is_some()
    }

    /// Whether a user account keyed by `user_id` exists.
    pub fn has_user(&self, user_id: &UserId) -> (r: bool)
        ensures
            r == self@.has_user(user_id@),
    {
        self.find_user_index(user_id).is_some()
    }

    /// Removes the room account keyed by `room_id`, if it exists.
    pub fn remove_room(&mut self, room_id: &RoomId)
        requires
            old(self)@.wf(),
        ensures
            final(self)@.wf(),
            final(self)@.users == old(self)@.users,
            final(self)@.stats == old(self)@.stats,
            old(self)@.has_room(room_id@) ==> final(self)@.rooms == old(self)@.rooms.remove(
                old(self)@.room_idx(room_id@),
            ),
            !old(self)@.has_room(room_id@) ==> final(self)@ == old(self)@,
    {
        let ghost pre = self@;
        match self.find_room_index(room_id) {
            Some(i) => {
                proof {
                    lemma_room_idx_is(pre, room_id@, i as int);
                }
                self.rooms.remove(i);
                proof {
                    assert(self@.rooms =~= pre.rooms.remove(i as int));
                    assert(self@.users =~= pre.users);
                }
            },
            None => {
                proof {
                    assert(self@ =~= pre);
                }
            },
        }
    }

    /// Removes the user account keyed by `user_id`, if it exists.
    pub fn remove_user(&mut self, user_id: &UserId)
        requires
            old(self)@.wf(),
        ensures
            final(self)@.wf(),
            final(self)@.rooms == old(self)@.rooms,
            final(self)@.stats == old(self)@.stats,
            old(self)@.has_user(user_id@) ==> final(self)@.users == old(self)@.users.remove(
                old(self)@.user_idx(user_id@),
            ),
            !old(self)@.has_user(user_id@) ==> final(self)@ == old(self)@,
    {
        let ghost pre = self@;
        match self.find_user_index(user_id) {
            Some(i) => {
                proof {
                    lemma_user_idx_is(pre, user_id@, i as int);
                }
                self.users.remove(i);
                proof {
                    assert(self@.users =~= pre.users.remove(i as int));
                    assert(self@.rooms =~= pre.rooms);
                }
            },
            None => {
                proof {
                    assert(self@ =~= pre);
                }
            },
        }
    }
}

} // verus!
