//! Finding a user's record in the store, and adding a warning to it.

use vstd::prelude::*;

use crate::identity::{GuildId, User, UserId, UserView};
use crate::laws::law_warning_keeps_consistency;
use crate::record::{GuildView, GuildWarnings, MemberView, UserWarnings, Warning, Warnings};

verus! {

/// Index of the first element of `keys` that equals `key`, or `keys.len()`
/// where no element does.
pub open spec fn position(keys: Seq<u64>, key: u64) -> int
    decreases keys.len(),
{
    if keys.len() == 0 {
        0
    } else {
        let before = position(keys.drop_last(), key);
        if before < keys.len() - 1 {
            before
        } else if keys.last() == key {
            keys.len() - 1
        } else {
            keys.len() as int
        }
    }
}

/// Whether `i` is where a scan of `keys` from the front for `key` stops.
pub open spec fn stops_at(keys: Seq<u64>, key: u64, i: int) -> bool {
    &&& 0 <= i <= keys.len()
    &&& forall|j: int| 0 <= j < i ==> keys[j] != key
    &&& i < keys.len() ==> keys[i] == key
}

/// `position` is where the scan stops.
pub proof fn lemma_position_stops(keys: Seq<u64>, key: u64)
    ensures
        stops_at(keys, key, position(keys, key)),
    decreases keys.len(),
{
    if keys.len() > 0 {
        let front = keys.drop_last();
        lemma_position_stops(front, key);
        assert forall|j: int| 0 <= j < position(keys, key) implies keys[j] != key by {
            if j < front.len() {
                assert(front[j] == keys[j]);
            }
        }
        if position(keys, key) < front.len() {
            assert(front[position(keys, key)] == keys[position(keys, key)]);
        }
    }
}

/// The scan stops at one index only, so that index is `position`.
pub proof fn lemma_position_is(keys: Seq<u64>, key: u64, i: int)
    requires
        stops_at(keys, key, i),
    ensures
        position(keys, key) == i,
{
    lemma_position_stops(keys, key);
}

/// Where the scan stops once `last` has been added at the end of `keys`.
pub proof fn lemma_position_push(keys: Seq<u64>, last: u64, key: u64)
    ensures
        position(keys.push(last), key) == (if position(keys, key) < keys.len() {
            position(keys, key)
        } else if last == key {
            keys.len() as int
        } else {
            keys.len() as int + 1
        }),
{
    assert(keys.push(last).drop_last() =~= keys);
    lemma_position_stops(keys, key);
}

/// The identifiers of the guilds, in the order of the guilds.
pub open spec fn guild_ids(guilds: Seq<GuildView>) -> Seq<u64> {
    Seq::new(guilds.len(), |i: int| guilds[i].id)
}

/// The identifiers of the users, in the order of the users.
pub open spec fn member_ids(users: Seq<MemberView>) -> Seq<u64> {
    Seq::new(users.len(), |i: int| users[i].user.id)
}

/// The record of the user `user` in the guild `guild`, if the store has one.
pub open spec fn lookup(store: Seq<GuildView>, guild: u64, user: u64) -> Option<MemberView> {
    let g = position(guild_ids(store), guild);
    if g < store.len() {
        let users = store[g].users;
        let u = position(member_ids(users), user);
        if u < users.len() {
            Some(users[u])
        } else {
            None
        }
    } else {
        None
    }
}

/// `member` with one more warning, given for `reason`.
pub open spec fn warned(member: MemberView, reason: Seq<char>) -> MemberView {
    MemberView {
        user: member.user,
        warning_count: member.warning_count + 1,
        warnings: member.warnings.push(reason),
    }
}

/// The users of a guild after `user` was warned there for `reason`: the
/// user's record is found by identifier, or added at the end if there is none.
pub open spec fn users_with_warning(users: Seq<MemberView>, user: UserView, reason: Seq<char>) -> Seq<
    MemberView,
> {
    let u = position(member_ids(users), user.id);
    let present = if u < users.len() {
        users
    } else {
        users.push(MemberView { user, warning_count: 0, warnings: Seq::empty() })
    };
    present.update(u, warned(present[u], reason))
}

/// The store after `user` was warned in `guild` for `reason`: the guild is
/// found by identifier, or added at the end if there is none.
pub open spec fn with_warning(
    store: Seq<GuildView>,
    guild: u64,
    user: UserView,
    reason: Seq<char>,
) -> Seq<GuildView> {
    let g = position(guild_ids(store), guild);
    let present = if g < store.len() {
        store
    } else {
        store.push(GuildView { id: guild, users: Seq::empty() })
    };
    present.update(
        g,
        GuildView { id: present[g].id, users: users_with_warning(present[g].users, user, reason) },
    )
}

impl GuildWarnings {
    /// Where the record of the user `id` stands among `self.users`.
    pub fn user_position(&self, id: &UserId) -> (found: Option<usize>)
        ensures
            (match found {
                Some(i) => i < self@.users.len() && i == position(member_ids(self@.users), id.0),
                None => position(member_ids(self@.users), id.0) == self@.users.len(),
            }),
    {
        let mut i: usize = 0;
        while i < self.users.len()
            invariant
                i <= self.users.len(),
                forall|j: int| 0 <= j < i ==> member_ids(self@.users)[j] != id.0,
            decreases self.users.len() - i,
        {
            if self.users[i].user.id.0 == id.0 {
                proof {
                    lemma_position_is(member_ids(self@.users), id.0, i as int);
                }
                return Some(i);
            }
            i += 1;
        }
        proof {
            lemma_position_is(member_ids(self@.users), id.0, i as int);
        }
        None
    }
}

impl Warnings {
    /// Where the record of the guild `id` stands among `self.guilds`.
    pub fn guild_position(&self, id: &GuildId) -> (found: Option<usize>)
        ensures
            (match found {
                Some(i) => i < self@.len() && i == position(guild_ids(self@), id.0),
                None => position(guild_ids(self@), id.0) == self@.len(),
            }),
    {
        let mut i: usize = 0;
        while i < self.guilds.len()
            invariant
                i <= self.guilds.len(),
                forall|j: int| 0 <= j < i ==> guild_ids(self@)[j] != id.0,
            decreases self.guilds.len() - i,
        {
            if self.guilds[i].id.0 == id.0 {
                proof {
                    lemma_position_is(guild_ids(self@), id.0, i as int);
                }
                return Some(i);
            }
            i += 1;
        }
        proof {
            lemma_position_is(guild_ids(self@), id.0, i as int);
        }
        None
    }

    /// The record of `user` in the guild `guild_id`: the user, the count and
    /// the warnings, oldest first. `None` where the store has no record of the
    /// guild, or the guild's record none of the user. The store is left as it
    /// is. The user is found by identifier alone, whatever the name in `user`.
    pub fn get_warnings(&self, guild_id: GuildId, user: User) -> (found: Option<UserWarnings>)
        ensures
            (match found {
                Some(member) => lookup(self@, guild_id.0, user.id.0) == Some(member@),
                None => lookup(self@, guild_id.0, user.id.0).is_none(),
            }),
            self.wf() ==> (found matches Some(member) ==> member.wf()),
    {
        let guild_pos = match self.guild_position(&guild_id) {
            Some(i) => i,
            None => return None,
        };
        let user_pos = match self.guilds[guild_pos].user_position(&user.id) {
            Some(i) => i,
            None => return None,
        };
        Some(self.guilds[guild_pos].users[user_pos].clone())
    }

    /// Adds a warning for `user` in the guild `guild_id`, given for `reason`.
    ///
    /// The guild's record and the user's record are found by identifier; one
    /// that is missing is added at the end. The warning goes to the end of the
    /// user's warnings and the user's count grows by one. Nothing else changes.
    ///
    /// The count is a `u32`: a user whose count has reached `u32::MAX` cannot
    /// be warned again.
    pub fn add_warning(&mut self, guild_id: &GuildId, user: User, reason: String)
        requires
            lookup(old(self)@, guild_id.0, user.id.0) matches Some(member)
                ==> member.warning_count < u32::MAX,
        ensures
            final(self)@ == with_warning(old(self)@, guild_id.0, user@, reason@),
            old(self).wf() ==> final(self).wf(),
    {
        let guild_pos = match self.guild_position(guild_id) {
            Some(i) => i,
            None => {
                self.guilds.push(GuildWarnings::new(*guild_id));
                self.guilds.len() - 1
            },
        };
        let user_pos = match self.guilds[guild_pos].user_position(&user.id) {
            Some(i) => i,
            None => {
                self.guilds[guild_pos].users.push(UserWarnings::new(user));
                self.guilds[guild_pos].users.len() - 1
            },
        };
        self.guilds[guild_pos].users[user_pos].warnings.push(Warning::new(reason));
        self.guilds[guild_pos].users[user_pos].warning_count += 1;
        assert(self@ =~~= with_warning(old(self)@, guild_id.0, user@, reason@));
        proof {
            if old(self).wf() {
                law_warning_keeps_consistency(old(self)@, guild_id.0, user@, reason@);
            }
        }
    }
}

} // verus!
