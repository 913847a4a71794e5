//! What holds of the store whatever warnings are added to it, and in
//! whatever order.

use vstd::prelude::*;

use crate::identity::UserView;
use crate::record::{guild_wf, member_wf, store_wf, GuildView, MemberView};
use crate::store::{
    guild_ids, lemma_position_push, lemma_position_stops, lookup, member_ids, position,
    users_with_warning, warned, with_warning,
};

verus! {

/// The record that a user has before their first warning.
pub open spec fn unwarned(user: UserView) -> MemberView {
    MemberView { user, warning_count: 0, warnings: Seq::empty() }
}

/// Within one guild, a warning finds the record of the user it was given
/// to, or starts one at the end, and adds the warning to it; every other
/// user of the guild stays where and as they were, and nobody else comes in.
pub proof fn lemma_users_with_warning(users: Seq<MemberView>, user: UserView, reason: Seq<char>)
    ensures
        ({
            let u = position(member_ids(users), user.id);
            let after = users_with_warning(users, user, reason);
            &&& position(member_ids(after), user.id) == u
            &&& u < after.len()
            &&& after[u] == warned(
                if u < users.len() {
                    users[u]
                } else {
                    unwarned(user)
                },
                reason,
            )
            &&& forall|other: u64|
                other != user.id ==> (position(member_ids(after), other) < after.len()
                    <==> #[trigger] position(member_ids(users), other) < users.len())
            &&& forall|other: u64|
                other != user.id && #[trigger] position(member_ids(users), other) < users.len()
                    ==> position(member_ids(after), other) == position(member_ids(users), other)
                    && after[position(member_ids(users), other)] == users[position(
                    member_ids(users),
                    other,
                )]
        }),
{
    let ids = member_ids(users);
    let u = position(ids, user.id);
    let after = users_with_warning(users, user, reason);
    let after_ids = member_ids(after);
    lemma_position_stops(ids, user.id);
    lemma_position_push(ids, user.id, user.id);
    if u < users.len() {
        assert(after_ids =~= ids);
    } else {
        assert(after_ids =~= ids.push(user.id));
    }
    assert forall|other: u64| other != user.id implies (position(after_ids, other) < after.len()
        <==> #[trigger] position(ids, other) < users.len()) && (position(ids, other) < users.len()
        ==> position(after_ids, other) == position(ids, other) && after[position(ids, other)]
        == users[position(ids, other)]) by {
        lemma_position_stops(ids, other);
        lemma_position_push(ids, user.id, other);
    }
}

/// A warning leaves a consistent guild's record consistent.
pub proof fn lemma_users_with_warning_wf(guild: GuildView, user: UserView, reason: Seq<char>)
    requires
        guild_wf(guild),
    ensures
        guild_wf(GuildView { id: guild.id, users: users_with_warning(guild.users, user, reason) }),
{
    let users = guild.users;
    let ids = member_ids(users);
    let u = position(ids, user.id);
    let after = users_with_warning(users, user, reason);
    lemma_position_stops(ids, user.id);
    assert forall|i: int, j: int| 0 <= i < j < after.len() implies after[i].user.id
        != after[j].user.id by {
        if j < users.len() {
            assert(after[i].user.id == users[i].user.id);
            assert(after[j].user.id == users[j].user.id);
        } else {
            assert(ids[i] != user.id);
        }
    }
    assert forall|i: int| 0 <= i < after.len() implies member_wf(#[trigger] after[i]) by {
        if i != u {
            assert(after[i] == users[i]);
        } else if u < users.len() {
            assert(member_wf(users[u]));
        }
    }
}

/// After a warning, the user it was given to has a record in that guild:
/// the one they had, or a fresh one, with the warning added at the end.
pub proof fn law_warning_is_recorded(
    store: Seq<GuildView>,
    guild: u64,
    user: UserView,
    reason: Seq<char>,
)
    ensures
        lookup(with_warning(store, guild, user, reason), guild, user.id) == Some(
            warned(
                match lookup(store, guild, user.id) {
                    Some(member) => member,
                    None => unwarned(user),
                },
                reason,
            ),
        ),
{
    let ids = guild_ids(store);
    let g = position(ids, guild);
    let after = with_warning(store, guild, user, reason);
    lemma_position_stops(ids, guild);
    lemma_position_push(ids, guild, guild);
    if g < store.len() {
        assert(guild_ids(after) =~= ids);
        lemma_users_with_warning(store[g].users, user, reason);
    } else {
        assert(guild_ids(after) =~= ids.push(guild));
        assert(member_ids(Seq::<MemberView>::empty()) =~= Seq::<u64>::empty());
        lemma_users_with_warning(Seq::empty(), user, reason);
    }
}

/// A warning changes the record of nobody but the user it was given to, in
/// the guild it was given in: whoever else had a record keeps it as it was,
/// and whoever else had none still has none.
pub proof fn law_warning_leaves_others(
    store: Seq<GuildView>,
    guild: u64,
    user: UserView,
    reason: Seq<char>,
    other_guild: u64,
    other_user: u64,
)
    requires
        other_guild != guild || other_user != user.id,
    ensures
        lookup(with_warning(store, guild, user, reason), other_guild, other_user) == lookup(
            store,
            other_guild,
            other_user,
        ),
{
    let ids = guild_ids(store);
    let g = position(ids, guild);
    let o = position(ids, other_guild);
    let after = with_warning(store, guild, user, reason);
    lemma_position_stops(ids, guild);
    lemma_position_stops(ids, other_guild);
    lemma_position_push(ids, guild, other_guild);
    let users = if g < store.len() {
        store[g].users
    } else {
        Seq::empty()
    };
    if g < store.len() {
        assert(guild_ids(after) =~= ids);
    } else {
        assert(guild_ids(after) =~= ids.push(guild));
        assert(member_ids(users) =~= Seq::<u64>::empty());
    }
    lemma_users_with_warning(users, user, reason);
    if other_guild == guild {
        assert(after[g].users == users_with_warning(users, user, reason));
        let before = position(member_ids(users), other_user);
        if before < users.len() {
            assert(lookup(store, other_guild, other_user) == Some(users[before]));
        } else {
            assert(lookup(store, other_guild, other_user).is_none());
        }
    } else if o < store.len() {
        assert(after[o] == store[o]);
    }
}

/// A warning leaves a consistent store consistent: no guild and no user of
/// a guild comes to stand twice, and each count stays the number of the
/// user's warnings.
pub proof fn law_warning_keeps_consistency(
    store: Seq<GuildView>,
    guild: u64,
    user: UserView,
    reason: Seq<char>,
)
    requires
        store_wf(store),
    ensures
        store_wf(with_warning(store, guild, user, reason)),
{
    let ids = guild_ids(store);
    let g = position(ids, guild);
    let after = with_warning(store, guild, user, reason);
    lemma_position_stops(ids, guild);
    let present = if g < store.len() {
        store
    } else {
        store.push(GuildView { id: guild, users: Seq::empty() })
    };
    assert(guild_wf(present[g]));
    lemma_users_with_warning_wf(present[g], user, reason);
    assert forall|i: int, j: int| 0 <= i < j < after.len() implies after[i].id != after[j].id by {
        if j < store.len() {
            assert(after[i].id == store[i].id);
            assert(after[j].id == store[j].id);
        } else {
            assert(ids[i] != guild);
        }
    }
    assert forall|i: int| 0 <= i < after.len() implies guild_wf(#[trigger] after[i]) by {
        if i != g {
            assert(after[i] == store[i]);
        }
    }
}

/// One call of `add_warning`, as its arguments' values.
pub struct Issued {
    pub guild: u64,
    pub user: UserView,
    pub reason: Seq<char>,
}

/// The store that `store` becomes when the warnings of `history` are added
/// to it one after the other, the first of them first.
pub open spec fn after_history(store: Seq<GuildView>, history: Seq<Issued>) -> Seq<GuildView>
    decreases history.len(),
{
    if history.len() == 0 {
        store
    } else {
        let last = history.last();
        with_warning(
            after_history(store, history.drop_last()),
            last.guild,
            last.user,
            last.reason,
        )
    }
}

/// The reasons of those warnings of `history` that were given to `user` in
/// `guild`, in the order in which they were given.
pub open spec fn reasons_given(history: Seq<Issued>, guild: u64, user: u64) -> Seq<Seq<char>>
    decreases history.len(),
{
    if history.len() == 0 {
        Seq::empty()
    } else {
        let last = history.last();
        let earlier = reasons_given(history.drop_last(), guild, user);
        if last.guild == guild && last.user.id == user {
            earlier.push(last.reason)
        } else {
            earlier
        }
    }
}

/// Whatever warnings are added to a store, in whatever order and to
/// whomever: a user to whom none of them was given has the record they had,
/// or none as before; a user to whom some were given has a record that holds
/// the warnings they had, then the new ones in the order given, a count
/// grown by their number, and the identity it held before, if there was one.
pub proof fn law_history(store: Seq<GuildView>, history: Seq<Issued>, guild: u64, user: u64)
    ensures
        reasons_given(history, guild, user).len() == 0 ==> lookup(
            after_history(store, history),
            guild,
            user,
        ) == lookup(store, guild, user),
        reasons_given(history, guild, user).len() > 0 ==> ({
            &&& lookup(after_history(store, history), guild, user) matches Some(member)
            &&& member.user.id == user
            &&& member.warnings == (match lookup(store, guild, user) {
                Some(before) => before.warnings,
                None => Seq::empty(),
            }) + reasons_given(history, guild, user)
            &&& member.warning_count == (match lookup(store, guild, user) {
                Some(before) => before.warning_count,
                None => 0,
            }) + reasons_given(history, guild, user).len()
            &&& lookup(store, guild, user) matches Some(before) ==> member.user == before.user
        }),
    decreases history.len(),
{
    lemma_lookup_identity(store, guild, user);
    if history.len() > 0 {
        let earlier = history.drop_last();
        let last = history.last();
        let middle = after_history(store, earlier);
        law_history(store, earlier, guild, user);
        lemma_lookup_identity(middle, guild, user);
        if last.guild == guild && last.user.id == user {
            law_warning_is_recorded(middle, guild, last.user, last.reason);
            let given = reasons_given(earlier, guild, user);
            let had = match lookup(store, guild, user) {
                Some(before) => before.warnings,
                None => Seq::empty(),
            };
            assert((had + given).push(last.reason) =~= had + given.push(last.reason));
            assert(had.push(last.reason) =~= had + Seq::<Seq<char>>::empty().push(last.reason));
            if given.len() == 0 {
                assert(given =~= Seq::<Seq<char>>::empty());
            }
        } else {
            law_warning_leaves_others(middle, last.guild, last.user, last.reason, guild, user);
        }
    }
}

/// A record that is found for a user holds that user's identifier.
pub proof fn lemma_lookup_identity(store: Seq<GuildView>, guild: u64, user: u64)
    ensures
        lookup(store, guild, user) matches Some(member) ==> member.user.id == user,
{
    let g = position(guild_ids(store), guild);
    lemma_position_stops(guild_ids(store), guild);
    if g < store.len() {
        lemma_position_stops(member_ids(store[g].users), user);
    }
}

/// The empty store holds a record of nobody.
pub proof fn law_empty_store_holds_nobody(guild: u64, user: u64)
    ensures
        lookup(Seq::empty(), guild, user).is_none(),
{
    assert(guild_ids(Seq::empty()) =~= Seq::<u64>::empty());
}

/// A user who was never warned in a guild has no record there: in the store
/// that any warnings given to others have built up from the empty one, the
/// lookup of that user in that guild finds nothing.
pub proof fn law_never_warned_is_absent(history: Seq<Issued>, guild: u64, user: u64)
    requires
        forall|i: int|
            0 <= i < history.len() ==> !(#[trigger] history[i].guild == guild
                && history[i].user.id == user),
    ensures
        lookup(after_history(Seq::empty(), history), guild, user).is_none(),
{
    lemma_none_given(history, guild, user);
    law_history(Seq::empty(), history, guild, user);
    law_empty_store_holds_nobody(guild, user);
}

/// Where no warning of `history` was given to `user` in `guild`, no reason
/// was given to them.
pub proof fn lemma_none_given(history: Seq<Issued>, guild: u64, user: u64)
    requires
        forall|i: int|
            0 <= i < history.len() ==> !(#[trigger] history[i].guild == guild
                && history[i].user.id == user),
    ensures
        reasons_given(history, guild, user).len() == 0,
    decreases history.len(),
{
    if history.len() > 0 {
        let earlier = history.drop_last();
        assert forall|i: int| 0 <= i < earlier.len() implies !(#[trigger] earlier[i].guild == guild
            && earlier[i].user.id == user) by {
            assert(earlier[i] == history[i]);
        }
        lemma_none_given(earlier, guild, user);
        assert(!(history[history.len() - 1].guild == guild && history[history.len() - 1].user.id
            == user));
    }
}

/// The first warning in an empty store: the user it was given to then has a
/// record with a count of one and that single warning.
pub proof fn law_first_warning(guild: u64, user: UserView, reason: Seq<char>)
    ensures
        lookup(with_warning(Seq::empty(), guild, user, reason), guild, user.id) == Some(
            MemberView { user, warning_count: 1, warnings: seq![reason] },
        ),
{
    law_empty_store_holds_nobody(guild, user.id);
    law_warning_is_recorded(Seq::empty(), guild, user, reason);
    assert(Seq::<Seq<char>>::empty().push(reason) =~= seq![reason]);
}

/// Where every warning of `history` was given to `user` in `guild`, the
/// reasons given to them are the reasons of `history`, one by one.
pub proof fn lemma_all_given(history: Seq<Issued>, guild: u64, user: u64)
    requires
        forall|i: int|
            0 <= i < history.len() ==> #[trigger] history[i].guild == guild && history[i].user.id
                == user,
    ensures
        reasons_given(history, guild, user) == Seq::new(history.len(), |i: int| history[i].reason),
    decreases history.len(),
{
    if history.len() > 0 {
        let earlier = history.drop_last();
        assert forall|i: int| 0 <= i < earlier.len() implies #[trigger] earlier[i].guild == guild
            && earlier[i].user.id == user by {
            assert(earlier[i] == history[i]);
        }
        lemma_all_given(earlier, guild, user);
        assert(history[history.len() - 1].guild == guild);
        assert(reasons_given(history, guild, user) =~= Seq::new(
            history.len(),
            |i: int| history[i].reason,
        ));
    } else {
        assert(reasons_given(history, guild, user) =~= Seq::new(
            history.len(),
            |i: int| history[i].reason,
        ));
    }
}

/// N warnings to the same user in the same guild, given in an empty store:
/// the user's count is N and their warnings are the N reasons, in the order
/// in which they were given.
pub proof fn law_repeated_warnings(history: Seq<Issued>, guild: u64, user: u64)
    requires
        history.len() > 0,
        forall|i: int|
            0 <= i < history.len() ==> #[trigger] history[i].guild == guild && history[i].user.id
                == user,
    ensures
        lookup(after_history(Seq::empty(), history), guild, user) matches Some(member)
            && member.warning_count == history.len() && member.warnings == Seq::new(
            history.len(),
            |i: int| history[i].reason,
        ),
{
    lemma_all_given(history, guild, user);
    law_history(Seq::empty(), history, guild, user);
    law_empty_store_holds_nobody(guild, user);
    let given = reasons_given(history, guild, user);
    assert(Seq::<Seq<char>>::empty() + given =~= given);
}

/// Two users of one guild have records of their own: after a warning to
/// each, the first user's record is what their own warning made it and the
/// second user's warning has left it alone, and the other way round.
pub proof fn law_records_are_independent(
    store: Seq<GuildView>,
    guild: u64,
    first: UserView,
    first_reason: Seq<char>,
    second: UserView,
    second_reason: Seq<char>,
)
    requires
        first.id != second.id,
    ensures
        ({
            let one = with_warning(store, guild, first, first_reason);
            let both = with_warning(one, guild, second, second_reason);
            &&& lookup(both, guild, first.id) == lookup(one, guild, first.id)
            &&& lookup(one, guild, second.id) == lookup(store, guild, second.id)
            &&& lookup(both, guild, first.id) == Some(
                warned(
                    match lookup(store, guild, first.id) {
                        Some(member) => member,
                        None => unwarned(first),
                    },
                    first_reason,
                ),
            )
            &&& lookup(both, guild, second.id) == Some(
                warned(
                    match lookup(store, guild, second.id) {
                        Some(member) => member,
                        None => unwarned(second),
                    },
                    second_reason,
                ),
            )
        }),
{
    let one = with_warning(store, guild, first, first_reason);
    law_warning_is_recorded(store, guild, first, first_reason);
    law_warning_leaves_others(store, guild, first, first_reason, guild, second.id);
    law_warning_is_recorded(one, guild, second, second_reason);
    law_warning_leaves_others(one, guild, second, second_reason, guild, first.id);
}

} // verus!
