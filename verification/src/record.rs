//! The records of the store, outermost to innermost: the store, its guilds,
//! the users of a guild, the warnings of a user.

use vstd::prelude::*;

use crate::identity::{GuildId, User, UserView};

verus! {

/// One warning: the reason it was given for.
#[derive(Debug, PartialEq, Eq)]
pub struct Warning {
    /// Reason for the warning.
    pub reason: String,
}

/// A user of a guild together with the warnings given to them.
#[derive(Debug, PartialEq, Eq)]
pub struct UserWarnings {
    /// The user.
    pub user: User,
    /// How many warnings the user has.
    pub warning_count: u32,
    /// The warnings, oldest first.
    pub warnings: Vec<Warning>,
}

/// A guild together with those of its users that have been warned.
#[derive(Debug, PartialEq, Eq)]
pub struct GuildWarnings {
    /// The guild's identifier.
    pub id: GuildId,
    /// The warned users, in the order of their first warning.
    pub users: Vec<UserWarnings>,
}

/// The whole store: every guild in which a warning was given.
#[derive(Debug, PartialEq, Eq)]
pub struct Warnings {
    /// The guilds, in the order of their first warning.
    pub guilds: Vec<GuildWarnings>,
}

/// The mathematical value of a [`UserWarnings`].
#[verifier::ext_equal]
pub struct MemberView {
    pub user: UserView,
    pub warning_count: nat,
    pub warnings: Seq<Seq<char>>,
}

/// The mathematical value of a [`GuildWarnings`].
#[verifier::ext_equal]
pub struct GuildView {
    pub id: u64,
    pub users: Seq<MemberView>,
}

impl View for Warning {
    type V = Seq<char>;

    open spec fn view(&self) -> Seq<char> {
        self.reason@
    }
}

impl View for UserWarnings {
    type V = MemberView;

    open spec fn view(&self) -> MemberView {
        MemberView {
            user: self.user@,
            warning_count: self.warning_count as nat,
            warnings: Seq::new(self.warnings@.len(), |i: int| self.warnings@[i]@),
        }
    }
}

impl View for GuildWarnings {
    type V = GuildView;

    open spec fn view(&self) -> GuildView {
        GuildView { id: self.id.0, users: Seq::new(self.users@.len(), |i: int| self.users@[i]@) }
    }
}

impl View for Warnings {
    type V = Seq<GuildView>;

    open spec fn view(&self) -> Seq<GuildView> {
        Seq::new(self.guilds@.len(), |i: int| self.guilds@[i]@)
    }
}

/// Whether the count of a user's record is the number of its warnings.
pub open spec fn member_wf(member: MemberView) -> bool {
    member.warning_count == member.warnings.len()
}

/// Whether a guild's record holds each user once, by identifier, and each
/// user's record is consistent.
pub open spec fn guild_wf(guild: GuildView) -> bool {
    &&& forall|i: int, j: int|
        0 <= i < j < guild.users.len() ==> guild.users[i].user.id != guild.users[j].user.id
    &&& forall|i: int| 0 <= i < guild.users.len() ==> member_wf(#[trigger] guild.users[i])
}

/// Whether a store holds each guild once, by identifier, and each guild's
/// record is consistent.
pub open spec fn store_wf(store: Seq<GuildView>) -> bool {
    &&& forall|i: int, j: int| 0 <= i < j < store.len() ==> store[i].id != store[j].id
    &&& forall|i: int| 0 <= i < store.len() ==> guild_wf(#[trigger] store[i])
}

impl Warning {
    /// A warning given for `reason`.
    pub fn new(reason: String) -> (warning: Warning)
        ensures
            warning@ == reason@,
    {
        Warning { reason }
    }
}

impl GuildWarnings {
    /// Whether each user occurs once and each count fits its warnings.
    pub open spec fn wf(&self) -> bool {
        guild_wf(self@)
    }

    /// The record of a guild in which nobody has been warned yet.
    pub fn new(id: GuildId) -> (guild: GuildWarnings)
        ensures
            guild@ =~~= (GuildView { id: id.0, users: Seq::empty() }),
            guild.wf(),
    {
        GuildWarnings { id, users: Vec::new() }
    }
}

impl UserWarnings {
    /// Whether the count is the number of the warnings.
    pub open spec fn wf(&self) -> bool {
        member_wf(self@)
    }

    /// The record of a user who has no warning yet.
    pub fn new(user: User) -> (member: UserWarnings)
        ensures
            member@ =~~= (MemberView { user: user@, warning_count: 0, warnings: Seq::empty() }),
            member.wf(),
    {
        UserWarnings { user, warning_count: 0, warnings: Vec::new() }
    }
}

impl Warnings {
    /// Whether each guild and each user of a guild occurs once, and each
    /// user's count is the number of their warnings.
    pub open spec fn wf(&self) -> bool {
        store_wf(self@)
    }

    /// An empty store.
    pub fn new() -> (store: Warnings)
        ensures
            store@ =~= Seq::<GuildView>::empty(),
            store.wf(),
    {
        Warnings { guilds: Vec::new() }
    }
}

impl Default for Warnings {
    /// An empty store.
    fn default() -> (store: Warnings)
        ensures
            store@ =~= Seq::<GuildView>::empty(),
            store.wf(),
    {
        Warnings { guilds: Vec::new() }
    }
}

impl Clone for Warning {
    fn clone(&self) -> (copy: Warning)
        ensures
            copy@ == self@,
    {
        Warning { reason: self.reason.clone() }
    }
}

impl Clone for UserWarnings {
    fn clone(&self) -> (copy: UserWarnings)
        ensures
            copy@ == self@,
    {
        let mut warnings: Vec<Warning> = Vec::new();
        let mut i: usize = 0;
        while i < self.warnings.len()
            invariant
                i <= self.warnings.len(),
                warnings@.len() == i,
                forall|j: int| 0 <= j < i ==> warnings@[j]@ == self.warnings@[j]@,
            decreases self.warnings.len() - i,
        {
            warnings.push(self.warnings[i].clone());
            i += 1;
        }
        let copy = UserWarnings {
            user: self.user.clone(),
            warning_count: self.warning_count,
            warnings,
        };
        assert(copy@ =~~= self@);
        copy
    }
}

impl Clone for GuildWarnings {
    fn clone(&self) -> (copy: GuildWarnings)
        ensures
            copy@ == self@,
    {
        let mut users: Vec<UserWarnings> = Vec::new();
        let mut i: usize = 0;
        while i < self.users.len()
            invariant
                i <= self.users.len(),
                users@.len() == i,
                forall|j: int| 0 <= j < i ==> users@[j]@ == self.users@[j]@,
            decreases self.users.len() - i,
        {
            users.push(self.users[i].clone());
            i += 1;
        }
        let copy = GuildWarnings { id: self.id, users };
        assert(copy@ =~~= self@);
        copy
    }
}

impl Clone for Warnings {
    fn clone(&self) -> (copy: Warnings)
        ensures
            copy@ == self@,
    {
        let mut guilds: Vec<GuildWarnings> = Vec::new();
        let mut i: usize = 0;
        while i < self.guilds.len()
            invariant
                i <= self.guilds.len(),
                guilds@.len() == i,
                forall|j: int| 0 <= j < i ==> guilds@[j]@ == self.guilds@[j]@,
            decreases self.guilds.len() - i,
        {
            guilds.push(self.guilds[i].clone());
            i += 1;
        }
        let copy = Warnings { guilds };
        assert(copy@ =~~= self@);
        copy
    }
}

} // verus!
