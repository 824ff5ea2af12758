//! The reverse mapping from each tier to the users assessed into it.
use vstd::prelude::*;
use crate::table::UserId;
use crate::tier::Tier;

verus! {

/// `members` with `user` appended, unless it is there already.
pub open spec fn with_member(members: Seq<UserId>, user: UserId) -> Seq<UserId> {
    if members.contains(user) {
        members
    } else {
        members.push(user)
    }
}

/// Adding a member keeps a list free of repeats, lists the new member,
/// and lists nobody else besides those listed before.
pub proof fn lemma_with_member(members: Seq<UserId>, user: UserId)
    requires
        members.no_duplicates(),
    ensures
        with_member(members, user).no_duplicates(),
        with_member(members, user).contains(user),
        forall|x: UserId| #[trigger]
            with_member(members, user).contains(x) <==> (members.contains(x) || x == user),
{
    if !members.contains(user) {
        let s = members.push(user);
        assert(s[members.len() as int] == user);
        assert forall|i: int, j: int| 0 <= i < s.len() && 0 <= j < s.len() && i != j implies s[i]
            != s[j] by {
            if i < members.len() && j < members.len() {
                assert(s[i] == members[i] && s[j] == members[j]);
            } else if i < members.len() {
                assert(members.contains(s[i]));
            } else {
                assert(members.contains(s[j]));
            }
        }
        assert forall|x: UserId| #[trigger] s.contains(x) implies (members.contains(x) || x == user) by {
            let k = choose|k: int| 0 <= k < s.len() && s[k] == x;
            if k < members.len() {
                assert(members[k] == x);
            }
        }
        assert forall|x: UserId| members.contains(x) implies #[trigger] s.contains(x) by {
            let k = choose|k: int| 0 <= k < members.len() && members[k] == x;
            assert(s[k] == x);
        }
    }
}

/// For each tier, the users ever assessed into it, in order of first
/// assessment and without repeats. Membership only grows.
pub struct TierIndex {
    tier_1: Vec<UserId>,
    tier_2: Vec<UserId>,
    tier_3: Vec<UserId>,
}

impl TierIndex {
    /// The member list of tier `t`.
    pub closed spec fn members(&self, t: Tier) -> Seq<UserId> {
        match t {
            Tier::Tier1 => self.tier_1@,
            Tier::Tier2 => self.tier_2@,
            Tier::Tier3 => self.tier_3@,
        }
    }

    pub fn new() -> (r: Self)
        ensures
            forall|t: Tier| #[trigger] r.members(t) == Seq::<UserId>::empty(),
    {
        TierIndex { tier_1: Vec::new(), tier_2: Vec::new(), tier_3: Vec::new() }
    }

    /// Adds `user` to the list of `tier`, unless it is already a member.
    pub fn add_member(&mut self, tier: Tier, user: UserId)
        ensures
            final(self).members(tier) == with_member(old(self).members(tier), user),
            forall|t: Tier| t != tier ==> #[trigger] final(self).members(t) == old(self).members(t),
    {
        match tier {
            Tier::Tier1 => add_to_list(&mut self.tier_1, user),
            Tier::Tier2 => add_to_list(&mut self.tier_2, user),
            Tier::Tier3 => add_to_list(&mut self.tier_3, user),
        }
    }

    /// A copy of the member list of `tier`.
    pub fn members_of(&self, tier: Tier) -> (r: Vec<UserId>)
        ensures
            r@ == self.members(tier),
    {
        match tier {
            Tier::Tier1 => self.tier_1.clone(),
            Tier::Tier2 => self.tier_2.clone(),
            Tier::Tier3 => self.tier_3.clone(),
        }
    }

    /// The number of members of `tier`.
    pub fn count(&self, tier: Tier) -> (r: usize)
        ensures
            r == self.members(tier).len(),
    {
        match tier {
            Tier::Tier1 => self.tier_1.len(),
            Tier::Tier2 => self.tier_2.len(),
            Tier::Tier3 => self.tier_3.len(),
        }
    }
}

fn add_to_list(list: &mut Vec<UserId>, user: UserId)
    ensures
        final(list)@ == with_member(old(list)@, user),
{
    let mut i: usize = 0;
    while i < list.len()
        invariant
            i <= list@.len(),
            forall|j: int| 0 <= j < i ==> list@[j] != user,
        decreases list@.len() - i,
    {
        if list[i] == user {
            assert(list@.contains(user));
            return;
        }
        i = i + 1;
    }
    assert(!list@.contains(user));
    list.push(user);
}

} // verus!
