//! The registry: assessments per user, the chosen-tier cache, and the tier index.
use vstd::prelude::*;
use crate::index::{lemma_with_member, with_member, TierIndex};
use crate::table::{UserId, UserTable};
use crate::tier::{
    admits, is_tier_name, may_choose, may_choose_tier, tier_name, RiskError, Tier, MAX_SCORE,
};

verus! {

/// The risk assessment held for one user.
#[derive(Clone, Copy, PartialEq, Eq, Structural, Debug)]
pub struct RiskTierData {
    /// Risk score in `0..=MAX_SCORE`; lower is less risky.
    pub score: u32,
    /// The tier the user was assessed into.
    pub tier: Tier,
    /// Clock reading at the last change of the record.
    pub timestamp: u64,
    /// The tier the user currently operates under.
    pub chosen_tier: Tier,
}

/// The number of members of each tier.
#[derive(Clone, Copy, PartialEq, Eq, Structural, Debug)]
pub struct TierStats {
    pub tier_1: usize,
    pub tier_2: usize,
    pub tier_3: usize,
}

impl TierStats {
    pub open spec fn count(self, t: Tier) -> usize {
        match t {
            Tier::Tier1 => self.tier_1,
            Tier::Tier2 => self.tier_2,
            Tier::Tier3 => self.tier_3,
        }
    }
}

/// The abstract state of a registry: the record of each assessed user and
/// the member list of each tier.
pub struct RegistryModel {
    pub records: Map<UserId, RiskTierData>,
    pub tier_1: Seq<UserId>,
    pub tier_2: Seq<UserId>,
    pub tier_3: Seq<UserId>,
}

impl RegistryModel {
    pub open spec fn members(self, t: Tier) -> Seq<UserId> {
        match t {
            Tier::Tier1 => self.tier_1,
            Tier::Tier2 => self.tier_2,
            Tier::Tier3 => self.tier_3,
        }
    }

    /// Scores stay in range; each tier lists a user at most once; every
    /// assessed user is listed under its assessed tier; only assessed users
    /// are listed.
    pub open spec fn valid(self) -> bool {
        &&& forall|u: UserId| #[trigger]
            self.records.contains_key(u) ==> self.records[u].score <= MAX_SCORE
        &&& forall|t: Tier| (#[trigger] self.members(t)).no_duplicates()
        &&& forall|u: UserId| #[trigger]
            self.records.contains_key(u) ==> self.members(self.records[u].tier).contains(u)
        &&& forall|t: Tier, u: UserId| #[trigger]
            self.members(t).contains(u) ==> self.records.contains_key(u)
    }

    pub open spec fn record_of(self, user: UserId) -> Option<RiskTierData> {
        if self.records.contains_key(user) {
            Some(self.records[user])
        } else {
            None
        }
    }

    /// The score of `user`, or zero for a user without a record.
    pub open spec fn score_of(self, user: UserId) -> u32 {
        if self.records.contains_key(user) {
            self.records[user].score
        } else {
            0
        }
    }

    /// The chosen tier of `user`, or the most permissive tier for a user without a record.
    pub open spec fn chosen_tier_of(self, user: UserId) -> Tier {
        if self.records.contains_key(user) {
            self.records[user].chosen_tier
        } else {
            Tier::Tier3
        }
    }

    /// Whether `user` has a record whose score admits it to `target`.
    pub open spec fn may_access(self, user: UserId, target: Tier) -> bool {
        self.records.contains_key(user) && admits(target, self.records[user].score as int)
    }

    /// The number of members of each tier.
    pub open spec fn stats(self) -> TierStats {
        TierStats {
            tier_1: self.tier_1.len() as usize,
            tier_2: self.tier_2.len() as usize,
            tier_3: self.tier_3.len() as usize,
        }
    }

    /// This state with `user` appended to the list of tier `t` unless listed there.
    pub open spec fn with_tier_member(self, t: Tier, user: UserId) -> RegistryModel {
        match t {
            Tier::Tier1 => RegistryModel { tier_1: with_member(self.tier_1, user), ..self },
            Tier::Tier2 => RegistryModel { tier_2: with_member(self.tier_2, user), ..self },
            Tier::Tier3 => RegistryModel { tier_3: with_member(self.tier_3, user), ..self },
        }
    }

    /// The state after a successful assessment of `user`.
    pub open spec fn assessed(
        self,
        user: UserId,
        score: u32,
        tier: Tier,
        chosen_tier: Tier,
        now: u64,
    ) -> RegistryModel {
        RegistryModel {
            records: self.records.insert(
                user,
                RiskTierData { score, tier, timestamp: now, chosen_tier },
            ),
            ..self
        }.with_tier_member(tier, user)
    }

    /// The state after `user`, who has a record, successfully chose `chosen_tier`.
    pub open spec fn rechosen(self, user: UserId, chosen_tier: Tier, now: u64) -> RegistryModel {
        RegistryModel {
            records: self.records.insert(
                user,
                RiskTierData { chosen_tier, timestamp: now, ..self.records[user] },
            ),
            ..self
        }
    }
}

/// A risk-tiered access registry.
pub struct RiskTierContract {
    records: UserTable<RiskTierData>,
    chosen: UserTable<Tier>,
    index: TierIndex,
}

impl View for RiskTierContract {
    type V = RegistryModel;

    closed spec fn view(&self) -> RegistryModel {
        RegistryModel {
            records: self.records@,
            tier_1: self.index.members(Tier::Tier1),
            tier_2: self.index.members(Tier::Tier2),
            tier_3: self.index.members(Tier::Tier3),
        }
    }
}

impl RiskTierContract {
    /// The stores are well formed and the chosen-tier cache agrees with the records.
    pub closed spec fn stores_agree(&self) -> bool {
        &&& self.records.wf()
        &&& self.chosen.wf()
        &&& self.chosen@.dom() == self.records@.dom()
        &&& forall|u: UserId| #[trigger]
            self.chosen@.contains_key(u) ==> self.chosen@[u] == self.records@[u].chosen_tier
    }

    pub open spec fn wf(&self) -> bool {
        self.stores_agree() && self@.valid()
    }

    /// An empty registry.
    pub fn new() -> (r: Self)
        ensures
            r.wf(),
            r@.records == Map::<UserId, RiskTierData>::empty(),
            forall|t: Tier| #[trigger] r@.members(t) == Seq::<UserId>::empty(),
    {
        let r = RiskTierContract {
            records: UserTable::new(),
            chosen: UserTable::new(),
            index: TierIndex::new(),
        };
        assert(r.chosen@.dom() =~= r.records@.dom());
        r
    }

    /// Records an assessment of `user`, replacing any earlier record, and
    /// lists `user` under `tier`. A score above `MAX_SCORE` is refused and
    /// changes nothing. `now` is the current clock reading.
    pub fn set_risk_tier(
        &mut self,
        user: UserId,
        score: u32,
        tier: Tier,
        chosen_tier: Tier,
        now: u64,
    ) -> (r: Result<(), RiskError>)
        requires
            old(self).wf(),
        ensures
            final(self).wf(),
            r == (if score <= MAX_SCORE {
                Ok(())
            } else {
                Err(RiskError::ValidationError)
            }),
            final(self)@ == (if score <= MAX_SCORE {
                old(self)@.assessed(user, score, tier, chosen_tier, now)
            } else {
                old(self)@
            }),
    {
        if score > MAX_SCORE {
            return Err(RiskError::ValidationError);
        }
        let record = RiskTierData { score, tier, timestamp: now, chosen_tier };
        self.records.insert(user, record);
        self.index.add_member(tier, user);
        self.chosen.insert(user, chosen_tier);
        proof {
            let pre = old(self)@;
            let post = self@;
            let expected = pre.assessed(user, score, tier, chosen_tier, now);
            assert(self.chosen@.dom() =~= self.records@.dom());
            assert(post.records == expected.records);
            assert(post.members(tier) == with_member(pre.members(tier), user));
            assert forall|t: Tier| #[trigger] post.members(t) == expected.members(t) by {}
            assert(post.tier_1 == expected.tier_1 && post.tier_2 == expected.tier_2);
            assert(post.tier_3 == expected.tier_3);
            assert(post == expected);
            lemma_with_member(pre.members(tier), user);
            assert forall|t: Tier, u: UserId| #[trigger]
                post.members(t).contains(u) implies post.records.contains_key(u) by {
                if t != tier {
                    assert(pre.members(t).contains(u));
                }
            }
            assert forall|u: UserId| #[trigger]
                post.records.contains_key(u) implies post.members(post.records[u].tier).contains(u) by {
                if u != user {
                    let t = pre.records[u].tier;
                    assert(pre.members(t).contains(u));
                }
            }
            assert forall|t: Tier| (#[trigger] post.members(t)).no_duplicates() by {
                if t != tier {
                    assert(pre.members(t).no_duplicates());
                }
            }
        }
        Ok(())
    }

    /// `set_risk_tier` with the assessed and chosen tiers given by their
    /// symbols. A score above `MAX_SCORE`, or text that is not the symbol of
    /// a tier, is refused as a validation error and changes nothing.
    pub fn set_risk_tier_by_name(
        &mut self,
        user: UserId,
        score: u32,
        tier: &str,
        chosen_tier: &str,
        now: u64,
    ) -> (r: Result<(), RiskError>)
        requires
            old(self).wf(),
        ensures
            final(self).wf(),
            r is Err <==> (score > MAX_SCORE || !is_tier_name(tier@) || !is_tier_name(
                chosen_tier@,
            )),
            r is Err ==> r == Err::<(), RiskError>(RiskError::ValidationError) && final(self)@
                == old(self)@,
            forall|t: Tier, c: Tier|
                #![trigger tier_name(t), tier_name(c)]
                r is Ok && tier_name(t) == tier@ && tier_name(c) == chosen_tier@ ==> final(self)@
                    == old(self)@.assessed(user, score, t, c, now),
    {
        if score > MAX_SCORE {
            return Err(RiskError::ValidationError);
        }
        let t = match Tier::from_name(tier) {
            Ok(t) => t,
            Err(e) => return Err(e),
        };
        let c = match Tier::from_name(chosen_tier) {
            Ok(c) => c,
            Err(e) => return Err(e),
        };
        self.set_risk_tier(user, score, t, c, now)
    }

    /// Sets the chosen tier of `user` and stamps the record with `now`.
    /// Does nothing for a user without a record. A high-risk user may only
    /// choose the most permissive tier; any other choice is refused and
    /// changes nothing. The tier index is left as it is.
    pub fn update_chosen_tier(
        &mut self,
        user: UserId,
        new_chosen_tier: Tier,
        now: u64,
    ) -> (r: Result<(), RiskError>)
        requires
            old(self).wf(),
        ensures
            final(self).wf(),
            !old(self)@.records.contains_key(user) ==> r == Ok::<(), RiskError>(()) && final(self)@ == old(self)@,
            old(self)@.records.contains_key(user) && !may_choose(
                old(self)@.records[user].score as int,
                new_chosen_tier,
            ) ==> r == Err::<(), RiskError>(RiskError::AccessDeniedError) && final(self)@ == old(self)@,
            old(self)@.records.contains_key(user) && may_choose(
                old(self)@.records[user].score as int,
                new_chosen_tier,
            ) ==> r == Ok::<(), RiskError>(()) && final(self)@ == old(self)@.rechosen(user, new_chosen_tier, now),
    {
        match self.records.get(user) {
            None => Ok(()),
            Some(record) => {
                if !may_choose_tier(record.score, new_chosen_tier) {
                    return Err(RiskError::AccessDeniedError);
                }
                let updated = RiskTierData {
                    chosen_tier: new_chosen_tier,
                    timestamp: now,
                    ..record
                };
                self.records.insert(user, updated);
                self.chosen.insert(user, new_chosen_tier);
                proof {
                    let pre = old(self)@;
                    let post = self@;
                    assert(self.chosen@.dom() =~= self.records@.dom());
                    assert(post == pre.rechosen(user, new_chosen_tier, now));
                    assert(post.records.dom() =~= pre.records.dom());
                    assert forall|t: Tier| #[trigger] post.members(t) == pre.members(t) by {}
                    assert forall|u: UserId| #[trigger]
                        post.records.contains_key(u) implies post.records[u].score <= MAX_SCORE by {
                        assert(pre.records.contains_key(u));
                    }
                    assert forall|t: Tier, u: UserId| #[trigger]
                        post.members(t).contains(u) implies post.records.contains_key(u) by {
                        assert(pre.members(t).contains(u));
                    }
                    assert forall|u: UserId| #[trigger]
                        post.records.contains_key(u) implies post.members(
                        post.records[u].tier,
                    ).contains(u) by {
                        assert(pre.records.contains_key(u));
                        assert(post.records[u].tier == pre.records[u].tier);
                    }
                }
                Ok(())
            },
        }
    }

    /// The record of `user`, if one was ever set.
    pub fn get_risk_tier(&self, user: UserId) -> (r: Option<RiskTierData>)
        requires
            self.wf(),
        ensures
            r == self@.record_of(user),
    {
        self.records.get(user)
    }

    /// The score of `user`; zero when no record exists, so a score of zero
    /// and a missing record look alike.
    pub fn get_score(&self, user: UserId) -> (r: u32)
        requires
            self.wf(),
        ensures
            r == self@.score_of(user),
    {
        match self.records.get(user) {
            Some(record) => record.score,
            None => 0,
        }
    }

    /// The chosen tier of `user`, read from the cache; the most permissive
    /// tier when no record exists.
    pub fn get_chosen_tier(&self, user: UserId) -> (r: Tier)
        requires
            self.wf(),
        ensures
            r == self@.chosen_tier_of(user),
    {
        match self.chosen.get(user) {
            Some(t) => t,
            None => Tier::Tier3,
        }
    }

    /// The users listed under `tier`, in order of first assessment.
    pub fn get_tier_users(&self, tier: Tier) -> (r: Vec<UserId>)
        requires
            self.wf(),
        ensures
            r@ == self@.members(tier),
    {
        self.index.members_of(tier)
    }

    /// The number of users listed under each tier.
    pub fn get_tier_stats(&self) -> (r: TierStats)
        requires
            self.wf(),
        ensures
            r == self@.stats(),
            forall|t: Tier| #[trigger] r.count(t) == self@.members(t).len(),
    {
        TierStats {
            tier_1: self.index.count(Tier::Tier1),
            tier_2: self.index.count(Tier::Tier2),
            tier_3: self.index.count(Tier::Tier3),
        }
    }

    /// Whether `user` may access `target_tier`: only with a record, and then
    /// as the score admits (the chosen tier plays no part).
    pub fn can_access_tier(&self, user: UserId, target_tier: Tier) -> (r: bool)
        requires
            self.wf(),
        ensures
            r == self@.may_access(user, target_tier),
    {
        match self.records.get(user) {
            Some(record) => target_tier.admits_score(record.score),
            None => false,
        }
    }
}

} // verus!
