//! Laws that relate the registry's operations to one another.
use vstd::prelude::*;
use crate::index::lemma_with_member;
use crate::registry::{RegistryModel, RiskTierData};
use crate::table::UserId;
use crate::tier::{may_choose, Tier, LOW_RISK_THRESHOLD};

verus! {

/// Reading a user's record right after assessing it gives back exactly the
/// score and tiers that were set, stamped with the clock reading of the call.
pub proof fn law_assessment_read_back(
    m: RegistryModel,
    user: UserId,
    score: u32,
    tier: Tier,
    chosen_tier: Tier,
    now: u64,
)
    ensures
        m.assessed(user, score, tier, chosen_tier, now).record_of(user) == Some(
            RiskTierData { score, tier, timestamp: now, chosen_tier },
        ),
        m.assessed(user, score, tier, chosen_tier, now).score_of(user) == score,
        m.assessed(user, score, tier, chosen_tier, now).chosen_tier_of(user) == chosen_tier,
{
}

/// After an assessment into tier `t`, the user is listed under `t` exactly
/// once, and two more assessments into `t` leave that list as it was.
pub proof fn law_member_listed_once(
    m: RegistryModel,
    user: UserId,
    t: Tier,
    scores: (u32, u32, u32),
    chosen: (Tier, Tier, Tier),
    times: (u64, u64, u64),
)
    requires
        m.valid(),
    ensures
        ({
            let m1 = m.assessed(user, scores.0, t, chosen.0, times.0);
            let m2 = m1.assessed(user, scores.1, t, chosen.1, times.1);
            let m3 = m2.assessed(user, scores.2, t, chosen.2, times.2);
            &&& m1.members(t).contains(user)
            &&& m1.members(t).no_duplicates()
            &&& m2.members(t) == m1.members(t)
            &&& m3.members(t) == m1.members(t)
        }),
{
    lemma_with_member(m.members(t), user);
}

/// A high-risk user may always move to the most permissive tier, and doing
/// so with a later clock reading moves the record's timestamp forward.
pub proof fn law_high_risk_choice_refreshes_timestamp(m: RegistryModel, user: UserId, now: u64)
    requires
        m.records.contains_key(user),
        m.records[user].timestamp < now,
    ensures
        may_choose(m.records[user].score as int, Tier::Tier3),
        m.rechosen(user, Tier::Tier3, now).records[user].chosen_tier == Tier::Tier3,
        m.rechosen(user, Tier::Tier3, now).records[user].timestamp > m.records[user].timestamp,
        m.rechosen(user, Tier::Tier3, now).records[user].score == m.records[user].score,
{
}

/// The strictest tier is open exactly to assessed users with a low score; the
/// most permissive tier is open to every assessed user.
pub proof fn law_access_by_score(m: RegistryModel, user: UserId)
    ensures
        m.may_access(user, Tier::Tier1) <==> (m.records.contains_key(user)
            && m.records[user].score <= LOW_RISK_THRESHOLD),
        m.may_access(user, Tier::Tier3) <==> m.records.contains_key(user),
{
}

/// The count reported for each tier is the length of that tier's member list.
pub proof fn law_stats_match_members(m: RegistryModel, t: Tier)
    requires
        m.members(t).len() <= usize::MAX,
    ensures
        m.stats().count(t) == m.members(t).len(),
{
}

} // verus!
