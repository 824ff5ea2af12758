//! Tiers, the score rules attached to them, and the registry's errors.
use vstd::prelude::*;

verus! {

/// The highest risk score an assessment may carry.
pub const MAX_SCORE: u32 = 100;

/// Scores above this are high risk: such users may only choose the most
/// permissive tier, and cannot access the middle one.
pub const HIGH_RISK_THRESHOLD: u32 = 70;

/// Scores up to this are low risk: only they may access the strictest tier.
pub const LOW_RISK_THRESHOLD: u32 = 30;

/// A risk and access classification, from strictest to most permissive.
#[derive(Clone, Copy, PartialEq, Eq, Structural, Debug, Hash)]
pub enum Tier {
    Tier1,
    Tier2,
    Tier3,
}

/// Why a registry operation was refused. A refused operation changes nothing.
#[derive(Clone, Copy, PartialEq, Eq, Structural, Debug)]
pub enum RiskError {
    /// A score outside `0..=MAX_SCORE`, or a tier name that names no tier.
    ValidationError,
    /// A high-risk user asked for a tier other than the most permissive one.
    AccessDeniedError,
}

/// The symbol under which a tier is known to callers: `TIER_1`, `TIER_2`, `TIER_3`.
pub open spec fn tier_name(t: Tier) -> Seq<char> {
    match t {
        Tier::Tier1 => seq!['T', 'I', 'E', 'R', '_', '1'],
        Tier::Tier2 => seq!['T', 'I', 'E', 'R', '_', '2'],
        Tier::Tier3 => seq!['T', 'I', 'E', 'R', '_', '3'],
    }
}

/// Whether `s` is the symbol of some tier.
pub open spec fn is_tier_name(s: Seq<char>) -> bool {
    exists|t: Tier| tier_name(t) == s
}

/// Distinct tiers have distinct symbols.
pub proof fn lemma_tier_name_injective(a: Tier, b: Tier)
    ensures
        tier_name(a) == tier_name(b) ==> a == b,
{
    if tier_name(a) == tier_name(b) {
        assert(tier_name(a)[5] == tier_name(b)[5]);
    }
}

/// Whether a user with this score may access tier `t`.
pub open spec fn admits(t: Tier, score: int) -> bool {
    match t {
        Tier::Tier1 => score <= LOW_RISK_THRESHOLD,
        Tier::Tier2 => score <= HIGH_RISK_THRESHOLD,
        Tier::Tier3 => true,
    }
}

/// Whether a user with this score may choose to operate under tier `t`.
pub open spec fn may_choose(score: int, t: Tier) -> bool {
    score > HIGH_RISK_THRESHOLD ==> t == Tier::Tier3
}

impl Tier {
    /// Reads a tier from its symbol; any other text is a validation error.
    pub fn from_name(name: &str) -> (r: Result<Tier, RiskError>)
        ensures
            match r {
                Ok(t) => tier_name(t) == name@ && forall|u: Tier| #[trigger]
                    tier_name(u) == name@ ==> u == t,
                Err(e) => e == RiskError::ValidationError && forall|t: Tier| tier_name(t) != name@,
            },
    {
        assert forall|a: Tier, b: Tier| tier_name(a) == tier_name(b) implies a == b by {
            lemma_tier_name_injective(a, b);
        }
        let n = name.unicode_len();
        if n != 6 {
            assert(forall|t: Tier| tier_name(t).len() == 6);
            return Err(RiskError::ValidationError);
        }
        let c0 = name.get_char(0);
        let c1 = name.get_char(1);
        let c2 = name.get_char(2);
        let c3 = name.get_char(3);
        let c4 = name.get_char(4);
        let c5 = name.get_char(5);
        if c0 == 'T' && c1 == 'I' && c2 == 'E' && c3 == 'R' && c4 == '_' {
            if c5 == '1' {
                assert(name@ =~= tier_name(Tier::Tier1));
                return Ok(Tier::Tier1);
            } else if c5 == '2' {
                assert(name@ =~= tier_name(Tier::Tier2));
                return Ok(Tier::Tier2);
            } else if c5 == '3' {
                assert(name@ =~= tier_name(Tier::Tier3));
                return Ok(Tier::Tier3);
            }
        }
        assert forall|t: Tier| tier_name(t) != name@ by {
            if tier_name(t) == name@ {
                assert(tier_name(t)[0] == c0 && tier_name(t)[4] == c4 && tier_name(t)[5] == c5);
                assert(tier_name(t)[1] == c1 && tier_name(t)[2] == c2 && tier_name(t)[3] == c3);
            }
        }
        Err(RiskError::ValidationError)
    }

    /// Whether a user with `score` may access this tier.
    pub fn admits_score(&self, score: u32) -> (r: bool)
        ensures
            r == admits(*self, score as int),
    {
        match self {
            Tier::Tier1 => score <= LOW_RISK_THRESHOLD,
            Tier::Tier2 => score <= HIGH_RISK_THRESHOLD,
            Tier::Tier3 => true,
        }
    }
}

/// Whether a user with `score` may choose to operate under `chosen`.
pub fn may_choose_tier(score: u32, chosen: Tier) -> (r: bool)
    ensures
        r == may_choose(score as int, chosen),
{
    score <= HIGH_RISK_THRESHOLD || chosen == Tier::Tier3
}

} // verus!
