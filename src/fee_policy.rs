//! Fee rules per game: a base rate, optional amount tiers, and a context
//! multiplier, all in basis points.
use crate::Address;
use vstd::prelude::*;

verus! {

/// One whole in basis points.
pub const BASIS_POINTS_DIVISOR: u32 = 10_000;

#[derive(Clone, Copy, Debug, PartialEq, Eq, Structural)]
pub enum Error {
    AlreadyInitialized,
    NotInitialized,
    NotAuthorized,
    RuleNotFound,
    RuleDisabled,
    Overflow,
    InvalidFeeConfig,
}

/// From `threshold` upwards, amounts pay `fee_bps`.
#[derive(Clone, Copy, Debug, PartialEq, Eq, Structural)]
pub struct FeeTier {
    pub threshold: i128,
    pub fee_bps: u32,
}

#[derive(Clone, Debug)]
pub struct FeeRuleConfig {
    pub base_fee_bps: u32,
    pub tiers: Option<Vec<FeeTier>>,
    pub enabled: bool,
}

/// The circumstances of one fee computation.
#[derive(Clone, Debug)]
pub struct FeeContext {
    /// Scales the rate; 10000 leaves it unchanged.
    pub multiplier_bps: u32,
    pub additional_data: Vec<(String, i128)>,
}

/// A rule as plain values: base rate, tiers if any, and whether enabled.
pub type RuleView = (u32, Option<Seq<FeeTier>>, bool);

pub open spec fn rule_view(r: FeeRuleConfig) -> RuleView {
    (
        r.base_fee_bps,
        match r.tiers {
            Some(t) => Some(t@),
            None => None,
        },
        r.enabled,
    )
}

/// Whether some tier charges more than 10000 basis points.
pub open spec fn rate_too_high(tiers: Seq<FeeTier>) -> bool {
    exists|i: int| 0 <= i < tiers.len() && #[trigger] tiers[i].fee_bps > BASIS_POINTS_DIVISOR
}

/// A write of a game's rule, in the order the writes happened.
pub struct RuleWrite {
    pub game_id: String,
    pub rule: FeeRuleConfig,
}

pub open spec fn rule_in(log: Seq<RuleWrite>, game_id: Seq<char>) -> Option<RuleView>
    decreases log.len(),
{
    if log.len() == 0 {
        None
    } else if log.last().game_id@ == game_id {
        Some(rule_view(log.last().rule))
    } else {
        rule_in(log.drop_last(), game_id)
    }
}

/// The highest non-negative threshold among `tiers` that `amount` reaches,
/// with its rate; the first such tier wins a tie. `(-1, base)` if none.
pub open spec fn tier_for(tiers: Seq<FeeTier>, amount: i128, base: u32) -> (int, u32)
    decreases tiers.len(),
{
    if tiers.len() == 0 {
        (-1, base)
    } else {
        let prev = tier_for(tiers.drop_last(), amount, base);
        let t = tiers.last();
        if amount >= t.threshold && t.threshold > prev.0 {
            (t.threshold as int, t.fee_bps)
        } else {
            prev
        }
    }
}

/// `x / d` rounded toward zero.
pub open spec fn div_toward_zero(x: int, d: int) -> int {
    if x >= 0 {
        x / d
    } else {
        -((-x) / d)
    }
}

/// `amount * fee_bps / 10000`, rounded toward zero, or `None` where the
/// product leaves `i128`.
pub open spec fn fee_of(amount: i128, fee_bps: u32) -> Option<int> {
    if amount * fee_bps > i128::MAX || amount * fee_bps < i128::MIN {
        None
    } else {
        Some(div_toward_zero(amount * fee_bps, BASIS_POINTS_DIVISOR as int))
    }
}

/// What `compute_fee` yields for a rule: the tier rate (or the base rate)
/// scaled by the multiplier, then applied to the amount.
pub open spec fn fee_for(rule: RuleView, amount: i128, multiplier_bps: u32) -> Result<i128, Error> {
    let applied = match rule.1 {
        Some(t) => tier_for(t, amount, rule.0).1,
        None => rule.0,
    };
    if !rule.2 {
        Err(Error::RuleDisabled)
    } else if applied * multiplier_bps > u32::MAX {
        Err(Error::Overflow)
    } else {
        match fee_of(amount, ((applied * multiplier_bps) / BASIS_POINTS_DIVISOR as int) as u32) {
            None => Err(Error::Overflow),
            Some(f) => Ok(f as i128),
        }
    }
}

/// The fee of `amount` at `fee_bps`, with the multiplication checked.
pub fn calculate_fee(amount: i128, fee_bps: u32) -> (r: Option<i128>)
    ensures
        r == match fee_of(amount, fee_bps) {
            Some(f) => Some(f as i128),
            None => None,
        },
{
    let product = match amount.checked_mul(fee_bps as i128) {
        Some(p) => p,
        None => return None,
    };
    product.checked_div(10_000)
}

fn any_rate_too_high(tiers: &Vec<FeeTier>) -> (r: bool)
    ensures
        r == rate_too_high(tiers@),
{
    let mut i: usize = 0;
    while i < tiers.len()
        invariant
            i <= tiers@.len(),
            forall|j: int| 0 <= j < i ==> tiers@[j].fee_bps <= BASIS_POINTS_DIVISOR,
        decreases tiers@.len() - i,
    {
        if tiers[i].fee_bps > BASIS_POINTS_DIVISOR {
            assert(tiers@[i as int].fee_bps > BASIS_POINTS_DIVISOR);
            return true;
        }
        i = i + 1;
    }
    false
}

fn copy_tiers(v: &Vec<FeeTier>) -> (r: Vec<FeeTier>)
    ensures
        r@ == v@,
{
    let mut out: Vec<FeeTier> = Vec::new();
    let mut i: usize = 0;
    while i < v.len()
        invariant
            i <= v@.len(),
            out@ == v@.take(i as int),
        decreases v@.len() - i,
    {
        out.push(v[i]);
        i = i + 1;
        assert(out@ =~= v@.take(i as int));
    }
    assert(v@.take(v@.len() as int) == v@);
    out
}

fn copy_rule(r: &FeeRuleConfig) -> (c: FeeRuleConfig)
    ensures
        rule_view(c) == rule_view(*r),
{
    let tiers = match &r.tiers {
        Some(t) => Some(copy_tiers(t)),
        None => None,
    };
    FeeRuleConfig { base_fee_bps: r.base_fee_bps, tiers, enabled: r.enabled }
}

/// The fee policy contract.
pub struct DynamicFeePolicy {
    admin: Option<Address>,
    rules: Vec<RuleWrite>,
}

impl DynamicFeePolicy {
    pub closed spec fn admin(&self) -> Option<Address> {
        self.admin
    }

    /// The rule of `game_id`, if one was set.
    pub closed spec fn rule(&self, game_id: Seq<char>) -> Option<RuleView> {
        rule_in(self.rules@, game_id)
    }

    pub open spec fn admin_check(&self, caller: Address) -> Option<Error> {
        match self.admin() {
            None => Some(Error::NotInitialized),
            Some(a) => if a != caller {
                Some(Error::NotAuthorized)
            } else {
                None
            },
        }
    }

    pub fn new() -> (r: Self)
        ensures
            r.admin() is None,
            forall|g: Seq<char>| r.rule(g) is None,
    {
        DynamicFeePolicy { admin: None, rules: Vec::new() }
    }

    pub fn init(&mut self, admin: Address) -> (r: Result<(), Error>)
        ensures
            forall|g: Seq<char>| final(self).rule(g) == old(self).rule(g),
            old(self).admin() is Some ==> r == Err::<(), Error>(Error::AlreadyInitialized)
                && final(self).admin() == old(self).admin(),
            old(self).admin() is None ==> r is Ok && final(self).admin() == Some(admin),
    {
        if self.admin.is_some() {
            return Err(Error::AlreadyInitialized);
        }
        self.admin = Some(admin);
        Ok(())
    }

    fn find(&self, game_id: &String) -> (r: Option<usize>)
        ensures
            r is None ==> self.rule(game_id@) is None,
            r matches Some(i) ==> i < self.rules@.len() && self.rule(game_id@) == Some(
                rule_view(self.rules@[i as int].rule),
            ),
    {
        let mut i: usize = self.rules.len();
        assert(self.rules@.take(i as int) == self.rules@);
        while i > 0
            invariant
                i <= self.rules@.len(),
                rule_in(self.rules@, game_id@) == rule_in(self.rules@.take(i as int), game_id@),
            decreases i,
        {
            let ghost pre = self.rules@.take(i as int);
            assert(pre.drop_last() == self.rules@.take(i - 1));
            if self.rules[i - 1].game_id == *game_id {
                return Some(i - 1);
            }
            i = i - 1;
        }
        None
    }

    /// Sets the rule of `game_id`; every rate must be at most 10000.
    pub fn set_fee_rule(&mut self, admin: Address, game_id: String, rule_config: FeeRuleConfig) -> (r:
        Result<(), Error>)
        ensures
            final(self).admin() == old(self).admin(),
            r == match old(self).admin_check(admin) {
                Some(e) => Err(e),
                None => if rule_config.base_fee_bps > BASIS_POINTS_DIVISOR || match rule_view(
                    rule_config,
                ).1 {
                    Some(t) => rate_too_high(t),
                    None => false,
                } {
                    Err(Error::InvalidFeeConfig)
                } else {
                    Ok(())
                },
            },
            forall|g: Seq<char>| #[trigger]
                final(self).rule(g) == if r is Ok && g == game_id@ {
                    Some(rule_view(rule_config))
                } else {
                    old(self).rule(g)
                },
    {
        match self.admin {
            None => return Err(Error::NotInitialized),
            Some(a) => {
                if a != admin {
                    return Err(Error::NotAuthorized);
                }
            },
        }
        if rule_config.base_fee_bps > BASIS_POINTS_DIVISOR {
            return Err(Error::InvalidFeeConfig);
        }
        let too_high = match &rule_config.tiers {
            Some(tiers) => any_rate_too_high(tiers),
            None => false,
        };
        if too_high {
            return Err(Error::InvalidFeeConfig);
        }
        let ghost before = self.rules@;
        self.rules.push(RuleWrite { game_id, rule: rule_config });
        assert(self.rules@.drop_last() == before);
        Ok(())
    }

    /// The fee on `amount` for `game_id` under `context`.
    pub fn compute_fee(&self, game_id: String, amount: i128, context: FeeContext) -> (r: Result<
        i128,
        Error,
    >)
        ensures
            r == match self.rule(game_id@) {
                None => Err(Error::RuleNotFound),
                Some(rule) => fee_for(rule, amount, context.multiplier_bps),
            },
    {
        let idx = match self.find(&game_id) {
            None => return Err(Error::RuleNotFound),
            Some(i) => i,
        };
        let rule = &self.rules[idx].rule;
        if !rule.enabled {
            return Err(Error::RuleDisabled);
        }
        let mut applied_bps = rule.base_fee_bps;
        match &rule.tiers {
            Some(tiers) => {
                let mut highest: i128 = -1;
                let mut i: usize = 0;
                assert(tiers@.take(0) =~= Seq::<FeeTier>::empty());
                while i < tiers.len()
                    invariant
                        i <= tiers@.len(),
                        (highest as int, applied_bps) == tier_for(
                            tiers@.take(i as int),
                            amount,
                            rule.base_fee_bps,
                        ),
                    decreases tiers@.len() - i,
                {
                    assert(tiers@.take(i + 1).drop_last() == tiers@.take(i as int));
                    let t = tiers[i];
                    if amount >= t.threshold && t.threshold > highest {
                        highest = t.threshold;
                        applied_bps = t.fee_bps;
                    }
                    i = i + 1;
                }
                assert(tiers@.take(tiers@.len() as int) == tiers@);
            },
            None => {},
        }
        let scaled = match applied_bps.checked_mul(context.multiplier_bps) {
            Some(v) => v,
            None => return Err(Error::Overflow),
        };
        let final_bps = scaled / BASIS_POINTS_DIVISOR;
        match calculate_fee(amount, final_bps) {
            Some(fee) => Ok(fee),
            None => Err(Error::Overflow),
        }
    }

    fn set_enabled_status(&mut self, admin: Address, game_id: String, status: bool) -> (r: Result<
        (),
        Error,
    >)
        ensures
            final(self).admin() == old(self).admin(),
            r == match old(self).admin_check(admin) {
                Some(e) => Err(e),
                None => if old(self).rule(game_id@) is None {
                    Err(Error::RuleNotFound)
                } else {
                    Ok(())
                },
            },
            forall|g: Seq<char>| #[trigger]
                final(self).rule(g) == if r is Ok && g == game_id@ {
                    let old_rule = old(self).rule(g).unwrap();
                    Some((old_rule.0, old_rule.1, status))
                } else {
                    old(self).rule(g)
                },
    {
        match self.admin {
            None => return Err(Error::NotInitialized),
            Some(a) => {
                if a != admin {
                    return Err(Error::NotAuthorized);
                }
            },
        }
        let idx = match self.find(&game_id) {
            None => return Err(Error::RuleNotFound),
            Some(i) => i,
        };
        let mut rule = copy_rule(&self.rules[idx].rule);
        rule.enabled = status;
        let ghost before = self.rules@;
        self.rules.push(RuleWrite { game_id, rule });
        assert(self.rules@.drop_last() == before);
        Ok(())
    }

    pub fn enable_rule(&mut self, admin: Address, game_id: String) -> (r: Result<(), Error>)
        ensures
            final(self).admin() == old(self).admin(),
            r == match old(self).admin_check(admin) {
                Some(e) => Err(e),
                None => if old(self).rule(game_id@) is None {
                    Err(Error::RuleNotFound)
                } else {
                    Ok(())
                },
            },
            forall|g: Seq<char>| #[trigger]
                final(self).rule(g) == if r is Ok && g == game_id@ {
                    let old_rule = old(self).rule(g).unwrap();
                    Some((old_rule.0, old_rule.1, true))
                } else {
                    old(self).rule(g)
                },
    {
        self.set_enabled_status(admin, game_id, true)
    }

    pub fn disable_rule(&mut self, admin: Address, game_id: String) -> (r: Result<(), Error>)
        ensures
            final(self).admin() == old(self).admin(),
            r == match old(self).admin_check(admin) {
                Some(e) => Err(e),
                None => if old(self).rule(game_id@) is None {
                    Err(Error::RuleNotFound)
                } else {
                    Ok(())
                },
            },
            forall|g: Seq<char>| #[trigger]
                final(self).rule(g) == if r is Ok && g == game_id@ {
                    let old_rule = old(self).rule(g).unwrap();
                    Some((old_rule.0, old_rule.1, false))
                } else {
                    old(self).rule(g)
                },
    {
        self.set_enabled_status(admin, game_id, false)
    }

    /// The rule of `game_id`, if one was set.
    pub fn fee_rule_state(&self, game_id: String) -> (r: Option<FeeRuleConfig>)
        ensures
            r is Some == self.rule(game_id@) is Some,
            r matches Some(c) ==> Some(rule_view(c)) == self.rule(game_id@),
    {
        match self.find(&game_id) {
            None => None,
            Some(i) => Some(copy_rule(&self.rules[i].rule)),
        }
    }
}

} // verus!
