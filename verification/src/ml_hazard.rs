use vstd::prelude::*;

verus! {

/// Tier of a hazard forecast horizon, from lowest to highest probability.
#[derive(Clone, Copy, Debug, PartialEq, Eq, Structural)]
pub enum HazardTier {
    Low,
    Elevated,
    High,
}

/// The outcome of each threshold comparison that the hazard evaluator reads
/// on the Northbridge temperature (`tn0d`), its rate of change (`rate`, in
/// °C/s) and the CPU 0 temperature.
#[derive(Clone, Copy, Debug, PartialEq, Eq, Structural)]
pub struct HazardObservations {
    /// `tn0d >= 62.0`
    pub tn0d_at_62: bool,
    /// `tn0d >= 58.0`
    pub tn0d_at_58: bool,
    /// `tn0d >= 55.0`
    pub tn0d_at_55: bool,
    /// `rate >= 2.5`
    pub rate_at_2_5: bool,
    /// `rate >= 1.2`
    pub rate_at_1_2: bool,
    /// `rate >= 1.0`
    pub rate_at_1_0: bool,
    /// `cpu0 >= 72.0`
    pub cpu0_at_72: bool,
}

impl HazardObservations {
    /// The observations agree with the order of their thresholds.
    pub open spec fn consistent(self) -> bool {
        &&& self.tn0d_at_62 ==> self.tn0d_at_58
        &&& self.tn0d_at_58 ==> self.tn0d_at_55
        &&& self.rate_at_2_5 ==> self.rate_at_1_2
        &&& self.rate_at_1_2 ==> self.rate_at_1_0
    }
}

/// Tier of the 15-minute horizon: high from 58 °C or 1 °C/s, elevated
/// from 55 °C or a CPU 0 at 72 °C.
pub open spec fn spec_tier_15m(o: HazardObservations) -> HazardTier {
    if o.tn0d_at_58 || o.rate_at_1_0 {
        HazardTier::High
    } else if o.tn0d_at_55 || o.cpu0_at_72 {
        HazardTier::Elevated
    } else {
        HazardTier::Low
    }
}

/// Tier of the 5-minute horizon: high from 62 °C or 2.5 °C/s, elevated
/// from 58 °C or 1.2 °C/s.
pub open spec fn spec_tier_5m(o: HazardObservations) -> HazardTier {
    if o.tn0d_at_62 || o.rate_at_2_5 {
        HazardTier::High
    } else if o.tn0d_at_58 || o.rate_at_1_2 {
        HazardTier::Elevated
    } else {
        HazardTier::Low
    }
}

/// Tiers of the 15-minute and the 5-minute hazard horizons.
pub fn hazard_tiers(o: &HazardObservations) -> (tiers: (HazardTier, HazardTier))
    ensures
        tiers.0 == spec_tier_15m(*o),
        tiers.1 == spec_tier_5m(*o),
{
    let tier_15m = if o.tn0d_at_58 || o.rate_at_1_0 {
        HazardTier::High
    } else if o.tn0d_at_55 || o.cpu0_at_72 {
        HazardTier::Elevated
    } else {
        HazardTier::Low
    };
    let tier_5m = if o.tn0d_at_62 || o.rate_at_2_5 {
        HazardTier::High
    } else if o.tn0d_at_58 || o.rate_at_1_2 {
        HazardTier::Elevated
    } else {
        HazardTier::Low
    };
    (tier_15m, tier_5m)
}

/// The hazard triggers: the 15-minute horizon is HIGH from 58 °C or a rise
/// of 1 °C/s, else ELEVATED from 55 °C or a CPU 0 at 72 °C, else LOW; the
/// 5-minute horizon is HIGH from 62 °C or 2.5 °C/s, else ELEVATED from
/// 58 °C or 1.2 °C/s, else LOW.  The CPU temperature never moves the
/// 5-minute horizon.
pub proof fn lemma_hazard_triggers(o: HazardObservations)
    ensures
        (o.tn0d_at_58 || o.rate_at_1_0) ==> spec_tier_15m(o) == HazardTier::High,
        !(o.tn0d_at_58 || o.rate_at_1_0) && (o.tn0d_at_55 || o.cpu0_at_72) ==> spec_tier_15m(o)
            == HazardTier::Elevated,
        !(o.tn0d_at_58 || o.rate_at_1_0 || o.tn0d_at_55 || o.cpu0_at_72) ==> spec_tier_15m(o)
            == HazardTier::Low,
        (o.tn0d_at_62 || o.rate_at_2_5) ==> spec_tier_5m(o) == HazardTier::High,
        !(o.tn0d_at_62 || o.rate_at_2_5) && (o.tn0d_at_58 || o.rate_at_1_2) ==> spec_tier_5m(o)
            == HazardTier::Elevated,
        !(o.tn0d_at_62 || o.rate_at_2_5 || o.tn0d_at_58 || o.rate_at_1_2) ==> spec_tier_5m(o)
            == HazardTier::Low,
        spec_tier_5m(o) == spec_tier_5m(HazardObservations { cpu0_at_72: !o.cpu0_at_72, ..o }),
{
}

/// Any short-term hazard puts the 15-minute horizon at its high tier: on
/// consistent observations, a 5-minute tier above LOW implies a HIGH
/// 15-minute tier.
pub proof fn lemma_short_term_hazard_implies_high_15m(o: HazardObservations)
    requires
        o.consistent(),
    ensures
        spec_tier_5m(o) != HazardTier::Low ==> spec_tier_15m(o) == HazardTier::High,
{
}

} // verus!
