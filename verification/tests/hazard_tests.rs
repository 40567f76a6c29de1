use mpro::ml_hazard::{hazard_tiers, HazardObservations, HazardTier};

fn cool() -> HazardObservations {
    HazardObservations {
        tn0d_at_62: false,
        tn0d_at_58: false,
        tn0d_at_55: false,
        rate_at_2_5: false,
        rate_at_1_2: false,
        rate_at_1_0: false,
        cpu0_at_72: false,
    }
}

#[test]
fn cool_machine_low_hazard() {
    assert_eq!(hazard_tiers(&cool()), (HazardTier::Low, HazardTier::Low));
}

#[test]
fn hot_cpu_elevates_15m_only() {
    let o = HazardObservations { cpu0_at_72: true, ..cool() };
    assert_eq!(hazard_tiers(&o), (HazardTier::Elevated, HazardTier::Low));
    let o = HazardObservations { tn0d_at_55: true, ..cool() };
    assert_eq!(hazard_tiers(&o), (HazardTier::Elevated, HazardTier::Low));
}

#[test]
fn fast_rise_raises_both_horizons() {
    let o = HazardObservations { rate_at_1_0: true, ..cool() };
    assert_eq!(hazard_tiers(&o), (HazardTier::High, HazardTier::Low));
    let o = HazardObservations { rate_at_1_2: true, rate_at_1_0: true, ..cool() };
    assert_eq!(hazard_tiers(&o), (HazardTier::High, HazardTier::Elevated));
    let o = HazardObservations { rate_at_2_5: true, rate_at_1_2: true, rate_at_1_0: true, ..cool() };
    assert_eq!(hazard_tiers(&o), (HazardTier::High, HazardTier::High));
}

#[test]
fn northbridge_at_62_is_high() {
    let o = HazardObservations { tn0d_at_62: true, tn0d_at_58: true, tn0d_at_55: true, ..cool() };
    assert_eq!(hazard_tiers(&o), (HazardTier::High, HazardTier::High));
    let o = HazardObservations { tn0d_at_58: true, tn0d_at_55: true, ..cool() };
    assert_eq!(hazard_tiers(&o), (HazardTier::High, HazardTier::Elevated));
}
