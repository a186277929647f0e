use ballistics::aero::{DefaultAeroApprox, MachBand, MILLI};
use ballistics::driver::{Action, FlightControl, Observation};
use ballistics::info::hello_core;
use ballistics::models::{find_segment, g_table_breaks_fps, ModelKind};

fn obs(within_time: bool, at_ground: bool) -> Observation {
    Observation { within_time, at_ground }
}

/// Runs the control over the observations, one per iteration, and returns
/// the step indices of the recorded samples.
fn fly(max_steps: usize, observations: &[Observation]) -> Vec<usize> {
    let mut control = FlightControl::new(max_steps).expect("positive budget");
    let mut recorded = Vec::new();
    for o in observations {
        match control.decide(*o) {
            Action::Stop => break,
            Action::RecordThenStop => {
                recorded.push(control.steps());
                break;
            }
            Action::RecordThenStep => {
                recorded.push(control.steps());
                control.advance();
            }
        }
    }
    recorded
}

#[test]
fn hello_core_greets() {
    assert_eq!(hello_core(), "ballistics-core is alive!");
}

#[test]
fn model_names_select_families() {
    assert_eq!(ModelKind::from_name("G1"), ModelKind::G1);
    assert_eq!(ModelKind::from_name("g1"), ModelKind::G1);
    assert_eq!(ModelKind::from_name("G7"), ModelKind::G7);
    assert_eq!(ModelKind::from_name("g7"), ModelKind::G7);
    assert_eq!(ModelKind::from_name("noDrag"), ModelKind::NoDrag);
    assert_eq!(ModelKind::from_name("G2"), ModelKind::NoDrag);
    assert_eq!(ModelKind::from_name("G17"), ModelKind::NoDrag);
    assert_eq!(ModelKind::from_name("1G"), ModelKind::NoDrag);
    assert_eq!(ModelKind::from_name(""), ModelKind::NoDrag);
}

#[test]
fn breaks_fall_and_end_at_zero() {
    let b = g_table_breaks_fps();
    assert_eq!(b.len(), 39);
    assert_eq!(b[0], 4230);
    assert_eq!(b[38], 0);
    for i in 1..b.len() {
        assert!(b[i - 1] > b[i]);
    }
}

#[test]
fn segment_search_picks_first_reached_bound() {
    let b = g_table_breaks_fps();
    assert_eq!(find_segment(&b, 5000), 0);
    assert_eq!(find_segment(&b, 4230), 0);
    assert_eq!(find_segment(&b, 4229), 1);
    assert_eq!(find_segment(&b, 2624), 8);
    assert_eq!(find_segment(&b, 984), 26);
    assert_eq!(find_segment(&b, 500), 37);
    assert_eq!(find_segment(&b, 499), 38);
    assert_eq!(find_segment(&b, 0), 38);
    assert_eq!(find_segment(&b, u64::MAX), 0);
}

#[test]
fn segment_search_falls_back_to_last() {
    let b = vec![30u32, 20, 10];
    assert_eq!(find_segment(&b, 25), 1);
    assert_eq!(find_segment(&b, 9), 2);
    assert_eq!(find_segment(&b, 0), 2);
}

#[test]
fn mach_bands_tile_the_axis() {
    let mut band = MachBand::slowest();
    assert_eq!(band, MachBand::Subsonic);
    let mut limits = Vec::new();
    while let Some(limit) = band.upper_limit_milli() {
        limits.push(limit);
        band = band.next_faster().expect("a band with a limit has a successor");
    }
    assert_eq!(band, MachBand::HighSupersonic);
    assert_eq!(band.next_faster(), None);
    assert_eq!(limits, vec![800, 1200, 2000]);
}

#[test]
fn default_drag_curve_per_band() {
    let aero = DefaultAeroApprox;
    assert_eq!(aero.c_d_milli(MachBand::Subsonic), 250);
    assert_eq!(aero.c_d_milli(MachBand::Transonic), 400);
    assert_eq!(aero.c_d_milli(MachBand::LowSupersonic), 300);
    assert_eq!(aero.c_d_milli(MachBand::HighSupersonic), 250);
}

#[test]
fn default_constant_coefficients() {
    let aero = DefaultAeroApprox;
    assert_eq!(MILLI, 1000);
    assert_eq!(aero.c_l_alpha_milli(), 2800);
    assert_eq!(aero.c_y_beta_milli(), 2800);
    assert_eq!(aero.c_m_alpha_milli(), -900);
    assert_eq!(aero.c_m_q_milli(), -20000);
    assert_eq!(aero.c_l_p_milli(), -20);
    assert_eq!(aero.c_magnus_milli(), 100);
    // Divided by the scale, they give the coefficients as doubles exactly.
    assert_eq!(aero.c_l_alpha_milli() as f64 / MILLI as f64, 2.8);
    assert_eq!(aero.c_l_p_milli() as f64 / MILLI as f64, -0.02);
    assert_eq!(aero.c_d_milli(MachBand::Transonic) as f64 / MILLI as f64, 0.40);
}

#[test]
fn aero_queries_repeat_identically() {
    let aero = DefaultAeroApprox;
    for band in [MachBand::Subsonic, MachBand::Transonic, MachBand::LowSupersonic, MachBand::HighSupersonic] {
        assert_eq!(aero.c_d_milli(band), aero.c_d_milli(band));
    }
    assert_eq!(aero.c_l_alpha_milli(), aero.c_l_alpha_milli());
    assert_eq!(aero.c_y_beta_milli(), aero.c_y_beta_milli());
    assert_eq!(aero.c_m_alpha_milli(), aero.c_m_alpha_milli());
    assert_eq!(aero.c_m_q_milli(), aero.c_m_q_milli());
    assert_eq!(aero.c_l_p_milli(), aero.c_l_p_milli());
    assert_eq!(aero.c_magnus_milli(), aero.c_magnus_milli());
}

#[test]
fn zero_step_budget_is_rejected() {
    assert!(FlightControl::new(0).is_none());
    let c = FlightControl::new(5).unwrap();
    assert_eq!(c.steps(), 0);
    assert_eq!(c.max_steps(), 5);
}

#[test]
fn decisions_follow_budgets_and_ground() {
    let mut c = FlightControl::new(2).unwrap();
    assert_eq!(c.decide(obs(false, false)), Action::Stop);
    // A launch at or below the ground still records its first sample.
    assert_eq!(c.decide(obs(true, true)), Action::RecordThenStep);
    assert_eq!(c.decide(obs(true, false)), Action::RecordThenStep);
    c.advance();
    assert_eq!(c.steps(), 1);
    assert_eq!(c.decide(obs(true, true)), Action::RecordThenStop);
    assert_eq!(c.decide(obs(true, false)), Action::RecordThenStep);
    c.advance();
    assert_eq!(c.steps(), 2);
    assert_eq!(c.decide(obs(true, false)), Action::Stop);
    assert_eq!(c.decide(obs(true, true)), Action::Stop);
}

#[test]
fn samples_carry_consecutive_step_indices() {
    let all_clear = vec![obs(true, false); 10];
    assert_eq!(fly(100, &all_clear), (0..10).collect::<Vec<usize>>());
}

#[test]
fn step_budget_caps_samples() {
    let all_clear = vec![obs(true, false); 10];
    assert_eq!(fly(4, &all_clear), vec![0, 1, 2, 3]);
}

#[test]
fn time_budget_ends_flight() {
    let mut o = vec![obs(true, false); 6];
    o[3] = obs(false, false);
    assert_eq!(fly(100, &o), vec![0, 1, 2]);
}

#[test]
fn ground_contact_sample_is_last() {
    let mut o = vec![obs(true, false); 8];
    o[0] = obs(true, true);
    o[5] = obs(true, true);
    let recorded = fly(100, &o);
    assert_eq!(recorded, vec![0, 1, 2, 3, 4, 5]);
    assert!(o[*recorded.last().unwrap()].at_ground);
}
