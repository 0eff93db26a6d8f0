use misa::config::{KneeFlipStyle, KneeShape};
use misa::footwork::{
    approve_flip, first_scrape, flip_targets, leg_goal, AirPath, FlipFault, Lean, LegAngles, LegGoal, LegPieces, LegSet,
    Level, Place, Scrape, Spot, Stuck, AIR_SAMPLES,
};
use misa::jointvec::JointVec;
use misa::knee::{plan_knee_flip, FlipRequest, FlipStep, JointAt, Motion};
use misa::legs::LegFlags;
use misa::scalar::Scalar;

fn s(x: f64) -> Scalar {
    Scalar::from_bits(x.to_bits())
}

fn angles(hip: f64, thigh: f64, calf: f64) -> LegAngles {
    LegAngles { hip: s(hip), thigh: s(thigh), calf: s(calf) }
}

fn request(new: KneeShape, style: KneeFlipStyle) -> FlipRequest {
    FlipRequest {
        old: KneeShape::BothBack,
        new,
        style,
        rest_height_m: Some(s(0.1)),
        stance_height_m: s(0.2),
        apart: LegFlags::none(),
        settled: LegFlags::all(),
        relocated: LegFlags::none(),
        probe_rounds: 1,
        probe_lift_m: s(0.01),
    }
}

fn start() -> LegSet {
    let leg = angles(0.0, 0.8, -1.6);
    LegSet { fl: leg, fr: leg, rl: leg, rr: leg }
}

/// What the kinematics would offer in step `i`: angles that tell the step and
/// the leg.
fn pieces(steps: &[FlipStep]) -> Vec<Vec<LegPieces>> {
    steps
        .iter()
        .enumerate()
        .map(|(i, _)| {
            (0..4)
                .map(|leg| LegPieces {
                    foot: Some(angles(i as f64, 10.0 + i as f64, 100.0 * leg as f64 + i as f64)),
                    hip_out: s(0.5 + leg as f64),
                    thigh_out: Some(s(-0.7)),
                    above_low: s(-2.6),
                    below_high: s(2.4),
                })
                .collect()
        })
        .collect()
}

fn find(steps: &[FlipStep], motion: Motion) -> usize {
    steps.iter().position(|x| x.motion == motion).unwrap()
}

#[test]
fn a_standing_turn_rolls_the_leg_out_and_back() {
    // Only the front legs turn.
    let req = request(KneeShape::MammalianReverse, KneeFlipStyle::Stand);
    let steps = plan_knee_flip(&req).unwrap();
    let away = |level: Level| Spot { place: Place::Stance, level, lean: Lean::AwayFrom(0) };
    let goal = |motion: Motion, leg: usize| leg_goal(&req, &steps[find(&steps, motion)], leg);
    for leg in 0..4 {
        assert_eq!(goal(Motion::Lean, leg), LegGoal::Foot(away(Level::Flip)));
    }
    assert_eq!(goal(Motion::Lift, 0), LegGoal::FootRolled(away(Level::FlipLifted)));
    assert_eq!(goal(Motion::Turn, 0), LegGoal::ThighAndCalf(away(Level::FlipLifted)));
    assert_eq!(goal(Motion::Home, 0), LegGoal::Foot(away(Level::FlipLifted)));
    assert_eq!(goal(Motion::Land, 0), LegGoal::Foot(away(Level::Flip)));
    for motion in [Motion::Lift, Motion::Turn, Motion::Home, Motion::Land] {
        for leg in 1..4 {
            assert_eq!(goal(motion, leg), LegGoal::Keep);
        }
    }
    let targets = flip_targets(&req, &steps, start(), &pieces(&steps)).unwrap();
    assert_eq!(targets.len(), steps.len());
    // Lean, lift, turn, home, land of the front left leg.
    assert_eq!(targets[0].fl, angles(0.0, 10.0, 0.0));
    assert_eq!(targets[0].rr, angles(0.0, 10.0, 300.0));
    assert_eq!(targets[1].fl, angles(0.5, 11.0, 1.0));
    assert_eq!(targets[2].fl, angles(0.5, 12.0, 2.0));
    assert_eq!(targets[3].fl, angles(3.0, 13.0, 3.0));
    for i in 1..5 {
        assert_eq!(targets[i].rr, targets[0].rr);
    }
    let last = steps.len() - 1;
    assert_eq!(
        leg_goal(&req, &steps[last], 2),
        LegGoal::Foot(Spot { place: Place::Stance, level: Level::Stance, lean: Lean::Centred })
    );
}

#[test]
fn a_trotting_turn_shifts_over_the_support_line() {
    let req = request(KneeShape::BothForward, KneeFlipStyle::Trot);
    let steps = plan_knee_flip(&req).unwrap();
    let line = |level: Level, lean: Lean| Spot { place: Place::Stance, level, lean };
    let goal = |motion: Motion, leg: usize| leg_goal(&req, &steps[find(&steps, motion)], leg);
    assert_eq!(goal(Motion::Lean, 1), LegGoal::Foot(line(Level::Flip, Lean::OverLine)));
    assert_eq!(goal(Motion::ProbeUp(1), 3), LegGoal::Foot(line(Level::FlipProbe, Lean::OverLine)));
    assert_eq!(goal(Motion::ProbeHold(1), 3), LegGoal::Keep);
    assert_eq!(goal(Motion::ProbeDown(1), 3), LegGoal::Foot(line(Level::Flip, Lean::OverLine)));
    assert_eq!(goal(Motion::Lift, 3), LegGoal::FootRolled(line(Level::FlipLifted, Lean::NearLine)));
    assert_eq!(goal(Motion::Lift, 1), LegGoal::Keep);
    // While feet are in the air, the standing legs rest.
    let targets = flip_targets(&req, &steps, start(), &pieces(&steps)).unwrap();
    for i in 1..steps.len() {
        if steps[i].stance.count() < 4 {
            for (leg, now, before) in [
                (0, targets[i].fl, targets[i - 1].fl),
                (1, targets[i].fr, targets[i - 1].fr),
                (2, targets[i].rl, targets[i - 1].rl),
                (3, targets[i].rr, targets[i - 1].rr),
            ] {
                if steps[i].stance.get(leg) {
                    assert_eq!(now, before);
                }
            }
        }
    }
}

#[test]
fn a_resting_turn_folds_and_swings_the_legs_together() {
    let req = FlipRequest {
        apart: LegFlags::all(),
        settled: LegFlags::from_array([false, true, true, false]),
        relocated: LegFlags::all(),
        ..request(KneeShape::MammalianReverse, KneeFlipStyle::Rest)
    };
    let steps = plan_knee_flip(&req).unwrap();
    let goal = |motion: Motion, leg: usize| leg_goal(&req, &steps[find(&steps, motion)], leg);
    let spot = |place: Place, level: Level, lean: Lean| Spot { place, level, lean };
    // The front left foot goes first, then the rear right one.
    assert_eq!(goal(Motion::Lean, 0), LegGoal::Foot(spot(Place::Stance, Level::Stance, Lean::AwayFrom(0))));
    let second = steps.iter().rposition(|x| x.motion == Motion::Lean).unwrap();
    let lean = |leg: usize| leg_goal(&req, &steps[second], leg);
    assert_eq!(lean(0), LegGoal::Foot(spot(Place::OldRest, Level::Stance, Lean::AwayFrom(3))));
    assert_eq!(lean(1), LegGoal::Foot(spot(Place::Stance, Level::Stance, Lean::AwayFrom(3))));
    assert_eq!(goal(Motion::Raise, 0), LegGoal::Foot(spot(Place::Stance, Level::StanceRaised, Lean::AwayFrom(0))));
    assert_eq!(goal(Motion::Carry, 0), LegGoal::Foot(spot(Place::OldRest, Level::StanceRaised, Lean::AwayFrom(0))));
    assert_eq!(goal(Motion::Place, 0), LegGoal::Foot(spot(Place::OldRest, Level::Stance, Lean::AwayFrom(0))));
    assert_eq!(goal(Motion::Place, 1), LegGoal::Keep);
    assert_eq!(goal(Motion::Lower(2), 3), LegGoal::Foot(spot(Place::OldRest, Level::Lowered(2), Lean::Centred)));
    assert_eq!(goal(Motion::Align, 2), LegGoal::Foot(spot(Place::NewRest, Level::RestLifted, Lean::Centred)));
    assert_eq!(goal(Motion::Align, 0), LegGoal::Keep);
    assert_eq!(goal(Motion::Ground, 0), LegGoal::Foot(spot(Place::NewRest, Level::Rest, Lean::Centred)));
    assert_eq!(goal(Motion::Rise(3), 0), LegGoal::Foot(spot(Place::NewRest, Level::Risen(3), Lean::Centred)));

    let mut given = pieces(&steps);
    let float = find(&steps, Motion::Float);
    given[float][0].foot = Some(angles(0.1, 1.2, -2.0));
    given[float][1].foot = Some(angles(0.1, 1.2, -2.9));
    let home = find(&steps, Motion::Home);
    given[home][0].foot = Some(angles(0.2, -1.1, 2.0));
    let t = flip_targets(&req, &steps, start(), &given).unwrap();
    // Folded to the margin, but never less than it is.
    assert_eq!(t[float + 1].fl, angles(0.1, 1.2, -2.6));
    assert_eq!(t[float + 1].fr, angles(0.1, 1.2, -2.9));
    assert_eq!(t[float + 2].fl, angles(0.5, 1.2, -2.6));
    assert_eq!(t[float + 3].fl, angles(0.5, -0.7, -2.6));
    assert_eq!(t[float + 4].fl, angles(0.5, -0.7, 0.0));
    assert_eq!(t[float + 5].fl, angles(0.5, -0.7, 2.4));
    assert_eq!(steps[float + 6].motion, Motion::ThighHome);
    assert_eq!(t[float + 6].fl, angles(0.5, 10.0 + (float + 6) as f64, 2.4));
    assert_eq!(t[home].fl, angles(0.2, -1.1, 2.0));
    assert_eq!(t[home].rl, t[float].rl);
}

#[test]
fn a_leg_that_cannot_follow_stops_the_plan() {
    let req = request(KneeShape::BothForward, KneeFlipStyle::Rest);
    let steps = plan_knee_flip(&req).unwrap();
    let mut given = pieces(&steps);
    let float = find(&steps, Motion::Float);
    // What a step does not ask for does not matter.
    given[float][2].thigh_out = None;
    given[float + 1][2].foot = None;
    assert!(flip_targets(&req, &steps, start(), &given).is_ok());
    let swing = find(&steps, Motion::SwingOut);
    given[swing][3].thigh_out = None;
    assert_eq!(flip_targets(&req, &steps, start(), &given), Err(Stuck { step: swing, leg: 3 }));
    given[float][1].foot = None;
    assert_eq!(flip_targets(&req, &steps, start(), &given), Err(Stuck { step: float, leg: 1 }));
}

#[test]
fn legs_and_postures_hold_the_same_angles() {
    let mut q = JointVec::zeros();
    for leg in 0..4 {
        for k in 0..3 {
            q.set(leg, k, s((10 * leg + k) as f64));
        }
    }
    let legs = LegSet::of(&q);
    assert_eq!(legs.rl, angles(20.0, 21.0, 22.0));
    q.arm = s(0.3);
    assert_eq!(legs.posture(s(0.3)), q);
}

#[test]
fn an_airborne_leg_stays_off_the_floor() {
    let path = |feet: [f64; 3], knees: [f64; 3]| AirPath {
        begin_z: s(-0.205),
        floor_z: s(-0.25),
        feet_z: feet.iter().map(|x| s(*x)).collect(),
        knees_z: knees.iter().map(|x| s(*x)).collect(),
    };
    let left = s(-0.205);
    // Below where it left the ground, but above the floor.
    assert_eq!(first_scrape(&path([-0.2, -0.22, -0.25], [-0.1, -0.1, -0.25]), left), None);
    assert_eq!(
        first_scrape(&path([-0.2, -0.26, -0.3], [-0.1, -0.1, -0.1]), left),
        Some(Scrape { sample: 1, foot: true })
    );
    assert_eq!(
        first_scrape(&path([-0.2, -0.2, -0.3], [-0.1, -0.26, -0.1]), left),
        Some(Scrape { sample: 1, foot: false })
    );
    // The floor is higher than where the foot left it.
    let mut low = path([-0.21, -0.2, -0.2], [-0.1, -0.1, -0.1]);
    low.floor_z = s(-0.15);
    assert_eq!(first_scrape(&low, left), Some(Scrape { sample: 0, foot: true }));
}

/// A choreography with all of its samples at one height.
fn level(steps: &[FlipStep], z: f64) -> Vec<Vec<AirPath>> {
    let path = AirPath {
        begin_z: s(-0.205),
        floor_z: s(-0.198),
        feet_z: vec![s(z); AIR_SAMPLES],
        knees_z: vec![s(-0.1); AIR_SAMPLES],
    };
    steps.iter().map(|_| vec![path.clone(); 4]).collect()
}

#[test]
fn a_choreography_is_approved_as_a_whole() {
    let steps = plan_knee_flip(&request(KneeShape::BothForward, KneeFlipStyle::Stand)).unwrap();
    let bounds = vec![(s(-1.0), s(1.0)); 12];
    let targets = vec![vec![s(0.5); 12]; steps.len()];
    let paths = level(&steps, -0.2);
    assert_eq!(approve_flip(&steps, &targets, &bounds, &paths), Ok(()));
    // Ranges come first, in the order of the steps.
    let lifted = steps.iter().position(|x| x.stance.count() == 3).unwrap();
    let leg = (0..4).find(|l| !steps[lifted].stance.get(*l)).unwrap();
    let mut low = paths.clone();
    low[lifted][leg].feet_z[7] = s(-0.21);
    low[lifted][leg].knees_z[7] = s(-0.3);
    let mut wide = targets.clone();
    wide[lifted + 1][4] = s(1.5);
    wide[lifted + 2][0] = s(-1.5);
    assert_eq!(
        approve_flip(&steps, &wide, &bounds, &low),
        Err(FlipFault::Range(JointAt { step: lifted + 1, joint: 4 }))
    );
    assert_eq!(
        approve_flip(&steps, &targets, &bounds, &low),
        Err(FlipFault::Floor { step: lifted, leg, scrape: Scrape { sample: 7, foot: true } })
    );
    low[lifted][leg].feet_z[7] = s(-0.2);
    assert_eq!(
        approve_flip(&steps, &targets, &bounds, &low),
        Err(FlipFault::Floor { step: lifted, leg, scrape: Scrape { sample: 7, foot: false } })
    );
    // A standing leg may be as low as it likes.
    let mut stands = paths.clone();
    stands[lifted][(leg + 1) % 4].feet_z[0] = s(-0.5);
    assert_eq!(approve_flip(&steps, &targets, &bounds, &stands), Ok(()));
}

#[test]
fn a_foot_is_measured_against_where_it_left_the_ground() {
    let steps = plan_knee_flip(&request(KneeShape::BothForward, KneeFlipStyle::Stand)).unwrap();
    let bounds = vec![(s(-1.0), s(1.0)); 12];
    let targets = vec![vec![s(0.5); 12]; steps.len()];
    let (lifted, leg) = (0..steps.len() - 1)
        .flat_map(|i| (0..4).map(move |l| (i, l)))
        .find(|(i, l)| !steps[*i].stance.get(*l) && !steps[i + 1].stance.get(*l))
        .unwrap();
    let mut paths = level(&steps, -0.2);
    // It left the ground low, and hovers low through the next step, which begins
    // higher up.
    paths[lifted][leg].begin_z = s(-0.235);
    paths[lifted + 1][leg].begin_z = s(-0.205);
    paths[lifted + 1][leg].feet_z = vec![s(-0.23); AIR_SAMPLES];
    assert_eq!(approve_flip(&steps, &targets, &bounds, &paths), Ok(()));
    paths[lifted][leg].begin_z = s(-0.225);
    assert_eq!(
        approve_flip(&steps, &targets, &bounds, &paths),
        Err(FlipFault::Floor { step: lifted + 1, leg, scrape: Scrape { sample: 0, foot: true } })
    );
}
