//! The coordinate family, through the evaluator handles.

use fidget::{
    Axis, Choice, CoordinateTape, Coordinates, Error, Interval, IntervalEval,
    IntervalEvalStorage, PointEval, Single, Tape,
};

fn s(v: f32) -> Single {
    Single::from_bits(v.to_bits())
}

fn f(v: Single) -> f32 {
    f32::from_bits(v.to_bits())
}

fn iv(lo: f32, hi: f32) -> Interval {
    Interval::new(s(lo), s(hi))
}

#[test]
fn coordinate_tapes_have_no_choices_and_no_variables() {
    for axis in [Axis::X, Axis::Y, Axis::Z] {
        let tape = CoordinateTape::new(axis);
        assert_eq!(tape.axis, axis);
        assert_eq!(tape.choice_count(), 0);
        assert_eq!(tape.var_count(), 0);
        assert_eq!(tape.share(), tape);
        assert_eq!(tape.with_reg_limit(3), tape);
    }
}

#[test]
fn coordinate_tapes_evaluate_to_their_side_of_the_box() {
    let mut eval = IntervalEval::<Coordinates>::new(CoordinateTape::new(Axis::X));
    assert_eq!(eval.eval_i_xy(iv(0.0, 1.0), iv(2.0, 3.0)), iv(0.0, 1.0));
    assert_eq!(eval.eval_i_xy(iv(1.0, 5.0), iv(2.0, 3.0)), iv(1.0, 5.0));
    assert_eq!(eval.eval_i_x(iv(-1.0, 5.0)), iv(-1.0, 5.0));

    let mut eval = IntervalEval::<Coordinates>::new(CoordinateTape::new(Axis::Y));
    assert_eq!(eval.eval_i_xy(iv(0.0, 1.0), iv(2.0, 3.0)), iv(2.0, 3.0));
    assert_eq!(eval.eval_i_xy(iv(1.0, 5.0), iv(4.0, 5.0)), iv(4.0, 5.0));
    assert_eq!(eval.eval_i_x(iv(-1.0, 5.0)), iv(0.0, 0.0));

    let mut eval = IntervalEval::<Coordinates>::new(CoordinateTape::new(Axis::Z));
    let out = eval.eval_i(iv(0.0, 1.0), iv(2.0, 3.0), iv(4.0, 5.0), &[]).unwrap();
    assert_eq!(out, iv(4.0, 5.0));
    assert!(eval.choices().is_empty());
}

#[test]
fn coordinate_tapes_evaluate_to_their_coordinate() {
    let mut eval = PointEval::<Coordinates>::new(CoordinateTape::new(Axis::X));
    assert_eq!(f(eval.eval_p(s(1.0), s(2.0), s(3.0))), 1.0);
    let mut eval = PointEval::<Coordinates>::new(CoordinateTape::new(Axis::Y));
    assert_eq!(f(eval.eval_p(s(1.0), s(2.0), s(3.0))), 2.0);
    let mut eval = PointEval::<Coordinates>::new(CoordinateTape::new(Axis::Z));
    assert_eq!(f(eval.eval_p(s(1.0), s(2.0), s(3.0))), 3.0);
    assert!(eval.choices().is_empty());
    assert_eq!(eval.simplify().unwrap(), CoordinateTape::new(Axis::Z));
}

#[test]
fn coordinate_tapes_subdivide_to_the_union_of_the_halves() {
    let mut eval = IntervalEval::<Coordinates>::new(CoordinateTape::new(Axis::X));
    for depth in 0..5 {
        let out = eval.eval_i_subdiv(iv(0.0, 8.0), iv(0.0, 1.0), iv(0.0, 1.0), &[], depth);
        assert_eq!(out, iv(0.0, 8.0));
    }
    let mut eval = IntervalEval::<Coordinates>::new(CoordinateTape::new(Axis::Y));
    for depth in 0..5 {
        let out = eval.eval_i_subdiv(iv(0.0, 8.0), iv(0.0, 1.0), iv(0.0, 1.0), &[], depth);
        assert_eq!(out, iv(0.0, 1.0));
    }
}

#[test]
fn coordinate_tapes_simplify_to_themselves() {
    let tape = CoordinateTape::new(Axis::Y);
    assert_eq!(tape.simplify(&[]).unwrap(), tape);
    let mut workspace = ();
    assert_eq!(tape.simplify_with(&[], &mut workspace, ()).unwrap(), tape);
    match tape.simplify(&[Choice::Left, Choice::Both]) {
        Err(Error::BadChoiceSlice(given, expected)) => {
            assert_eq!(given, 2);
            assert_eq!(expected, 0);
        }
        other => panic!("unexpected {:?}", other),
    }

    let eval = IntervalEval::<Coordinates>::new(tape);
    assert_eq!(eval.tape(), tape);
    assert_eq!(eval.simplify().unwrap(), tape);
    assert_eq!(eval.simplify_with(&mut workspace, ()).unwrap(), tape);
}

#[test]
fn coordinate_evaluators_reject_variables() {
    let mut eval = IntervalEval::<Coordinates>::new(CoordinateTape::new(Axis::X));
    match eval.eval_i(iv(0.0, 1.0), iv(0.0, 1.0), iv(0.0, 1.0), &[s(1.0)]) {
        Err(Error::BadVarSlice(given, expected)) => {
            assert_eq!(given, 1);
            assert_eq!(expected, 0);
        }
        other => panic!("unexpected {:?}", other),
    }
}

#[test]
fn coordinate_storage_round_trip() {
    let mut first = IntervalEval::<Coordinates>::new(CoordinateTape::new(Axis::X));
    first.eval_i_x(iv(0.0, 1.0));
    let storage: IntervalEvalStorage<Coordinates> = first.take().unwrap();
    let mut reused = IntervalEval::new_with_storage(CoordinateTape::new(Axis::Y), storage);
    let mut fresh = IntervalEval::<Coordinates>::new(CoordinateTape::new(Axis::Y));
    let a = reused.eval_i_xy(iv(0.0, 1.0), iv(2.0, 3.0));
    let b = fresh.eval_i_xy(iv(0.0, 1.0), iv(2.0, 3.0));
    assert_eq!(a, b);
    assert_eq!(reused.choices(), fresh.choices());
}
