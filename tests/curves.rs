use motion_prims::curves::{LinearParamCurve, LinearSegment, ParamCurve};

fn b(x: f32) -> u32 {
    x.to_bits()
}

fn three_point_curve() -> LinearParamCurve<i32> {
    LinearParamCurve::continuous(vec![(b(0.0), 10), (b(0.5), 20), (b(1.0), 40)])
}

#[test]
fn continuous_pairs_neighbouring_points() {
    let c = three_point_curve();
    assert_eq!(c.segment_count(), 2);
    assert_eq!(c.segment_start(0), b(0.0));
    assert_eq!(c.segment_start(1), b(0.5));
    assert_eq!(c.segment(0).start, 10);
    assert_eq!(c.segment(0).end, 20);
    assert_eq!(c.segment(1).start, 20);
    assert_eq!(c.segment(1).end, 40);
}

#[test]
fn new_keeps_raw_segments() {
    let c = LinearParamCurve::new(vec![(b(0.0), 1, 2), (b(0.3), 5, 6)]);
    assert_eq!(c.segment_count(), 2);
    assert_eq!(c.segment_start(1), b(0.3));
    assert_eq!(c.segment(1).start, 5);
    assert_eq!(c.segment(1).end, 6);
}

#[test]
fn locate_finds_covering_segment() {
    let c = three_point_curve();
    assert_eq!(c.locate(b(0.25)), (0, b(0.25)));
    assert_eq!(c.locate(b(0.75)), (1, b(0.75)));
}

#[test]
fn locate_exact_boundary_selects_later_segment() {
    let c = three_point_curve();
    assert_eq!(c.locate(b(0.5)), (1, b(0.5)));
}

#[test]
fn locate_ends_select_first_and_last() {
    let c = three_point_curve();
    assert_eq!(c.locate(b(0.0)), (0, b(0.0)));
    assert_eq!(c.locate(b(1.0)), (1, b(1.0)));
}

#[test]
fn locate_clamps_out_of_range_times() {
    let c = three_point_curve();
    assert_eq!(c.locate(b(-3.0)), (0, b(0.0)));
    assert_eq!(c.locate(b(2.0)), (1, b(1.0)));
    assert_eq!(c.locate(b(f32::INFINITY)), (1, b(1.0)));
}

#[test]
fn locate_before_first_start_floors_at_first_segment() {
    let c = LinearParamCurve::continuous(vec![(b(0.2), 1), (b(0.6), 2), (b(0.9), 3)]);
    assert_eq!(c.locate(b(0.1)), (0, b(0.1)));
    assert_eq!(c.locate(b(0.7)), (1, b(0.7)));
}

#[test]
fn locate_many_segments() {
    let n = 100usize;
    let points: Vec<(u32, usize)> = (0..n).map(|i| (b(i as f32 / (n - 1) as f32), i)).collect();
    let c = LinearParamCurve::continuous(points);
    assert_eq!(c.segment_count(), n - 1);
    for i in 0..n - 1 {
        let t = i as f32 / (n - 1) as f32;
        assert_eq!(c.locate(b(t)).0, i);
    }
    assert_eq!(c.locate(b(1.0)).0, n - 2);
}

#[test]
fn single_segment_curve_always_selects_it() {
    let c = LinearParamCurve::new(vec![(b(0.0), 0, 1)]);
    assert_eq!(c.locate(b(0.9)), (0, b(0.9)));
    assert_eq!(c.locate(b(-1.0)), (0, b(0.0)));
}

#[test]
fn segment_new_keeps_ends() {
    let s = LinearSegment::new(3, 9);
    assert_eq!(s.start, 3);
    assert_eq!(s.end, 9);
}

#[test]
fn param_curve_constructors() {
    match ParamCurve::linear(vec![(b(0.0), 1), (b(1.0), 2)]) {
        ParamCurve::Linear(c) => {
            assert_eq!(c.segment_count(), 1);
            assert_eq!(c.segment(0).end, 2);
        }
        ParamCurve::Constant(_) => panic!("expected a linear curve"),
    }
    match ParamCurve::constant(7) {
        ParamCurve::Constant(c) => assert_eq!(c.value(), 7),
        ParamCurve::Linear(_) => panic!("expected a constant curve"),
    }
}
