use qhull::builder::{collect_coords, prepare_delaunay_points};
use qhull::{Qh, QhBuilder};

fn bits(points: &[&[f64]]) -> Vec<Vec<u64>> {
    points
        .iter()
        .map(|p| p.iter().map(|c| c.to_bits()).collect())
        .collect()
}

#[test]
fn default_builder_has_every_toggle_off() {
    let b = Qh::builder();
    assert_eq!(b, QhBuilder::default());
    assert!(!b.delaunay);
    assert!(!b.upper_delaunay);
    assert!(!b.scale_last);
    assert!(!b.triangulate);
    assert!(!b.keep_coplanar);
}

#[test]
fn setters_set_exactly_one_toggle() {
    let b = QhBuilder::default().delaunay(true);
    assert!(b.delaunay);
    assert!(!b.upper_delaunay && !b.scale_last && !b.triangulate && !b.keep_coplanar);
    let b = b.delaunay(false).triangulate(true);
    assert!(!b.delaunay && b.triangulate);
}

#[test]
fn delaunay_configuration_is_the_chained_setters() {
    let manual = QhBuilder::default()
        .delaunay(true)
        .upper_delaunay(true)
        .scale_last(true)
        .triangulate(true)
        .keep_coplanar(true);
    assert_eq!(QhBuilder::for_delaunay(), manual);
}

#[test]
fn collect_flattens_row_major() {
    let square = bits(&[&[0.0, 0.0], &[1.0, 0.0], &[0.0, 1.0], &[0.25, 0.25]]);
    let c = collect_coords(&square).unwrap();
    assert_eq!(c.count, 4);
    assert_eq!(c.dim, 2);
    let expected: Vec<u64> = [0.0f64, 0.0, 1.0, 0.0, 0.0, 1.0, 0.25, 0.25]
        .iter()
        .map(|x| x.to_bits())
        .collect();
    assert_eq!(c.coords, expected);
}

#[test]
fn collect_accepts_empty_input() {
    let c = collect_coords(&Vec::new()).unwrap();
    assert_eq!(c.count, 0);
    assert_eq!(c.dim, 0);
    assert!(c.coords.is_empty());
}

#[test]
fn inconsistent_arities_fail_validation() {
    let bad = bits(&[&[0.0, 0.0], &[1.0, 0.0, 0.0]]);
    let e = collect_coords(&bad).unwrap_err();
    assert_eq!(e.at, 1);
    assert_eq!(e.expected, 2);
    assert_eq!(e.found, 3);
}

#[test]
fn inconsistent_arities_report_the_first_offender() {
    let bad = bits(&[&[0.0], &[1.0], &[2.0, 3.0], &[4.0, 5.0, 6.0]]);
    let e = collect_coords(&bad).unwrap_err();
    assert_eq!(e.at, 2);
    assert_eq!(e.expected, 1);
    assert_eq!(e.found, 2);
}

#[test]
fn lifting_appends_one_trailing_coordinate_per_point() {
    let points = bits(&[&[1.0, 2.0], &[3.0, 4.0]]);
    let lift: Vec<u64> = vec![(5.0f64).to_bits(), (25.0f64).to_bits()];
    let c = prepare_delaunay_points(&points, &lift).unwrap();
    assert_eq!(c.count, 2);
    assert_eq!(c.dim, 3);
    let expected: Vec<u64> = [1.0f64, 2.0, 5.0, 3.0, 4.0, 25.0]
        .iter()
        .map(|x| x.to_bits())
        .collect();
    assert_eq!(c.coords, expected);
}

#[test]
fn lifting_matches_manual_paraboloid_lift() {
    // the convenience path's buffer must equal the buffer obtained by lifting
    // by hand and flattening with the general path
    let raw: Vec<Vec<f64>> = vec![
        vec![0.0, 1.0],
        vec![1.0, 0.0],
        vec![0.0, -1.0],
        vec![-1.0, 0.0],
    ];
    let points: Vec<Vec<u64>> = raw
        .iter()
        .map(|p| p.iter().map(|c| c.to_bits()).collect())
        .collect();
    let lift: Vec<u64> = raw
        .iter()
        .map(|p| p.iter().map(|c| c * c).sum::<f64>().to_bits())
        .collect();
    let convenience = prepare_delaunay_points(&points, &lift).unwrap();

    let manual: Vec<Vec<u64>> = raw
        .iter()
        .map(|p| {
            let mut q: Vec<u64> = p.iter().map(|c| c.to_bits()).collect();
            q.push(p.iter().map(|c| c * c).sum::<f64>().to_bits());
            q
        })
        .collect();
    let manual = collect_coords(&manual).unwrap();

    assert_eq!(convenience.count, manual.count);
    assert_eq!(convenience.dim, manual.dim);
    assert_eq!(convenience.coords, manual.coords);
}

#[test]
fn lifting_rejects_inconsistent_arities() {
    let bad = bits(&[&[0.0, 0.0], &[1.0, 0.0, 0.0]]);
    let lift: Vec<u64> = vec![0, 0];
    let e = prepare_delaunay_points(&bad, &lift).unwrap_err();
    assert_eq!(e.at, 1);
    assert_eq!(e.expected, 2);
    assert_eq!(e.found, 3);
}
