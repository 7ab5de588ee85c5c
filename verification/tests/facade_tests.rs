use qhull::{Face, Qh, QhState, Vertex};

const DIM: usize = 2;
const POINT_SIZE: usize = 8 * DIM;
const FIRST: usize = 0x1000;
const NUM_POINTS: usize = 4;

fn face(addr: usize, sentinel: bool, vertex_count: usize) -> Face {
    Face {
        addr,
        dim: DIM,
        sentinel,
        vertex_count,
        next_addr: 0,
        prev_addr: 0,
    }
}

fn vertex(addr: usize, sentinel: bool, point_addr: usize) -> Vertex {
    Vertex {
        addr,
        dim: DIM,
        sentinel,
        point_addr,
        next_addr: 0,
        prev_addr: 0,
    }
}

/// Wire the adjacency links the way the engine's doubly linked lists carry
/// them: each node points at its list neighbours, the ends at nothing.
fn link_faces(mut faces: Vec<Face>) -> Vec<Face> {
    let n = faces.len();
    for i in 0..n {
        faces[i].next_addr = if i + 1 < n { faces[i + 1].addr } else { 0 };
        faces[i].prev_addr = if i > 0 { faces[i - 1].addr } else { 0 };
    }
    faces
}

fn link_vertices(mut vertices: Vec<Vertex>) -> Vec<Vertex> {
    let n = vertices.len();
    for i in 0..n {
        vertices[i].next_addr = if i + 1 < n { vertices[i + 1].addr } else { 0 };
        vertices[i].prev_addr = if i > 0 { vertices[i - 1].addr } else { 0 };
    }
    vertices
}

fn sample() -> Qh {
    let faces = link_faces(vec![
        face(0x10, false, 2),
        face(0x20, false, 3),
        face(0x30, false, 2),
        face(0x40, true, 0),
    ]);
    let vertices = link_vertices(vec![
        vertex(0x50, false, FIRST),
        vertex(0x60, false, FIRST + POINT_SIZE),
        vertex(0x70, false, FIRST + 2 * POINT_SIZE),
        vertex(0x80, true, 0),
    ]);
    Qh::from_lists(DIM, faces, vertices, FIRST, NUM_POINTS).unwrap()
}

#[test]
fn from_lists_admits_well_shaped_lists() {
    let qh = sample();
    assert_eq!(qh.state, QhState::Built);
    assert_eq!(qh.dim, DIM);
}

#[test]
fn from_lists_rejects_malformed_lists() {
    let good_faces = || link_faces(vec![face(0x10, false, 2), face(0x40, true, 0)]);
    let good_vertices = || link_vertices(vec![vertex(0x50, false, FIRST), vertex(0x80, true, 0)]);

    // empty face list
    assert!(Qh::from_lists(DIM, vec![], good_vertices(), FIRST, NUM_POINTS).is_none());
    // sentinel not last
    let wrong_order = link_faces(vec![face(0x40, true, 0), face(0x10, false, 2)]);
    assert!(Qh::from_lists(DIM, wrong_order, good_vertices(), FIRST, NUM_POINTS).is_none());
    // two sentinels
    let two = link_faces(vec![face(0x10, true, 0), face(0x40, true, 0)]);
    assert!(Qh::from_lists(DIM, two, good_vertices(), FIRST, NUM_POINTS).is_none());
    // absent node address
    let zero_addr = link_faces(vec![face(0, false, 2), face(0x40, true, 0)]);
    assert!(Qh::from_lists(DIM, zero_addr, good_vertices(), FIRST, NUM_POINTS).is_none());
    // node captured under the wrong dimensionality
    let mut wrong_dim = link_faces(vec![face(0x10, false, 2), face(0x40, true, 0)]);
    wrong_dim[0].dim = DIM + 1;
    assert!(Qh::from_lists(DIM, wrong_dim, good_vertices(), FIRST, NUM_POINTS).is_none());
    // a broken forward link
    let mut broken_next = good_faces();
    broken_next[0].next_addr = 0xdead;
    assert!(Qh::from_lists(DIM, broken_next, good_vertices(), FIRST, NUM_POINTS).is_none());
    // a broken backward link
    let mut broken_prev = good_faces();
    broken_prev[1].prev_addr = 0;
    assert!(Qh::from_lists(DIM, broken_prev, good_vertices(), FIRST, NUM_POINTS).is_none());
    // two nodes with one address
    let dup = link_faces(vec![face(0x10, false, 2), face(0x10, false, 3), face(0x40, true, 0)]);
    assert!(Qh::from_lists(DIM, dup, good_vertices(), FIRST, NUM_POINTS).is_none());
    // zero dimensionality
    assert!(Qh::from_lists(0, good_faces(), good_vertices(), FIRST, NUM_POINTS).is_none());
    // buffer range that cannot fit in the address space
    assert!(Qh::from_lists(DIM, good_faces(), good_vertices(), usize::MAX, NUM_POINTS).is_none());
}

#[test]
fn counts_equal_filtered_iteration() {
    let qh = sample();
    assert_eq!(qh.num_faces(), qh.faces().len());
    assert_eq!(qh.num_vertices(), qh.vertices().len());
    assert_eq!(qh.num_faces(), 3);
    assert_eq!(qh.num_vertices(), 3);
}

#[test]
fn full_iteration_visits_the_sentinel_once_and_last() {
    let qh = sample();

    let all = qh.all_faces();
    assert_eq!(all.iter().filter(|f| f.sentinel).count(), 1);
    assert!(all.last().unwrap().sentinel);
    let rev = qh.all_faces_rev();
    assert_eq!(rev.iter().filter(|f| f.sentinel).count(), 1);
    assert!(rev.first().unwrap().sentinel);
    let mut back: Vec<Face> = rev.clone();
    back.reverse();
    assert_eq!(back, all);

    let all_v = qh.all_vertices();
    assert_eq!(all_v.iter().filter(|v| v.sentinel).count(), 1);
    assert!(all_v.last().unwrap().sentinel);
    let rev_v = qh.all_vertices_rev();
    assert!(rev_v.first().unwrap().sentinel);
    assert_eq!(rev_v.iter().filter(|v| v.sentinel).count(), 1);
}

#[test]
fn visible_iteration_is_the_filtered_full_iteration() {
    let qh = sample();
    let filtered: Vec<Face> = qh
        .all_faces()
        .into_iter()
        .filter(|f| !f.is_sentinel())
        .collect();
    assert_eq!(qh.faces(), filtered);
    let filtered_v: Vec<Vertex> = qh
        .all_vertices()
        .into_iter()
        .filter(|v| !v.is_sentinel())
        .collect();
    assert_eq!(qh.vertices(), filtered_v);
}

#[test]
fn simplices_are_the_simplicial_visible_faces() {
    let qh = sample();
    let s = qh.simplices();
    assert_eq!(s.len(), 2);
    assert!(s.iter().all(|f| f.simplicial() && !f.is_sentinel()));
}

#[test]
fn lifecycle_records_the_outcome() {
    let mut qh = sample();
    assert_eq!(qh.state, QhState::Built);
    qh.record_compute_outcome(true);
    assert_eq!(qh.state, QhState::Computed);

    let mut failed = sample();
    failed.record_compute_outcome(false);
    assert_eq!(failed.state, QhState::ComputeFailed);
}

#[test]
fn vertex_index_round_trips_buffer_positions() {
    let qh = sample();
    for i in 0..NUM_POINTS {
        let v = vertex(0x90, false, FIRST + i * POINT_SIZE);
        assert_eq!(qh.vertex_index(&v), Some(i));
    }
}

#[test]
fn vertex_index_is_absent_outside_the_buffer() {
    let qh = sample();
    // the sentinel
    assert_eq!(qh.vertex_index(&vertex(0x80, true, FIRST)), None);
    // no coordinate data
    assert_eq!(qh.vertex_index(&vertex(0x90, false, 0)), None);
    // below the buffer
    assert_eq!(qh.vertex_index(&vertex(0x90, false, FIRST - 1)), None);
    // one past the end
    let end = FIRST + NUM_POINTS * POINT_SIZE;
    assert_eq!(qh.vertex_index(&v_at(end)), None);
    assert_eq!(qh.vertex_index(&v_at(end + POINT_SIZE)), None);
    // last valid point
    assert_eq!(qh.vertex_index(&v_at(end - POINT_SIZE)), Some(NUM_POINTS - 1));
}

fn v_at(point_addr: usize) -> Vertex {
    vertex(0x90, false, point_addr)
}

#[test]
fn misaligned_offsets_are_a_fatal_inconsistency() {
    let qh = sample();
    let bad = v_at(FIRST + 3);
    assert_eq!(qh.vertex_index_checked(&bad), Err(3));
    let good = v_at(FIRST + POINT_SIZE);
    assert_eq!(qh.vertex_index_checked(&good), Ok(Some(1)));
    assert_eq!(qh.vertex_index_checked(&vertex(0x80, true, 0)), Ok(None));
}

#[test]
fn stepping_follows_the_list_in_both_directions() {
    let qh = sample();
    let all = qh.all_faces();

    // forward: head to sentinel, then nothing
    assert_eq!(qh.next_face(&all[0]), Some(all[1]));
    assert_eq!(qh.next_face(&all[2]), Some(all[3]));
    assert!(all[3].sentinel);
    assert_eq!(qh.next_face(&all[3]), None);
    // backward: sentinel to head, then nothing
    assert_eq!(qh.previous_face(&all[3]), Some(all[2]));
    assert_eq!(qh.previous_face(&all[0]), None);
    // a view that denotes no node of this instance
    assert_eq!(qh.next_face(&face(0xbeef, false, 2)), None);

    let all_v = qh.all_vertices();
    assert_eq!(qh.next_vertex(&all_v[0]), Some(all_v[1]));
    assert_eq!(qh.next_vertex(&all_v[3]), None);
    assert_eq!(qh.previous_vertex(&all_v[1]), Some(all_v[0]));
    assert_eq!(qh.previous_vertex(&all_v[0]), None);
    assert_eq!(qh.previous_vertex(&vertex(0xbeef, false, 0)), None);
}

#[test]
fn stepping_goes_by_identity_not_by_payload() {
    let qh = sample();
    let all = qh.all_faces();
    // a stale view of the same node (same address, different payload) steps
    // to the same successor
    let stale = Face {
        vertex_count: 99,
        ..all[1]
    };
    assert_eq!(qh.next_face(&stale), Some(all[2]));
}

#[test]
fn a_list_of_only_the_sentinel_is_empty_but_valid() {
    let faces = link_faces(vec![face(0x40, true, 0)]);
    let vertices = link_vertices(vec![vertex(0x80, true, 0)]);
    let qh = Qh::from_lists(DIM, faces, vertices, FIRST, 0).unwrap();
    assert_eq!(qh.num_faces(), 0);
    assert_eq!(qh.num_vertices(), 0);
    assert!(qh.faces().is_empty());
    assert_eq!(qh.all_faces().len(), 1);
    // nothing lies inside an empty buffer
    assert_eq!(qh.vertex_index(&vertex(0x90, false, FIRST)), None);
}
