use compute_normals::layout::NormalsError;
use compute_normals::length::divisor;
use compute_normals::progress::Request;
use compute_normals::solver::NormalSolver;
use compute_normals::triple::Triple;

fn vector(t: Triple) -> (f32, f32, f32) {
    (f32::from_bits(t.x), f32::from_bits(t.y), f32::from_bits(t.z))
}

fn triple(x: f32, y: f32, z: f32) -> Triple {
    Triple { x: x.to_bits(), y: y.to_bits(), z: z.to_bits() }
}

fn unit(x: f32, y: f32, z: f32) -> Triple {
    let length = (x * x + y * y + z * z).sqrt();
    let by = f32::from_bits(divisor(length.to_bits()));
    triple(x / by, y / by, z / by)
}

fn answer(request: Request) -> Triple {
    match request {
        Request::FacetNormal { first, pivot, third } => {
            let (first, pivot, third) = (vector(first), vector(pivot), vector(third));
            let (ax, ay, az) = (first.0 - pivot.0, first.1 - pivot.1, first.2 - pivot.2);
            let (bx, by, bz) = (third.0 - pivot.0, third.1 - pivot.1, third.2 - pivot.2);
            unit(ay * bz - az * by, az * bx - ax * bz, ax * by - ay * bx)
        }
        Request::Sum { left, right } => {
            let (left, right) = (vector(left), vector(right));
            triple(left.0 + right.0, left.1 + right.1, left.2 + right.2)
        }
        Request::Unit { of } => {
            let (x, y, z) = vector(of);
            unit(x, y, z)
        }
    }
}

fn solve(positions: &[f32], indices: &[u32], normals: &mut [f32]) -> Result<(), NormalsError> {
    let positions: Vec<u32> = positions.iter().map(|p| p.to_bits()).collect();
    let mut bits: Vec<u32> = normals.iter().map(|n| n.to_bits()).collect();
    let mut solver = NormalSolver::new(&positions, indices, &mut bits)?;
    while let Some(request) = solver.request(&bits) {
        solver.reply(&mut bits, answer(request));
    }
    for (normal, bits) in normals.iter_mut().zip(bits) {
        *normal = f32::from_bits(bits);
    }
    Ok(())
}

fn length_at(normals: &[f32], vertex: usize) -> f32 {
    let (x, y, z) = (normals[3 * vertex], normals[3 * vertex + 1], normals[3 * vertex + 2]);
    (x * x + y * y + z * z).sqrt()
}

fn bits(values: &[f32]) -> Vec<u32> {
    values.iter().map(|v| v.to_bits()).collect()
}

fn close(a: f32, b: f32, tolerance: f32) -> bool {
    (a - b).abs() <= tolerance
}

const TRIANGLE: [f32; 9] = [0.0, 0.0, 0.0, 1.0, 0.0, 0.0, 0.0, 1.0, 0.0];

#[test]
fn single_triangle_gets_one_normal_along_z() {
    let mut normals = [0.0f32; 9];
    solve(&TRIANGLE, &[0, 1, 2], &mut normals).unwrap();
    for v in 0..3 {
        assert_eq!(normals[3 * v], 0.0);
        assert_eq!(normals[3 * v + 1], 0.0);
        assert_eq!(normals[3 * v + 2].abs(), 1.0);
        assert_eq!(normals[3 * v + 2], normals[2]);
    }
}

#[test]
fn single_triangle_normal_follows_the_winding() {
    let mut normals = [0.0f32; 9];
    solve(&TRIANGLE, &[0, 1, 2], &mut normals).unwrap();
    assert_eq!(normals, [0.0, 0.0, -1.0, 0.0, 0.0, -1.0, 0.0, 0.0, -1.0]);
    solve(&TRIANGLE, &[0, 2, 1], &mut normals).unwrap();
    assert_eq!(normals, [0.0, 0.0, 1.0, 0.0, 0.0, 1.0, 0.0, 0.0, 1.0]);
}

#[test]
fn touched_vertices_have_unit_normals() {
    let positions = [
        0.0f32, 0.0, 0.0, 2.0, 0.0, 0.0, 0.0, 3.0, 0.0, 0.0, 0.0, 5.0, 1.5, -2.0, 0.25,
    ];
    let indices = [0, 1, 2, 0, 3, 1, 0, 2, 3, 1, 3, 2, 4, 0, 1];
    let mut normals = [0.0f32; 15];
    solve(&positions, &indices, &mut normals).unwrap();
    for v in 0..5 {
        assert!(close(length_at(&normals, v), 1.0, 1.0e-5));
    }
}

#[test]
fn untouched_vertex_stays_zero() {
    let positions = [0.0f32, 0.0, 0.0, 1.0, 0.0, 0.0, 0.0, 1.0, 0.0, 4.0, 5.0, 6.0];
    let mut normals = [7.0f32; 12];
    solve(&positions, &[0, 1, 2], &mut normals).unwrap();
    assert_eq!(bits(&normals[9..]), vec![0, 0, 0]);
    assert!(close(length_at(&normals, 0), 1.0, 1.0e-5));
}

#[test]
fn mesh_without_facets_has_zero_normals() {
    let mut normals = [3.5f32; 9];
    solve(&TRIANGLE, &[], &mut normals).unwrap();
    assert_eq!(bits(&normals), vec![0; 9]);
}

#[test]
fn prior_contents_of_the_normals_do_not_matter() {
    let positions = [0.0f32, 0.0, 0.0, 1.0, 0.0, 0.5, 1.0, 1.0, 0.0, 0.0, 1.0, 0.25];
    let indices = [0, 1, 2, 0, 2, 3];
    let mut first = [f32::NAN, -3.0, 1.0e30, 9.0, 9.0, 9.0, f32::INFINITY, 0.0, -0.0, 1.0, 2.0, 3.0];
    let mut second = [-1.0f32; 12];
    solve(&positions, &indices, &mut first).unwrap();
    solve(&positions, &indices, &mut second).unwrap();
    assert_eq!(bits(&first), bits(&second));
    solve(&positions, &indices, &mut first).unwrap();
    assert_eq!(bits(&first), bits(&second));
}

#[test]
fn coplanar_neighbours_share_the_face_normal() {
    let positions = [0.0f32, 0.0, 0.0, 1.0, 0.0, 0.0, 1.0, 1.0, 0.0, 0.0, 1.0, 0.0];
    let mut normals = [0.0f32; 12];
    solve(&positions, &[0, 2, 1, 0, 3, 2], &mut normals).unwrap();
    for v in 0..4 {
        assert_eq!(&normals[3 * v..3 * v + 3], &[0.0, 0.0, 1.0]);
    }
}

#[test]
fn nearly_coplanar_neighbours_average_their_normals() {
    let positions = [0.0f32, 0.0, 0.0, 1.0, 0.0, 0.0, 1.0, 1.0, 0.0, 0.0, 1.0, 0.001];
    let mut normals = [0.0f32; 12];
    solve(&positions, &[0, 2, 1, 0, 3, 2], &mut normals).unwrap();

    let first = [0.0f32, 0.0, 1.0];
    let raw = [0.001f32, -0.001, 1.0];
    let raw_length = (raw[0] * raw[0] + raw[1] * raw[1] + raw[2] * raw[2]).sqrt();
    let second = [raw[0] / raw_length, raw[1] / raw_length, raw[2] / raw_length];
    assert!(close(normals[3], first[0], 1.0e-6));
    assert!(close(normals[4], first[1], 1.0e-6));
    assert!(close(normals[5], first[2], 1.0e-6));
    assert!(close(normals[9], second[0], 1.0e-6));
    assert!(close(normals[10], second[1], 1.0e-6));
    assert!(close(normals[11], second[2], 1.0e-6));

    let sum = [first[0] + second[0], first[1] + second[1], first[2] + second[2]];
    let sum_length = (sum[0] * sum[0] + sum[1] * sum[1] + sum[2] * sum[2]).sqrt();
    for v in [0, 2] {
        for c in 0..3 {
            assert!(close(normals[3 * v + c], sum[c] / sum_length, 1.0e-6));
            assert!(close(normals[3 * v + c], first[c], 1.0e-3));
        }
        assert!(normals[3 * v] != first[0] && normals[3 * v] != second[0]);
        assert!(close(length_at(&normals, v), 1.0, 1.0e-5));
    }
}

#[test]
fn collinear_facet_contributes_nothing() {
    let positions = [0.0f32, 0.0, 0.0, 1.0, 1.0, 1.0, 2.0, 2.0, 2.0];
    let mut normals = [5.0f32; 9];
    assert_eq!(solve(&positions, &[0, 1, 2], &mut normals), Ok(()));
    assert!(normals.iter().all(|n| !n.is_nan()));
    assert!(normals.iter().all(|n| *n == 0.0));
}

#[test]
fn collinear_facet_leaves_its_neighbour_alone() {
    let positions = [0.0f32, 0.0, 0.0, 1.0, 0.0, 0.0, 0.0, 1.0, 0.0, 2.0, 0.0, 0.0];
    let mut with = [0.0f32; 12];
    solve(&positions, &[0, 2, 1, 0, 1, 3], &mut with).unwrap();
    let mut without = [0.0f32; 12];
    solve(&positions, &[0, 2, 1], &mut without).unwrap();
    assert_eq!(with, without);
    assert_eq!(&with[0..3], &[0.0, 0.0, 1.0]);
    assert_eq!(&with[9..12], &[0.0, 0.0, 0.0]);
}

#[test]
fn repeated_vertex_makes_a_facet_without_area() {
    let mut normals = [1.0f32; 9];
    solve(&TRIANGLE, &[1, 1, 2], &mut normals).unwrap();
    assert!(normals.iter().all(|n| *n == 0.0));
}

#[test]
fn opposite_facets_cancel_to_zero() {
    let mut normals = [1.0f32; 9];
    solve(&TRIANGLE, &[0, 1, 2, 0, 2, 1], &mut normals).unwrap();
    assert!(normals.iter().all(|n| *n == 0.0));
}

#[test]
fn index_out_of_range_fails_and_leaves_normals_alone() {
    let before = [0.5f32, -1.0, 2.0, 3.0, 4.0, 5.0, 6.0, 7.0, 8.0];
    let mut normals = before;
    assert_eq!(solve(&TRIANGLE, &[0, 1, 3], &mut normals), Err(NormalsError::IndexOutOfRange));
    assert_eq!(bits(&normals), bits(&before));
    assert_eq!(
        solve(&TRIANGLE, &[0, 1, 2, 0, 1, u32::MAX], &mut normals),
        Err(NormalsError::IndexOutOfRange)
    );
    assert_eq!(bits(&normals), bits(&before));
}

#[test]
fn size_mismatch_fails_and_leaves_normals_alone() {
    let mut short = [4.0f32; 6];
    assert_eq!(solve(&TRIANGLE, &[0, 1, 2], &mut short), Err(NormalsError::SizeMismatch));
    assert_eq!(short, [4.0; 6]);
    let mut normals = [4.0f32; 9];
    assert_eq!(solve(&TRIANGLE, &[0, 1], &mut normals), Err(NormalsError::SizeMismatch));
    assert_eq!(normals, [4.0; 9]);
    let mut ragged = [4.0f32; 8];
    assert_eq!(solve(&TRIANGLE[..8], &[0, 1, 0], &mut ragged), Err(NormalsError::SizeMismatch));
    assert_eq!(ragged, [4.0; 8]);
}

/// The same passes written as plain loops over the buffers.
fn plain_loops(positions: &[f32], indices: &[u32], normals: &mut [f32]) {
    normals.fill(0.0);
    for f in 0..indices.len() / 3 {
        let v1 = indices[3 * f] as usize * 3;
        let v2 = indices[3 * f + 1] as usize * 3;
        let v3 = indices[3 * f + 2] as usize * 3;
        let ax = positions[v1] - positions[v2];
        let ay = positions[v1 + 1] - positions[v2 + 1];
        let az = positions[v1 + 2] - positions[v2 + 2];
        let bx = positions[v3] - positions[v2];
        let by = positions[v3 + 1] - positions[v2 + 1];
        let bz = positions[v3 + 2] - positions[v2 + 2];
        let mut nx = ay * bz - az * by;
        let mut ny = az * bx - ax * bz;
        let mut nz = ax * by - ay * bx;
        let mut length = (nx * nx + ny * ny + nz * nz).sqrt();
        if length == 0.0 {
            length = 1.0;
        }
        nx /= length;
        ny /= length;
        nz /= length;
        for v in [v1, v2, v3] {
            normals[v] = normals[v] + nx;
            normals[v + 1] = normals[v + 1] + ny;
            normals[v + 2] = normals[v + 2] + nz;
        }
    }
    for v in 0..normals.len() / 3 {
        let (x, y, z) = (normals[3 * v], normals[3 * v + 1], normals[3 * v + 2]);
        let mut length = (x * x + y * y + z * z).sqrt();
        if length == 0.0 {
            length = 1.0;
        }
        normals[3 * v] = x / length;
        normals[3 * v + 1] = y / length;
        normals[3 * v + 2] = z / length;
    }
}

fn next_random(state: &mut u64) -> u32 {
    *state = state.wrapping_mul(6364136223846793005).wrapping_add(1442695040888963407);
    (*state >> 33) as u32
}

#[test]
fn solver_gives_what_plain_loops_give() {
    let mut state = 0x2545_f491_4f6c_dd1d_u64;
    for round in 0..200 {
        let vertex_count = 1 + (next_random(&mut state) % 12) as usize;
        let facet_count = (next_random(&mut state) % 20) as usize;
        let positions: Vec<f32> = (0..3 * vertex_count)
            .map(|_| {
                let raw = next_random(&mut state) % 2001;
                if round % 4 == 0 { (raw % 3) as f32 } else { (raw as f32 - 1000.0) / 37.0 }
            })
            .collect();
        let indices: Vec<u32> =
            (0..3 * facet_count).map(|_| next_random(&mut state) % vertex_count as u32).collect();
        let mut planned = vec![f32::NAN; 3 * vertex_count];
        let mut looped = vec![-2.0f32; 3 * vertex_count];
        solve(&positions, &indices, &mut planned).unwrap();
        plain_loops(&positions, &indices, &mut looped);
        assert_eq!(bits(&planned), bits(&looped));
        assert!(planned.iter().all(|n| !n.is_nan()));
    }
}
