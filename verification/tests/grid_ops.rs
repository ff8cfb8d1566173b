use fluidsim::Grid;

fn b(x: f32) -> u32 {
    x.to_bits()
}

fn f(x: u32) -> f32 {
    f32::from_bits(x)
}

#[test]
fn new_shapes_and_zero() {
    let g = Grid::new(4, 3);
    assert_eq!(g.width, 4);
    assert_eq!(g.height, 3);
    assert_eq!(g.pressure.len(), 3);
    assert_eq!(g.density.len(), 3);
    assert_eq!(g.vel_x.len(), 3);
    assert_eq!(g.vel_y.len(), 4);
    for row in &g.pressure {
        assert_eq!(row.len(), 4);
        assert!(row.iter().all(|&v| v == 0));
    }
    for row in &g.vel_x {
        assert_eq!(row.len(), 5);
        assert!(row.iter().all(|&v| v == 0));
    }
    for row in &g.vel_y {
        assert_eq!(row.len(), 4);
        assert!(row.iter().all(|&v| v == 0));
    }
}

#[test]
fn boundary_invariant() {
    let mut g = Grid::new(3, 4);
    g.vel_x[1][0] = b(2.5);
    g.vel_x[2][3] = b(-1.5);
    g.vel_x[1][1] = b(4.0);
    g.vel_y[0][0] = b(3.25);
    g.vel_y[2][4] = b(-7.0);
    g.vel_y[1][2] = b(0.5);
    g.set_boundary_conditions();
    for j in 0..4 {
        assert_eq!(g.vel_x[j][0], 0);
        assert_eq!(g.vel_x[j][3], 0);
    }
    for i in 0..3 {
        assert_eq!(g.vel_y[i][0], 0);
        assert_eq!(g.vel_y[i][4], 0);
    }
    assert_eq!(f(g.vel_x[1][1]), 4.0);
    assert_eq!(f(g.vel_y[1][2]), 0.5);
}

#[test]
fn boundary_idempotent() {
    let mut g = Grid::new(3, 3);
    g.vel_x[0][0] = b(1.0);
    g.vel_x[1][2] = b(-2.0);
    g.vel_y[2][3] = b(5.5);
    g.vel_y[1][1] = b(0.25);
    g.set_boundary_conditions();
    let vx_once = g.vel_x.clone();
    let vy_once = g.vel_y.clone();
    g.set_boundary_conditions();
    assert_eq!(g.vel_x, vx_once);
    assert_eq!(g.vel_y, vy_once);
}

#[test]
fn zero_stability() {
    let mut g = Grid::new(5, 4);
    for _ in 0..5 {
        g.update_grid();
    }
    for row in &g.vel_x {
        assert!(row.iter().all(|&v| v == 0));
    }
    for row in &g.vel_y {
        assert!(row.iter().all(|&v| v == 0));
    }
    for row in &g.pressure {
        assert!(row.iter().all(|&v| v == 0));
    }
    for row in &g.density {
        assert!(row.iter().all(|&v| v == 0));
    }
}

#[test]
fn zero_backtrace() {
    let mut g = Grid::new(4, 4);
    g.advect(b(2.5));
    for row in &g.vel_x {
        assert!(row.iter().all(|&v| v == 0));
    }
    for row in &g.vel_y {
        assert!(row.iter().all(|&v| v == 0));
    }
    g.advect(b(-1.25));
    for row in &g.vel_x {
        assert!(row.iter().all(|&v| v == 0));
    }
    for row in &g.vel_y {
        assert!(row.iter().all(|&v| v == 0));
    }
}

#[test]
fn single_impulse_single_step() {
    let mut g = Grid::new(5, 5);
    g.update_vel(2, 2, 1, 1, b(1.0));
    assert_eq!(f(g.vel_x[2][2]), 1.0);
    assert_eq!(f(g.vel_y[2][2]), 1.0);
    g.update_grid();
    for j in 0..5 {
        assert_eq!(g.vel_x[j][0], 0);
        assert_eq!(g.vel_x[j][5], 0);
    }
    for i in 0..5 {
        assert_eq!(g.vel_y[i][0], 0);
        assert_eq!(g.vel_y[i][5], 0);
    }
    assert_ne!(f(g.vel_x[2][2]), 1.0);
}

#[test]
fn interpolation_identity_x() {
    let mut g = Grid::new(4, 4);
    for row in g.vel_x.iter_mut() {
        for v in row.iter_mut() {
            *v = b(5.0);
        }
    }
    let snapshot = g.vel_x.clone();
    for &(x, y) in &[(0.0f32, 0.5f32), (1.5, 2.25), (2.0, 2.0), (3.75, 3.5), (0.25, 1.0)] {
        let r = g.interpolate_x_velocity(b(x), b(y), &snapshot);
        assert_eq!(f(r), 5.0);
    }
}

#[test]
fn interpolation_identity_y() {
    let mut g = Grid::new(4, 4);
    for row in g.vel_y.iter_mut() {
        for v in row.iter_mut() {
            *v = b(-3.5);
        }
    }
    let snapshot = g.vel_y.clone();
    for &(x, y) in &[(0.5f32, 0.0f32), (1.75, 2.5), (2.0, 2.0), (3.5, 3.75)] {
        let r = g.interpolate_y_velocity(b(x), b(y), &snapshot);
        assert_eq!(f(r), -3.5);
    }
}

#[test]
fn interp_x_known_value() {
    let mut g = Grid::new(4, 4);
    g.vel_x[0][1] = b(2.0);
    // The second column sample reuses the clamped first index, so this
    // neighbour must not enter the blend at all.
    g.vel_x[0][2] = b(100.0);
    let snapshot = g.vel_x.clone();
    let r = g.interpolate_x_velocity(b(1.5), b(0.5), &snapshot);
    assert_eq!(f(r), 2.0);
}

#[test]
fn interp_x_clamps_outside_domain() {
    let mut g = Grid::new(4, 4);
    g.vel_x[0][3] = b(9.0);
    let snapshot = g.vel_x.clone();
    let r = g.interpolate_x_velocity(b(100.0), b(0.5), &snapshot);
    assert_eq!(f(r), 9.0);
}

#[test]
fn interp_y_known_value() {
    let mut g = Grid::new(4, 4);
    g.vel_y[1][1] = b(3.0);
    g.vel_y[2][1] = b(7.0);
    let snapshot = g.vel_y.clone();
    let r = g.interpolate_y_velocity(b(1.75), b(1.0), &snapshot);
    assert_eq!(f(r), 4.0);
}

#[test]
fn divergence_known_field() {
    let mut g = Grid::new(3, 3);
    g.vel_x[1][1] = b(1.5);
    g.vel_x[1][2] = b(4.25);
    g.vel_y[1][1] = b(-2.0);
    g.vel_y[1][2] = b(0.5);
    let r = g.calculate_divergence(1, 1);
    let manual = (4.25f32 - 1.5f32) + (0.5f32 - (-2.0f32));
    assert_eq!(f(r), manual);
    assert_eq!(f(r), 5.25);
}

#[test]
fn center_velocity_average() {
    let mut g = Grid::new(3, 3);
    g.vel_x[1][1] = b(2.0);
    g.vel_x[1][2] = b(3.0);
    g.vel_y[1][1] = b(1.0);
    g.vel_y[1][2] = b(6.0);
    let (u, v) = g.get_center_vel(1, 1);
    assert_eq!(f(u), 2.5);
    assert_eq!(f(v), 3.5);
}

#[test]
fn impulse_with_negative_direction() {
    let mut g = Grid::new(4, 4);
    g.update_vel(1, 2, -1, 1, b(0.75));
    assert_eq!(f(g.vel_x[2][1]), -0.75);
    assert_eq!(f(g.vel_y[1][2]), 0.75);
    g.update_vel(1, 2, -1, 1, b(0.75));
    assert_eq!(f(g.vel_x[2][1]), -1.5);
    assert_eq!(f(g.vel_y[1][2]), 1.5);
}
