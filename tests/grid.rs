use reaction_diffusion::grid::{get_index, stencil, wrap_next, wrap_prev, Stencil};

fn laplacian(field: &[f32], x: usize, y: usize, width: usize, height: usize) -> f32 {
    let st = stencil(x, y, width, height);
    -4.0 * field[st.center] + field[st.left] + field[st.up] + field[st.down] + field[st.right]
}

#[test]
fn index_is_row_major() {
    assert_eq!(get_index(0, 0, 3), 0);
    assert_eq!(get_index(2, 0, 3), 2);
    assert_eq!(get_index(0, 1, 3), 3);
    assert_eq!(get_index(2, 1, 3), 5);
    assert_eq!(get_index(4, 7, 5), 39);
}

#[test]
fn wrap_at_both_ends() {
    assert_eq!(wrap_prev(0, 5), 4);
    assert_eq!(wrap_prev(3, 5), 2);
    assert_eq!(wrap_next(4, 5), 0);
    assert_eq!(wrap_next(1, 5), 2);
    assert_eq!(wrap_prev(0, 1), 0);
    assert_eq!(wrap_next(0, 1), 0);
}

#[test]
fn stencil_of_interior_cell() {
    assert_eq!(
        stencil(1, 1, 3, 3),
        Stencil { center: 4, left: 3, right: 5, up: 1, down: 7 }
    );
}

#[test]
fn stencil_of_far_corner_wraps() {
    let st = stencil(2, 2, 3, 3);
    assert_eq!(st.center, 8);
    assert_eq!(st.right, get_index(0, 2, 3));
    assert_eq!(st.down, get_index(2, 0, 3));
    assert_eq!(st.left, 7);
    assert_eq!(st.up, 5);
}

#[test]
fn stencil_of_non_square_grid() {
    assert_eq!(
        stencil(0, 0, 4, 2),
        Stencil { center: 0, left: 3, right: 1, up: 4, down: 4 }
    );
}

#[test]
fn laplacian_of_constant_field_is_zero() {
    for &c in &[0.0f32, 1.0, 3.0, -0.25] {
        let field = vec![c; 12];
        for y in 0..3 {
            for x in 0..4 {
                assert_eq!(laplacian(&field, x, y, 4, 3), 0.0);
            }
        }
    }
}

#[test]
fn corner_impulse_reaches_wrapped_neighbours() {
    let mut field = vec![0.0f32; 9];
    field[get_index(0, 0, 3)] = 1.0;
    assert_eq!(laplacian(&field, 1, 0, 3, 3), 1.0);
    assert_eq!(laplacian(&field, 0, 1, 3, 3), 1.0);
    assert_eq!(laplacian(&field, 2, 0, 3, 3), 1.0);
    assert_eq!(laplacian(&field, 0, 2, 3, 3), 1.0);
    assert_eq!(laplacian(&field, 0, 0, 3, 3), -4.0);
    assert_eq!(laplacian(&field, 2, 2, 3, 3), 0.0);
    assert_eq!(laplacian(&field, 1, 1, 3, 3), 0.0);
}
