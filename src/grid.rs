//! Row-major storage of a `width` x `height` field and its toroidal
//! neighbourhood.

use vstd::prelude::*;

verus! {

/// The offset of cell `(x, y)` in a row-major field of the given width.
pub open spec fn index_of(x: int, y: int, width: int) -> int {
    y * width + x
}

/// A grid of `width` x `height` cells whose offsets fit in `usize`.
pub open spec fn valid_grid(width: int, height: int) -> bool {
    0 < width && 0 < height && width * height <= usize::MAX
}

proof fn lemma_index_in_range(x: int, y: int, width: int, height: int)
    requires
        valid_grid(width, height),
        0 <= x < width,
        0 <= y < height,
    ensures
        0 <= index_of(x, y, width) < width * height,
{
    assert(0 <= y * width <= (height - 1) * width) by (nonlinear_arith)
        requires
            0 <= y < height,
            0 < width,
    ;
    assert((height - 1) * width + width == width * height) by (nonlinear_arith);
}

/// The linear offset of cell `(x, y)`: `y * width + x`.
pub fn get_index(x: usize, y: usize, width: usize) -> (r: usize)
    requires
        x < width,
        y * width + x <= usize::MAX,
    ensures
        r == index_of(x as int, y as int, width as int),
{
    y * width + x
}

/// The coordinate before `i` on a ring of `n` positions.
pub open spec fn prev_on_ring(i: int, n: int) -> int {
    (i + n - 1) % n
}

/// The coordinate after `i` on a ring of `n` positions.
pub open spec fn next_on_ring(i: int, n: int) -> int {
    (i + 1) % n
}

/// The previous coordinate along an axis of length `n`, wrapping from the
/// first position to the last.
pub fn wrap_prev(i: usize, n: usize) -> (r: usize)
    requires
        i < n,
    ensures
        r == prev_on_ring(i as int, n as int),
        r < n,
{
    if i == 0 {
        assert((0 + n - 1) % (n as int) == n - 1) by {
            vstd::arithmetic::div_mod::lemma_small_mod((n - 1) as nat, n as nat);
        }
        n - 1
    } else {
        assert((i + n - 1) % (n as int) == i - 1) by {
            vstd::arithmetic::div_mod::lemma_mod_add_multiples_vanish((i - 1) as int, n as int);
            vstd::arithmetic::div_mod::lemma_small_mod((i - 1) as nat, n as nat);
        }
        i - 1
    }
}

/// The next coordinate along an axis of length `n`, wrapping from the last
/// position to the first.
pub fn wrap_next(i: usize, n: usize) -> (r: usize)
    requires
        i < n,
    ensures
        r == next_on_ring(i as int, n as int),
        r < n,
{
    if i >= n - 1 {
        assert((i + 1) % (n as int) == 0) by {
            vstd::arithmetic::div_mod::lemma_mod_self_0(n as int);
        }
        0
    } else {
        assert((i + 1) % (n as int) == i + 1) by {
            vstd::arithmetic::div_mod::lemma_small_mod((i + 1) as nat, n as nat);
        }
        i + 1
    }
}

/// The five offsets that the discrete Laplacian of one cell reads: the cell
/// itself and its four toroidal neighbours.
#[derive(Clone, Copy, Debug, PartialEq, Eq)]
pub struct Stencil {
    pub center: usize,
    pub left: usize,
    pub right: usize,
    pub up: usize,
    pub down: usize,
}

/// The stencil of cell `(x, y)`: every axis wraps on its own, so corners and
/// edges need no special case.
pub open spec fn stencil_of(x: int, y: int, width: int, height: int) -> Stencil {
    Stencil {
        center: index_of(x, y, width) as usize,
        left: index_of(prev_on_ring(x, width), y, width) as usize,
        right: index_of(next_on_ring(x, width), y, width) as usize,
        up: index_of(x, prev_on_ring(y, height), width) as usize,
        down: index_of(x, next_on_ring(y, height), width) as usize,
    }
}

/// The discrete Laplacian of `field` at `(x, y)` in exact arithmetic:
/// `-4 * centre + left + up + down + right`.
pub open spec fn laplacian_of(field: Seq<int>, x: int, y: int, width: int, height: int) -> int {
    let st = stencil_of(x, y, width, height);
    -4 * field[st.center as int] + field[st.left as int] + field[st.up as int]
        + field[st.down as int] + field[st.right as int]
}

impl Stencil {
    /// Every offset of the stencil lies inside a field of `len` cells.
    pub open spec fn within(self, len: int) -> bool {
        &&& self.center < len
        &&& self.left < len
        &&& self.right < len
        &&& self.up < len
        &&& self.down < len
    }
}

/// The stencil offsets of cell `(x, y)` under periodic boundaries.
pub fn stencil(x: usize, y: usize, width: usize, height: usize) -> (r: Stencil)
    requires
        valid_grid(width as int, height as int),
        x < width,
        y < height,
    ensures
        r == stencil_of(x as int, y as int, width as int, height as int),
        r.within(width * height),
{
    let left = wrap_prev(x, width);
    let right = wrap_next(x, width);
    let up = wrap_prev(y, height);
    let down = wrap_next(y, height);
    proof {
        lemma_index_in_range(x as int, y as int, width as int, height as int);
        lemma_index_in_range(left as int, y as int, width as int, height as int);
        lemma_index_in_range(right as int, y as int, width as int, height as int);
        lemma_index_in_range(x as int, up as int, width as int, height as int);
        lemma_index_in_range(x as int, down as int, width as int, height as int);
    }
    Stencil {
        center: get_index(x, y, width),
        left: get_index(left, y, width),
        right: get_index(right, y, width),
        up: get_index(x, up, width),
        down: get_index(x, down, width),
    }
}

/// The Laplacian of a constant field is zero at every cell: the stencil's
/// weights sum to zero, and wrapping keeps every neighbour inside the field.
pub proof fn lemma_laplacian_of_constant(field: Seq<int>, c: int, x: int, y: int, width: int, height: int)
    requires
        valid_grid(width, height),
        0 <= x < width,
        0 <= y < height,
        field.len() == width * height,
        forall|i: int| 0 <= i < field.len() ==> field[i] == c,
    ensures
        laplacian_of(field, x, y, width, height) == 0,
{
    let st = stencil_of(x, y, width, height);
    let l = prev_on_ring(x, width);
    let r = next_on_ring(x, width);
    let u = prev_on_ring(y, height);
    let d = next_on_ring(y, height);
    lemma_index_in_range(x, y, width, height);
    lemma_index_in_range(l, y, width, height);
    lemma_index_in_range(r, y, width, height);
    lemma_index_in_range(x, u, width, height);
    lemma_index_in_range(x, d, width, height);
}

} // verus!
