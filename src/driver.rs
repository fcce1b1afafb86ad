//! The simulation driver's decisions: which cells start seeded, and which of
//! the two buffers each iteration reads and writes.

use vstd::prelude::*;
use crate::grid::valid_grid;

verus! {

/// One of the two field buffers that the driver owns.
#[derive(Clone, Copy, Debug, PartialEq, Eq, Structural)]
pub enum Slot {
    /// The buffer that holds the initial, seeded state.
    Primary,
    /// The buffer that the first double-buffered iteration writes.
    Secondary,
}

/// How one iteration updates the field.
#[derive(Clone, Copy, Debug, PartialEq, Eq, Structural)]
pub enum UpdateScheme {
    /// Every cell is computed from one frozen snapshot and written to the
    /// other buffer; the roles swap after each iteration.
    Jacobi,
    /// Cells are updated in place in the primary buffer, so later cells may
    /// read neighbours that this iteration already updated.
    GaussSeidel,
}

impl Slot {
    pub open spec fn spec_other(self) -> Slot {
        match self {
            Slot::Primary => Slot::Secondary,
            Slot::Secondary => Slot::Primary,
        }
    }

    /// The other buffer.
    #[verifier::when_used_as_spec(spec_other)]
    pub fn other(self) -> (r: Slot)
        ensures
            r == self.spec_other(),
            r != self,
    {
        match self {
            Slot::Primary => Slot::Secondary,
            Slot::Secondary => Slot::Primary,
        }
    }
}

/// The buffer that iteration `i` (counted from zero) reads.
pub open spec fn read_slot_of(scheme: UpdateScheme, i: int) -> Slot {
    match scheme {
        UpdateScheme::Jacobi => if i % 2 == 0 { Slot::Primary } else { Slot::Secondary },
        UpdateScheme::GaussSeidel => Slot::Primary,
    }
}

/// The buffer that iteration `i` (counted from zero) writes.
pub open spec fn write_slot_of(scheme: UpdateScheme, i: int) -> Slot {
    match scheme {
        UpdateScheme::Jacobi => read_slot_of(scheme, i).spec_other(),
        UpdateScheme::GaussSeidel => Slot::Primary,
    }
}

/// The buffer that holds the field after `n` iterations: the one written
/// last, or the seeded one when nothing ran.
pub open spec fn result_slot_of(scheme: UpdateScheme, n: int) -> Slot {
    if n == 0 {
        Slot::Primary
    } else {
        write_slot_of(scheme, n - 1)
    }
}

/// The buffer that iteration `iteration` reads.
pub fn read_slot(scheme: UpdateScheme, iteration: usize) -> (r: Slot)
    ensures
        r == read_slot_of(scheme, iteration as int),
{
    match scheme {
        UpdateScheme::Jacobi => if iteration % 2 == 0 {
            Slot::Primary
        } else {
            Slot::Secondary
        },
        UpdateScheme::GaussSeidel => Slot::Primary,
    }
}

/// The buffer that iteration `iteration` writes.
pub fn write_slot(scheme: UpdateScheme, iteration: usize) -> (r: Slot)
    ensures
        r == write_slot_of(scheme, iteration as int),
{
    match scheme {
        UpdateScheme::Jacobi => read_slot(scheme, iteration).other(),
        UpdateScheme::GaussSeidel => Slot::Primary,
    }
}

/// The buffer that holds the final field after `iterations` iterations.
pub fn result_slot(scheme: UpdateScheme, iterations: usize) -> (r: Slot)
    ensures
        r == result_slot_of(scheme, iterations as int),
{
    if iterations == 0 {
        Slot::Primary
    } else {
        write_slot(scheme, iterations - 1)
    }
}

/// Under the Jacobi scheme no iteration reads the buffer it writes, and each
/// iteration reads what the previous one wrote.
pub proof fn lemma_jacobi_ping_pong(i: nat)
    ensures
        read_slot_of(UpdateScheme::Jacobi, i as int) != write_slot_of(UpdateScheme::Jacobi, i as int),
        read_slot_of(UpdateScheme::Jacobi, i + 1 as int) == write_slot_of(UpdateScheme::Jacobi, i as int),
{
}

/// Under the Jacobi scheme an odd number of iterations leaves the result in
/// the secondary buffer, and a positive even number in the primary one.
pub proof fn lemma_jacobi_result_parity(n: nat)
    requires
        n > 0,
    ensures
        result_slot_of(UpdateScheme::Jacobi, n as int) == (if n % 2 == 1 {
            Slot::Secondary
        } else {
            Slot::Primary
        }),
{
}

/// Whether cell offset `i` of a field of the given width lies in the square
/// seed patch of side `patch` at the origin.
pub open spec fn in_seed_patch(i: int, width: int, patch: int) -> bool {
    i % width < patch && i / width < patch
}

/// Which cells of a `width` x `height` field start seeded: those in the
/// square of side `patch` at the origin.
pub fn seed_mask(width: usize, height: usize, patch: usize) -> (r: Vec<bool>)
    requires
        0 < width,
        width * height <= usize::MAX,
    ensures
        r@.len() == width * height,
        forall|i: int| 0 <= i < r@.len() ==> r@[i] == in_seed_patch(i, width as int, patch as int),
{
    let n: usize = width * height;
    let mut mask: Vec<bool> = Vec::with_capacity(n);
    let mut i: usize = 0;
    while i < n
        invariant
            i <= n,
            n == width * height,
            0 < width,
            mask@.len() == i,
            forall|j: int| 0 <= j < i ==> mask@[j] == in_seed_patch(j, width as int, patch as int),
        decreases n - i,
    {
        mask.push(i % width < patch && i / width < patch);
        i = i + 1;
    }
    mask
}

/// Why a run configuration was rejected.
#[derive(Clone, Copy, Debug, PartialEq, Eq, Structural)]
pub enum ConfigError {
    /// The grid has no columns.
    ZeroWidth,
    /// The grid has no rows.
    ZeroHeight,
    /// No iteration would run.
    ZeroIterations,
    /// The grid has more cells than `usize` can count.
    TooManyCells,
    /// The seed patch is wider or taller than the grid.
    PatchTooLarge,
}

/// The integer settings of one run, checked once before the driver starts.
#[derive(Clone, Copy, Debug, PartialEq, Eq, Structural)]
pub struct RunConfig {
    pub width: usize,
    pub height: usize,
    pub iterations: usize,
    /// Side of the square of seeded cells at the origin; zero seeds nothing.
    pub seed_patch: usize,
}

impl RunConfig {
    /// The settings that every later step may assume.
    pub open spec fn wf(self) -> bool {
        &&& valid_grid(self.width as int, self.height as int)
        &&& self.iterations > 0
        &&& self.seed_patch <= self.width
        &&& self.seed_patch <= self.height
    }

    /// The error that settings give, checked in this order, if any.
    pub open spec fn error_of(width: int, height: int, iterations: int, seed_patch: int) -> Option<
        ConfigError,
    > {
        if width == 0 {
            Some(ConfigError::ZeroWidth)
        } else if height == 0 {
            Some(ConfigError::ZeroHeight)
        } else if iterations == 0 {
            Some(ConfigError::ZeroIterations)
        } else if width * height > usize::MAX {
            Some(ConfigError::TooManyCells)
        } else if seed_patch > width || seed_patch > height {
            Some(ConfigError::PatchTooLarge)
        } else {
            None
        }
    }

    /// Checks the settings of a run: positive dimensions and iteration
    /// count, a cell count that fits in `usize`, and a seed patch no larger
    /// than the grid.
    pub fn new(width: usize, height: usize, iterations: usize, seed_patch: usize) -> (r: Result<
        RunConfig,
        ConfigError,
    >)
        ensures
            match Self::error_of(width as int, height as int, iterations as int, seed_patch as int) {
                Some(e) => r == Err::<RunConfig, ConfigError>(e),
                None => r == Ok::<RunConfig, ConfigError>(
                    RunConfig { width, height, iterations, seed_patch },
                ),
            },
            r matches Ok(c) ==> c.wf(),
    {
        if width == 0 {
            return Err(ConfigError::ZeroWidth);
        }
        if height == 0 {
            return Err(ConfigError::ZeroHeight);
        }
        if iterations == 0 {
            return Err(ConfigError::ZeroIterations);
        }
        if width > usize::MAX / height {
            proof {
                assert(width * height > usize::MAX) by (nonlinear_arith)
                    requires
                        width > usize::MAX / height,
                        height > 0,
                ;
            }
            return Err(ConfigError::TooManyCells);
        }
        proof {
            assert(width * height <= usize::MAX) by (nonlinear_arith)
                requires
                    width <= usize::MAX / height,
                    height > 0,
            ;
        }
        if seed_patch > width || seed_patch > height {
            return Err(ConfigError::PatchTooLarge);
        }
        Ok(RunConfig { width, height, iterations, seed_patch })
    }

    /// The number of cells of the grid.
    pub fn cells(&self) -> (r: usize)
        requires
            self.wf(),
        ensures
            r == self.width * self.height,
    {
        self.width * self.height
    }
}

} // verus!
