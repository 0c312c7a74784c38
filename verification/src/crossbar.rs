//! Row-major layout, shape checks and change counter of a square memristor crossbar.
//!
//! A crossbar of side `n` stores its `n²` cells row-major: cell `(row, col)` lives at
//! index `row * n + col`. Every programming or read operation first checks its
//! coordinates or its driver vectors against the side; those checks, and the
//! counter that records changes of the conductance matrix, are the logic kept here.

use vstd::prelude::*;
use vstd::arithmetic::div_mod::{
    lemma_add_mod_noop, lemma_fundamental_div_mod_converse, lemma_mod_self_0, lemma_small_mod,
};
use vstd::arithmetic::mul::{lemma_mul_inequality, lemma_mul_is_distributive_add_other_way};

verus! {

/// Errors when reading or programming a crossbar.
#[derive(Debug, Clone, Copy, PartialEq, Eq, Structural)]
pub enum CrossbarError {
    /// A driver or input vector does not have the crossbar's side as its length.
    InvalidInputLen { expected: usize, got: usize },
    /// A cell coordinate lies outside the crossbar.
    OutOfBounds { row: usize, col: usize, size: usize },
}

/// The shape of a square crossbar: its side `n`, with `n²` cells stored row-major.
#[derive(Debug, Clone, Copy)]
pub struct CrossbarLayout {
    size: usize,
}

/// Cell `(row, col)` of a crossbar of side `n` sits at `row * n + col`, inside
/// `0 .. n²`, and the index gives the coordinates back: row by division, column
/// by remainder.
pub proof fn lemma_row_major_index(n: nat, row: nat, col: nat)
    requires
        row < n,
        col < n,
    ensures
        row * n + col < n * n,
        (row * n + col) / n == row,
        (row * n + col) % n == col,
{
    lemma_fundamental_div_mod_converse((row * n + col) as int, n as int, row as int, col as int);
    lemma_mul_inequality(row as int + 1, n as int, n as int);
    lemma_mul_is_distributive_add_other_way(n as int, row as int, 1);
}

/// Two distinct cells of a crossbar never share a storage index.
pub proof fn lemma_row_major_index_injective(n: nat, r1: nat, c1: nat, r2: nat, c2: nat)
    requires
        r1 < n,
        c1 < n,
        r2 < n,
        c2 < n,
        r1 * n + c1 == r2 * n + c2,
    ensures
        r1 == r2,
        c1 == c2,
{
    lemma_row_major_index(n, r1, c1);
    lemma_row_major_index(n, r2, c2);
}

impl CrossbarLayout {
    #[verifier::type_invariant]
    spec fn cells_fit(self) -> bool {
        self.size * self.size <= usize::MAX
    }

    /// The side `n` of the crossbar.
    pub closed spec fn side(self) -> nat {
        self.size as nat
    }

    /// The number of cells, `n²`.
    pub open spec fn cell_count(self) -> nat {
        self.side() * self.side()
    }

    /// Whether `(row, col)` names a cell of the crossbar.
    pub open spec fn in_bounds(self, row: int, col: int) -> bool {
        0 <= row < self.side() && 0 <= col < self.side()
    }

    /// The storage index of cell `(row, col)`.
    pub open spec fn index_of(self, row: int, col: int) -> int {
        row * self.side() + col
    }

    /// A crossbar of side `size`; its `size²` cells must be countable in a `usize`.
    pub fn new(size: usize) -> (layout: Self)
        requires
            size * size <= usize::MAX,
        ensures
            layout.side() == size,
    {
        CrossbarLayout { size }
    }

    /// The side `n` of the crossbar.
    pub fn len(&self) -> (n: usize)
        ensures
            n == self.side(),
    {
        self.size
    }

    /// The number of cells, `n²`.
    pub fn cell_count_exec(&self) -> (count: usize)
        ensures
            count == self.cell_count(),
    {
        proof {
            use_type_invariant(self);
        }
        self.size * self.size
    }

    /// The storage index of cell `(row, col)`, or `OutOfBounds` when either
    /// coordinate is not below the side.
    pub fn index_checked(&self, row: usize, col: usize) -> (r: Result<usize, CrossbarError>)
        ensures
            match r {
                Ok(idx) => {
                    &&& self.in_bounds(row as int, col as int)
                    &&& idx == self.index_of(row as int, col as int)
                    &&& idx < self.cell_count()
                },
                Err(e) => {
                    &&& !self.in_bounds(row as int, col as int)
                    &&& e == CrossbarError::OutOfBounds { row, col, size: self.side() as usize }
                },
            },
    {
        proof {
            use_type_invariant(self);
        }
        if row >= self.size || col >= self.size {
            return Err(CrossbarError::OutOfBounds { row, col, size: self.size });
        }
        proof {
            lemma_row_major_index(self.size as nat, row as nat, col as nat);
        }
        Ok(row * self.size + col)
    }

    /// Checks a row-driver and a column-driver vector: each must have the side
    /// as its length; the row vector is checked first.
    pub fn validate_pair(&self, row_len: usize, col_len: usize) -> (r: Result<(), CrossbarError>)
        ensures
            r == (if row_len != self.side() {
                Err(CrossbarError::InvalidInputLen { expected: self.side() as usize, got: row_len })
            } else if col_len != self.side() {
                Err(CrossbarError::InvalidInputLen { expected: self.side() as usize, got: col_len })
            } else {
                Ok(())
            }),
    {
        if row_len != self.size {
            return Err(CrossbarError::InvalidInputLen { expected: self.size, got: row_len });
        }
        if col_len != self.size {
            return Err(CrossbarError::InvalidInputLen { expected: self.size, got: col_len });
        }
        Ok(())
    }

    /// Checks the input vector of a read (`forward`, `forward_cascade`).
    pub fn validate_input_len(&self, input_len: usize) -> (r: Result<(), CrossbarError>)
        ensures
            r == (if input_len != self.side() {
                Err(CrossbarError::InvalidInputLen { expected: self.side() as usize, got: input_len })
            } else {
                Ok(())
            }),
    {
        if input_len != self.size {
            return Err(CrossbarError::InvalidInputLen { expected: self.size, got: input_len });
        }
        Ok(())
    }

    /// Checks the input and output buffers of `forward_into`: the input first,
    /// then the output.
    pub fn validate_io_len(&self, input_len: usize, output_len: usize) -> (r: Result<
        (),
        CrossbarError,
    >)
        ensures
            r == (if input_len != self.side() {
                Err(CrossbarError::InvalidInputLen { expected: self.side() as usize, got: input_len })
            } else if output_len != self.side() {
                Err(CrossbarError::InvalidInputLen { expected: self.side() as usize, got: output_len })
            } else {
                Ok(())
            }),
    {
        if input_len != self.size {
            return Err(CrossbarError::InvalidInputLen { expected: self.size, got: input_len });
        }
        if output_len != self.size {
            return Err(CrossbarError::InvalidInputLen { expected: self.size, got: output_len });
        }
        Ok(())
    }

    /// Checks the buffers of `forward_cascade_into`. Both must have the side as
    /// their length; the error reports the longer of the two when `depth == 0`,
    /// and the input's length otherwise.
    pub fn validate_cascade_io_len(&self, input_len: usize, depth: usize, output_len: usize) -> (r:
        Result<(), CrossbarError>)
        ensures
            r == (if input_len != self.side() || output_len != self.side() {
                Err(
                    CrossbarError::InvalidInputLen {
                        expected: self.side() as usize,
                        got: if depth == 0 && output_len > input_len {
                            output_len
                        } else {
                            input_len
                        },
                    },
                )
            } else {
                Ok(())
            }),
    {
        if input_len != self.size || output_len != self.size {
            let got = if depth == 0 && output_len > input_len {
                output_len
            } else {
                input_len
            };
            return Err(CrossbarError::InvalidInputLen { expected: self.size, got });
        }
        Ok(())
    }

    /// Whether the row/column drivers select the junction `(i, j)`: both
    /// drivers have the same non-zero length `m`, and `i, j < m`.
    pub fn junction_in_range(row_len: usize, col_len: usize, i: usize, j: usize) -> (b: bool)
        ensures
            b == (row_len != 0 && col_len == row_len && i < row_len && j < row_len),
    {
        !(row_len == 0 || col_len != row_len || i >= row_len || j >= row_len)
    }
}

/// Counts changes of a crossbar's conductance matrix, so that a copy of the
/// matrix (on a GPU, say) can tell whether it is stale.
#[derive(Debug, Clone, Copy)]
pub struct ConductanceEpoch {
    value: u64,
}

impl View for ConductanceEpoch {
    type V = u64;

    closed spec fn view(&self) -> u64 {
        self.value
    }
}

/// The successor of an epoch, wrapping from `u64::MAX` to `0`.
pub open spec fn next_epoch(e: u64) -> u64 {
    if e == u64::MAX {
        0
    } else {
        (e + 1) as u64
    }
}

/// Bumping an epoch always yields a different value, so a copy tagged with the
/// old epoch is recognised as stale; it adds one modulo 2^64.
pub proof fn lemma_bump_changes_epoch(e: u64)
    ensures
        next_epoch(e) != e,
        next_epoch(e) as int == (e as int + 1) % 0x1_0000_0000_0000_0000,
        e < u64::MAX ==> next_epoch(e) == e + 1,
{
}

/// The epoch after `k` bumps from `e`.
pub open spec fn bumped(e: u64, k: nat) -> u64
    decreases k,
{
    if k == 0 {
        e
    } else {
        next_epoch(bumped(e, (k - 1) as nat))
    }
}

/// `k` bumps add `k` modulo 2^64, so an epoch does not recur before 2^64
/// changes: a GPU copy tagged with an epoch is stale after any smaller
/// positive number of changes.
pub proof fn lemma_epoch_does_not_recur(e: u64, k: nat)
    ensures
        bumped(e, k) as int == (e as int + k) % 0x1_0000_0000_0000_0000,
        0 < k < 0x1_0000_0000_0000_0000 ==> bumped(e, k) != e,
    decreases k,
{
    let m: int = 0x1_0000_0000_0000_0000;
    if k > 0 {
        lemma_epoch_does_not_recur(e, (k - 1) as nat);
        let a = bumped(e, (k - 1) as nat);
        lemma_add_mod_noop(e as int + k - 1, 1, m);
        lemma_small_mod(1, m as nat);
        lemma_small_mod(a as nat, m as nat);
        if a == u64::MAX {
            lemma_mod_self_0(m);
        } else {
            lemma_small_mod((a + 1) as nat, m as nat);
        }
    }
    if 0 < k < m {
        lemma_small_mod(e as nat, m as nat);
        lemma_partial_turn_moves(e as int, k as int, m);
    }
}

proof fn lemma_partial_turn_moves(e: int, k: int, m: int)
    requires
        0 <= e < m,
        0 < k < m,
    ensures
        (e + k) % m != e,
{
    if e + k < m {
        lemma_small_mod((e + k) as nat, m as nat);
    } else {
        lemma_fundamental_div_mod_converse(e + k, m, 1, e + k - m);
    }
}

impl ConductanceEpoch {
    /// The epoch of a freshly built crossbar.
    pub fn new() -> (e: Self)
        ensures
            e@ == 1,
    {
        ConductanceEpoch { value: 1 }
    }

    /// The current epoch.
    pub fn value(&self) -> (v: u64)
        ensures
            v == self@,
    {
        self.value
    }

    /// Records one change of the conductance matrix: adds one modulo 2^64.
    pub fn bump(&mut self)
        ensures
            final(self)@ == next_epoch(old(self)@),
            final(self)@ as int == (old(self)@ as int + 1) % 0x1_0000_0000_0000_0000,
    {
        self.value = self.value.wrapping_add(1);
    }
}

} // verus!
