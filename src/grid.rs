//! Row-major placement of an ordered button list on a fixed-column grid.

use vstd::arithmetic::div_mod::{lemma_fundamental_div_mod, lemma_fundamental_div_mod_converse};
use vstd::prelude::*;

verus! {

/// Where one button of the layout lands on the grid.
#[derive(Clone, Copy, Debug, PartialEq, Eq, Structural)]
pub struct Placement {
    pub index: usize,
    pub row: usize,
    pub column: usize,
}

/// Row of the button at position `i` of the layout.
pub open spec fn row_of(i: int, columns_per_row: int) -> int {
    i / columns_per_row
}

/// Column of the button at position `i` of the layout.
pub open spec fn column_of(i: int, columns_per_row: int) -> int {
    i % columns_per_row
}

/// Number of rows needed for `count` buttons: the ceiling of the quotient.
pub open spec fn rows_needed(count: int, columns_per_row: int) -> int {
    if count % columns_per_row == 0 {
        count / columns_per_row
    } else {
        count / columns_per_row + 1
    }
}

/// Number of buttons in the last row of a grid of `count` buttons.
pub open spec fn last_row_len(count: int, columns_per_row: int) -> int {
    count - (rows_needed(count, columns_per_row) - 1) * columns_per_row
}

/// Some button of a grid of `count` buttons lands in row `r`.
pub open spec fn row_occupied(count: int, columns_per_row: int, r: int) -> bool {
    exists|i: int| 0 <= i < count && #[trigger] row_of(i, columns_per_row) == r
}

proof fn lemma_cell_of(i: int, c: int)
    requires
        c >= 1,
        i >= 0,
    ensures
        i == c * row_of(i, c) + column_of(i, c),
        0 <= column_of(i, c) < c,
        0 <= row_of(i, c),
{
    lemma_fundamental_div_mod(i, c);
    assert(0 <= row_of(i, c)) by (nonlinear_arith)
        requires i == c * row_of(i, c) + column_of(i, c), 0 <= column_of(i, c) < c, i >= 0, c >= 1;
}

proof fn lemma_rows_needed(count: int, c: int)
    requires
        c >= 1,
        count >= 0,
    ensures
        (rows_needed(count, c) - 1) * c < count || count == 0,
        count <= rows_needed(count, c) * c,
        rows_needed(count, c) >= 0,
        count > 0 ==> rows_needed(count, c) >= 1,
{
    lemma_cell_of(count, c);
    let q = count / c;
    let m = count % c;
    if m == 0 {
        assert(count == q * c) by (nonlinear_arith)
            requires count == c * q + m, m == 0;
        if count > 0 {
            assert(q >= 1) by (nonlinear_arith)
                requires count == q * c, count > 0, c >= 1, q >= 0;
            assert((q - 1) * c < count) by (nonlinear_arith)
                requires count == q * c, c >= 1;
        }
    } else {
        assert(q * c < count) by (nonlinear_arith)
            requires count == c * q + m, m > 0;
        assert(count <= (q + 1) * c) by (nonlinear_arith)
            requires count == c * q + m, m < c;
    }
}

/// Row-major placement gives each of the `count` buttons a cell of its own,
/// uses exactly the rows `0 .. rows_needed(count) - 1` with none left empty,
/// and puts between one and `columns_per_row` buttons in the last row: those
/// from position `(rows_needed(count) - 1) * columns_per_row` on.
pub proof fn lemma_placement_cells(count: int, columns_per_row: int)
    requires
        columns_per_row >= 1,
        count >= 0,
    ensures
        forall|i: int, j: int|
            0 <= i < count && 0 <= j < count && i != j ==> row_of(i, columns_per_row) != row_of(
                j,
                columns_per_row,
            ) || column_of(i, columns_per_row) != column_of(j, columns_per_row),
        forall|i: int|
            0 <= i < count ==> 0 <= #[trigger] row_of(i, columns_per_row) < rows_needed(
                count,
                columns_per_row,
            ) && 0 <= column_of(i, columns_per_row) < columns_per_row,
        forall|r: int|
            0 <= r < rows_needed(count, columns_per_row) ==> #[trigger] row_occupied(
                count,
                columns_per_row,
                r,
            ),
        forall|i: int|
            0 <= i < count ==> (#[trigger] row_of(i, columns_per_row) == rows_needed(
                count,
                columns_per_row,
            ) - 1 <==> (rows_needed(count, columns_per_row) - 1) * columns_per_row <= i),
        count > 0 ==> 1 <= last_row_len(count, columns_per_row) <= columns_per_row,
{
    let c = columns_per_row;
    let n = rows_needed(count, c);
    lemma_rows_needed(count, c);
    assert forall|i: int, j: int|
        0 <= i < count && 0 <= j < count && i != j implies row_of(i, c) != row_of(j, c)
            || column_of(i, c) != column_of(j, c) by {
        lemma_cell_of(i, c);
        lemma_cell_of(j, c);
    }
    assert forall|i: int| 0 <= i < count implies 0 <= #[trigger] row_of(i, c) < n && 0 <= column_of(
        i,
        c,
    ) < c by {
        lemma_cell_of(i, c);
        let q = row_of(i, c);
        assert(q < n) by (nonlinear_arith)
            requires i == c * q + column_of(i, c), 0 <= column_of(i, c), i < count, count <= n * c, c >= 1;
    }
    assert forall|r: int| 0 <= r < n implies #[trigger] row_occupied(count, c, r) by {
        lemma_fundamental_div_mod_converse(r * c, c, r, 0);
        assert(r * c < count) by (nonlinear_arith)
            requires r <= n - 1, (n - 1) * c < count, c >= 1;
        assert(0 <= r * c) by (nonlinear_arith)
            requires r >= 0, c >= 1;
        assert(row_of(r * c, c) == r);
    }
    assert forall|i: int| 0 <= i < count implies (#[trigger] row_of(i, c) == n - 1 <==> (n - 1)
        * c <= i) by {
        lemma_cell_of(i, c);
        let q = row_of(i, c);
        let m = column_of(i, c);
        if q == n - 1 {
            assert((n - 1) * c <= i) by (nonlinear_arith)
                requires i == c * q + m, m >= 0, q == n - 1;
        }
        if (n - 1) * c <= i {
            assert(q >= n - 1) by (nonlinear_arith)
                requires i == c * q + m, m < c, (n - 1) * c <= i, c >= 1;
            assert(q < n) by (nonlinear_arith)
                requires i == c * q + m, 0 <= m, i < count, count <= n * c, c >= 1;
        }
    }
    if count > 0 {
        assert(last_row_len(count, c) <= c) by (nonlinear_arith)
            requires count <= n * c, last_row_len(count, c) == count - (n - 1) * c;
    }
}

/// Number of rows the grid takes; a partial last row counts as one.
pub fn row_count(count: usize, columns_per_row: u32) -> (r: usize)
    requires
        columns_per_row >= 1,
    ensures
        r == rows_needed(count as int, columns_per_row as int),
{
    let c = columns_per_row as usize;
    let q = count / c;
    if count % c == 0 {
        q
    } else {
        proof {
            assert(q * c <= count) by (nonlinear_arith)
                requires q == count / c, c >= 1;
            assert(q < count) by (nonlinear_arith)
                requires q * c <= count, count % c != 0, c >= 1, q == count / c;
        }
        q + 1
    }
}

/// Assigns the button at position `i` to row `i / columns_per_row` and
/// column `i % columns_per_row`, in layout order; no button is dropped.
pub fn place(count: usize, columns_per_row: u32) -> (r: Vec<Placement>)
    requires
        columns_per_row >= 1,
    ensures
        r@.len() == count,
        forall|i: int|
            0 <= i < count ==> (#[trigger] r@[i]) == (Placement {
                index: i as usize,
                row: row_of(i, columns_per_row as int) as usize,
                column: column_of(i, columns_per_row as int) as usize,
            }),
{
    let c = columns_per_row as usize;
    let mut r: Vec<Placement> = Vec::new();
    let mut i: usize = 0;
    while i < count
        invariant
            c == columns_per_row as usize,
            c >= 1,
            i <= count,
            r@.len() == i,
            forall|k: int|
                0 <= k < i ==> (#[trigger] r@[k]) == (Placement {
                    index: k as usize,
                    row: row_of(k, c as int) as usize,
                    column: column_of(k, c as int) as usize,
                }),
        decreases count - i,
    {
        r.push(Placement { index: i, row: i / c, column: i % c });
        i = i + 1;
    }
    r
}

} // verus!
