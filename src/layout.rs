//! How matrices are laid out in the output record: column by column.
use vstd::prelude::*;
use vstd::arithmetic::div_mod::lemma_fundamental_div_mod_converse;

verus! {

/// Every row has `ncols` entries.
pub open spec fn is_matrix<T>(rows: Seq<Vec<T>>, ncols: int) -> bool {
    forall|i: int| 0 <= i < rows.len() ==> (#[trigger] rows[i])@.len() == ncols
}

/// Flattens a matrix given as rows into one sequence, column after column:
/// entry (i, j) of an `n`-row matrix lands at position `j·n + i`.
pub fn column_major<T: Copy>(rows: &Vec<Vec<T>>, ncols: usize) -> (r: Vec<T>)
    requires
        is_matrix(rows@, ncols as int),
        rows@.len() * ncols <= usize::MAX,
    ensures
        r@.len() == rows@.len() * ncols,
        forall|i: int, j: int|
            0 <= i < rows@.len() && 0 <= j < ncols ==> r@[j * rows@.len() + i]
                == #[trigger] rows@[i]@[j],
{
    let nrows = rows.len();
    let ghost n = nrows as int;
    let mut r: Vec<T> = Vec::new();
    let mut j: usize = 0;
    while j < ncols
        invariant
            nrows == rows@.len(),
            n == nrows as int,
            is_matrix(rows@, ncols as int),
            nrows * ncols <= usize::MAX,
            j <= ncols,
            r@.len() == j * n,
            forall|k: int| 0 <= k < r@.len() ==> #[trigger] r@[k] == rows@[k % n]@[k / n],
        decreases ncols - j,
    {
        let mut i: usize = 0;
        while i < nrows
            invariant
                nrows == rows@.len(),
                n == nrows as int,
                is_matrix(rows@, ncols as int),
                nrows * ncols <= usize::MAX,
                j < ncols,
                i <= nrows,
                r@.len() == j * n + i,
                forall|k: int| 0 <= k < r@.len() ==> #[trigger] r@[k] == rows@[k % n]@[k / n],
            decreases nrows - i,
        {
            proof {
                lemma_fundamental_div_mod_converse(j * n + i, n, j as int, i as int);
                assert(j * n + i < nrows * ncols) by (nonlinear_arith)
                    requires
                        i < nrows,
                        j < ncols,
                        n == nrows,
                ;
            }
            r.push(rows[i][j]);
            i = i + 1;
        }
        proof {
            assert((j + 1) * n == j * n + n) by (nonlinear_arith);
        }
        j = j + 1;
    }
    proof {
        assert forall|i: int, j: int|
            0 <= i < rows@.len() && 0 <= j < ncols implies r@[j * rows@.len() + i]
                == #[trigger] rows@[i]@[j] by {
            lemma_fundamental_div_mod_converse(j * n + i, n, j, i);
            assert(j * n + i < ncols * n) by (nonlinear_arith)
                requires
                    0 <= i < n,
                    0 <= j < ncols,
            ;
        }
    }
    r
}

} // verus!
