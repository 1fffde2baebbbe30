use vstd::prelude::*;

verus! {

/// Side length, in cells, of the palette and of every frame.
pub const GRID: usize = 16;

/// Position of cell `(x, y)` in a grid stored column by column.
pub open spec fn cell_index(x: int, y: int) -> int {
    x * 16 + y
}

/// No row of `m` is shorter than the first one.
pub open spec fn rows_cover_first<T>(m: Seq<Vec<T>>) -> bool {
    forall|r: int| 0 <= r < m.len() ==> (#[trigger] m[r])@.len() >= m[0]@.len()
}

/// Swaps rows and columns: `r[c][w]` is a clone of `matrix[w][c]`, for as many columns
/// as the first row has. A matrix with no rows, or whose first row is empty, gives an
/// empty one.
pub fn transpose<T: Clone>(matrix: Vec<Vec<T>>) -> (r: Vec<Vec<T>>)
    requires
        rows_cover_first(matrix@),
    ensures
        matrix@.len() == 0 || matrix@[0]@.len() == 0 ==> r@.len() == 0,
        matrix@.len() > 0 && matrix@[0]@.len() > 0 ==> {
            &&& r@.len() == matrix@[0]@.len()
            &&& forall|c: int| 0 <= c < r@.len() ==> (#[trigger] r@[c])@.len() == matrix@.len()
            &&& forall|c: int, w: int|
                0 <= c < r@.len() && 0 <= w < matrix@.len() ==> cloned(
                    matrix@[w]@[c],
                    #[trigger] r@[c]@[w],
                )
        },
{
    if matrix.len() == 0 || matrix[0].len() == 0 {
        return Vec::new();
    }
    let row_len = matrix.len();
    let col_len = matrix[0].len();
    let mut out: Vec<Vec<T>> = Vec::with_capacity(col_len);
    let mut col: usize = 0;
    while col < col_len
        invariant
            rows_cover_first(matrix@),
            row_len == matrix@.len(),
            row_len > 0,
            col_len == matrix@[0]@.len(),
            col <= col_len,
            out@.len() == col,
            forall|c: int| 0 <= c < col ==> (#[trigger] out@[c])@.len() == row_len,
            forall|c: int, w: int|
                0 <= c < col && 0 <= w < row_len ==> cloned(matrix@[w]@[c], #[trigger] out@[c]@[w]),
        decreases col_len - col,
    {
        let mut line: Vec<T> = Vec::with_capacity(row_len);
        let mut row: usize = 0;
        while row < row_len
            invariant
                rows_cover_first(matrix@),
                row_len == matrix@.len(),
                col < col_len,
                col_len == matrix@[0]@.len(),
                row <= row_len,
                line@.len() == row,
                forall|w: int| 0 <= w < row ==> cloned(matrix@[w]@[col as int], #[trigger] line@[w]),
            decreases row_len - row,
        {
            assert(matrix@[row as int]@.len() >= col_len);
            line.push(matrix[row][col].clone());
            row = row + 1;
        }
        out.push(line);
        col = col + 1;
    }
    out
}

} // verus!
