//! The canonical text of a matrix.
//!
//! A matrix is shown as four rows of four entries. Each column is as wide as
//! its widest entry, and shorter entries are padded with spaces on the right,
//! so that the columns line up. The rows after the first are indented by the
//! width of the opening label. The entries arrive already formatted, one
//! string for each.
use vstd::prelude::*;
use vstd::string::{StrSliceExecFns, StringExecFns};

verus! {

/// `s`, followed by as many spaces as it is shorter than `width`.
pub open spec fn padded(s: Seq<char>, width: nat) -> Seq<char> {
    if s.len() >= width {
        s
    } else {
        s + Seq::new((width - s.len()) as nat, |i: int| ' ')
    }
}

/// The larger of two lengths.
pub open spec fn longer(a: nat, b: nat) -> nat {
    if a >= b {
        a
    } else {
        b
    }
}

/// The text of the entry in row `i` and column `j`.
pub open spec fn cell(cells: [[String; 4]; 4], i: int, j: int) -> Seq<char> {
    cells[i][j]@
}

/// The length of the longest entry of column `j`.
pub open spec fn column_width(cells: [[String; 4]; 4], j: int) -> nat {
    longer(
        cell(cells, 0, j).len(),
        longer(cell(cells, 1, j).len(), longer(cell(cells, 2, j).len(), cell(cells, 3, j).len())),
    )
}

/// The entry in row `i` and column `j`, padded to the width of its column.
pub open spec fn aligned(cells: [[String; 4]; 4], i: int, j: int) -> Seq<char> {
    padded(cell(cells, i, j), column_width(cells, j))
}

/// Row `i`: its four aligned entries, separated by a comma and a space.
pub open spec fn row_text(cells: [[String; 4]; 4], i: int) -> Seq<char> {
    aligned(cells, i, 0) + ", "@ + aligned(cells, i, 1) + ", "@ + aligned(cells, i, 2) + ", "@
        + aligned(cells, i, 3)
}

/// The whole text: the label, then the four rows, each but the first on a
/// line of its own that is indented by the width of the label.
pub open spec fn matrix_text(cells: [[String; 4]; 4]) -> Seq<char> {
    "Matrix4<"@ + row_text(cells, 0) + ",\n        "@ + row_text(cells, 1) + ",\n        "@
        + row_text(cells, 2) + ",\n        "@ + row_text(cells, 3) + ">"@
}

/// Pads `s` on the right with spaces to `width` characters. A string that is
/// already that long or longer is returned as it is.
pub fn pad(s: &str, width: usize) -> (r: String)
    ensures
        r@ == padded(s@, width as nat),
{
    let n: usize = s.unicode_len();
    let mut out = String::from_str(s);
    if n >= width {
        return out;
    }
    let mut k: usize = n;
    while k < width
        invariant
            n <= k <= width,
            n == s@.len(),
            out@ == s@ + Seq::new((k - n) as nat, |i: int| ' '),
        decreases width - k,
    {
        proof {
            reveal_strlit(" ");
        }
        out.append(" ");
        k = k + 1;
    }
    out
}

/// The number of characters of the longest entry of column `j`.
fn widest(cells: &[[String; 4]; 4], j: usize) -> (w: usize)
    requires
        j < 4,
    ensures
        w == column_width(*cells, j as int),
{
    let a: usize = cells[0][j].as_str().unicode_len();
    let b: usize = cells[1][j].as_str().unicode_len();
    let c: usize = cells[2][j].as_str().unicode_len();
    let d: usize = cells[3][j].as_str().unicode_len();
    let cd: usize = if c >= d { c } else { d };
    let bcd: usize = if b >= cd { b } else { cd };
    if a >= bcd { a } else { bcd }
}

/// Appends row `i` to `out`, its entries padded to the given column widths.
fn push_row(out: &mut String, cells: &[[String; 4]; 4], i: usize, widths: &[usize; 4])
    requires
        i < 4,
        forall|j: int| 0 <= j < 4 ==> widths[j] == column_width(*cells, j),
    ensures
        final(out)@ == old(out)@ + row_text(*cells, i as int),
{
    let c0 = pad(cells[i][0].as_str(), widths[0]);
    let c1 = pad(cells[i][1].as_str(), widths[1]);
    let c2 = pad(cells[i][2].as_str(), widths[2]);
    let c3 = pad(cells[i][3].as_str(), widths[3]);
    out.append(c0.as_str());
    out.append(", ");
    out.append(c1.as_str());
    out.append(", ");
    out.append(c2.as_str());
    out.append(", ");
    out.append(c3.as_str());
}

/// Lays out the sixteen formatted entries of a matrix as its canonical text.
pub fn render_matrix(cells: &[[String; 4]; 4]) -> (s: String)
    ensures
        s@ == matrix_text(*cells),
{
    let widths: [usize; 4] = [widest(cells, 0), widest(cells, 1), widest(cells, 2), widest(cells, 3)];
    let mut out = String::from_str("Matrix4<");
    push_row(&mut out, cells, 0, &widths);
    out.append(",\n        ");
    push_row(&mut out, cells, 1, &widths);
    out.append(",\n        ");
    push_row(&mut out, cells, 2, &widths);
    out.append(",\n        ");
    push_row(&mut out, cells, 3, &widths);
    out.append(">");
    out
}

/// A padded string begins with the string itself, goes on with spaces only,
/// and is as long as the longer of the string and the width.
pub proof fn lemma_padded(s: Seq<char>, width: nat)
    ensures
        padded(s, width).len() == longer(s.len(), width),
        padded(s, width).subrange(0, s.len() as int) == s,
        forall|k: int| s.len() <= k < padded(s, width).len() ==> padded(s, width)[k] == ' ',
{
}

/// Every entry, once aligned, is exactly as wide as its column.
pub proof fn lemma_aligned_width(cells: [[String; 4]; 4], i: int, j: int)
    requires
        0 <= i < 4,
        0 <= j < 4,
    ensures
        aligned(cells, i, j).len() == column_width(cells, j),
{
    lemma_padded(cell(cells, i, j), column_width(cells, j));
}

/// Where column `j` begins in every row: after the columns before it and
/// their separators.
pub open spec fn column_start(cells: [[String; 4]; 4], j: int) -> int
    decreases j,
{
    if j <= 0 {
        0
    } else {
        column_start(cells, j - 1) + column_width(cells, j - 1) + 2
    }
}

/// The columns line up: in each of the four rows the entry of column `j`
/// stands at the same place and takes the same width, and so the four rows
/// have the same length.
pub proof fn lemma_rows_line_up(cells: [[String; 4]; 4], i: int, j: int)
    requires
        0 <= i < 4,
        0 <= j < 4,
    ensures
        row_text(cells, i).len() == column_start(cells, 3) + column_width(cells, 3),
        row_text(cells, i).subrange(
            column_start(cells, j),
            column_start(cells, j) + column_width(cells, j),
        ) == aligned(cells, i, j),
{
    reveal_strlit(", ");
    reveal_with_fuel(column_start, 5);
    lemma_aligned_width(cells, i, 0);
    lemma_aligned_width(cells, i, 1);
    lemma_aligned_width(cells, i, 2);
    lemma_aligned_width(cells, i, 3);
}

} // verus!
