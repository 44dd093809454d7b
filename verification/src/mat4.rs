//! Homogeneous 4x4 matrices.
use vstd::prelude::*;
use vstd::std_specs::cmp::PartialEqSpecImpl;
use crate::compare::{answer, rich_answer, CompareOp};
use crate::error::{GeometryError, Position};
use crate::index::{front_offset, resolve_front};
use crate::scalar::{Scalar, ONE_BITS};
use crate::vec3::Vector3;

verus! {

/// A row of a matrix.
pub type Row = (Scalar, Scalar, Scalar, Scalar);

/// A matrix of four rows and four columns. Any sixteen scalars make a
/// matrix: the last row need not be that of an affine map.
#[derive(Clone, Copy, Debug)]
pub struct Matrix4 {
    /// The entries, row by row.
    pub rows: [[Scalar; 4]; 4],
}

/// What a matrix is indexed with: the number of a row, or the numbers of a
/// row and a column.
#[derive(Clone, Copy, Debug, PartialEq, Eq)]
pub enum MatrixIndex {
    Row(isize),
    Entry(isize, isize),
}

/// What indexing a matrix gives: a whole row, or one entry.
#[derive(Clone, Copy, Debug, PartialEq)]
pub enum MatrixItem {
    Row(Row),
    Entry(Scalar),
}

impl Matrix4 {
    /// The entry in row `i` and column `j`.
    pub open spec fn at(self, i: int, j: int) -> Scalar {
        self.rows[i][j]
    }

    /// Row `i` as a tuple.
    pub open spec fn row_at(self, i: int) -> Row {
        (self.at(i, 0), self.at(i, 1), self.at(i, 2), self.at(i, 3))
    }

    /// The entry of the identity matrix in row `i` and column `j`.
    pub open spec fn identity_entry(i: int, j: int) -> Scalar {
        if i == j {
            Scalar { bits: ONE_BITS }
        } else {
            Scalar { bits: 0 }
        }
    }

    /// Entry by entry numeric equality.
    pub open spec fn same_matrix(self, other: Matrix4) -> bool {
        forall|i: int, j: int|
            0 <= i < 4 && 0 <= j < 4 ==> (#[trigger] self.at(i, j)).same_number(other.at(i, j))
    }

    /// `self` is the transpose of `other`: rows and columns are exchanged.
    pub open spec fn is_transpose_of(self, other: Matrix4) -> bool {
        forall|i: int, j: int|
            0 <= i < 4 && 0 <= j < 4 ==> #[trigger] self.at(i, j) == other.at(j, i)
    }

    /// The translation that the matrix holds: the first three entries of
    /// the last column.
    pub open spec fn translation(self) -> Vector3 {
        Vector3 { x: self.at(0, 3), y: self.at(1, 3), z: self.at(2, 3) }
    }

    /// The matrix with ones on the diagonal and zeros elsewhere.
    pub fn identity() -> (m: Matrix4)
        ensures
            forall|i: int, j: int|
                0 <= i < 4 && 0 <= j < 4 ==> #[trigger] m.at(i, j) == Self::identity_entry(i, j),
    {
        let o = Scalar::one();
        let z = Scalar::zero();
        Matrix4 { rows: [[o, z, z, z], [z, o, z, z], [z, z, o, z], [z, z, z, o]] }
    }

    /// The matrix that moves every point by `v`: the identity with `v` in
    /// the first three rows of the last column.
    pub fn from_translation(v: &Vector3) -> (m: Matrix4)
        ensures
            m.translation() == *v,
            forall|i: int, j: int|
                0 <= i < 4 && 0 <= j < 4 && !(i < 3 && j == 3) ==> #[trigger] m.at(i, j)
                    == Self::identity_entry(i, j),
    {
        let o = Scalar::one();
        let z = Scalar::zero();
        Matrix4 { rows: [[o, z, z, v.x], [z, o, z, v.y], [z, z, o, v.z], [z, z, z, o]] }
    }

    /// The number of rows.
    pub fn len() -> (n: usize)
        ensures
            n == 4,
    {
        4
    }

    /// The entry in row `i` and column `j`. Both count from zero, and
    /// neither counts from the end: a pair with a number outside `[0, 4)`
    /// is out of range.
    pub fn entry(&self, i: isize, j: isize) -> (r: Result<Scalar, GeometryError>)
        ensures
            match (front_offset(i as int, 4), front_offset(j as int, 4)) {
                (Some(a), Some(b)) => r == Ok::<Scalar, GeometryError>(self.at(a, b)),
                _ => r == Err::<Scalar, GeometryError>(
                    GeometryError::IndexOutOfRange(Position::Pair(i, j)),
                ),
            },
    {
        match (resolve_front(i, 4), resolve_front(j, 4)) {
            (Some(a), Some(b)) => Ok(self.rows[a][b]),
            _ => Err(GeometryError::IndexOutOfRange(Position::Pair(i, j))),
        }
    }

    /// Row `i`, counted from zero and not from the end: a number outside
    /// `[0, 4)` is out of range.
    pub fn row(&self, i: isize) -> (r: Result<Row, GeometryError>)
        ensures
            match front_offset(i as int, 4) {
                Some(a) => r == Ok::<Row, GeometryError>(self.row_at(a)),
                None => r == Err::<Row, GeometryError>(
                    GeometryError::IndexOutOfRange(Position::Single(i)),
                ),
            },
    {
        match resolve_front(i, 4) {
            Some(a) => Ok((self.rows[a][0], self.rows[a][1], self.rows[a][2], self.rows[a][3])),
            None => Err(GeometryError::IndexOutOfRange(Position::Single(i))),
        }
    }

    /// Indexes the matrix by a row number or by a row and column pair.
    pub fn get_item(&self, idx: MatrixIndex) -> (r: Result<MatrixItem, GeometryError>)
        ensures
            match idx {
                MatrixIndex::Row(i) => match front_offset(i as int, 4) {
                    Some(a) => r == Ok::<MatrixItem, GeometryError>(
                        MatrixItem::Row(self.row_at(a)),
                    ),
                    None => r == Err::<MatrixItem, GeometryError>(
                        GeometryError::IndexOutOfRange(Position::Single(i)),
                    ),
                },
                MatrixIndex::Entry(i, j) => match (
                    front_offset(i as int, 4),
                    front_offset(j as int, 4),
                ) {
                    (Some(a), Some(b)) => r == Ok::<MatrixItem, GeometryError>(
                        MatrixItem::Entry(self.at(a, b)),
                    ),
                    _ => r == Err::<MatrixItem, GeometryError>(
                        GeometryError::IndexOutOfRange(Position::Pair(i, j)),
                    ),
                },
            },
    {
        match idx {
            MatrixIndex::Row(i) => match self.row(i) {
                Ok(row) => Ok(MatrixItem::Row(row)),
                Err(e) => Err(e),
            },
            MatrixIndex::Entry(i, j) => match self.entry(i, j) {
                Ok(s) => Ok(MatrixItem::Entry(s)),
                Err(e) => Err(e),
            },
        }
    }

    /// Replaces the entry in row `i` and column `j`. A pair with a number
    /// outside `[0, 4)` is out of range, and the matrix then stays as it
    /// was.
    pub fn set_item(&mut self, idx: (isize, isize), value: Scalar) -> (r: Result<
        (),
        GeometryError,
    >)
        ensures
            match (front_offset(idx.0 as int, 4), front_offset(idx.1 as int, 4)) {
                (Some(a), Some(b)) => {
                    &&& r == Ok::<(), GeometryError>(())
                    &&& forall|i: int, j: int|
                        0 <= i < 4 && 0 <= j < 4 ==> #[trigger] final(self).at(i, j) == (if i == a
                            && j == b {
                            value
                        } else {
                            old(self).at(i, j)
                        })
                },
                _ => r == Err::<(), GeometryError>(
                    GeometryError::IndexOutOfRange(Position::Pair(idx.0, idx.1)),
                ) && *final(self) == *old(self),
            },
    {
        match (resolve_front(idx.0, 4), resolve_front(idx.1, 4)) {
            (Some(a), Some(b)) => {
                self.rows[a][b] = value;
                Ok(())
            },
            _ => Err(GeometryError::IndexOutOfRange(Position::Pair(idx.0, idx.1))),
        }
    }

    /// Answers `==` and `!=` by entrywise numeric equality; the other
    /// operators have no answer.
    pub fn rich_compare(&self, other: &Matrix4, op: CompareOp) -> (r: Option<bool>)
        ensures
            r == rich_answer(self.same_matrix(*other), op),
    {
        answer(*self == *other, op)
    }

    /// The transpose: rows and columns exchanged.
    pub fn transposed(&self) -> (t: Matrix4)
        ensures
            t.is_transpose_of(*self),
    {
        let r = &self.rows;
        Matrix4 {
            rows: [
                [r[0][0], r[1][0], r[2][0], r[3][0]],
                [r[0][1], r[1][1], r[2][1], r[3][1]],
                [r[0][2], r[1][2], r[2][2], r[3][2]],
                [r[0][3], r[1][3], r[2][3], r[3][3]],
            ],
        }
    }

    /// The translation that the matrix holds.
    pub fn get_translation(&self) -> (v: Vector3)
        ensures
            v == self.translation(),
    {
        Vector3 { x: self.rows[0][3], y: self.rows[1][3], z: self.rows[2][3] }
    }

    /// Replaces the translation that the matrix holds, and nothing else.
    pub fn set_translation(&mut self, v: &Vector3)
        ensures
            final(self).translation() == *v,
            forall|i: int, j: int|
                0 <= i < 4 && 0 <= j < 4 && !(i < 3 && j == 3) ==> #[trigger] final(self).at(i, j)
                    == old(self).at(i, j),
    {
        self.rows[0][3] = v.x;
        self.rows[1][3] = v.y;
        self.rows[2][3] = v.z;
    }

    /// The rows as nested tuples.
    pub fn tuple(&self) -> (t: (Row, Row, Row, Row))
        ensures
            t == (self.row_at(0), self.row_at(1), self.row_at(2), self.row_at(3)),
    {
        let r = &self.rows;
        (
            (r[0][0], r[0][1], r[0][2], r[0][3]),
            (r[1][0], r[1][1], r[1][2], r[1][3]),
            (r[2][0], r[2][1], r[2][2], r[2][3]),
            (r[3][0], r[3][1], r[3][2], r[3][3]),
        )
    }

    /// The rows as nested arrays.
    pub fn list(&self) -> (a: [[Scalar; 4]; 4])
        ensures
            a == self.rows,
    {
        self.rows
    }
}

impl PartialEq for Matrix4 {
    /// Entry by entry numeric equality.
    fn eq(&self, other: &Matrix4) -> (r: bool) {
        let mut i: usize = 0;
        while i < 4
            invariant
                i <= 4,
                forall|a: int, b: int|
                    0 <= a < i && 0 <= b < 4 ==> (#[trigger] self.at(a, b)).same_number(
                        other.at(a, b),
                    ),
            decreases 4 - i,
        {
            let mut j: usize = 0;
            while j < 4
                invariant
                    i < 4,
                    j <= 4,
                    forall|a: int, b: int|
                        0 <= a < i && 0 <= b < 4 ==> (#[trigger] self.at(a, b)).same_number(
                            other.at(a, b),
                        ),
                    forall|b: int|
                        0 <= b < j ==> (#[trigger] self.at(i as int, b)).same_number(
                            other.at(i as int, b),
                        ),
                decreases 4 - j,
            {
                if !(self.rows[i][j] == other.rows[i][j]) {
                    assert(!self.at(i as int, j as int).same_number(other.at(i as int, j as int)));
                    return false;
                }
                j = j + 1;
            }
            i = i + 1;
        }
        true
    }
}

impl PartialEqSpecImpl for Matrix4 {
    open spec fn obeys_eq_spec() -> bool {
        true
    }

    open spec fn eq_spec(&self, other: &Matrix4) -> bool {
        self.same_matrix(*other)
    }
}

/// Two matrices with the same sixteen entries are the same matrix.
pub proof fn lemma_matrix_extensional(a: Matrix4, b: Matrix4)
    requires
        forall|i: int, j: int| 0 <= i < 4 && 0 <= j < 4 ==> #[trigger] a.at(i, j) == b.at(i, j),
    ensures
        a == b,
{
    assert forall|i: int| 0 <= i < 4 implies a.rows[i] == b.rows[i] by {
        assert forall|j: int| 0 <= j < 4 implies a.rows[i][j] == b.rows[i][j] by {
            assert(a.at(i, j) == b.at(i, j));
        }
    }
    assert(a.rows =~= b.rows);
}

/// Transposing twice gives back the same matrix.
pub proof fn lemma_transpose_twice(m: Matrix4, t: Matrix4, u: Matrix4)
    requires
        t.is_transpose_of(m),
        u.is_transpose_of(t),
    ensures
        u == m,
{
    assert forall|i: int, j: int| 0 <= i < 4 && 0 <= j < 4 implies #[trigger] u.at(i, j) == m.at(
        i,
        j,
    ) by {
        // Through the middle matrix: there the entry stands in row `j`
        // and column `i`.
        assert(u.at(i, j) == t.at(j, i));
    }
    lemma_matrix_extensional(u, m);
}

/// Equality of matrices is symmetric.
pub proof fn lemma_same_matrix_symmetric(a: Matrix4, b: Matrix4)
    ensures
        a.same_matrix(b) == b.same_matrix(a),
{
    if a.same_matrix(b) {
        assert forall|i: int, j: int| 0 <= i < 4 && 0 <= j < 4 implies (#[trigger] b.at(
            i,
            j,
        )).same_number(a.at(i, j)) by {
            assert(a.at(i, j).same_number(b.at(i, j)));
        }
    }
    if b.same_matrix(a) {
        assert forall|i: int, j: int| 0 <= i < 4 && 0 <= j < 4 implies (#[trigger] a.at(
            i,
            j,
        )).same_number(b.at(i, j)) by {
            assert(b.at(i, j).same_number(a.at(i, j)));
        }
    }
}

} // verus!
