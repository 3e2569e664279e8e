use vstd::prelude::*;

verus! {

/// A 3x3 matrix stored as three rows, generic over its entries.
///
/// It holds the layout of a matrix and nothing of arithmetic: products are
/// formed through a caller-supplied dot product of a row with a column.
#[derive(Clone, Copy, Debug, PartialEq)]
pub struct Matrix3<T> {
    pub rows: [[T; 3]; 3],
}

/// Column `j` of `m`, read top to bottom.
pub open spec fn column<T>(m: [[T; 3]; 3], j: int) -> [T; 3] {
    [m[0][j], m[1][j], m[2][j]]
}

/// `t` holds the entries of `m` with rows and columns exchanged.
pub open spec fn is_transpose<T>(t: [[T; 3]; 3], m: [[T; 3]; 3]) -> bool {
    forall|i: int, j: int| 0 <= i < 3 && 0 <= j < 3 ==> #[trigger] t[i][j] == m[j][i]
}

/// Entry `(i, j)` of `r` is a result of `dot` on row `i` of `a` and column
/// `j` of `b`: `r` is the product `a * b` under that dot product.
pub open spec fn is_product<T, F: Fn([T; 3], [T; 3]) -> T>(
    r: [[T; 3]; 3],
    a: [[T; 3]; 3],
    b: [[T; 3]; 3],
    dot: F,
) -> bool {
    forall|i: int, j: int|
        0 <= i < 3 && 0 <= j < 3 ==> call_ensures(dot, (a[i], column(b, j)), #[trigger] r[i][j])
}

/// `f` returns one result for a pair, whichever order the pair is given in.
pub open spec fn is_symmetric<T, F: Fn([T; 3], [T; 3]) -> T>(f: F) -> bool {
    forall|u: [T; 3], v: [T; 3], x: T, y: T|
        #[trigger] call_ensures(f, (u, v), x) && #[trigger] call_ensures(f, (v, u), y) ==> x == y
}

/// `f` may be called on any pair of rows.
pub open spec fn accepts_all_pairs<T, F: Fn([T; 3], [T; 3]) -> T>(f: F) -> bool {
    forall|u: [T; 3], v: [T; 3]| #[trigger] call_requires(f, (u, v))
}

impl<T: Copy> Matrix3<T> {
    /// The matrix with the given rows.
    pub fn from_rows(rows: [[T; 3]; 3]) -> (r: Self)
        ensures
            r.rows == rows,
    {
        Matrix3 { rows }
    }

    /// The matrix whose columns, left to right, are the given ones.
    pub fn from_columns(columns: [[T; 3]; 3]) -> (r: Self)
        ensures
            is_transpose(r.rows, columns),
    {
        let r11 = columns[0][0];
        let r21 = columns[0][1];
        let r31 = columns[0][2];
        let r12 = columns[1][0];
        let r22 = columns[1][1];
        let r32 = columns[1][2];
        let r13 = columns[2][0];
        let r23 = columns[2][1];
        let r33 = columns[2][2];
        Matrix3 { rows: [[r11, r12, r13], [r21, r22, r23], [r31, r32, r33]] }
    }

    /// The rows, top to bottom.
    pub fn rows(&self) -> (r: [[T; 3]; 3])
        ensures
            r == self.rows,
    {
        self.rows
    }

    /// The columns, left to right, each read top to bottom.
    pub fn columns(&self) -> (r: [[T; 3]; 3])
        ensures
            is_transpose(r, self.rows),
            forall|j: int| 0 <= j < 3 ==> #[trigger] r[j] == column(self.rows, j),
    {
        let m = &self.rows;
        let c1 = [m[0][0], m[1][0], m[2][0]];
        let c2 = [m[0][1], m[1][1], m[2][1]];
        let c3 = [m[0][2], m[1][2], m[2][2]];
        [c1, c2, c3]
    }

    /// The matrix with rows and columns exchanged.
    pub fn transpose(&self) -> (r: Self)
        ensures
            is_transpose(r.rows, self.rows),
    {
        Matrix3::from_rows(self.columns())
    }

    /// The product `self * other`: entry `(i, j)` is `dot` of row `i` of
    /// `self` with column `j` of `other`.
    pub fn product<F: Fn([T; 3], [T; 3]) -> T>(&self, other: &Self, dot: F) -> (r: Self)
        requires
            accepts_all_pairs(dot),
        ensures
            is_product(r.rows, self.rows, other.rows, dot),
    {
        let rows = self.rows();
        let cols = other.columns();
        let r11 = dot(rows[0], cols[0]);
        let r12 = dot(rows[0], cols[1]);
        let r13 = dot(rows[0], cols[2]);
        let r21 = dot(rows[1], cols[0]);
        let r22 = dot(rows[1], cols[1]);
        let r23 = dot(rows[1], cols[2]);
        let r31 = dot(rows[2], cols[0]);
        let r32 = dot(rows[2], cols[1]);
        let r33 = dot(rows[2], cols[2]);
        Matrix3::from_rows([[r11, r12, r13], [r21, r22, r23], [r31, r32, r33]])
    }

    /// The matrix applied to the column vector `v`: entry `i` is `dot` of
    /// row `i` with `v`.
    pub fn apply<F: Fn([T; 3], [T; 3]) -> T>(&self, v: [T; 3], dot: F) -> (r: [T; 3])
        requires
            accepts_all_pairs(dot),
        ensures
            forall|i: int| 0 <= i < 3 ==> call_ensures(dot, (self.rows[i], v), #[trigger] r[i]),
    {
        let rows = self.rows();
        let u1 = dot(rows[0], v);
        let u2 = dot(rows[1], v);
        let u3 = dot(rows[2], v);
        [u1, u2, u3]
    }
}

/// Transposing twice gives back the matrix one started from: the transpose
/// of a matrix's transpose is that matrix.
pub proof fn lemma_transpose_involutive<T>(m: [[T; 3]; 3], t: [[T; 3]; 3], u: [[T; 3]; 3])
    requires
        is_transpose(t, m),
        is_transpose(u, t),
    ensures
        u == m,
{
    assert forall|i: int| 0 <= i < 3 implies #[trigger] u[i] == m[i] by {
        assert(u[i] =~= m[i]);
    }
    assert(u =~= m);
}

/// Composing through transposes agrees with the plain product: for a
/// symmetric dot product, the transpose of `transpose(b) * transpose(a)` is
/// `a * b`. Since a rotation matrix is inverted by transposing it, "`a` after
/// `b`" formed through inverses is the same matrix as "`b` before `a`".
pub proof fn lemma_product_of_transposes<T, F: Fn([T; 3], [T; 3]) -> T>(
    a: [[T; 3]; 3],
    b: [[T; 3]; 3],
    at: [[T; 3]; 3],
    bt: [[T; 3]; 3],
    p: [[T; 3]; 3],
    pt: [[T; 3]; 3],
    q: [[T; 3]; 3],
    dot: F,
)
    requires
        is_symmetric(dot),
        is_transpose(at, a),
        is_transpose(bt, b),
        is_product(p, bt, at, dot),
        is_transpose(pt, p),
        is_product(q, a, b, dot),
    ensures
        pt == q,
{
    assert forall|i: int| 0 <= i < 3 implies #[trigger] pt[i] == q[i] by {
        assert forall|j: int| 0 <= j < 3 implies pt[i][j] == q[i][j] by {
            assert(bt[j] =~= column(b, j));
            assert(column(at, i) =~= a[i]);
            assert(call_ensures(dot, (bt[j], column(at, i)), p[j][i]));
            assert(call_ensures(dot, (a[i], column(b, j)), q[i][j]));
        }
        assert(pt[i] =~= q[i]);
    }
    assert(pt =~= q);
}

} // verus!
