use vstd::prelude::*;

use crate::vector::{dot_fits, dot_prefix, dot_spec, in_i64, Vector};

verus! {

/// Column `j` of a matrix given as its rows.
pub open spec fn column(rows: Seq<Seq<i64>>, j: int) -> Seq<i64> {
    Seq::new(rows.len(), |k: int| rows[k][j])
}

/// `r` holds the product of `a` and `b`: entry `(i, j)` is row `i` of `a`
/// dotted with column `j` of `b`.
pub open spec fn is_product<const M: usize, const N: usize, const P: usize>(
    r: Matrix<M, P>,
    a: Matrix<M, N>,
    b: Matrix<N, P>,
) -> bool {
    forall|i: int, j: int|
        0 <= i < M && 0 <= j < P ==> #[trigger] r@[i][j] == dot_spec(a@[i], column(b@, j))
}

/// The product of `a` and `b` can be computed without overflow.
pub open spec fn product_fits<const M: usize, const N: usize, const P: usize>(
    a: Matrix<M, N>,
    b: Matrix<N, P>,
) -> bool {
    forall|i: int, j: int|
        0 <= i < M && 0 <= j < P ==> #[trigger] dot_fits(a@[i], column(b@, j))
}

/// An `M` by `N` matrix of integers, stored row by row.
#[derive(Debug, Clone, Copy)]
pub struct Matrix<const M: usize, const N: usize>(pub [[i64; N]; M]);

pub type Int1x1 = Matrix<1, 1>;

pub type Int2x2 = Matrix<2, 2>;

pub type Int3x3 = Matrix<3, 3>;

pub type Int4x4 = Matrix<4, 4>;

impl<const M: usize, const N: usize> View for Matrix<M, N> {
    type V = Seq<Seq<i64>>;

    open spec fn view(&self) -> Seq<Seq<i64>> {
        self.0@.map_values(|row: [i64; N]| row@)
    }
}

impl<const M: usize, const N: usize> Matrix<M, N> {
    /// Every row has exactly `N` entries.
    pub open spec fn shape(&self) -> bool {
        &&& self@.len() == M
        &&& forall|i: int| 0 <= i < M ==> (#[trigger] self@[i]).len() == N
    }

    pub proof fn lemma_shape(&self)
        ensures
            self.shape(),
    {
        assert forall|i: int| 0 <= i < M implies (#[trigger] self@[i]).len() == N by {
            assert(self@[i] == self.0@[i]@);
        }
    }

    /// Builds a matrix from its rows.
    pub fn new(elements: [[i64; N]; M]) -> (r: Self)
        ensures
            r.0 == elements,
    {
        Matrix(elements)
    }

    /// Builds a matrix from its columns: entry `(i, j)` is entry `i` of column `j`.
    pub fn new_from_columns(columns: [[i64; M]; N]) -> (r: Self)
        ensures
            r.shape(),
            forall|i: int, j: int|
                0 <= i < M && 0 <= j < N ==> #[trigger] r@[i][j] == columns@[j]@[i],
    {
        let mut elements = [[0i64; N]; M];
        let mut i: usize = 0;
        while i < M
            invariant
                0 <= i <= M,
                forall|a: int, b: int|
                    0 <= a < i && 0 <= b < N ==> #[trigger] elements@[a]@[b] == columns@[b]@[a],
            decreases M - i,
        {
            let mut row = [0i64; N];
            let mut j: usize = 0;
            while j < N
                invariant
                    0 <= i < M,
                    0 <= j <= N,
                    forall|b: int| 0 <= b < j ==> #[trigger] row@[b] == columns@[b]@[i as int],
                decreases N - j,
            {
                row[j] = columns[j][i];
                j = j + 1;
            }
            elements[i] = row;
            i = i + 1;
        }
        let r = Matrix(elements);
        proof {
            r.lemma_shape();
        }
        r
    }

    /// The product of this matrix with a column vector.
    pub fn multiply_by_vector(&self, rhs: &Vector<N>) -> (r: Vector<M>)
        requires
            forall|i: int| 0 <= i < M ==> dot_fits(#[trigger] self@[i], rhs@),
        ensures
            forall|i: int| 0 <= i < M ==> #[trigger] r@[i] == dot_spec(self@[i], rhs@),
    {
        proof {
            self.lemma_shape();
        }
        let mut result = [0i64; M];
        let mut i: usize = 0;
        while i < M
            invariant
                0 <= i <= M,
                self.shape(),
                forall|i: int| 0 <= i < M ==> dot_fits(#[trigger] self@[i], rhs@),
                forall|a: int| 0 <= a < i ==> #[trigger] result@[a] == dot_spec(self@[a], rhs@),
            decreases M - i,
        {
            let row = Vector(self.0[i]);
            assert(row@ == self@[i as int]);
            result[i] = row.dot(rhs);
            i = i + 1;
        }
        Vector(result)
    }
}

impl<const M: usize, const N: usize> Matrix<M, N> {
    /// Two matrices of one shape with the same entries are the same matrix.
    pub proof fn lemma_entries_determine(a: Self, b: Self)
        requires
            forall|i: int, j: int| 0 <= i < M && 0 <= j < N ==> #[trigger] a@[i][j] == b@[i][j],
        ensures
            a == b,
    {
        a.lemma_shape();
        b.lemma_shape();
        assert forall|i: int| 0 <= i < M implies a.0@[i] == b.0@[i] by {
            assert(a@[i] == a.0@[i]@);
            assert(b@[i] == b.0@[i]@);
            assert(a.0@[i]@ =~= b.0@[i]@);
            assert(a.0@[i] =~= b.0@[i]);
        }
        assert(a.0 =~= b.0);
    }

    /// The matrix product, entry by entry.
    pub fn multiply<const P: usize>(&self, rhs: &Matrix<N, P>) -> (r: Matrix<M, P>)
        requires
            product_fits(*self, *rhs),
        ensures
            is_product(r, *self, *rhs),
    {
        proof {
            self.lemma_shape();
            rhs.lemma_shape();
        }
        let mut result = [[0i64; P]; M];
        let mut i: usize = 0;
        while i < M
            invariant
                0 <= i <= M,
                self.shape(),
                rhs.shape(),
                product_fits(*self, *rhs),
                forall|a: int, b: int|
                    0 <= a < i && 0 <= b < P ==> #[trigger] result@[a]@[b] == dot_spec(
                        self@[a],
                        column(rhs@, b),
                    ),
            decreases M - i,
        {
            let mut row = [0i64; P];
            let mut j: usize = 0;
            while j < P
                invariant
                    0 <= i < M,
                    0 <= j <= P,
                    self.shape(),
                    rhs.shape(),
                    product_fits(*self, *rhs),
                    forall|b: int|
                        0 <= b < j ==> #[trigger] row@[b] == dot_spec(
                            self@[i as int],
                            column(rhs@, b),
                        ),
                decreases P - j,
            {
                let ghost a = self@[i as int];
                let ghost c = column(rhs@, j as int);
                assert(dot_fits(a, c));
                let mut sum: i64 = 0;
                let mut k: usize = 0;
                while k < N
                    invariant
                        0 <= i < M,
                        0 <= j < P,
                        0 <= k <= N,
                        self.shape(),
                        rhs.shape(),
                        a == self@[i as int],
                        c == column(rhs@, j as int),
                        a.len() == N,
                        c.len() == N,
                        dot_fits(a, c),
                        sum == dot_prefix(a, c, k as int),
                    decreases N - k,
                {
                    assert(self.0[i as int][k as int] == a[k as int]);
                    assert(rhs.0[k as int][j as int] == c[k as int]) by {
                        assert(rhs@[k as int] == rhs.0@[k as int]@);
                    }
                    assert(in_i64(a[k as int] * c[k as int]));
                    assert(in_i64(dot_prefix(a, c, k + 1)));
                    sum = sum + self.0[i][k] * rhs.0[k][j];
                    k = k + 1;
                }
                row[j] = sum;
                j = j + 1;
            }
            result[i] = row;
            i = i + 1;
        }
        let r = Matrix(result);
        proof {
            r.lemma_shape();
        }
        r
    }
}

impl<const M: usize, const N: usize, const P: usize> std::ops::Mul<Matrix<N, P>> for Matrix<M, N> {
    type Output = Matrix<M, P>;

    fn mul(self, rhs: Matrix<N, P>) -> (r: Matrix<M, P>) {
        let r = self.multiply(&rhs);
        proof {
            Matrix::<M, P>::lemma_entries_determine(r, choose|p: Matrix<M, P>| is_product(p, self, rhs));
        }
        r
    }
}

impl<const M: usize, const N: usize, const P: usize> vstd::std_specs::ops::MulSpecImpl<Matrix<N, P>> for Matrix<M, N> {
    open spec fn obeys_mul_spec() -> bool {
        true
    }

    open spec fn mul_req(self, rhs: Matrix<N, P>) -> bool {
        product_fits(self, rhs)
    }

    open spec fn mul_spec(self, rhs: Matrix<N, P>) -> Matrix<M, P> {
        choose|p: Matrix<M, P>| is_product(p, self, rhs)
    }
}

impl<const M: usize, const N: usize> std::ops::Index<usize> for Matrix<M, N> {
    type Output = [i64; N];

    fn index(&self, index: usize) -> (r: &[i64; N]) {
        &self.0[index]
    }
}

impl<const M: usize, const N: usize> vstd::std_specs::core::IndexSpecImpl<usize> for Matrix<M, N> {
    open spec fn index_req(&self, index: &usize) -> bool {
        *index < M
    }
}

impl<const M: usize, const N: usize> PartialEq for Matrix<M, N> {
    fn eq(&self, other: &Self) -> (r: bool) {
        proof {
            self.lemma_shape();
            other.lemma_shape();
        }
        let mut i: usize = 0;
        while i < M
            invariant
                0 <= i <= M,
                self.shape(),
                other.shape(),
                forall|a: int, b: int|
                    0 <= a < i && 0 <= b < N ==> #[trigger] self@[a][b] == other@[a][b],
            decreases M - i,
        {
            let mut j: usize = 0;
            while j < N
                invariant
                    0 <= i < M,
                    0 <= j <= N,
                    self.shape(),
                    other.shape(),
                    forall|a: int, b: int|
                        0 <= a < i && 0 <= b < N ==> #[trigger] self@[a][b] == other@[a][b],
                    forall|b: int| 0 <= b < j ==> #[trigger] self@[i as int][b] == other@[i as int][b],
                decreases N - j,
            {
                assert(self@[i as int] == self.0@[i as int]@);
                assert(other@[i as int] == other.0@[i as int]@);
                if self.0[i][j] != other.0[i][j] {
                    return false;
                }
                j = j + 1;
            }
            i = i + 1;
        }
        proof {
            Matrix::<M, N>::lemma_entries_determine(*self, *other);
        }
        true
    }
}

impl<const M: usize, const N: usize> vstd::std_specs::cmp::PartialEqSpecImpl for Matrix<M, N> {
    open spec fn obeys_eq_spec() -> bool {
        true
    }

    open spec fn eq_spec(&self, other: &Matrix<M, N>) -> bool {
        *self == *other
    }
}

} // verus!
