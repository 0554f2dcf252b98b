use vstd::prelude::*;

verus! {

/// Sum of the first `k` componentwise products of `a` and `b`.
pub open spec fn dot_prefix(a: Seq<i64>, b: Seq<i64>, k: int) -> int
    decreases k,
{
    if k <= 0 {
        0
    } else {
        dot_prefix(a, b, k - 1) + a[k - 1] * b[k - 1]
    }
}

/// The dot product of two sequences of equal length.
pub open spec fn dot_spec(a: Seq<i64>, b: Seq<i64>) -> int {
    dot_prefix(a, b, a.len() as int)
}

/// `x` is a value of `i64`.
pub open spec fn in_i64(x: int) -> bool {
    i64::MIN <= x <= i64::MAX
}

/// Every product and every running sum of the dot product fits in an `i64`,
/// so that the product can be computed term by term without overflow.
pub open spec fn dot_fits(a: Seq<i64>, b: Seq<i64>) -> bool {
    &&& forall|k: int| 0 <= k < a.len() ==> #[trigger] in_i64(a[k] * b[k])
    &&& forall|k: int| 0 <= k <= a.len() ==> #[trigger] in_i64(dot_prefix(a, b, k))
}

/// Sum, difference or product of two components, by operation code.
pub open spec fn combine(op: u8, x: int, y: int) -> int {
    if op == 0 {
        x + y
    } else if op == 1 {
        x - y
    } else {
        x * y
    }
}

/// Combining `a` and `b` component by component with `op` stays in `i64`.
pub open spec fn combine_fits(op: u8, a: Seq<i64>, b: Seq<i64>) -> bool {
    forall|i: int| 0 <= i < a.len() ==> #[trigger] in_i64(combine(op, a[i] as int, b[i] as int))
}

/// `r` is `a` and `b` combined component by component with `op`.
pub open spec fn combined(r: Seq<i64>, op: u8, a: Seq<i64>, b: Seq<i64>) -> bool {
    &&& r.len() == a.len()
    &&& forall|i: int| 0 <= i < a.len() ==> #[trigger] r[i] == combine(op, a[i] as int, b[i] as int)
}

/// `r` is `a` with every component negated.
pub open spec fn negated(r: Seq<i64>, a: Seq<i64>) -> bool {
    &&& r.len() == a.len()
    &&& forall|i: int| 0 <= i < a.len() ==> #[trigger] r[i] == -a[i]
}

/// The cross product of two three-component sequences.
pub open spec fn cross_spec(a: Seq<i64>, b: Seq<i64>) -> Seq<int> {
    seq![
        a[1] * b[2] - a[2] * b[1],
        a[2] * b[0] - a[0] * b[2],
        a[0] * b[1] - a[1] * b[0],
    ]
}

/// The six products and three differences of the cross product fit in `i64`.
pub open spec fn cross_fits(a: Seq<i64>, b: Seq<i64>) -> bool {
    &&& in_i64(a[1] * b[2]) && in_i64(a[2] * b[1])
    &&& in_i64(a[2] * b[0]) && in_i64(a[0] * b[2])
    &&& in_i64(a[0] * b[1]) && in_i64(a[1] * b[0])
    &&& forall|i: int| 0 <= i < 3 ==> #[trigger] in_i64(cross_spec(a, b)[i])
}

/// How `a` compares with `b` over their first `k` components: the last
/// component in which they differ decides, and equal prefixes are equal.
pub open spec fn order_prefix(a: Seq<i64>, b: Seq<i64>, k: int) -> std::cmp::Ordering
    decreases k,
{
    if k <= 0 {
        std::cmp::Ordering::Equal
    } else if a[k - 1] < b[k - 1] {
        std::cmp::Ordering::Less
    } else if a[k - 1] > b[k - 1] {
        std::cmp::Ordering::Greater
    } else {
        order_prefix(a, b, k - 1)
    }
}

/// A fixed-size vector of `N` integer components.
#[derive(Debug, Clone, Copy)]
pub struct Vector<const N: usize>(pub [i64; N]);

pub type Int2 = Vector<2>;

pub type Int3 = Vector<3>;

pub type Int4 = Vector<4>;

impl<const N: usize> View for Vector<N> {
    type V = Seq<i64>;

    open spec fn view(&self) -> Seq<i64> {
        self.0@
    }
}

impl<const N: usize> Vector<N> {
    pub fn new(elements: [i64; N]) -> (r: Self)
        ensures
            r@ == elements@,
    {
        Vector(elements)
    }

    /// The sum of the componentwise products.
    pub fn dot(&self, other: &Self) -> (r: i64)
        requires
            dot_fits(self@, other@),
        ensures
            r == dot_spec(self@, other@),
    {
        let mut sum: i64 = 0;
        let mut i: usize = 0;
        while i < N
            invariant
                0 <= i <= N,
                self@.len() == N,
                other@.len() == N,
                dot_fits(self@, other@),
                sum == dot_prefix(self@, other@, i as int),
            decreases N - i,
        {
            assert(in_i64(self@[i as int] * other@[i as int]));
            assert(in_i64(dot_prefix(self@, other@, i + 1)));
            sum = sum + self.0[i] * other.0[i];
            i = i + 1;
        }
        sum
    }
}

impl<const N: usize> Vector<N> {
    /// Two vectors with the same components are the same vector.
    pub proof fn lemma_view_determines(a: Self, b: Self)
        requires
            a@ == b@,
        ensures
            a == b,
    {
        assert(a.0 =~= b.0);
    }

    fn zip_with(&self, other: &Self, op: u8) -> (r: Self)
        requires
            combine_fits(op, self@, other@),
        ensures
            r@.len() == N,
            forall|i: int|
                0 <= i < N ==> #[trigger] r@[i] == combine(op, self@[i] as int, other@[i] as int),
    {
        let mut result = [0i64; N];
        let mut i: usize = 0;
        while i < N
            invariant
                0 <= i <= N,
                self@.len() == N,
                other@.len() == N,
                combine_fits(op, self@, other@),
                forall|k: int|
                    0 <= k < i ==> #[trigger] result@[k] == combine(
                        op,
                        self@[k] as int,
                        other@[k] as int,
                    ),
            decreases N - i,
        {
            assert(in_i64(combine(op, self@[i as int] as int, other@[i as int] as int)));
            let a = self.0[i];
            let b = other.0[i];
            result[i] = if op == 0 {
                a + b
            } else if op == 1 {
                a - b
            } else {
                a * b
            };
            i = i + 1;
        }
        Vector(result)
    }

    /// Componentwise sum.
    pub fn add(self, other: Self) -> (r: Self)
        requires
            forall|i: int| 0 <= i < N ==> #[trigger] in_i64(self@[i] + other@[i]),
        ensures
            r@.len() == N,
            forall|i: int| 0 <= i < N ==> #[trigger] r@[i] == self@[i] + other@[i],
    {
        assert(combine_fits(0, self@, other@)) by {
            assert forall|i: int| 0 <= i < self@.len() implies #[trigger] in_i64(
                combine(0, self@[i] as int, other@[i] as int),
            ) by {
                assert(in_i64(self@[i] + other@[i]));
            }
        }
        let r = self.zip_with(&other, 0);
        assert forall|i: int| 0 <= i < N implies #[trigger] r@[i] == self@[i] + other@[i] by {
            assert(r@[i] == combine(0, self@[i] as int, other@[i] as int));
        }
        r
    }

    /// Componentwise difference.
    pub fn sub(self, other: Self) -> (r: Self)
        requires
            forall|i: int| 0 <= i < N ==> #[trigger] in_i64(self@[i] - other@[i]),
        ensures
            r@.len() == N,
            forall|i: int| 0 <= i < N ==> #[trigger] r@[i] == self@[i] - other@[i],
    {
        assert(combine_fits(1, self@, other@)) by {
            assert forall|i: int| 0 <= i < self@.len() implies #[trigger] in_i64(
                combine(1, self@[i] as int, other@[i] as int),
            ) by {
                assert(in_i64(self@[i] - other@[i]));
            }
        }
        let r = self.zip_with(&other, 1);
        assert forall|i: int| 0 <= i < N implies #[trigger] r@[i] == self@[i] - other@[i] by {
            assert(r@[i] == combine(1, self@[i] as int, other@[i] as int));
        }
        r
    }

    /// Componentwise product.
    pub fn mul(self, other: Self) -> (r: Self)
        requires
            forall|i: int| 0 <= i < N ==> #[trigger] in_i64(self@[i] * other@[i]),
        ensures
            r@.len() == N,
            forall|i: int| 0 <= i < N ==> #[trigger] r@[i] == self@[i] * other@[i],
    {
        assert(combine_fits(2, self@, other@)) by {
            assert forall|i: int| 0 <= i < self@.len() implies #[trigger] in_i64(
                combine(2, self@[i] as int, other@[i] as int),
            ) by {
                assert(in_i64(self@[i] * other@[i]));
            }
        }
        let r = self.zip_with(&other, 2);
        assert forall|i: int| 0 <= i < N implies #[trigger] r@[i] == self@[i] * other@[i] by {
            assert(r@[i] == combine(2, self@[i] as int, other@[i] as int));
        }
        r
    }

    /// Every component negated.
    pub fn neg(self) -> (r: Self)
        requires
            forall|i: int| 0 <= i < N ==> self@[i] != i64::MIN,
        ensures
            r@.len() == N,
            forall|i: int| 0 <= i < N ==> #[trigger] r@[i] == -self@[i],
    {
        let mut result = [0i64; N];
        let mut i: usize = 0;
        while i < N
            invariant
                0 <= i <= N,
                self@.len() == N,
                forall|i: int| 0 <= i < N ==> self@[i] != i64::MIN,
                forall|k: int| 0 <= k < i ==> #[trigger] result@[k] == -self@[k],
            decreases N - i,
        {
            result[i] = -self.0[i];
            i = i + 1;
        }
        Vector(result)
    }

    /// Every component multiplied by `scalar`.
    pub fn scale(&self, scalar: i64) -> (r: Self)
        requires
            forall|i: int| 0 <= i < N ==> #[trigger] in_i64(self@[i] * scalar),
        ensures
            r@.len() == N,
            forall|i: int| 0 <= i < N ==> #[trigger] r@[i] == self@[i] * scalar,
    {
        let mut result = [0i64; N];
        let mut i: usize = 0;
        while i < N
            invariant
                0 <= i <= N,
                self@.len() == N,
                forall|i: int| 0 <= i < N ==> #[trigger] in_i64(self@[i] * scalar),
                forall|k: int| 0 <= k < i ==> #[trigger] result@[k] == self@[k] * scalar,
            decreases N - i,
        {
            assert(in_i64(self@[i as int] * scalar));
            result[i] = self.0[i] * scalar;
            i = i + 1;
        }
        Vector(result)
    }

    /// The dot product of the vector with itself.
    pub fn length_squared(&self) -> (r: i64)
        requires
            dot_fits(self@, self@),
        ensures
            r == dot_spec(self@, self@),
    {
        self.dot(self)
    }
}

impl Vector<3> {
    /// The cross product.
    pub fn cross(&self, other: &Self) -> (r: Self)
        requires
            cross_fits(self@, other@),
        ensures
            r@.len() == 3,
            forall|i: int| 0 <= i < 3 ==> #[trigger] r@[i] == cross_spec(self@, other@)[i],
    {
        let a = self.0;
        let b = other.0;
        assert(in_i64(cross_spec(self@, other@)[0]));
        assert(in_i64(cross_spec(self@, other@)[1]));
        assert(in_i64(cross_spec(self@, other@)[2]));
        Vector([a[1] * b[2] - a[2] * b[1], a[2] * b[0] - a[0] * b[2], a[0] * b[1] - a[1] * b[0]])
    }
}

impl Vector<2> {
    pub fn x(&self) -> (r: i64)
        ensures
            r == self@[0],
    {
        self.0[0]
    }

    pub fn y(&self) -> (r: i64)
        ensures
            r == self@[1],
    {
        self.0[1]
    }
}

impl Vector<3> {
    pub fn x(&self) -> (r: i64)
        ensures
            r == self@[0],
    {
        self.0[0]
    }

    pub fn y(&self) -> (r: i64)
        ensures
            r == self@[1],
    {
        self.0[1]
    }

    pub fn z(&self) -> (r: i64)
        ensures
            r == self@[2],
    {
        self.0[2]
    }
}

impl Vector<4> {
    pub fn x(&self) -> (r: i64)
        ensures
            r == self@[0],
    {
        self.0[0]
    }

    pub fn y(&self) -> (r: i64)
        ensures
            r == self@[1],
    {
        self.0[1]
    }

    pub fn z(&self) -> (r: i64)
        ensures
            r == self@[2],
    {
        self.0[2]
    }

    pub fn w(&self) -> (r: i64)
        ensures
            r == self@[3],
    {
        self.0[3]
    }
}

impl<const N: usize> std::ops::Add for Vector<N> {
    type Output = Vector<N>;

    fn add(self, rhs: Vector<N>) -> (r: Vector<N>) {
        let r = Vector::add(self, rhs);
        proof {
            let c = choose|c: Vector<N>| combined(c@, 0, self@, rhs@);
            assert(c@ =~= r@);
            Vector::<N>::lemma_view_determines(c, r);
        }
        r
    }
}

impl<const N: usize> vstd::std_specs::ops::AddSpecImpl for Vector<N> {
    open spec fn obeys_add_spec() -> bool {
        true
    }

    open spec fn add_req(self, rhs: Vector<N>) -> bool {
        forall|i: int| 0 <= i < N ==> #[trigger] in_i64(self@[i] + rhs@[i])
    }

    open spec fn add_spec(self, rhs: Vector<N>) -> Vector<N> {
        choose|c: Vector<N>| combined(c@, 0, self@, rhs@)
    }
}

impl<const N: usize> std::ops::Sub for Vector<N> {
    type Output = Vector<N>;

    fn sub(self, rhs: Vector<N>) -> (r: Vector<N>) {
        let r = Vector::sub(self, rhs);
        proof {
            let c = choose|c: Vector<N>| combined(c@, 1, self@, rhs@);
            assert(c@ =~= r@);
            Vector::<N>::lemma_view_determines(c, r);
        }
        r
    }
}

impl<const N: usize> vstd::std_specs::ops::SubSpecImpl for Vector<N> {
    open spec fn obeys_sub_spec() -> bool {
        true
    }

    open spec fn sub_req(self, rhs: Vector<N>) -> bool {
        forall|i: int| 0 <= i < N ==> #[trigger] in_i64(self@[i] - rhs@[i])
    }

    open spec fn sub_spec(self, rhs: Vector<N>) -> Vector<N> {
        choose|c: Vector<N>| combined(c@, 1, self@, rhs@)
    }
}

impl<const N: usize> std::ops::Mul for Vector<N> {
    type Output = Vector<N>;

    fn mul(self, rhs: Vector<N>) -> (r: Vector<N>) {
        let r = Vector::mul(self, rhs);
        proof {
            let c = choose|c: Vector<N>| combined(c@, 2, self@, rhs@);
            assert(c@ =~= r@);
            Vector::<N>::lemma_view_determines(c, r);
        }
        r
    }
}

impl<const N: usize> vstd::std_specs::ops::MulSpecImpl for Vector<N> {
    open spec fn obeys_mul_spec() -> bool {
        true
    }

    open spec fn mul_req(self, rhs: Vector<N>) -> bool {
        forall|i: int| 0 <= i < N ==> #[trigger] in_i64(self@[i] * rhs@[i])
    }

    open spec fn mul_spec(self, rhs: Vector<N>) -> Vector<N> {
        choose|c: Vector<N>| combined(c@, 2, self@, rhs@)
    }
}

impl<const N: usize> std::ops::Neg for Vector<N> {
    type Output = Vector<N>;

    fn neg(self) -> (r: Vector<N>) {
        let r = Vector::neg(self);
        proof {
            let c = choose|c: Vector<N>| negated(c@, self@);
            assert(c@ =~= r@);
            Vector::<N>::lemma_view_determines(c, r);
        }
        r
    }
}

impl<const N: usize> vstd::std_specs::ops::NegSpecImpl for Vector<N> {
    open spec fn obeys_neg_spec() -> bool {
        true
    }

    open spec fn neg_req(self) -> bool {
        forall|i: int| 0 <= i < N ==> self@[i] != i64::MIN
    }

    open spec fn neg_spec(self) -> Vector<N> {
        choose|c: Vector<N>| negated(c@, self@)
    }
}

impl<const N: usize> PartialEq for Vector<N> {
    fn eq(&self, other: &Self) -> (r: bool) {
        let mut i: usize = 0;
        while i < N
            invariant
                0 <= i <= N,
                self@.len() == N,
                other@.len() == N,
                forall|k: int| 0 <= k < i ==> self@[k] == other@[k],
            decreases N - i,
        {
            if self.0[i] != other.0[i] {
                return false;
            }
            i = i + 1;
        }
        assert(self@ =~= other@);
        true
    }
}

impl<const N: usize> vstd::std_specs::cmp::PartialEqSpecImpl for Vector<N> {
    open spec fn obeys_eq_spec() -> bool {
        true
    }

    open spec fn eq_spec(&self, other: &Vector<N>) -> bool {
        self@ == other@
    }
}

impl<const N: usize> Eq for Vector<N> {

}

impl<const N: usize> PartialOrd for Vector<N> {
    fn partial_cmp(&self, other: &Self) -> (r: Option<std::cmp::Ordering>) {
        let mut ord = std::cmp::Ordering::Equal;
        let mut i: usize = 0;
        while i < N
            invariant
                0 <= i <= N,
                self@.len() == N,
                other@.len() == N,
                ord == order_prefix(self@, other@, i as int),
            decreases N - i,
        {
            if self.0[i] < other.0[i] {
                ord = std::cmp::Ordering::Less;
            } else if self.0[i] > other.0[i] {
                ord = std::cmp::Ordering::Greater;
            }
            i = i + 1;
        }
        Some(ord)
    }
}

impl<const N: usize> vstd::std_specs::cmp::PartialOrdSpecImpl for Vector<N> {
    open spec fn obeys_partial_cmp_spec() -> bool {
        true
    }

    open spec fn partial_cmp_spec(&self, other: &Vector<N>) -> Option<std::cmp::Ordering> {
        Some(order_prefix(self@, other@, N as int))
    }
}

} // verus!
