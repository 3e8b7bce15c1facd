//! Three-by-three matrices and three-element column vectors for the
//! Geometry Transformation Engine.

use vstd::prelude::*;

verus! {

/// A matrix of the GTE: the rotation, light or light colour matrix.
#[derive(Copy, Clone)]
pub struct CP2Matrix {
    pub top_row: [i64; 3],
    pub middle_row: [i64; 3],
    pub bottom_row: [i64; 3],
}

/// A column vector of three elements.
#[derive(Copy, Clone)]
pub struct CP2Vector {
    pub top: i64,
    pub middle: i64,
    pub bottom: i64,
}

/// Largest magnitude of a matrix element that a product may use.
pub const MATRIX_ELEMENT_LIMIT: i64 = 0x1_0000;

/// Largest magnitude of a vector element that a product may use.
pub const VECTOR_ELEMENT_LIMIT: i64 = 0x1_0000_0000;

/// Largest magnitude of a vector element that a sum may use.
pub const SUM_ELEMENT_LIMIT: i64 = 0x1000_0000_0000_0000;

/// `-limit <= x <= limit`.
pub open spec fn within(x: i64, limit: i64) -> bool {
    -limit <= x <= limit
}

/// Dot product of one row with a vector.
pub open spec fn row_times(row: Seq<i64>, v: CP2Vector) -> int {
    row[0] * v.top + row[1] * v.middle + row[2] * v.bottom
}

impl CP2Matrix {
    /// Every element is within `MATRIX_ELEMENT_LIMIT`.
    pub open spec fn small(&self) -> bool {
        forall|i: int|
            0 <= i < 3 ==> within(#[trigger] self.top_row@[i], MATRIX_ELEMENT_LIMIT) && within(
                self.middle_row@[i],
                MATRIX_ELEMENT_LIMIT,
            ) && within(self.bottom_row@[i], MATRIX_ELEMENT_LIMIT)
    }

    /// A matrix from its three rows.
    pub fn new(top_row: [i64; 3], middle_row: [i64; 3], bottom_row: [i64; 3]) -> (r: Self)
        ensures
            r.top_row == top_row,
            r.middle_row == middle_row,
            r.bottom_row == bottom_row,
    {
        CP2Matrix { top_row, middle_row, bottom_row }
    }

    /// Row 0, column 0.
    pub fn top_left(&self) -> (r: i64)
        ensures
            r == self.top_row@[0],
    {
        self.top_row[0]
    }

    /// Row 0, column 1.
    pub fn top_middle(&self) -> (r: i64)
        ensures
            r == self.top_row@[1],
    {
        self.top_row[1]
    }

    /// Row 0, column 2.
    pub fn top_right(&self) -> (r: i64)
        ensures
            r == self.top_row@[2],
    {
        self.top_row[2]
    }

    /// Row 1, column 0.
    pub fn middle_left(&self) -> (r: i64)
        ensures
            r == self.middle_row@[0],
    {
        self.middle_row[0]
    }

    /// Row 1, column 1.
    pub fn middle(&self) -> (r: i64)
        ensures
            r == self.middle_row@[1],
    {
        self.middle_row[1]
    }

    /// Row 1, column 2.
    pub fn middle_right(&self) -> (r: i64)
        ensures
            r == self.middle_row@[2],
    {
        self.middle_row[2]
    }

    /// Row 2, column 0.
    pub fn bottom_left(&self) -> (r: i64)
        ensures
            r == self.bottom_row@[0],
    {
        self.bottom_row[0]
    }

    /// Row 2, column 1.
    pub fn bottom_middle(&self) -> (r: i64)
        ensures
            r == self.bottom_row@[1],
    {
        self.bottom_row[1]
    }

    /// Row 2, column 2.
    pub fn bottom_right(&self) -> (r: i64)
        ensures
            r == self.bottom_row@[2],
    {
        self.bottom_row[2]
    }

    /// The product of this matrix with a column vector.
    pub fn multiply(&self, rhs: &CP2Vector) -> (r: CP2Vector)
        requires
            self.small(),
            rhs.small(),
        ensures
            r.top == row_times(self.top_row@, *rhs),
            r.middle == row_times(self.middle_row@, *rhs),
            r.bottom == row_times(self.bottom_row@, *rhs),
            within(r.top, 0x4_0000_0000_0000),
            within(r.middle, 0x4_0000_0000_0000),
            within(r.bottom, 0x4_0000_0000_0000),
    {
        CP2Vector {
            top: dot(&self.top_row, rhs),
            middle: dot(&self.middle_row, rhs),
            bottom: dot(&self.bottom_row, rhs),
        }
    }
}

/// Dot product of a small row with a small vector.
fn dot(row: &[i64; 3], v: &CP2Vector) -> (r: i64)
    requires
        forall|i: int| 0 <= i < 3 ==> within(#[trigger] row@[i], MATRIX_ELEMENT_LIMIT),
        v.small(),
    ensures
        r == row_times(row@, *v),
        within(r, 0x4_0000_0000_0000),
{
    let a = row[0];
    let b = row[1];
    let c = row[2];
    proof {
        assert(within(row@[0], MATRIX_ELEMENT_LIMIT));
        assert(within(row@[1], MATRIX_ELEMENT_LIMIT));
        assert(within(row@[2], MATRIX_ELEMENT_LIMIT));
        lemma_small_product(a, v.top);
        lemma_small_product(b, v.middle);
        lemma_small_product(c, v.bottom);
    }
    a * v.top + b * v.middle + c * v.bottom
}

/// A small matrix element times a small vector element stays within 2^48.
proof fn lemma_small_product(m: i64, x: i64)
    requires
        within(m, MATRIX_ELEMENT_LIMIT),
        within(x, VECTOR_ELEMENT_LIMIT),
    ensures
        -0x1_0000_0000_0000 <= m * x <= 0x1_0000_0000_0000,
{
    assert(-0x1_0000 <= m <= 0x1_0000 && -0x1_0000_0000 <= x <= 0x1_0000_0000 ==> -0x1_0000_0000_0000
        <= m * x <= 0x1_0000_0000_0000) by (nonlinear_arith);
}

impl CP2Vector {
    /// Every element is within `VECTOR_ELEMENT_LIMIT`.
    pub open spec fn small(&self) -> bool {
        within(self.top, VECTOR_ELEMENT_LIMIT) && within(self.middle, VECTOR_ELEMENT_LIMIT)
            && within(self.bottom, VECTOR_ELEMENT_LIMIT)
    }

    /// Every element is within `SUM_ELEMENT_LIMIT`.
    pub open spec fn summable(&self) -> bool {
        within(self.top, SUM_ELEMENT_LIMIT) && within(self.middle, SUM_ELEMENT_LIMIT) && within(
            self.bottom,
            SUM_ELEMENT_LIMIT,
        )
    }

    /// A vector from its three elements.
    pub fn new(top: i64, middle: i64, bottom: i64) -> (r: Self)
        ensures
            r.top == top,
            r.middle == middle,
            r.bottom == bottom,
    {
        CP2Vector { top, middle, bottom }
    }

    /// Element 0.
    pub fn top(&self) -> (r: i64)
        ensures
            r == self.top,
    {
        self.top
    }

    /// Element 1.
    pub fn middle(&self) -> (r: i64)
        ensures
            r == self.middle,
    {
        self.middle
    }

    /// Element 2.
    pub fn bottom(&self) -> (r: i64)
        ensures
            r == self.bottom,
    {
        self.bottom
    }

    /// The element-wise sum of two vectors.
    pub fn plus(&self, rhs: &CP2Vector) -> (r: CP2Vector)
        requires
            self.summable(),
            rhs.summable(),
        ensures
            r.top == self.top + rhs.top,
            r.middle == self.middle + rhs.middle,
            r.bottom == self.bottom + rhs.bottom,
    {
        CP2Vector {
            top: self.top + rhs.top,
            middle: self.middle + rhs.middle,
            bottom: self.bottom + rhs.bottom,
        }
    }
}

impl std::ops::Mul<CP2Vector> for CP2Matrix {
    type Output = CP2Vector;

    fn mul(self, rhs: CP2Vector) -> CP2Vector {
        self.multiply(&rhs)
    }
}

impl vstd::std_specs::ops::MulSpecImpl<CP2Vector> for CP2Matrix {
    open spec fn obeys_mul_spec() -> bool {
        true
    }

    open spec fn mul_req(self, rhs: CP2Vector) -> bool {
        self.small() && rhs.small()
    }

    open spec fn mul_spec(self, rhs: CP2Vector) -> CP2Vector {
        CP2Vector {
            top: row_times(self.top_row@, rhs) as i64,
            middle: row_times(self.middle_row@, rhs) as i64,
            bottom: row_times(self.bottom_row@, rhs) as i64,
        }
    }
}

impl std::ops::Add<CP2Vector> for CP2Vector {
    type Output = CP2Vector;

    fn add(self, rhs: CP2Vector) -> CP2Vector {
        self.plus(&rhs)
    }
}

impl vstd::std_specs::ops::AddSpecImpl<CP2Vector> for CP2Vector {
    open spec fn obeys_add_spec() -> bool {
        true
    }

    open spec fn add_req(self, rhs: CP2Vector) -> bool {
        self.summable() && rhs.summable()
    }

    open spec fn add_spec(self, rhs: CP2Vector) -> CP2Vector {
        CP2Vector {
            top: (self.top + rhs.top) as i64,
            middle: (self.middle + rhs.middle) as i64,
            bottom: (self.bottom + rhs.bottom) as i64,
        }
    }
}

} // verus!
