use vstd::prelude::*;

verus! {

/// The constant step operator on the interior nodes: a square tridiagonal
/// matrix with one value on each of its three bands.
pub struct TridiagonalOperator<T> {
    size: usize,
    lower: T,
    main: T,
    upper: T,
}

impl<T: Copy> TridiagonalOperator<T> {
    /// Number of rows and of columns.
    pub closed spec fn dim(&self) -> nat {
        self.size as nat
    }

    /// The entry at row `r`, column `c`: `None` off the three bands.
    pub closed spec fn entry_at(&self, r: int, c: int) -> Option<T> {
        if r == c {
            Some(self.main)
        } else if r == c + 1 {
            Some(self.lower)
        } else if r + 1 == c {
            Some(self.upper)
        } else {
            None
        }
    }

    /// The value of the band above the diagonal.
    pub closed spec fn upper_band(&self) -> T {
        self.upper
    }

    /// An operator of `size` rows with the given band values.
    pub fn new(size: usize, lower: T, main: T, upper: T) -> (r: Self)
        ensures
            r.dim() == size,
            r.upper_band() == upper,
            forall|i: int| 0 <= i < size ==> #[trigger] r.entry_at(i, i) == Some(main),
            forall|i: int| 0 < i < size ==> #[trigger] r.entry_at(i, i - 1) == Some(lower),
            forall|i: int| 0 <= i && i + 1 < size ==> #[trigger] r.entry_at(i, i + 1) == Some(upper),
            forall|i: int, j: int|
                (i - j > 1 || j - i > 1) ==> #[trigger] r.entry_at(i, j) is None,
    {
        TridiagonalOperator { size, lower, main, upper }
    }

    /// Number of rows and of columns.
    pub fn size(&self) -> (r: usize)
        ensures
            r == self.dim(),
    {
        self.size
    }

    /// The value of the band above the diagonal; it couples the last
    /// interior node to the upper boundary.
    pub fn upper_value(&self) -> (r: T)
        ensures
            r == self.upper_band(),
    {
        self.upper
    }

    /// The entry at row `r`, column `c`.
    pub fn entry(&self, r: usize, c: usize) -> (e: Option<T>)
        requires
            r < self.dim(),
            c < self.dim(),
        ensures
            e == self.entry_at(r as int, c as int),
    {
        if r == c {
            Some(self.main)
        } else if c < usize::MAX && r == c + 1 {
            Some(self.lower)
        } else if r < usize::MAX && r + 1 == c {
            Some(self.upper)
        } else {
            None
        }
    }
}

} // verus!
