//! Dynamically typed matrices: a grid of elements whose depth and channel
//! count are known only at run time, and whose rows need not lie back to back.

use vstd::prelude::*;
use vstd::arithmetic::div_mod::{lemma_fundamental_div_mod, lemma_fundamental_div_mod_converse};
use crate::element::{Depth, Elements, ElementsView, OpenCvElement};

verus! {

/// Where channel `ch` of the element in row `row` and column `col` lies in
/// the element store of a matrix whose rows start `step` elements apart.
pub open spec fn spec_element_index(step: int, channels: int, row: int, col: int, ch: int) -> int {
    row * step + col * channels + ch
}

/// A position inside the matrix has its place inside the element store.
pub proof fn lemma_element_index_in_range(
    rows: int,
    cols: int,
    channels: int,
    step: int,
    row: int,
    col: int,
    ch: int,
)
    requires
        0 <= row < rows,
        0 <= col < cols,
        0 <= ch < channels,
        cols * channels <= step,
    ensures
        0 <= col * channels + ch < cols * channels,
        0 <= row * step <= spec_element_index(step, channels, row, col, ch) < rows * step,
{
    assert(0 <= col * channels + ch < cols * channels) by (nonlinear_arith)
        requires
            0 <= col < cols,
            0 <= ch < channels,
    ;
    assert(0 <= row * step && row * step + step <= rows * step) by (nonlinear_arith)
        requires
            0 <= row < rows,
            0 <= step,
    ;
}

/// A matrix of `rows` by `cols` elements of `channels` channels each, over
/// an element store of one depth.
///
/// A matrix of two dimensions keeps its rows `step` elements apart in the
/// store; the first `cols * channels` elements of each such stretch are the
/// row, the rest is padding. A matrix of more than two dimensions reports
/// `-1` for both `rows` and `cols`, and its store is not interpreted.
#[derive(Debug, PartialEq, Eq)]
pub struct Mat {
    dims: i32,
    rows: i32,
    cols: i32,
    channels: i32,
    step: u64,
    elems: Elements,
}

impl Clone for Mat {
    fn clone(&self) -> (copy: Self)
        ensures
            copy.spec_dims() == self.spec_dims(),
            copy.spec_rows() == self.spec_rows(),
            copy.spec_cols() == self.spec_cols(),
            copy.spec_channels() == self.spec_channels(),
            copy.spec_step() == self.spec_step(),
            copy.spec_elems() == self.spec_elems(),
    {
        proof {
            use_type_invariant(self);
        }
        Mat {
            dims: self.dims,
            rows: self.rows,
            cols: self.cols,
            channels: self.channels,
            step: self.step,
            elems: self.elems.clone(),
        }
    }
}

impl Mat {
    pub closed spec fn spec_dims(&self) -> i32 {
        self.dims
    }

    pub closed spec fn spec_rows(&self) -> i32 {
        self.rows
    }

    pub closed spec fn spec_cols(&self) -> i32 {
        self.cols
    }

    pub closed spec fn spec_channels(&self) -> i32 {
        self.channels
    }

    pub closed spec fn spec_step(&self) -> u64 {
        self.step
    }

    /// What the element store holds.
    pub closed spec fn spec_elems(&self) -> ElementsView {
        self.elems@
    }

    pub open spec fn spec_depth(&self) -> Depth {
        self.spec_elems().depth()
    }

    /// A matrix has at least one channel and at least two dimensions. With
    /// exactly two, its store holds `rows` stretches of `step` elements, each
    /// long enough for a row.
    #[verifier::type_invariant]
    pub open spec fn inv(&self) -> bool {
        &&& self.spec_channels() >= 1
        &&& self.spec_dims() >= 2
        &&& if self.spec_dims() == 2 {
            &&& self.spec_rows() >= 0
            &&& self.spec_cols() >= 0
            &&& self.spec_step() >= self.spec_cols() * self.spec_channels()
            &&& self.spec_elems().len() == self.spec_rows() * self.spec_step()
        } else {
            &&& self.spec_rows() == -1
            &&& self.spec_cols() == -1
        }
    }

    /// Whether the rows lie back to back, so that the store is the content.
    pub open spec fn spec_is_continuous(&self) -> bool {
        self.spec_dims() == 2 && self.spec_step() == self.spec_row_len()
    }

    /// The element store read as elements of type `T`; empty when the matrix
    /// is of another depth.
    pub open spec fn spec_elements<T: OpenCvElement>(&self) -> Seq<T> {
        match T::spec_typed(self.spec_elems()) {
            Some(s) => s,
            None => Seq::empty(),
        }
    }

    /// Channel `ch` of the element in row `row` and column `col`.
    pub open spec fn spec_at<T: OpenCvElement>(&self, row: int, col: int, ch: int) -> T {
        self.spec_elements::<T>()[spec_element_index(
            self.spec_step() as int,
            self.spec_channels() as int,
            row,
            col,
            ch,
        )]
    }

    /// The number of elements in one row of a matrix of two dimensions.
    pub open spec fn spec_row_len(&self) -> int {
        self.spec_cols() * self.spec_channels()
    }

    /// The number of elements in the content of a matrix of two dimensions.
    pub open spec fn spec_total(&self) -> int {
        self.spec_rows() * self.spec_row_len()
    }

    /// The content of a matrix of two dimensions without the padding: rows
    /// from first to last, columns from first to last, the channels of each
    /// element in order.
    pub open spec fn spec_pixels<T: OpenCvElement>(&self) -> Seq<T> {
        Seq::new(
            self.spec_total() as nat,
            |i: int|
                self.spec_elements::<T>()[(i / self.spec_row_len()) * self.spec_step() + i
                    % self.spec_row_len()],
        )
    }

    /// Builds a matrix of two dimensions whose rows lie `step` elements
    /// apart in `data`. The store must hold exactly `rows` stretches of
    /// `step` elements, and a stretch must be long enough for a row.
    pub fn from_vec_with_step<T: OpenCvElement>(
        rows: i32,
        cols: i32,
        channels: i32,
        step: u64,
        data: Vec<T>,
    ) -> (mat: Option<Mat>)
        ensures
            mat is Some <==> rows >= 0 && cols >= 0 && channels >= 1 && step >= cols * channels
                && data@.len() == rows * step,
            mat matches Some(m) ==> m.spec_dims() == 2 && m.spec_rows() == rows && m.spec_cols()
                == cols && m.spec_channels() == channels && m.spec_step() == step
                && m.spec_depth() == T::spec_depth() && m.spec_elements::<T>() == data@,
    {
        if rows < 0 || cols < 0 || channels < 1 {
            return None;
        }
        assert(cols * channels <= 0x7fff_ffff * 0x7fff_ffff) by (nonlinear_arith)
            requires
                0 <= cols <= 0x7fff_ffff,
                0 <= channels <= 0x7fff_ffff,
        ;
        assert(rows * step <= 0x7fff_ffff * 0xffff_ffff_ffff_ffff) by (nonlinear_arith)
            requires
                0 <= rows <= 0x7fff_ffff,
                0 <= step <= 0xffff_ffff_ffff_ffff,
        ;
        let row_len: u64 = (cols as u64) * (channels as u64);
        let len: u128 = (rows as u128) * (step as u128);
        if step < row_len || data.len() as u128 != len {
            return None;
        }
        let elems = T::into_elements(data);
        proof {
            T::lemma_typed(elems@);
        }
        Some(Mat { dims: 2, rows, cols, channels, step, elems })
    }

    /// Builds a matrix of two dimensions whose rows lie back to back in
    /// `data`. The store must hold exactly one element for each channel of
    /// each position.
    pub fn from_vec<T: OpenCvElement>(rows: i32, cols: i32, channels: i32, data: Vec<T>) -> (mat:
        Option<Mat>)
        ensures
            mat is Some <==> rows >= 0 && cols >= 0 && channels >= 1 && data@.len() == rows * (cols
                * channels),
            mat matches Some(m) ==> m.spec_is_continuous() && m.spec_rows() == rows
                && m.spec_cols() == cols && m.spec_channels() == channels && m.spec_depth()
                == T::spec_depth() && m.spec_elements::<T>() == data@,
    {
        if rows < 0 || cols < 0 || channels < 1 {
            return None;
        }
        assert(cols * channels <= 0x7fff_ffff * 0x7fff_ffff) by (nonlinear_arith)
            requires
                0 <= cols <= 0x7fff_ffff,
                0 <= channels <= 0x7fff_ffff,
        ;
        let step: u64 = (cols as u64) * (channels as u64);
        Self::from_vec_with_step(rows, cols, channels, step, data)
    }

    /// Builds a matrix of more than two dimensions over `elems`.
    pub fn new_nd(dims: i32, channels: i32, elems: Elements) -> (mat: Option<Mat>)
        ensures
            mat is Some <==> dims > 2 && channels >= 1,
            mat matches Some(m) ==> m.spec_dims() == dims && m.spec_rows() == -1 && m.spec_cols()
                == -1 && m.spec_channels() == channels && m.spec_step() == 0 && m.spec_elems()
                == elems@,
    {
        if dims > 2 && channels >= 1 {
            Some(Mat { dims, rows: -1, cols: -1, channels, step: 0, elems })
        } else {
            None
        }
    }

    #[verifier::when_used_as_spec(spec_dims)]
    pub fn dims(&self) -> (dims: i32)
        ensures
            dims == self.spec_dims(),
    {
        self.dims
    }

    /// The number of rows, or `-1` for a matrix of more than two dimensions.
    #[verifier::when_used_as_spec(spec_rows)]
    pub fn rows(&self) -> (rows: i32)
        ensures
            rows == self.spec_rows(),
    {
        self.rows
    }

    /// The number of columns, or `-1` for a matrix of more than two
    /// dimensions.
    #[verifier::when_used_as_spec(spec_cols)]
    pub fn cols(&self) -> (cols: i32)
        ensures
            cols == self.spec_cols(),
    {
        self.cols
    }

    #[verifier::when_used_as_spec(spec_channels)]
    pub fn channels(&self) -> (channels: i32)
        ensures
            channels == self.spec_channels(),
    {
        self.channels
    }

    #[verifier::when_used_as_spec(spec_depth)]
    pub fn depth(&self) -> (depth: Depth)
        ensures
            depth == self.spec_depth(),
    {
        self.elems.depth()
    }

    /// The distance, in elements, from the start of one row to the start of
    /// the next.
    #[verifier::when_used_as_spec(spec_step)]
    pub fn step(&self) -> (step: u64)
        ensures
            step == self.spec_step(),
    {
        self.step
    }

    #[verifier::when_used_as_spec(spec_is_continuous)]
    pub fn is_continuous(&self) -> (continuous: bool)
        ensures
            continuous == self.spec_is_continuous(),
    {
        proof {
            use_type_invariant(self);
        }
        self.dims == 2 && self.step as u128 == (self.cols as u128) * (self.channels as u128)
    }

    /// The whole content as one run of elements of type `T`: there is one
    /// exactly when the matrix holds elements of that type and its rows lie
    /// back to back.
    pub fn as_slice<T: OpenCvElement>(&self) -> (slice: Option<&[T]>)
        ensures
            slice is Some <==> self.spec_is_continuous() && self.spec_depth() == T::spec_depth(),
            slice matches Some(s) ==> s@ == self.spec_elements::<T>(),
    {
        proof {
            T::lemma_typed(self.elems@);
        }
        if !self.is_continuous() {
            return None;
        }
        match T::typed(&self.elems) {
            Some(data) => Some(data.as_slice()),
            None => None,
        }
    }

    /// Channel `ch` of the element in row `row` and column `col`, read as an
    /// element of type `T`: `None` when the matrix holds another type, has
    /// more than two dimensions, or has no such position.
    pub fn at_2d<T: OpenCvElement>(&self, row: i32, col: i32, ch: i32) -> (value: Option<T>)
        ensures
            value == if self.spec_dims() == 2 && self.spec_depth() == T::spec_depth() && 0 <= row
                < self.spec_rows() && 0 <= col < self.spec_cols() && 0 <= ch
                < self.spec_channels() {
                Some(self.spec_at::<T>(row as int, col as int, ch as int))
            } else {
                None
            },
    {
        proof {
            use_type_invariant(self);
            T::lemma_typed(self.elems@);
        }
        if self.dims != 2 || row < 0 || row >= self.rows || col < 0 || col >= self.cols || ch < 0
            || ch >= self.channels {
            return None;
        }
        match T::typed(&self.elems) {
            Some(data) => {
                proof {
                    lemma_element_index_in_range(
                        self.rows as int,
                        self.cols as int,
                        self.channels as int,
                        self.step as int,
                        row as int,
                        col as int,
                        ch as int,
                    );
                    assert(self.rows * self.step == data.len());
                    assert(self.step <= self.rows * self.step) by (nonlinear_arith)
                        requires
                            1 <= self.rows,
                            0 <= self.step,
                    ;
                }
                let start: usize = (row as usize) * (self.step as usize);
                let offset: usize = (col as usize) * (self.channels as usize) + (ch as usize);
                Some(data[start + offset])
            },
            None => None,
        }
    }

    /// The content holds, at the place of each position in row-major order,
    /// the element that the store holds for that position.
    pub proof fn lemma_pixels_at<T: OpenCvElement>(&self, row: int, col: int, ch: int)
        requires
            self.inv(),
            self.spec_dims() == 2,
            0 <= row < self.spec_rows(),
            0 <= col < self.spec_cols(),
            0 <= ch < self.spec_channels(),
        ensures
            0 <= row * self.spec_row_len() + col * self.spec_channels() + ch < self.spec_total(),
            self.spec_pixels::<T>()[row * self.spec_row_len() + col * self.spec_channels() + ch]
                == self.spec_at::<T>(row, col, ch),
    {
        let row_len = self.spec_row_len();
        let k = row * row_len + col * self.spec_channels() + ch;
        lemma_element_index_in_range(
            self.spec_rows() as int,
            self.spec_cols() as int,
            self.spec_channels() as int,
            row_len,
            row,
            col,
            ch,
        );
        lemma_fundamental_div_mod_converse(k, row_len, row, col * self.spec_channels() + ch);
    }

    /// When the rows lie back to back, the store is the content: reading the
    /// store in one run and reading position by position give the same
    /// elements in the same order.
    pub proof fn lemma_continuous_pixels<T: OpenCvElement>(&self)
        requires
            self.inv(),
            self.spec_is_continuous(),
            self.spec_depth() == T::spec_depth(),
        ensures
            self.spec_pixels::<T>() == self.spec_elements::<T>(),
    {
        let row_len = self.spec_row_len();
        T::lemma_typed(self.spec_elems());
        assert(self.spec_elements::<T>().len() == self.spec_total());
        assert forall|i: int| 0 <= i < self.spec_total() implies self.spec_pixels::<T>()[i]
            == self.spec_elements::<T>()[i] by {
            if row_len != 0 {
                lemma_fundamental_div_mod(i, row_len);
                assert((i / row_len) * row_len == row_len * (i / row_len)) by (nonlinear_arith);
            } else {
                assert(self.spec_rows() * row_len == 0) by (nonlinear_arith)
                    requires
                        row_len == 0,
                ;
            }
        }
        assert(self.spec_pixels::<T>() =~= self.spec_elements::<T>());
    }
}

} // verus!
