use vstd::prelude::*;

verus! {

/// Mathematical picture of a [`Tensor`]: its elements in row-major order and its shape.
pub ghost struct TensorView {
    pub data: Seq<u32>,
    pub rows: nat,
    pub cols: nat,
}

/// A two-dimensional row-major matrix of binary32 bit patterns.
///
/// The buffer always holds exactly `rows * cols` elements.
#[derive(Debug)]
pub struct Tensor {
    data: Vec<u32>,
    rows: usize,
    cols: usize,
}

impl View for Tensor {
    type V = TensorView;

    closed spec fn view(&self) -> TensorView {
        TensorView { data: self.data@, rows: self.rows as nat, cols: self.cols as nat }
    }
}

impl Tensor {
    #[verifier::type_invariant]
    spec fn well_formed(self) -> bool {
        self.data@.len() == self.rows * self.cols
    }

    /// Wraps `data` as a `rows` by `cols` matrix; `None` when the buffer does not hold
    /// exactly `rows * cols` elements.
    pub fn new_2d(data: Vec<u32>, rows: usize, cols: usize) -> (r: Option<Tensor>)
        ensures
            r is Some <==> data@.len() == rows * cols,
            r matches Some(t) ==> t@ == (TensorView { data: data@, rows: rows as nat, cols: cols as nat }),
    {
        let len = data.len();
        match rows.checked_mul(cols) {
            Some(area) => {
                if area == len {
                    Some(Tensor { data, rows, cols })
                } else {
                    None
                }
            },
            None => None,
        }
    }

    /// Wraps a buffer already known to hold `rows * cols` elements.
    pub(crate) fn from_parts(data: Vec<u32>, rows: usize, cols: usize) -> (r: Tensor)
        requires
            data@.len() == rows * cols,
        ensures
            r@ == (TensorView { data: data@, rows: rows as nat, cols: cols as nat }),
    {
        Tensor { data, rows, cols }
    }

    /// The elements, row after row.
    pub fn data(&self) -> (r: &Vec<u32>)
        ensures
            r@ == self@.data,
            r@.len() == self@.rows * self@.cols,
    {
        proof {
            use_type_invariant(self);
        }
        &self.data
    }

    /// Number of rows.
    pub fn rows(&self) -> (r: usize)
        ensures
            r == self@.rows,
    {
        self.rows
    }

    /// Number of columns.
    pub fn cols(&self) -> (r: usize)
        ensures
            r == self@.cols,
    {
        self.cols
    }

    /// Gives up the matrix and returns its elements, row after row.
    pub fn into_data(self) -> (r: Vec<u32>)
        ensures
            r@ == self@.data,
            r@.len() == self@.rows * self@.cols,
    {
        proof {
            use_type_invariant(&self);
        }
        self.data
    }
}

} // verus!
