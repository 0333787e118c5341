use vstd::prelude::*;
use libc::c_int;
use crate::tensor::{Tensor, TensorView};

verus! {

/// Which accelerator kernel computes the product.
#[derive(PartialEq, Eq, Structural, Debug, Clone, Copy)]
pub enum GemmKernel {
    /// The project's own matrix-multiply kernel.
    Custom,
    /// The vendor BLAS matrix multiply.
    VendorBlas,
}

/// One of the two input matrices of `C = A * B`.
#[derive(PartialEq, Eq, Structural, Debug, Clone, Copy)]
pub enum Operand {
    A,
    B,
}

/// Why a launch did not take place.
#[derive(PartialEq, Eq, Structural, Debug, Clone, Copy)]
pub enum MatMulError {
    /// No accelerator is linked into this build.
    Unavailable,
    /// `operand` holds `len` elements where a `rows` by `cols` matrix was declared.
    SizeMismatch { operand: Operand, rows: usize, cols: usize, len: usize },
}

/// The diagnostic text of each error.
pub open spec fn error_text(e: MatMulError) -> Seq<char> {
    match e {
        MatMulError::Unavailable => "accelerator not enabled / not supported on this platform"@,
        MatMulError::SizeMismatch { operand: Operand::A, .. } => "Matrix A size mismatch"@,
        MatMulError::SizeMismatch { operand: Operand::B, .. } => "Matrix B size mismatch"@,
    }
}

impl MatMulError {
    /// A fixed diagnostic for the error.
    pub fn message(&self) -> (r: &'static str)
        ensures
            r@ == error_text(*self),
    {
        match self {
            MatMulError::Unavailable => "accelerator not enabled / not supported on this platform",
            MatMulError::SizeMismatch { operand: Operand::A, .. } => "Matrix A size mismatch",
            MatMulError::SizeMismatch { operand: Operand::B, .. } => "Matrix B size mismatch",
        }
    }
}

/// A buffer of `len` zero elements.
pub open spec fn zeros(len: nat) -> Seq<u32> {
    Seq::new(len, |i: int| 0u32)
}

/// Whether this build has an accelerator, chosen once by whoever builds the value.
#[derive(PartialEq, Eq, Structural, Debug, Clone, Copy)]
pub enum Capability {
    Enabled,
    Disabled,
}

/// Mathematical picture of a [`Launch`].
pub ghost struct LaunchView {
    pub kernel: GemmKernel,
    pub m: int,
    pub k: int,
    pub n: int,
    pub output: Seq<u32>,
}

/// A launch that passed the checks: the kernel to run, the dimensions to hand the device as
/// C `int`s, and the output buffer that the device fills in place.
///
/// The device reads A and B, which the caller still holds, and writes the `m` by `n` product
/// into [`Launch::output_mut`]; [`Launch::finish`] then returns the buffer as the result,
/// with whatever the device wrote and zeros where it wrote nothing.
#[derive(Debug)]
pub struct Launch {
    kernel: GemmKernel,
    m: c_int,
    k: c_int,
    n: c_int,
    output: Vec<u32>,
}

/// `r` is `l`'s output buffer as an `m` by `n` matrix, or `None` when the buffer does not
/// hold `m * n` elements.
pub open spec fn finishes(l: LaunchView, r: Option<Tensor>) -> bool {
    &&& r is Some <==> (0 <= l.m && 0 <= l.n && l.output.len() == l.m * l.n)
    &&& r matches Some(t) ==> t@ == (TensorView { data: l.output, rows: l.m as nat, cols: l.n as nat })
}

impl View for Launch {
    type V = LaunchView;

    closed spec fn view(&self) -> LaunchView {
        LaunchView {
            kernel: self.kernel,
            m: self.m as int,
            k: self.k as int,
            n: self.n as int,
            output: self.output@,
        }
    }
}

impl Launch {
    /// The kernel to run.
    pub fn kernel(&self) -> (r: GemmKernel)
        ensures
            r == self@.kernel,
    {
        self.kernel
    }

    /// The dimensions `(m, k, n)` to hand the device.
    pub fn dims(&self) -> (r: (c_int, c_int, c_int))
        ensures
            r.0 as int == self@.m,
            r.1 as int == self@.k,
            r.2 as int == self@.n,
    {
        (self.m, self.k, self.n)
    }

    /// The output buffer, for the device to write into.
    pub fn output_mut(&mut self) -> (r: &mut [u32])
        ensures
            r@ == old(self)@.output,
            final(self)@ == (LaunchView { output: final(r)@, ..old(self)@ }),
    {
        self.output.as_mut_slice()
    }

    /// The output buffer as the `m` by `n` result, passed on as the device left it; `None`
    /// only if the buffer no longer holds `m * n` elements, which no slice write can cause.
    pub fn finish(self) -> (r: Option<Tensor>)
        ensures
            finishes(self@, r),
    {
        if self.m < 0 || self.n < 0 {
            return None;
        }
        Tensor::new_2d(self.output, self.m as usize, self.n as usize)
    }
}

/// The size check of the launcher: A must hold `m * k` elements, then B `k * n`.
pub open spec fn size_check(a_len: nat, b_len: nat, m: usize, k: usize, n: usize) -> Result<
    (),
    MatMulError,
> {
    if a_len != m * k {
        Err(MatMulError::SizeMismatch { operand: Operand::A, rows: m, cols: k, len: a_len as usize })
    } else if b_len != k * n {
        Err(MatMulError::SizeMismatch { operand: Operand::B, rows: k, cols: n, len: b_len as usize })
    } else {
        Ok(())
    }
}

/// What a launch must end in: unavailability first, then the size check.
pub open spec fn launch_verdict(
    cap: Capability,
    a: TensorView,
    b: TensorView,
    m: usize,
    k: usize,
    n: usize,
) -> Result<(), MatMulError> {
    if cap == Capability::Disabled {
        Err(MatMulError::Unavailable)
    } else {
        size_check(a.data.len(), b.data.len(), m, k, n)
    }
}

/// `r` is exactly what preparing `kernel` on `a` and `b` gives: the error of the checks, or a
/// launch of `kernel` with dimensions `m`, `k`, `n` and a zeroed `m` by `n` output buffer.
pub open spec fn prepares(
    cap: Capability,
    kernel: GemmKernel,
    a: TensorView,
    b: TensorView,
    m: usize,
    k: usize,
    n: usize,
    r: Result<Launch, MatMulError>,
) -> bool {
    match launch_verdict(cap, a, b, m, k, n) {
        Err(e) => r == Err::<Launch, MatMulError>(e),
        Ok(_) => match r {
            Ok(l) => l@ == (LaunchView {
                kernel,
                m: m as int,
                k: k as int,
                n: n as int,
                output: zeros((m * n) as nat),
            }),
            Err(_) => false,
        },
    }
}

/// The machine limits of a launch that passes the checks: the dimensions go to the device
/// as C `int`s and the output buffer must fit in memory.
pub open spec fn launchable(cap: Capability, a: TensorView, b: TensorView, m: usize, k: usize, n: usize) -> bool {
    launch_verdict(cap, a, b, m, k, n) is Ok ==> (m <= c_int::MAX && k <= c_int::MAX && n
        <= c_int::MAX && m * n <= usize::MAX)
}

/// Checks that `a_len` and `b_len` fit the dimensions `m`, `k`, `n` of `C = A * B`.
pub fn check_sizes(a_len: usize, b_len: usize, m: usize, k: usize, n: usize) -> (r: Result<
    (),
    MatMulError,
>)
    ensures
        r == size_check(a_len as nat, b_len as nat, m, k, n),
{
    let a_fits = match m.checked_mul(k) {
        Some(area) => area == a_len,
        None => false,
    };
    if !a_fits {
        return Err(MatMulError::SizeMismatch { operand: Operand::A, rows: m, cols: k, len: a_len });
    }
    let b_fits = match k.checked_mul(n) {
        Some(area) => area == b_len,
        None => false,
    };
    if !b_fits {
        return Err(MatMulError::SizeMismatch { operand: Operand::B, rows: k, cols: n, len: b_len });
    }
    Ok(())
}

/// Prepares the product of the `m` by `k` matrix `a` and the `k` by `n` matrix `b` on `kernel`.
///
/// Without an accelerator it fails with `Unavailable`; with one, a size mismatch fails before
/// anything is handed to the device, and otherwise it returns the launch of `kernel` on a
/// zeroed `m` by `n` buffer.
pub fn mat_mul(
    cap: Capability,
    kernel: GemmKernel,
    a: &Tensor,
    b: &Tensor,
    m: usize,
    k: usize,
    n: usize,
) -> (r: Result<Launch, MatMulError>)
    requires
        launchable(cap, a@, b@, m, k, n),
    ensures
        prepares(cap, kernel, a@, b@, m, k, n, r),
{
    if cap == Capability::Disabled {
        return Err(MatMulError::Unavailable);
    }
    if let Err(e) = check_sizes(a.data().len(), b.data().len(), m, k, n) {
        return Err(e);
    }
    let output: Vec<u32> = vec![0u32; m * n];
    assert(output@ == zeros((m * n) as nat));
    Ok(Launch { kernel, m: m as c_int, k: k as c_int, n: n as c_int, output })
}

/// Prepares `a` (`m` by `k`) times `b` (`k` by `n`) on the custom kernel.
pub fn cuda_mat_mul(
    cap: Capability,
    a: &Tensor,
    b: &Tensor,
    m: usize,
    k: usize,
    n: usize,
) -> (r: Result<Launch, MatMulError>)
    requires
        launchable(cap, a@, b@, m, k, n),
    ensures
        prepares(cap, GemmKernel::Custom, a@, b@, m, k, n, r),
{
    mat_mul(cap, GemmKernel::Custom, a, b, m, k, n)
}

/// Prepares `a` (`m` by `k`) times `b` (`k` by `n`) on the vendor BLAS kernel.
pub fn cublas_mat_mul(
    cap: Capability,
    a: &Tensor,
    b: &Tensor,
    m: usize,
    k: usize,
    n: usize,
) -> (r: Result<Launch, MatMulError>)
    requires
        launchable(cap, a@, b@, m, k, n),
    ensures
        prepares(cap, GemmKernel::VendorBlas, a@, b@, m, k, n, r),
{
    mat_mul(cap, GemmKernel::VendorBlas, a, b, m, k, n)
}

/// The two operations validate alike and differ only in the kernel: on the same capability,
/// operands and dimensions they fail with the same error, or both give launches with the same
/// dimensions and the same zeroed `m` by `n` buffer, one of the custom kernel and one of the
/// vendor kernel.
pub proof fn lemma_kernels_agree(
    cap: Capability,
    a: TensorView,
    b: TensorView,
    m: usize,
    k: usize,
    n: usize,
    custom: Result<Launch, MatMulError>,
    blas: Result<Launch, MatMulError>,
)
    requires
        prepares(cap, GemmKernel::Custom, a, b, m, k, n, custom),
        prepares(cap, GemmKernel::VendorBlas, a, b, m, k, n, blas),
    ensures
        custom is Ok <==> blas is Ok,
        custom is Err ==> custom == blas,
        custom matches Ok(c) ==> blas matches Ok(d) && c@.kernel == GemmKernel::Custom
            && d@.kernel == GemmKernel::VendorBlas && d@ == (LaunchView {
            kernel: GemmKernel::VendorBlas,
            ..c@
        }),
{
}

/// Finishing passes the buffer through: two launches whose devices left the same values in
/// buffers of the same dimensions finish with the same matrix, whichever kernel ran.
pub proof fn lemma_finish_depends_on_output(x: LaunchView, y: LaunchView, rx: Option<Tensor>, ry: Option<Tensor>)
    requires
        x.m == y.m,
        x.n == y.n,
        x.output == y.output,
        finishes(x, rx),
        finishes(y, ry),
    ensures
        rx is Some <==> ry is Some,
        rx matches Some(t) ==> ry matches Some(u) && t@ == u@,
{
}

} // verus!
