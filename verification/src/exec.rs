//! Typed execution dispatch: one entry point per supported
//! (direction, precision, domain) combination, each constrained to the buffer
//! element types its variant requires, so that mismatched buffers are a
//! compile-time error and a mismatched plan configuration is rejected before
//! any native call is issued.
//!
//! Buffers are device-resident memory this crate never allocates, frees or
//! dereferences: a buffer value carries the device address and the element
//! count, in units of the element type the variant requires. In-place
//! transforms pass the same buffer as input and output; input and output
//! buffers that overlap without being identical are the caller's
//! responsibility, as the engine leaves their effect undefined.
//!
//! An accepted request means the native call may be enqueued on the plan's
//! bound stream; the call returns once enqueueing succeeds or fails and never
//! waits for device-side completion. Translate the status the engine returned
//! with `apply_exec`; a failure leaves the plan configured as before, and
//! buffers as the engine left them.

use vstd::prelude::*;

use crate::descriptor::{Direction, TransformKind};
use crate::plan::{CudaFFT, PlanState, exec_permitted};
use crate::status::{CufftError, FftError, cufftResult_t};

verus! {

/// Device buffer of single-precision real elements.
#[derive(Clone, Copy, Debug, PartialEq, Eq, Structural)]
pub struct RealBuf32 {
    /// Device address of the first element.
    pub addr: usize,
    /// Number of elements.
    pub len: usize,
}

/// Device buffer of single-precision complex elements.
#[derive(Clone, Copy, Debug, PartialEq, Eq, Structural)]
pub struct ComplexBuf32 {
    /// Device address of the first element.
    pub addr: usize,
    /// Number of elements.
    pub len: usize,
}

/// Device buffer of double-precision real elements.
#[derive(Clone, Copy, Debug, PartialEq, Eq, Structural)]
pub struct RealBuf64 {
    /// Device address of the first element.
    pub addr: usize,
    /// Number of elements.
    pub len: usize,
}

/// Device buffer of double-precision complex elements.
#[derive(Clone, Copy, Debug, PartialEq, Eq, Structural)]
pub struct ComplexBuf64 {
    /// Device address of the first element.
    pub addr: usize,
    /// Number of elements.
    pub len: usize,
}

/// Parameters of one native execution call: which plan to run, on which
/// stream its work will be enqueued, the two device addresses, and the
/// direction flag (fixed at forward for real-to-complex and at inverse for
/// complex-to-real, where the engine takes no flag).
#[derive(Clone, Copy, Debug, PartialEq, Eq, Structural)]
pub struct ExecRequest {
    /// The native plan identifier to execute.
    pub plan: i32,
    /// The stream the plan is bound to; the engine enqueues the work there.
    pub stream: u64,
    /// Device address of the input buffer.
    pub idata: usize,
    /// Device address of the output buffer.
    pub odata: usize,
    /// The engine's integer direction flag.
    pub direction: i32,
}

/// Outcome of the native execution call an accepted request described:
/// success exactly on `CUFFT_SUCCESS`, otherwise `ExecutionError` carrying
/// the status. The plan's configuration is unaffected either way.
pub fn apply_exec(status: cufftResult_t) -> (r: Result<(), FftError>)
    ensures
        r is Ok <==> status is CUFFT_SUCCESS,
        r matches Err(e) ==> e == FftError::ExecutionError(CufftError(status)),
{
    match status {
        cufftResult_t::CUFFT_SUCCESS => Ok(()),
        _ => Err(FftError::ExecutionError(CufftError(status))),
    }
}

impl CudaFFT {
    /// Shared gate of the six dispatch entry points: the plan must be
    /// configured, with the requested pairing, and both buffers must hold the
    /// element counts the configured shape requires.
    fn dispatch(
        &self,
        kind: TransformKind,
        ilen: usize,
        olen: usize,
        iaddr: usize,
        oaddr: usize,
        direction: i32,
    ) -> (r: Result<ExecRequest, FftError>)
        requires
            self.wf(),
        ensures
            r is Ok <==> exec_permitted(self.plan_state(), kind, ilen as int, olen as int),
            r matches Ok(q) ==> q == (ExecRequest {
                plan: self.plan_id(),
                stream: self.stream_id(),
                idata: iaddr,
                odata: oaddr,
                direction,
            }),
            r == Err::<ExecRequest, FftError>(FftError::VariantMismatchError) <==> (
            self.plan_state() matches PlanState::Configured(d) && d.kind != kind),
            !(self.plan_state() is Configured) ==> r == Err::<ExecRequest, FftError>(
                FftError::ExecutionError(CufftError(cufftResult_t::CUFFT_INVALID_PLAN)),
            ),
            (self.plan_state() matches PlanState::Configured(d) && d.kind == kind && (ilen
                < d.required_input_elems() || olen < d.required_output_elems())) ==> r == Err::<
                ExecRequest,
                FftError,
            >(FftError::ExecutionError(CufftError(cufftResult_t::CUFFT_INVALID_SIZE))),
    {
        match self.current_state() {
            PlanState::Configured(d) => {
                if d.kind != kind {
                    Err(FftError::VariantMismatchError)
                } else {
                    let fits: bool = match (d.required_input_len(), d.required_output_len()) {
                        (Some(ri), Some(ro)) => ilen >= ri && olen >= ro,
                        _ => false,
                    };
                    if fits {
                        Ok(
                            ExecRequest {
                                plan: self.handle(),
                                stream: self.stream(),
                                idata: iaddr,
                                odata: oaddr,
                                direction,
                            },
                        )
                    } else {
                        Err(
                            FftError::ExecutionError(
                                CufftError(cufftResult_t::CUFFT_INVALID_SIZE),
                            ),
                        )
                    }
                }
            },
            _ => Err(FftError::ExecutionError(CufftError(cufftResult_t::CUFFT_INVALID_PLAN))),
        }
    }

    /// Complex-to-complex, single precision, with an explicit direction.
    pub fn exec_c2c(&self, idata: &ComplexBuf32, odata: &ComplexBuf32, direction: Direction) -> (r:
        Result<ExecRequest, FftError>)
        requires
            self.wf(),
        ensures
            r is Ok <==> exec_permitted(
                self.plan_state(),
                TransformKind::C2C,
                idata.len as int,
                odata.len as int,
            ),
            r matches Ok(q) ==> q == (ExecRequest {
                plan: self.plan_id(),
                stream: self.stream_id(),
                idata: idata.addr,
                odata: odata.addr,
                direction: direction.spec_code(),
            }),
            r == Err::<ExecRequest, FftError>(FftError::VariantMismatchError) <==> (
            self.plan_state() matches PlanState::Configured(d) && d.kind != TransformKind::C2C),
            !(self.plan_state() is Configured) ==> r == Err::<ExecRequest, FftError>(
                FftError::ExecutionError(CufftError(cufftResult_t::CUFFT_INVALID_PLAN)),
            ),
            (self.plan_state() matches PlanState::Configured(d) && d.kind == TransformKind::C2C
                && (idata.len < d.required_input_elems() || odata.len
                < d.required_output_elems())) ==> r == Err::<ExecRequest, FftError>(
                FftError::ExecutionError(CufftError(cufftResult_t::CUFFT_INVALID_SIZE)),
            ),
    {
        self.dispatch(
            TransformKind::C2C,
            idata.len,
            odata.len,
            idata.addr,
            odata.addr,
            direction.code(),
        )
    }

    /// Real-to-complex, single precision; implicitly forward.
    pub fn exec_r2c(&self, idata: &RealBuf32, odata: &ComplexBuf32) -> (r: Result<
        ExecRequest,
        FftError,
    >)
        requires
            self.wf(),
        ensures
            r is Ok <==> exec_permitted(
                self.plan_state(),
                TransformKind::R2C,
                idata.len as int,
                odata.len as int,
            ),
            r matches Ok(q) ==> q == (ExecRequest {
                plan: self.plan_id(),
                stream: self.stream_id(),
                idata: idata.addr,
                odata: odata.addr,
                direction: Direction::Forward.spec_code(),
            }),
            r == Err::<ExecRequest, FftError>(FftError::VariantMismatchError) <==> (
            self.plan_state() matches PlanState::Configured(d) && d.kind != TransformKind::R2C),
            !(self.plan_state() is Configured) ==> r == Err::<ExecRequest, FftError>(
                FftError::ExecutionError(CufftError(cufftResult_t::CUFFT_INVALID_PLAN)),
            ),
            (self.plan_state() matches PlanState::Configured(d) && d.kind == TransformKind::R2C
                && (idata.len < d.required_input_elems() || odata.len
                < d.required_output_elems())) ==> r == Err::<ExecRequest, FftError>(
                FftError::ExecutionError(CufftError(cufftResult_t::CUFFT_INVALID_SIZE)),
            ),
    {
        self.dispatch(
            TransformKind::R2C,
            idata.len,
            odata.len,
            idata.addr,
            odata.addr,
            Direction::Forward.code(),
        )
    }

    /// Complex-to-real, single precision; implicitly inverse.
    pub fn exec_c2r(&self, idata: &ComplexBuf32, odata: &RealBuf32) -> (r: Result<
        ExecRequest,
        FftError,
    >)
        requires
            self.wf(),
        ensures
            r is Ok <==> exec_permitted(
                self.plan_state(),
                TransformKind::C2R,
                idata.len as int,
                odata.len as int,
            ),
            r matches Ok(q) ==> q == (ExecRequest {
                plan: self.plan_id(),
                stream: self.stream_id(),
                idata: idata.addr,
                odata: odata.addr,
                direction: Direction::Inverse.spec_code(),
            }),
            r == Err::<ExecRequest, FftError>(FftError::VariantMismatchError) <==> (
            self.plan_state() matches PlanState::Configured(d) && d.kind != TransformKind::C2R),
            !(self.plan_state() is Configured) ==> r == Err::<ExecRequest, FftError>(
                FftError::ExecutionError(CufftError(cufftResult_t::CUFFT_INVALID_PLAN)),
            ),
            (self.plan_state() matches PlanState::Configured(d) && d.kind == TransformKind::C2R
                && (idata.len < d.required_input_elems() || odata.len
                < d.required_output_elems())) ==> r == Err::<ExecRequest, FftError>(
                FftError::ExecutionError(CufftError(cufftResult_t::CUFFT_INVALID_SIZE)),
            ),
    {
        self.dispatch(
            TransformKind::C2R,
            idata.len,
            odata.len,
            idata.addr,
            odata.addr,
            Direction::Inverse.code(),
        )
    }

    /// Complex-to-complex, double precision, with an explicit direction.
    pub fn exec_z2z(&self, idata: &ComplexBuf64, odata: &ComplexBuf64, direction: Direction) -> (r:
        Result<ExecRequest, FftError>)
        requires
            self.wf(),
        ensures
            r is Ok <==> exec_permitted(
                self.plan_state(),
                TransformKind::Z2Z,
                idata.len as int,
                odata.len as int,
            ),
            r matches Ok(q) ==> q == (ExecRequest {
                plan: self.plan_id(),
                stream: self.stream_id(),
                idata: idata.addr,
                odata: odata.addr,
                direction: direction.spec_code(),
            }),
            r == Err::<ExecRequest, FftError>(FftError::VariantMismatchError) <==> (
            self.plan_state() matches PlanState::Configured(d) && d.kind != TransformKind::Z2Z),
            !(self.plan_state() is Configured) ==> r == Err::<ExecRequest, FftError>(
                FftError::ExecutionError(CufftError(cufftResult_t::CUFFT_INVALID_PLAN)),
            ),
            (self.plan_state() matches PlanState::Configured(d) && d.kind == TransformKind::Z2Z
                && (idata.len < d.required_input_elems() || odata.len
                < d.required_output_elems())) ==> r == Err::<ExecRequest, FftError>(
                FftError::ExecutionError(CufftError(cufftResult_t::CUFFT_INVALID_SIZE)),
            ),
    {
        self.dispatch(
            TransformKind::Z2Z,
            idata.len,
            odata.len,
            idata.addr,
            odata.addr,
            direction.code(),
        )
    }

    /// Real-to-complex, double precision; implicitly forward.
    pub fn exec_d2z(&self, idata: &RealBuf64, odata: &ComplexBuf64) -> (r: Result<
        ExecRequest,
        FftError,
    >)
        requires
            self.wf(),
        ensures
            r is Ok <==> exec_permitted(
                self.plan_state(),
                TransformKind::D2Z,
                idata.len as int,
                odata.len as int,
            ),
            r matches Ok(q) ==> q == (ExecRequest {
                plan: self.plan_id(),
                stream: self.stream_id(),
                idata: idata.addr,
                odata: odata.addr,
                direction: Direction::Forward.spec_code(),
            }),
            r == Err::<ExecRequest, FftError>(FftError::VariantMismatchError) <==> (
            self.plan_state() matches PlanState::Configured(d) && d.kind != TransformKind::D2Z),
            !(self.plan_state() is Configured) ==> r == Err::<ExecRequest, FftError>(
                FftError::ExecutionError(CufftError(cufftResult_t::CUFFT_INVALID_PLAN)),
            ),
            (self.plan_state() matches PlanState::Configured(d) && d.kind == TransformKind::D2Z
                && (idata.len < d.required_input_elems() || odata.len
                < d.required_output_elems())) ==> r == Err::<ExecRequest, FftError>(
                FftError::ExecutionError(CufftError(cufftResult_t::CUFFT_INVALID_SIZE)),
            ),
    {
        self.dispatch(
            TransformKind::D2Z,
            idata.len,
            odata.len,
            idata.addr,
            odata.addr,
            Direction::Forward.code(),
        )
    }

    /// Complex-to-real, double precision; implicitly inverse.
    pub fn exec_z2d(&self, idata: &ComplexBuf64, odata: &RealBuf64) -> (r: Result<
        ExecRequest,
        FftError,
    >)
        requires
            self.wf(),
        ensures
            r is Ok <==> exec_permitted(
                self.plan_state(),
                TransformKind::Z2D,
                idata.len as int,
                odata.len as int,
            ),
            r matches Ok(q) ==> q == (ExecRequest {
                plan: self.plan_id(),
                stream: self.stream_id(),
                idata: idata.addr,
                odata: odata.addr,
                direction: Direction::Inverse.spec_code(),
            }),
            r == Err::<ExecRequest, FftError>(FftError::VariantMismatchError) <==> (
            self.plan_state() matches PlanState::Configured(d) && d.kind != TransformKind::Z2D),
            !(self.plan_state() is Configured) ==> r == Err::<ExecRequest, FftError>(
                FftError::ExecutionError(CufftError(cufftResult_t::CUFFT_INVALID_PLAN)),
            ),
            (self.plan_state() matches PlanState::Configured(d) && d.kind == TransformKind::Z2D
                && (idata.len < d.required_input_elems() || odata.len
                < d.required_output_elems())) ==> r == Err::<ExecRequest, FftError>(
                FftError::ExecutionError(CufftError(cufftResult_t::CUFFT_INVALID_SIZE)),
            ),
    {
        self.dispatch(
            TransformKind::Z2D,
            idata.len,
            odata.len,
            idata.addr,
            odata.addr,
            Direction::Inverse.code(),
        )
    }
}

} // verus!
