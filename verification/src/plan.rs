//! The plan handle resource: ownership of one native plan identifier and the
//! lifecycle it moves through (unconfigured, configured, destroyed).
//!
//! A `CudaFFT` value is constructed only from a successfully created and
//! stream-bound native handle, so every live value is deterministically
//! associated with a stream. Each fallible lifecycle step is split in two:
//! a request method (`&self`) that validates the step and returns the exact
//! parameters of the native call to make, and an apply method (`&mut self`)
//! that takes the status the engine returned and moves the plan to its next
//! state. The unverified glue around this crate performs the native call
//! between the two halves, and only when the request half said so; a plan
//! that was destroyed, or a shape that is invalid, is therefore rejected here
//! before any native call is issued.

use vstd::prelude::*;

use crate::descriptor::{
    BatchEmbedding, BatchLayout, TransformDescriptor, TransformKind, many_descriptor,
};
use crate::status::{CufftError, FftError, cufftResult_t};

verus! {

/// Configuration state of a plan handle.
#[derive(Clone, Copy, Debug, PartialEq, Eq, Structural)]
pub enum PlanState {
    /// Created and stream-bound, but not yet configured; no execution is
    /// permitted.
    Unconfigured,
    /// Configured with exactly this descriptor; executions of the matching
    /// variant are permitted, arbitrarily many times.
    Configured(TransformDescriptor),
    /// The native handle has been released; every further native call on it
    /// is refused.
    Destroyed,
}

/// State a configuration attempt leaves the plan in: a destroyed plan stays
/// destroyed (no native call was issued), a successful call on a well-formed
/// descriptor configures the plan, and any rejected attempt leaves it
/// unconfigured, so that no execution is permitted afterwards.
pub open spec fn configure_transition(
    s: PlanState,
    desc: TransformDescriptor,
    status: cufftResult_t,
) -> PlanState {
    if s is Destroyed {
        PlanState::Destroyed
    } else if status is CUFFT_SUCCESS && desc.wf() {
        PlanState::Configured(desc)
    } else {
        PlanState::Unconfigured
    }
}

/// Destruction always ends in `Destroyed`, from every state.
pub open spec fn destroy_transition(s: PlanState) -> PlanState {
    PlanState::Destroyed
}

/// Whether destruction from state `s` releases the native handle: it does
/// exactly when the handle has not been released before.
pub open spec fn destroy_releases(s: PlanState) -> bool {
    !(s is Destroyed)
}

/// Whether a plan in state `s` permits an execution of pairing `kind` on an
/// input buffer of `ilen` and an output buffer of `olen` elements.
pub open spec fn exec_permitted(s: PlanState, kind: TransformKind, ilen: int, olen: int) -> bool {
    s matches PlanState::Configured(d) && d.kind == kind
        && ilen >= d.required_input_elems() && olen >= d.required_output_elems()
}

/// Parameters of one native stream-association call.
#[derive(Clone, Copy, Debug, PartialEq, Eq, Structural)]
pub struct BindRequest {
    /// The native plan identifier to associate.
    pub plan: i32,
    /// The stream identifier to associate it with.
    pub stream: u64,
}

/// Parameters of one native configuration call.
#[derive(Clone, Copy, Debug, PartialEq, Eq, Structural)]
pub struct ConfigRequest {
    /// The native plan identifier to configure.
    pub plan: i32,
    /// The shape and pairing to configure it with.
    pub desc: TransformDescriptor,
    /// Whether to use the staged entry point, which reports the scratch work
    /// area size the plan needs, instead of the simple one.
    pub staged: bool,
    /// Whether to use the generalized batched entry point; otherwise the
    /// fixed-rank entry point of `desc.rank` is meant (whose one-dimensional
    /// form alone takes the batch count).
    pub batched: bool,
}

/// Owner of one native plan handle, bound to one stream, for the whole
/// lifetime of the value. The type is deliberately neither clonable nor
/// copyable: exactly one live value owns a given native identifier, so the
/// identifier cannot be used or released through a second owner after
/// destruction.
#[derive(Debug, PartialEq, Eq, Structural)]
pub struct CudaFFT {
    plan: i32,
    stream: u64,
    default_stream: u64,
    state: PlanState,
}

/// Outcome of a native handle-creation call: the new identifier on success,
/// `CreationError` otherwise.
pub fn create_plan_handle(create_status: cufftResult_t, raw: i32) -> (r: Result<i32, FftError>)
    ensures
        r is Ok <==> create_status is CUFFT_SUCCESS,
        r matches Ok(h) ==> h == raw,
        r matches Err(e) ==> e == FftError::CreationError(CufftError(create_status)),
{
    match create_status {
        cufftResult_t::CUFFT_SUCCESS => Ok(raw),
        _ => Err(FftError::CreationError(CufftError(create_status))),
    }
}

impl CudaFFT {
    /// The native identifier this value owns.
    pub closed spec fn plan_id(self) -> i32 {
        self.plan
    }

    /// The stream this plan is currently bound to.
    pub closed spec fn stream_id(self) -> u64 {
        self.stream
    }

    /// The stream of the device context this plan was created under: the one
    /// a rebind without an explicit stream falls back to, so that the plan is
    /// always deterministically associated with some stream.
    pub closed spec fn default_stream_id(self) -> u64 {
        self.default_stream
    }

    /// The lifecycle state this plan is in.
    pub closed spec fn plan_state(self) -> PlanState {
        self.state
    }

    /// A valid plan value: whatever it is configured with is well-formed.
    pub open spec fn wf(self) -> bool {
        self.plan_state() matches PlanState::Configured(d) ==> d.wf()
    }

    /// Take ownership of a freshly created native handle whose stream
    /// association the engine answered with `bind_status`. On success the
    /// plan is unconfigured and bound to `stream`; on failure no value
    /// exists, and the caller still holds the raw handle and must release it.
    pub fn new(handle: i32, stream: u64, bind_status: cufftResult_t) -> (r: Result<
        CudaFFT,
        FftError,
    >)
        ensures
            r is Ok <==> bind_status is CUFFT_SUCCESS,
            r matches Ok(f) ==> f.plan_id() == handle && f.stream_id() == stream
                && f.default_stream_id() == stream && f.plan_state() is Unconfigured && f.wf(),
            r matches Err(e) ==> e == FftError::StreamBindingError(CufftError(bind_status)),
    {
        match bind_status {
            cufftResult_t::CUFFT_SUCCESS => Ok(
                CudaFFT { plan: handle, stream, default_stream: stream, state: PlanState::Unconfigured },
            ),
            _ => Err(FftError::StreamBindingError(CufftError(bind_status))),
        }
    }

    /// The native identifier, for handing to a native call.
    pub fn handle(&self) -> (r: i32)
        ensures
            r == self.plan_id(),
    {
        self.plan
    }

    /// The stream this plan is currently bound to, as execution dispatch
    /// records it in each request.
    pub fn stream(&self) -> (r: u64)
        ensures
            r == self.stream_id(),
    {
        self.stream
    }

    /// The lifecycle state, for dispatch decisions.
    pub fn current_state(&self) -> (r: PlanState)
        ensures
            r == self.plan_state(),
    {
        self.state
    }

    /// Whether the native handle has been released.
    pub fn is_destroyed(&self) -> (r: bool)
        ensures
            r == (self.plan_state() is Destroyed),
    {
        matches!(self.state, PlanState::Destroyed)
    }

    /// Request to rebind this plan to `opt_stream`, or back to its creation
    /// context's stream where none is given. Permitted in every live state;
    /// configuration is untouched, so a configured plan needs no
    /// reconfiguration around a rebind. Refused on a destroyed plan, with no
    /// native call issued.
    pub fn set_stream(&self, opt_stream: Option<u64>) -> (r: Result<BindRequest, FftError>)
        ensures
            r is Ok <==> !(self.plan_state() is Destroyed),
            r matches Ok(q) ==> q == (BindRequest {
                plan: self.plan_id(),
                stream: match opt_stream {
                    Some(s) => s,
                    None => self.default_stream_id(),
                },
            }),
            r matches Err(e) ==> e == FftError::StreamBindingError(
                CufftError(cufftResult_t::CUFFT_INVALID_PLAN),
            ),
    {
        match self.state {
            PlanState::Destroyed => Err(
                FftError::StreamBindingError(CufftError(cufftResult_t::CUFFT_INVALID_PLAN)),
            ),
            _ => Ok(
                BindRequest {
                    plan: self.plan,
                    stream: match opt_stream {
                        Some(s) => s,
                        None => self.default_stream,
                    },
                },
            ),
        }
    }

    /// Record the outcome of the stream-association call `set_stream`
    /// requested. On success the plan is bound to `stream`; on failure the
    /// old binding stands. The configuration state never changes.
    pub fn apply_set_stream(&mut self, stream: u64, status: cufftResult_t) -> (r: Result<
        (),
        FftError,
    >)
        ensures
            final(self).plan_id() == old(self).plan_id(),
            final(self).default_stream_id() == old(self).default_stream_id(),
            final(self).plan_state() == old(self).plan_state(),
            final(self).wf() == old(self).wf(),
            r is Ok <==> !(old(self).plan_state() is Destroyed) && status is CUFFT_SUCCESS,
            r is Ok ==> final(self).stream_id() == stream,
            !(r is Ok) ==> final(self).stream_id() == old(self).stream_id(),
            old(self).plan_state() is Destroyed ==> r == Err::<(), FftError>(
                FftError::StreamBindingError(CufftError(cufftResult_t::CUFFT_INVALID_PLAN)),
            ),
            !(old(self).plan_state() is Destroyed) && !(status is CUFFT_SUCCESS) ==> r == Err::<
                (),
                FftError,
            >(FftError::StreamBindingError(CufftError(status))),
    {
        if matches!(self.state, PlanState::Destroyed) {
            Err(FftError::StreamBindingError(CufftError(cufftResult_t::CUFFT_INVALID_PLAN)))
        } else if matches!(status, cufftResult_t::CUFFT_SUCCESS) {
            self.stream = stream;
            Ok(())
        } else {
            Err(FftError::StreamBindingError(CufftError(status)))
        }
    }

    /// Request a one-dimensional configuration: `batch` transforms of length
    /// `nx` with pairing `kind`. Refused with `ConfigurationError` on a
    /// destroyed plan or a non-positive extent or batch count, with no native
    /// call issued.
    pub fn new_plan_1d(&self, nx: i32, kind: TransformKind, batch: i32) -> (r: Result<
        ConfigRequest,
        FftError,
    >)
        ensures
            r is Ok <==> !(self.plan_state() is Destroyed) && nx >= 1 && batch >= 1,
            r matches Ok(q) ==> q == (ConfigRequest {
                plan: self.plan_id(),
                desc: TransformDescriptor {
                    kind,
                    rank: 1,
                    nx,
                    ny: 1,
                    nz: 1,
                    batch,
                    layout: BatchLayout::Contiguous,
                },
                staged: false,
                batched: false,
            }) && q.desc.wf(),
            self.plan_state() is Destroyed ==> r == Err::<ConfigRequest, FftError>(
                FftError::ConfigurationError(CufftError(cufftResult_t::CUFFT_INVALID_PLAN)),
            ),
            !(self.plan_state() is Destroyed) && (nx < 1 || batch < 1) ==> r == Err::<
                ConfigRequest,
                FftError,
            >(FftError::ConfigurationError(CufftError(cufftResult_t::CUFFT_INVALID_SIZE))),
    {
        if matches!(self.state, PlanState::Destroyed) {
            Err(FftError::ConfigurationError(CufftError(cufftResult_t::CUFFT_INVALID_PLAN)))
        } else if nx < 1 || batch < 1 {
            Err(FftError::ConfigurationError(CufftError(cufftResult_t::CUFFT_INVALID_SIZE)))
        } else {
            Ok(
                ConfigRequest {
                    plan: self.plan,
                    desc: TransformDescriptor {
                    kind,
                    rank: 1,
                    nx,
                    ny: 1,
                    nz: 1,
                    batch,
                    layout: BatchLayout::Contiguous,
                },
                    staged: false,
                    batched: false,
                },
            )
        }
    }

    /// Request a two-dimensional configuration of extents `nx` by `ny` with
    /// pairing `kind`; the engine's two-dimensional entry point takes no
    /// batch count, so the batch is 1. Refused with `ConfigurationError` on a
    /// destroyed plan or a non-positive extent, with no native call issued.
    pub fn new_plan_2d(&self, nx: i32, ny: i32, kind: TransformKind) -> (r: Result<
        ConfigRequest,
        FftError,
    >)
        ensures
            r is Ok <==> !(self.plan_state() is Destroyed) && nx >= 1 && ny >= 1,
            r matches Ok(q) ==> q == (ConfigRequest {
                plan: self.plan_id(),
                desc: TransformDescriptor {
                    kind,
                    rank: 2,
                    nx,
                    ny,
                    nz: 1,
                    batch: 1,
                    layout: BatchLayout::Contiguous,
                },
                staged: false,
                batched: false,
            }) && q.desc.wf(),
            self.plan_state() is Destroyed ==> r == Err::<ConfigRequest, FftError>(
                FftError::ConfigurationError(CufftError(cufftResult_t::CUFFT_INVALID_PLAN)),
            ),
            !(self.plan_state() is Destroyed) && (nx < 1 || ny < 1) ==> r == Err::<
                ConfigRequest,
                FftError,
            >(FftError::ConfigurationError(CufftError(cufftResult_t::CUFFT_INVALID_SIZE))),
    {
        if matches!(self.state, PlanState::Destroyed) {
            Err(FftError::ConfigurationError(CufftError(cufftResult_t::CUFFT_INVALID_PLAN)))
        } else if nx < 1 || ny < 1 {
            Err(FftError::ConfigurationError(CufftError(cufftResult_t::CUFFT_INVALID_SIZE)))
        } else {
            Ok(
                ConfigRequest {
                    plan: self.plan,
                    desc: TransformDescriptor {
                    kind,
                    rank: 2,
                    nx,
                    ny,
                    nz: 1,
                    batch: 1,
                    layout: BatchLayout::Contiguous,
                },
                    staged: false,
                    batched: false,
                },
            )
        }
    }

    /// Request a three-dimensional configuration of extents `nx` by `ny` by
    /// `nz` with pairing `kind`; the engine's three-dimensional entry point
    /// takes no batch count, so the batch is 1. Refused with
    /// `ConfigurationError` on a destroyed plan or a non-positive extent,
    /// with no native call issued.
    pub fn new_plan_3d(&self, nx: i32, ny: i32, nz: i32, kind: TransformKind) -> (r: Result<
        ConfigRequest,
        FftError,
    >)
        ensures
            r is Ok <==> !(self.plan_state() is Destroyed) && nx >= 1 && ny >= 1 && nz >= 1,
            r matches Ok(q) ==> q == (ConfigRequest {
                plan: self.plan_id(),
                desc: TransformDescriptor {
                    kind,
                    rank: 3,
                    nx,
                    ny,
                    nz,
                    batch: 1,
                    layout: BatchLayout::Contiguous,
                },
                staged: false,
                batched: false,
            }) && q.desc.wf(),
            self.plan_state() is Destroyed ==> r == Err::<ConfigRequest, FftError>(
                FftError::ConfigurationError(CufftError(cufftResult_t::CUFFT_INVALID_PLAN)),
            ),
            !(self.plan_state() is Destroyed) && (nx < 1 || ny < 1 || nz < 1) ==> r == Err::<
                ConfigRequest,
                FftError,
            >(FftError::ConfigurationError(CufftError(cufftResult_t::CUFFT_INVALID_SIZE))),
    {
        if matches!(self.state, PlanState::Destroyed) {
            Err(FftError::ConfigurationError(CufftError(cufftResult_t::CUFFT_INVALID_PLAN)))
        } else if nx < 1 || ny < 1 || nz < 1 {
            Err(FftError::ConfigurationError(CufftError(cufftResult_t::CUFFT_INVALID_SIZE)))
        } else {
            Ok(
                ConfigRequest {
                    plan: self.plan,
                    desc: TransformDescriptor {
                    kind,
                    rank: 3,
                    nx,
                    ny,
                    nz,
                    batch: 1,
                    layout: BatchLayout::Contiguous,
                },
                    staged: false,
                    batched: false,
                },
            )
        }
    }

    /// Request a generalized batched configuration: `batch` transforms of
    /// `rank` dimensions (1 to 3) in the given batch layout, contiguous or
    /// with explicit embedding, stride and distance descriptions on both
    /// sides. Logical and storage extents beyond `rank` are ignored and
    /// recorded as 1. Refused with `ConfigurationError` on a destroyed plan
    /// or a malformed shape or layout (rank outside 1 to 3, a non-positive
    /// extent or batch count, a storage extent below its side's logical
    /// extent, a non-positive stride or distance), with no native call
    /// issued.
    pub fn new_plan_many(
        &self,
        rank: i32,
        nx: i32,
        ny: i32,
        nz: i32,
        kind: TransformKind,
        batch: i32,
        layout: BatchLayout,
    ) -> (r: Result<ConfigRequest, FftError>)
        ensures
            r is Ok <==> !(self.plan_state() is Destroyed) && many_descriptor(
                kind,
                rank,
                nx,
                ny,
                nz,
                batch,
                layout,
            ).wf(),
            r matches Ok(q) ==> q == (ConfigRequest {
                plan: self.plan_id(),
                desc: many_descriptor(kind, rank, nx, ny, nz, batch, layout),
                staged: false,
                batched: true,
            }),
            self.plan_state() is Destroyed ==> r == Err::<ConfigRequest, FftError>(
                FftError::ConfigurationError(CufftError(cufftResult_t::CUFFT_INVALID_PLAN)),
            ),
            !(self.plan_state() is Destroyed) && !many_descriptor(
                kind,
                rank,
                nx,
                ny,
                nz,
                batch,
                layout,
            ).wf() ==> r == Err::<ConfigRequest, FftError>(
                FftError::ConfigurationError(CufftError(cufftResult_t::CUFFT_INVALID_SIZE)),
            ),
    {
        if matches!(self.state, PlanState::Destroyed) {
            return Err(
                FftError::ConfigurationError(CufftError(cufftResult_t::CUFFT_INVALID_PLAN)),
            );
        }
        let normalized: BatchLayout = match layout {
            BatchLayout::Contiguous => BatchLayout::Contiguous,
            BatchLayout::Advanced { input, output } => BatchLayout::Advanced {
                input: BatchEmbedding {
                    nx: input.nx,
                    ny: if rank >= 2 { input.ny } else { 1 },
                    nz: if rank >= 3 { input.nz } else { 1 },
                    stride: input.stride,
                    dist: input.dist,
                },
                output: BatchEmbedding {
                    nx: output.nx,
                    ny: if rank >= 2 { output.ny } else { 1 },
                    nz: if rank >= 3 { output.nz } else { 1 },
                    stride: output.stride,
                    dist: output.dist,
                },
            },
        };
        let desc = TransformDescriptor {
            kind,
            rank,
            nx,
            ny: if rank >= 2 { ny } else { 1 },
            nz: if rank >= 3 { nz } else { 1 },
            batch,
            layout: normalized,
        };
        if !desc.is_wf() {
            Err(FftError::ConfigurationError(CufftError(cufftResult_t::CUFFT_INVALID_SIZE)))
        } else {
            Ok(ConfigRequest { plan: self.plan, desc, staged: false, batched: true })
        }
    }

    /// Like `new_plan_1d`, but through the staged entry point, which also
    /// reports the scratch work area size so the caller can manage that
    /// memory explicitly; `apply_make_plan` takes the reported size.
    pub fn make_plan_1d(&self, nx: i32, kind: TransformKind, batch: i32) -> (r: Result<
        ConfigRequest,
        FftError,
    >)
        ensures
            r is Ok <==> !(self.plan_state() is Destroyed) && nx >= 1 && batch >= 1,
            r matches Ok(q) ==> q == (ConfigRequest {
                plan: self.plan_id(),
                desc: TransformDescriptor {
                    kind,
                    rank: 1,
                    nx,
                    ny: 1,
                    nz: 1,
                    batch,
                    layout: BatchLayout::Contiguous,
                },
                staged: true,
                batched: false,
            }) && q.desc.wf(),
            self.plan_state() is Destroyed ==> r == Err::<ConfigRequest, FftError>(
                FftError::ConfigurationError(CufftError(cufftResult_t::CUFFT_INVALID_PLAN)),
            ),
            !(self.plan_state() is Destroyed) && (nx < 1 || batch < 1) ==> r == Err::<
                ConfigRequest,
                FftError,
            >(FftError::ConfigurationError(CufftError(cufftResult_t::CUFFT_INVALID_SIZE))),
    {
        match self.new_plan_1d(nx, kind, batch) {
            Ok(q) => Ok(ConfigRequest { staged: true, ..q }),
            Err(e) => Err(e),
        }
    }

    /// Like `new_plan_2d`, but through the staged entry point; see
    /// `make_plan_1d`.
    pub fn make_plan_2d(&self, nx: i32, ny: i32, kind: TransformKind) -> (r: Result<
        ConfigRequest,
        FftError,
    >)
        ensures
            r is Ok <==> !(self.plan_state() is Destroyed) && nx >= 1 && ny >= 1,
            r matches Ok(q) ==> q == (ConfigRequest {
                plan: self.plan_id(),
                desc: TransformDescriptor {
                    kind,
                    rank: 2,
                    nx,
                    ny,
                    nz: 1,
                    batch: 1,
                    layout: BatchLayout::Contiguous,
                },
                staged: true,
                batched: false,
            }) && q.desc.wf(),
            self.plan_state() is Destroyed ==> r == Err::<ConfigRequest, FftError>(
                FftError::ConfigurationError(CufftError(cufftResult_t::CUFFT_INVALID_PLAN)),
            ),
            !(self.plan_state() is Destroyed) && (nx < 1 || ny < 1) ==> r == Err::<
                ConfigRequest,
                FftError,
            >(FftError::ConfigurationError(CufftError(cufftResult_t::CUFFT_INVALID_SIZE))),
    {
        match self.new_plan_2d(nx, ny, kind) {
            Ok(q) => Ok(ConfigRequest { staged: true, ..q }),
            Err(e) => Err(e),
        }
    }

    /// Like `new_plan_3d`, but through the staged entry point; see
    /// `make_plan_1d`.
    pub fn make_plan_3d(&self, nx: i32, ny: i32, nz: i32, kind: TransformKind) -> (r: Result<
        ConfigRequest,
        FftError,
    >)
        ensures
            r is Ok <==> !(self.plan_state() is Destroyed) && nx >= 1 && ny >= 1 && nz >= 1,
            r matches Ok(q) ==> q == (ConfigRequest {
                plan: self.plan_id(),
                desc: TransformDescriptor {
                    kind,
                    rank: 3,
                    nx,
                    ny,
                    nz,
                    batch: 1,
                    layout: BatchLayout::Contiguous,
                },
                staged: true,
                batched: false,
            }) && q.desc.wf(),
            self.plan_state() is Destroyed ==> r == Err::<ConfigRequest, FftError>(
                FftError::ConfigurationError(CufftError(cufftResult_t::CUFFT_INVALID_PLAN)),
            ),
            !(self.plan_state() is Destroyed) && (nx < 1 || ny < 1 || nz < 1) ==> r == Err::<
                ConfigRequest,
                FftError,
            >(FftError::ConfigurationError(CufftError(cufftResult_t::CUFFT_INVALID_SIZE))),
    {
        match self.new_plan_3d(nx, ny, nz, kind) {
            Ok(q) => Ok(ConfigRequest { staged: true, ..q }),
            Err(e) => Err(e),
        }
    }

    /// Like `new_plan_many`, but through the staged entry point; see
    /// `make_plan_1d`.
    pub fn make_plan_many(
        &self,
        rank: i32,
        nx: i32,
        ny: i32,
        nz: i32,
        kind: TransformKind,
        batch: i32,
        layout: BatchLayout,
    ) -> (r: Result<ConfigRequest, FftError>)
        ensures
            r is Ok <==> !(self.plan_state() is Destroyed) && many_descriptor(
                kind,
                rank,
                nx,
                ny,
                nz,
                batch,
                layout,
            ).wf(),
            r matches Ok(q) ==> q == (ConfigRequest {
                plan: self.plan_id(),
                desc: many_descriptor(kind, rank, nx, ny, nz, batch, layout),
                staged: true,
                batched: true,
            }),
            self.plan_state() is Destroyed ==> r == Err::<ConfigRequest, FftError>(
                FftError::ConfigurationError(CufftError(cufftResult_t::CUFFT_INVALID_PLAN)),
            ),
            !(self.plan_state() is Destroyed) && !many_descriptor(
                kind,
                rank,
                nx,
                ny,
                nz,
                batch,
                layout,
            ).wf() ==> r == Err::<ConfigRequest, FftError>(
                FftError::ConfigurationError(CufftError(cufftResult_t::CUFFT_INVALID_SIZE)),
            ),
    {
        match self.new_plan_many(rank, nx, ny, nz, kind, batch, layout) {
            Ok(q) => Ok(ConfigRequest { staged: true, ..q }),
            Err(e) => Err(e),
        }
    }

    /// Record the outcome of the configuration call a `new_plan_*` or
    /// `make_plan_*` request described. A success on a well-formed descriptor
    /// configures the plan; any rejected attempt leaves it unconfigured, so
    /// no execution is permitted afterwards; a destroyed plan stays
    /// destroyed.
    pub fn apply_plan(&mut self, desc: TransformDescriptor, status: cufftResult_t) -> (r: Result<
        (),
        FftError,
    >)
        ensures
            final(self).plan_id() == old(self).plan_id(),
            final(self).stream_id() == old(self).stream_id(),
            final(self).default_stream_id() == old(self).default_stream_id(),
            final(self).plan_state() == configure_transition(old(self).plan_state(), desc, status),
            final(self).wf(),
            r is Ok <==> !(old(self).plan_state() is Destroyed) && status is CUFFT_SUCCESS
                && desc.wf(),
            old(self).plan_state() is Destroyed ==> r == Err::<(), FftError>(
                FftError::ConfigurationError(CufftError(cufftResult_t::CUFFT_INVALID_PLAN)),
            ),
            !(old(self).plan_state() is Destroyed) && !(status is CUFFT_SUCCESS) ==> r == Err::<
                (),
                FftError,
            >(FftError::ConfigurationError(CufftError(status))),
            !(old(self).plan_state() is Destroyed) && status is CUFFT_SUCCESS && !desc.wf() ==> r
                == Err::<(), FftError>(
                FftError::ConfigurationError(CufftError(cufftResult_t::CUFFT_INVALID_SIZE)),
            ),
    {
        if matches!(self.state, PlanState::Destroyed) {
            Err(FftError::ConfigurationError(CufftError(cufftResult_t::CUFFT_INVALID_PLAN)))
        } else if !matches!(status, cufftResult_t::CUFFT_SUCCESS) {
            self.state = PlanState::Unconfigured;
            Err(FftError::ConfigurationError(CufftError(status)))
        } else if !desc.is_wf() {
            self.state = PlanState::Unconfigured;
            Err(FftError::ConfigurationError(CufftError(cufftResult_t::CUFFT_INVALID_SIZE)))
        } else {
            self.state = PlanState::Configured(desc);
            Ok(())
        }
    }

    /// Record the outcome of a staged configuration call, together with the
    /// scratch work area size the engine reported; the size is handed back on
    /// success. The state transition is exactly that of `apply_plan`.
    pub fn apply_make_plan(
        &mut self,
        desc: TransformDescriptor,
        status: cufftResult_t,
        work_size: usize,
    ) -> (r: Result<usize, FftError>)
        ensures
            final(self).plan_id() == old(self).plan_id(),
            final(self).stream_id() == old(self).stream_id(),
            final(self).default_stream_id() == old(self).default_stream_id(),
            final(self).plan_state() == configure_transition(old(self).plan_state(), desc, status),
            final(self).wf(),
            r is Ok <==> !(old(self).plan_state() is Destroyed) && status is CUFFT_SUCCESS
                && desc.wf(),
            r matches Ok(w) ==> w == work_size,
            old(self).plan_state() is Destroyed ==> r == Err::<usize, FftError>(
                FftError::ConfigurationError(CufftError(cufftResult_t::CUFFT_INVALID_PLAN)),
            ),
            !(old(self).plan_state() is Destroyed) && !(status is CUFFT_SUCCESS) ==> r == Err::<
                usize,
                FftError,
            >(FftError::ConfigurationError(CufftError(status))),
            !(old(self).plan_state() is Destroyed) && status is CUFFT_SUCCESS && !desc.wf() ==> r
                == Err::<usize, FftError>(
                FftError::ConfigurationError(CufftError(cufftResult_t::CUFFT_INVALID_SIZE)),
            ),
    {
        match self.apply_plan(desc, status) {
            Ok(()) => Ok(work_size),
            Err(e) => Err(e),
        }
    }

    /// Release this plan's native handle: the state becomes `Destroyed`, and
    /// the identifier to release is returned exactly when it has not been
    /// released before. A second call is a no-op that returns `None`, so the
    /// handle is never released twice. A failure the engine reports for the
    /// release call does not undo the transition: retrying the release of a
    /// possibly invalid handle is unsafe, so the handle counts as released
    /// either way (translate such a status with `cufftResult_t::result`).
    pub fn destroy(&mut self) -> (r: Option<i32>)
        ensures
            final(self).plan_id() == old(self).plan_id(),
            final(self).stream_id() == old(self).stream_id(),
            final(self).default_stream_id() == old(self).default_stream_id(),
            final(self).plan_state() == destroy_transition(old(self).plan_state()),
            final(self).wf(),
            r == (if destroy_releases(old(self).plan_state()) {
                Some(old(self).plan_id())
            } else {
                None::<i32>
            }),
    {
        let released: bool = matches!(self.state, PlanState::Destroyed);
        self.state = PlanState::Destroyed;
        if released {
            None
        } else {
            Some(self.plan)
        }
    }
}

} // verus!
