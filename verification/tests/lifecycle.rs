use cufft::descriptor::{BatchLayout, Direction, TransformDescriptor, TransformKind};
use cufft::exec::{apply_exec, ComplexBuf32, RealBuf32};
use cufft::plan::{create_plan_handle, BindRequest, CudaFFT, PlanState};
use cufft::status::{cufftResult_t, CufftError, FftError};

fn c2c_desc_1d(nx: i32, batch: i32) -> TransformDescriptor {
    TransformDescriptor {
        kind: TransformKind::C2C,
        rank: 1,
        nx,
        ny: 1,
        nz: 1,
        batch,
        layout: BatchLayout::Contiguous,
    }
}

#[test]
fn creation_success_hands_back_the_handle() {
    assert_eq!(create_plan_handle(cufftResult_t::CUFFT_SUCCESS, 11), Ok(11));
}

#[test]
fn creation_failure_is_a_creation_error() {
    assert_eq!(
        create_plan_handle(cufftResult_t::CUFFT_ALLOC_FAILED, 0),
        Err(FftError::CreationError(CufftError(cufftResult_t::CUFFT_ALLOC_FAILED)))
    );
}

#[test]
fn new_plan_is_unconfigured_and_bound() {
    let fft = CudaFFT::new(3, 9, cufftResult_t::CUFFT_SUCCESS).unwrap();
    assert_eq!(fft.handle(), 3);
    assert_eq!(fft.stream(), 9);
    assert_eq!(fft.current_state(), PlanState::Unconfigured);
    assert!(!fft.is_destroyed());
}

#[test]
fn failed_binding_yields_a_stream_binding_error() {
    let r = CudaFFT::new(3, 9, cufftResult_t::CUFFT_INVALID_DEVICE);
    assert_eq!(
        r,
        Err(FftError::StreamBindingError(CufftError(cufftResult_t::CUFFT_INVALID_DEVICE)))
    );
}

#[test]
fn destroy_releases_exactly_once() {
    let mut fft = CudaFFT::new(5, 1, cufftResult_t::CUFFT_SUCCESS).unwrap();
    assert_eq!(fft.destroy(), Some(5));
    assert!(fft.is_destroyed());
    // The second destruction is a no-op: nothing to release, no error.
    assert_eq!(fft.destroy(), None);
    assert!(fft.is_destroyed());
}

#[test]
fn destroy_after_configuration_still_releases_once() {
    let mut fft = CudaFFT::new(6, 1, cufftResult_t::CUFFT_SUCCESS).unwrap();
    let desc = c2c_desc_1d(16, 2);
    fft.apply_plan(desc, cufftResult_t::CUFFT_SUCCESS).unwrap();
    assert_eq!(fft.destroy(), Some(6));
    assert_eq!(fft.destroy(), None);
}

#[test]
fn destroyed_plan_refuses_every_operation() {
    let mut fft = CudaFFT::new(5, 1, cufftResult_t::CUFFT_SUCCESS).unwrap();
    fft.destroy();
    let invalid_plan = CufftError(cufftResult_t::CUFFT_INVALID_PLAN);
    assert_eq!(
        fft.set_stream(Some(2)),
        Err(FftError::StreamBindingError(invalid_plan))
    );
    assert_eq!(
        fft.new_plan_1d(8, TransformKind::C2C, 1),
        Err(FftError::ConfigurationError(invalid_plan))
    );
    let buf = ComplexBuf32 { addr: 0x100, len: 8 };
    assert_eq!(
        fft.exec_c2c(&buf, &buf, Direction::Forward),
        Err(FftError::ExecutionError(invalid_plan))
    );
}

#[test]
fn failed_configuration_reports_and_blocks_execution() {
    let mut fft = CudaFFT::new(4, 2, cufftResult_t::CUFFT_SUCCESS).unwrap();
    // A zero extent is rejected before any native call.
    assert_eq!(
        fft.new_plan_1d(0, TransformKind::C2C, 1),
        Err(FftError::ConfigurationError(CufftError(cufftResult_t::CUFFT_INVALID_SIZE)))
    );
    // A negative batch count likewise.
    assert_eq!(
        fft.new_plan_1d(8, TransformKind::C2C, -1),
        Err(FftError::ConfigurationError(CufftError(cufftResult_t::CUFFT_INVALID_SIZE)))
    );
    // An engine rejection leaves the plan unconfigured.
    let desc = c2c_desc_1d(8, 1);
    assert_eq!(
        fft.apply_plan(desc, cufftResult_t::CUFFT_SETUP_FAILED),
        Err(FftError::ConfigurationError(CufftError(cufftResult_t::CUFFT_SETUP_FAILED)))
    );
    assert_eq!(fft.current_state(), PlanState::Unconfigured);
    // No execution is permitted afterwards.
    let buf = ComplexBuf32 { addr: 0x100, len: 8 };
    assert_eq!(
        fft.exec_c2c(&buf, &buf, Direction::Forward),
        Err(FftError::ExecutionError(CufftError(cufftResult_t::CUFFT_INVALID_PLAN)))
    );
}

#[test]
fn rebinding_keeps_the_configuration() {
    let mut fft = CudaFFT::new(8, 100, cufftResult_t::CUFFT_SUCCESS).unwrap();
    let desc = c2c_desc_1d(32, 1);
    fft.apply_plan(desc, cufftResult_t::CUFFT_SUCCESS).unwrap();

    let buf = ComplexBuf32 { addr: 0x400, len: 32 };
    let first = fft.exec_c2c(&buf, &buf, Direction::Forward).unwrap();
    assert_eq!(first.stream, 100);

    // Rebind between the two executions: no reconfiguration needed.
    let req = fft.set_stream(Some(200)).unwrap();
    assert_eq!(req, BindRequest { plan: 8, stream: 200 });
    fft.apply_set_stream(200, cufftResult_t::CUFFT_SUCCESS).unwrap();
    assert_eq!(fft.current_state(), PlanState::Configured(desc));

    let second = fft.exec_c2c(&buf, &buf, Direction::Inverse).unwrap();
    assert_eq!(second.stream, 200);
    assert_eq!(fft.current_state(), PlanState::Configured(desc));
}

#[test]
fn rebinding_without_a_stream_falls_back_to_the_default() {
    let mut fft = CudaFFT::new(8, 100, cufftResult_t::CUFFT_SUCCESS).unwrap();
    fft.apply_set_stream(300, cufftResult_t::CUFFT_SUCCESS).unwrap();
    assert_eq!(fft.stream(), 300);
    // No explicit stream: the request falls back to the creation context's.
    let req = fft.set_stream(None).unwrap();
    assert_eq!(req, BindRequest { plan: 8, stream: 100 });
    fft.apply_set_stream(req.stream, cufftResult_t::CUFFT_SUCCESS).unwrap();
    assert_eq!(fft.stream(), 100);
}

#[test]
fn failed_rebinding_keeps_the_old_stream() {
    let mut fft = CudaFFT::new(8, 100, cufftResult_t::CUFFT_SUCCESS).unwrap();
    let r = fft.apply_set_stream(200, cufftResult_t::CUFFT_INVALID_VALUE);
    assert_eq!(
        r,
        Err(FftError::StreamBindingError(CufftError(cufftResult_t::CUFFT_INVALID_VALUE)))
    );
    assert_eq!(fft.stream(), 100);
}

#[test]
fn forward_and_inverse_leave_the_plan_configured() {
    // Create a plan, configure a single-dimension single-precision
    // complex-to-complex transform of length 8, batch 1; execute forward,
    // then inverse; both enqueue, and the plan stays configured.
    let mut fft = CudaFFT::new(1, 7, cufftResult_t::CUFFT_SUCCESS).unwrap();
    let req = fft.new_plan_1d(8, TransformKind::C2C, 1).unwrap();
    assert!(!req.staged);
    assert_eq!(req.desc, c2c_desc_1d(8, 1));
    fft.apply_plan(req.desc, cufftResult_t::CUFFT_SUCCESS).unwrap();

    let input = ComplexBuf32 { addr: 0x1000, len: 8 };
    let output = ComplexBuf32 { addr: 0x2000, len: 8 };

    let fwd = fft.exec_c2c(&input, &output, Direction::Forward).unwrap();
    assert_eq!(fwd.direction, -1);
    assert_eq!(apply_exec(cufftResult_t::CUFFT_SUCCESS), Ok(()));

    let inv = fft.exec_c2c(&output, &input, Direction::Inverse).unwrap();
    assert_eq!(inv.direction, 1);
    assert_eq!(apply_exec(cufftResult_t::CUFFT_SUCCESS), Ok(()));

    assert_eq!(fft.current_state(), PlanState::Configured(req.desc));
}

#[test]
fn mismatched_variant_is_rejected_without_a_native_call() {
    // A plan configured complex-to-complex refuses a real-to-complex
    // execution: the request itself is the native call's parameters, so an
    // error here means no native execution call is issued.
    let mut fft = CudaFFT::new(2, 7, cufftResult_t::CUFFT_SUCCESS).unwrap();
    fft.apply_plan(c2c_desc_1d(8, 1), cufftResult_t::CUFFT_SUCCESS).unwrap();
    let real_in = RealBuf32 { addr: 0x1000, len: 8 };
    let cplx_out = ComplexBuf32 { addr: 0x2000, len: 8 };
    assert_eq!(fft.exec_r2c(&real_in, &cplx_out), Err(FftError::VariantMismatchError));
    assert_eq!(fft.current_state(), PlanState::Configured(c2c_desc_1d(8, 1)));
}

#[test]
fn each_plan_keeps_to_its_own_stream() {
    // Two plans bound to distinct streams: every request either one hands
    // out carries its own identifiers, never the other's.
    let mut a = CudaFFT::new(10, 111, cufftResult_t::CUFFT_SUCCESS).unwrap();
    let mut b = CudaFFT::new(20, 222, cufftResult_t::CUFFT_SUCCESS).unwrap();
    let desc = c2c_desc_1d(4, 1);
    a.apply_plan(desc, cufftResult_t::CUFFT_SUCCESS).unwrap();
    b.apply_plan(desc, cufftResult_t::CUFFT_SUCCESS).unwrap();

    let buf = ComplexBuf32 { addr: 0x800, len: 4 };
    let ra = a.exec_c2c(&buf, &buf, Direction::Forward).unwrap();
    let rb = b.exec_c2c(&buf, &buf, Direction::Forward).unwrap();
    assert_eq!((ra.plan, ra.stream), (10, 111));
    assert_eq!((rb.plan, rb.stream), (20, 222));
}

#[test]
fn staged_configuration_reports_the_work_size() {
    let mut fft = CudaFFT::new(9, 3, cufftResult_t::CUFFT_SUCCESS).unwrap();
    let req = fft.make_plan_1d(64, TransformKind::R2C, 4).unwrap();
    assert!(req.staged);
    assert_eq!(
        req.desc,
        TransformDescriptor {
            kind: TransformKind::R2C,
            rank: 1,
            nx: 64,
            ny: 1,
            nz: 1,
            batch: 4,
            layout: BatchLayout::Contiguous,
        }
    );
    let w = fft.apply_make_plan(req.desc, cufftResult_t::CUFFT_SUCCESS, 4096).unwrap();
    assert_eq!(w, 4096);
    assert_eq!(fft.current_state(), PlanState::Configured(req.desc));
}

#[test]
fn staged_configuration_failure_reports_a_configuration_error() {
    let mut fft = CudaFFT::new(9, 3, cufftResult_t::CUFFT_SUCCESS).unwrap();
    let req = fft.make_plan_2d(16, 16, TransformKind::Z2Z).unwrap();
    assert!(req.staged);
    let r = fft.apply_make_plan(req.desc, cufftResult_t::CUFFT_ALLOC_FAILED, 0);
    assert_eq!(
        r,
        Err(FftError::ConfigurationError(CufftError(cufftResult_t::CUFFT_ALLOC_FAILED)))
    );
    assert_eq!(fft.current_state(), PlanState::Unconfigured);
}
