use cufft::descriptor::{BatchEmbedding, BatchLayout, TransformDescriptor, TransformKind};
use cufft::exec::{ComplexBuf32, RealBuf32};
use cufft::plan::{CudaFFT, ConfigRequest};
use cufft::status::{cufftResult_t, CufftError, FftError};

fn fresh() -> CudaFFT {
    CudaFFT::new(1, 1, cufftResult_t::CUFFT_SUCCESS).unwrap()
}

fn desc(kind: TransformKind, rank: i32, nx: i32, ny: i32, nz: i32, batch: i32) -> TransformDescriptor {
    TransformDescriptor { kind, rank, nx, ny, nz, batch, layout: BatchLayout::Contiguous }
}

#[test]
fn requests_carry_the_exact_native_parameters() {
    let f = fresh();
    assert_eq!(
        f.new_plan_1d(8, TransformKind::C2C, 3),
        Ok(ConfigRequest { plan: 1, desc: desc(TransformKind::C2C, 1, 8, 1, 1, 3), staged: false, batched: false })
    );
    assert_eq!(
        f.new_plan_2d(4, 6, TransformKind::R2C),
        Ok(ConfigRequest { plan: 1, desc: desc(TransformKind::R2C, 2, 4, 6, 1, 1), staged: false, batched: false })
    );
    assert_eq!(
        f.new_plan_3d(2, 3, 4, TransformKind::Z2D),
        Ok(ConfigRequest { plan: 1, desc: desc(TransformKind::Z2D, 3, 2, 3, 4, 1), staged: false, batched: false })
    );
    assert_eq!(
        f.new_plan_many(2, 4, 6, 9, TransformKind::D2Z, 5, BatchLayout::Contiguous),
        // The extent beyond the rank is ignored and recorded as 1.
        Ok(ConfigRequest { plan: 1, desc: desc(TransformKind::D2Z, 2, 4, 6, 1, 5), staged: false, batched: true })
    );
}

#[test]
fn staged_requests_differ_only_in_the_entry_point() {
    let f = fresh();
    let simple = f.new_plan_3d(2, 3, 4, TransformKind::Z2Z).unwrap();
    let staged = f.make_plan_3d(2, 3, 4, TransformKind::Z2Z).unwrap();
    assert_eq!(staged, ConfigRequest { staged: true, ..simple });
    let staged_many = f.make_plan_many(1, 16, 0, 0, TransformKind::C2C, 2, BatchLayout::Contiguous).unwrap();
    assert!(staged_many.staged);
    assert_eq!(staged_many.desc, desc(TransformKind::C2C, 1, 16, 1, 1, 2));
}

#[test]
fn invalid_shapes_are_rejected() {
    let f = fresh();
    let invalid_size =
        FftError::ConfigurationError(CufftError(cufftResult_t::CUFFT_INVALID_SIZE));
    assert_eq!(f.new_plan_2d(0, 6, TransformKind::C2C), Err(invalid_size));
    assert_eq!(f.new_plan_2d(6, -2, TransformKind::C2C), Err(invalid_size));
    assert_eq!(f.new_plan_3d(2, 3, 0, TransformKind::C2C), Err(invalid_size));
    assert_eq!(f.new_plan_many(0, 8, 1, 1, TransformKind::C2C, 1, BatchLayout::Contiguous), Err(invalid_size));
    assert_eq!(f.new_plan_many(4, 8, 1, 1, TransformKind::C2C, 1, BatchLayout::Contiguous), Err(invalid_size));
    assert_eq!(f.new_plan_many(1, 8, 1, 1, TransformKind::C2C, -3, BatchLayout::Contiguous), Err(invalid_size));
    assert_eq!(f.make_plan_1d(-8, TransformKind::C2C, 1), Err(invalid_size));
}

#[test]
fn required_lengths_of_complex_shapes() {
    let d = desc(TransformKind::C2C, 1, 8, 1, 1, 1);
    assert_eq!(d.required_input_len(), Some(8));
    assert_eq!(d.required_output_len(), Some(8));

    let d = desc(TransformKind::Z2Z, 3, 2, 3, 4, 5);
    assert_eq!(d.required_input_len(), Some(120));
    assert_eq!(d.required_output_len(), Some(120));
}

#[test]
fn required_lengths_of_real_domain_shapes() {
    // The innermost extent is packed to n/2 + 1 on the complex side.
    let d = desc(TransformKind::R2C, 1, 8, 1, 1, 1);
    assert_eq!(d.required_input_len(), Some(8));
    assert_eq!(d.required_output_len(), Some(5));

    let d = desc(TransformKind::C2R, 2, 4, 6, 1, 1);
    assert_eq!(d.required_input_len(), Some(16));
    assert_eq!(d.required_output_len(), Some(24));

    let d = desc(TransformKind::D2Z, 3, 2, 3, 5, 7);
    assert_eq!(d.required_input_len(), Some(210));
    assert_eq!(d.required_output_len(), Some(2 * 3 * 3 * 7));

    // An odd innermost extent still packs to n/2 + 1.
    let d = desc(TransformKind::Z2D, 1, 9, 1, 1, 1);
    assert_eq!(d.required_input_len(), Some(5));
    assert_eq!(d.required_output_len(), Some(9));
}

#[test]
fn oversized_shapes_report_no_length() {
    let big = i32::MAX;
    let d = desc(TransformKind::C2C, 3, big, big, big, big);
    assert_eq!(d.logical_len(), None);
    assert_eq!(d.required_input_len(), None);
    assert_eq!(d.required_output_len(), None);
    let d = desc(TransformKind::R2C, 3, big, big, big, big);
    assert_eq!(d.packed_len(), None);
    assert_eq!(d.required_output_len(), None);
}

#[test]
fn a_configured_shape_is_recorded_verbatim() {
    let mut f = fresh();
    let d = desc(TransformKind::D2Z, 2, 4, 6, 1, 5);
    f.apply_plan(d, cufftResult_t::CUFFT_SUCCESS).unwrap();
    assert_eq!(f.current_state(), cufft::plan::PlanState::Configured(d));
}

#[test]
fn a_malformed_descriptor_is_refused_even_on_success_status() {
    // The apply half re-checks the descriptor, so a caller that bypasses the
    // request half cannot configure a malformed shape.
    let mut f = fresh();
    let d = desc(TransformKind::C2C, 1, 8, 2, 1, 1);
    assert_eq!(
        f.apply_plan(d, cufftResult_t::CUFFT_SUCCESS),
        Err(FftError::ConfigurationError(CufftError(cufftResult_t::CUFFT_INVALID_SIZE)))
    );
    assert_eq!(f.current_state(), cufft::plan::PlanState::Unconfigured);
}

fn embed(nx: i32, ny: i32, nz: i32, stride: i32, dist: i32) -> BatchEmbedding {
    BatchEmbedding { nx, ny, nz, stride, dist }
}

#[test]
fn advanced_layout_is_carried_and_normalized() {
    let f = fresh();
    // Rank 2 real-to-complex, 4 x 6, batch 5: the input side is 4 x 6 reals,
    // the output side 4 x 4 complex (6/2 + 1 packed). Storage extents beyond
    // the rank are ignored and recorded as 1, like the logical extents.
    let layout = BatchLayout::Advanced {
        input: embed(4, 8, 9, 3, 100),
        output: embed(4, 5, 9, 2, 50),
    };
    let req = f.new_plan_many(2, 4, 6, 7, TransformKind::R2C, 5, layout).unwrap();
    assert!(req.batched);
    let expected = TransformDescriptor {
        kind: TransformKind::R2C,
        rank: 2,
        nx: 4,
        ny: 6,
        nz: 1,
        batch: 5,
        layout: BatchLayout::Advanced {
            input: embed(4, 8, 1, 3, 100),
            output: embed(4, 5, 1, 2, 50),
        },
    };
    assert_eq!(req.desc, expected);
}

#[test]
fn malformed_layouts_are_rejected() {
    let f = fresh();
    let invalid_size =
        FftError::ConfigurationError(CufftError(cufftResult_t::CUFFT_INVALID_SIZE));
    // A zero stride is rejected.
    let layout = BatchLayout::Advanced {
        input: embed(4, 6, 1, 0, 24),
        output: embed(4, 6, 1, 1, 24),
    };
    assert_eq!(f.new_plan_many(2, 4, 6, 1, TransformKind::C2C, 1, layout), Err(invalid_size));
    // A storage extent below the side's logical extent is rejected: the
    // packed output of a 4 x 6 real-to-complex needs at least 6/2 + 1 = 4.
    let layout = BatchLayout::Advanced {
        input: embed(4, 6, 1, 1, 24),
        output: embed(4, 3, 1, 1, 16),
    };
    assert_eq!(f.new_plan_many(2, 4, 6, 1, TransformKind::R2C, 1, layout), Err(invalid_size));
    // The same embeddings are accepted once the storage extent suffices.
    let layout = BatchLayout::Advanced {
        input: embed(4, 6, 1, 1, 24),
        output: embed(4, 4, 1, 1, 16),
    };
    assert!(f.new_plan_many(2, 4, 6, 1, TransformKind::R2C, 1, layout).is_ok());
}

#[test]
fn required_lengths_of_advanced_layouts() {
    // Rank 2 real-to-complex, 4 x 6, batch 2. Input side: last logical
    // element sits at ((4-1)*8 + (6-1))*3 = 87, plus one batch distance of
    // 100, so 188 elements. Output side (4 x 4 packed): ((4-1)*5 + 3)*2 = 36,
    // plus 50, so 87 elements.
    let d = TransformDescriptor {
        kind: TransformKind::R2C,
        rank: 2,
        nx: 4,
        ny: 6,
        nz: 1,
        batch: 2,
        layout: BatchLayout::Advanced {
            input: embed(4, 8, 1, 3, 100),
            output: embed(4, 5, 1, 2, 50),
        },
    };
    assert_eq!(d.required_input_len(), Some(188));
    assert_eq!(d.required_output_len(), Some(87));
}

#[test]
fn advanced_layout_execution_checks_the_strided_footprint() {
    let mut f = fresh();
    let layout = BatchLayout::Advanced {
        input: embed(4, 8, 1, 3, 100),
        output: embed(4, 5, 1, 2, 50),
    };
    let req = f.new_plan_many(2, 4, 6, 1, TransformKind::R2C, 2, layout).unwrap();
    f.apply_plan(req.desc, cufftResult_t::CUFFT_SUCCESS).unwrap();
    let reals = |len: usize| RealBuf32 { addr: 0x1000, len };
    let cplx = |len: usize| ComplexBuf32 { addr: 0x2000, len };
    assert_eq!(
        f.exec_r2c(&reals(187), &cplx(87)),
        Err(FftError::ExecutionError(CufftError(cufftResult_t::CUFFT_INVALID_SIZE)))
    );
    assert!(f.exec_r2c(&reals(188), &cplx(87)).is_ok());
}
