//! Transform descriptors: the shape and element-type pairing a plan is
//! configured with, together with the buffer element counts each shape
//! requires of an execution call.

use vstd::prelude::*;

verus! {

/// The six supported (domain, precision) pairings, named after the native
/// engine's entry points: `C` single-precision complex, `R` single-precision
/// real, `Z` double-precision complex, `D` double-precision real.
#[derive(Clone, Copy, Debug, PartialEq, Eq, Structural)]
pub enum TransformKind {
    /// complex -> complex, single precision
    C2C,
    /// real -> complex, single precision
    R2C,
    /// complex -> real, single precision
    C2R,
    /// complex -> complex, double precision
    Z2Z,
    /// real -> complex, double precision
    D2Z,
    /// complex -> real, double precision
    Z2D,
}

impl TransformKind {
    /// The integer the engine uses for this pairing.
    pub open spec fn spec_type_code(self) -> u32 {
        match self {
            TransformKind::C2C => 0x29,
            TransformKind::R2C => 0x2a,
            TransformKind::C2R => 0x2c,
            TransformKind::Z2Z => 0x69,
            TransformKind::D2Z => 0x6a,
            TransformKind::Z2D => 0x6c,
        }
    }

    /// Integer form of this pairing, as passed to the engine's configuration
    /// entry points.
    pub fn type_code(self) -> (r: u32)
        ensures
            r == self.spec_type_code(),
    {
        match self {
            TransformKind::C2C => 0x29,
            TransformKind::R2C => 0x2a,
            TransformKind::C2R => 0x2c,
            TransformKind::Z2Z => 0x69,
            TransformKind::D2Z => 0x6a,
            TransformKind::Z2D => 0x6c,
        }
    }

    /// Whether the input side of this pairing is in the real domain.
    pub open spec fn real_input(self) -> bool {
        self is R2C || self is D2Z
    }

    /// Whether the output side of this pairing is in the real domain.
    pub open spec fn real_output(self) -> bool {
        self is C2R || self is Z2D
    }
}

/// Transform direction for the complex-to-complex pairings.
#[derive(Clone, Copy, Debug, PartialEq, Eq, Structural)]
pub enum Direction {
    Forward,
    Inverse,
}

impl Direction {
    /// The integer the engine uses for this direction.
    pub open spec fn spec_code(self) -> i32 {
        match self {
            Direction::Forward => -1i32,
            Direction::Inverse => 1i32,
        }
    }

    /// Integer form of this direction, as passed to the engine's
    /// complex-to-complex execution entry points.
    pub fn code(self) -> (r: i32)
        ensures
            r == self.spec_code(),
    {
        match self {
            Direction::Forward => -1,
            Direction::Inverse => 1,
        }
    }
}

/// Storage description of one side of a strided or interleaved batch, as the
/// engine's generalized batched entry points take it: the storage extents of
/// each dimension (the outermost, `nx`, is forwarded but ignored by the
/// engine), the stride between consecutive elements of one transform, and the
/// distance between the first elements of consecutive batch members — all in
/// units of that side's element type. Extents of dimensions beyond the rank
/// are recorded as 1.
#[derive(Clone, Copy, Debug, PartialEq, Eq, Structural)]
pub struct BatchEmbedding {
    /// Storage extent of the outermost dimension (ignored by the engine).
    pub nx: i32,
    /// Storage extent of the middle dimension; 1 unless the rank is at
    /// least 2.
    pub ny: i32,
    /// Storage extent of the innermost dimension; 1 unless the rank is 3.
    pub nz: i32,
    /// Stride between consecutive elements of one transform.
    pub stride: i32,
    /// Distance between the first elements of consecutive batch members.
    pub dist: i32,
}

/// Batch layout of a configured shape.
#[derive(Clone, Copy, Debug, PartialEq, Eq, Structural)]
pub enum BatchLayout {
    /// Null embedding descriptions: the engine ignores stride and distance
    /// and assumes the basic layout, one transform after the other with no
    /// gaps.
    Contiguous,
    /// Explicit embedding descriptions on both sides, for strided or
    /// interleaved batches.
    Advanced {
        /// Storage description of the input side.
        input: BatchEmbedding,
        /// Storage description of the output side.
        output: BatchEmbedding,
    },
}

/// A well-formed embedding for one side whose logical extents are `l` at rank
/// `rank`: positive outermost extent, each used storage extent at least its
/// dimension's logical extent (so distinct logical elements have distinct
/// storage slots), unused extents exactly 1, and positive stride and
/// distance.
pub open spec fn embedding_wf(e: BatchEmbedding, l: (int, int, int), rank: int) -> bool {
    &&& e.nx >= 1
    &&& (rank >= 2 ==> e.ny >= l.1)
    &&& (rank < 2 ==> e.ny == 1)
    &&& (rank >= 3 ==> e.nz >= l.2)
    &&& (rank < 3 ==> e.nz == 1)
    &&& e.stride >= 1
    &&& e.dist >= 1
}

/// Elements one side of an advanced-layout batch must hold: the storage index
/// of the last element the engine's documented layout formula addresses —
/// `((x * e.ny + y) * e.nz + z) * e.stride + b * e.dist` for logical
/// coordinates `(x, y, z)` of extents `l` in batch member `b` — plus one.
pub open spec fn advanced_side_elems(l: (int, int, int), e: BatchEmbedding, batch: int) -> int {
    ((l.0 - 1) * e.ny * e.nz + (l.1 - 1) * e.nz + (l.2 - 1)) * e.stride + (batch - 1) * e.dist + 1
}

/// The shape and pairing one configuration call applies to a plan: rank
/// (1, 2 or 3 dimensions), per-dimension extents, element-type pairing,
/// batch count and batch layout. Unused extents are fixed at 1, so the
/// logical element count is always `nx * ny * nz * batch`.
#[derive(Clone, Copy, Debug, PartialEq, Eq, Structural)]
pub struct TransformDescriptor {
    /// Element-type pairing.
    pub kind: TransformKind,
    /// Number of dimensions, 1 to 3.
    pub rank: i32,
    /// Extent of the outermost (slowest-varying) dimension.
    pub nx: i32,
    /// Extent of the middle dimension; 1 unless `rank >= 2`.
    pub ny: i32,
    /// Extent of the innermost dimension; 1 unless `rank == 3`.
    pub nz: i32,
    /// Number of independent transforms of this shape per execution.
    pub batch: i32,
    /// How the batch members are laid out in the two buffers.
    pub layout: BatchLayout,
}

impl TransformDescriptor {
    /// Logical extents with the innermost packed to `last / 2 + 1`: the shape
    /// of the complex side of a real-domain transform.
    pub open spec fn spec_packed_extents(self) -> (int, int, int) {
        if self.rank == 1 {
            (self.nx / 2 + 1, 1int, 1int)
        } else if self.rank == 2 {
            (self.nx as int, self.ny / 2 + 1, 1int)
        } else {
            (self.nx as int, self.ny as int, self.nz / 2 + 1)
        }
    }

    /// Logical extents of the input side, in input elements: packed for a
    /// complex-to-real transform, the full extents otherwise.
    pub open spec fn spec_input_extents(self) -> (int, int, int) {
        if self.kind.real_output() {
            self.spec_packed_extents()
        } else {
            (self.nx as int, self.ny as int, self.nz as int)
        }
    }

    /// Logical extents of the output side, in output elements: packed for a
    /// real-to-complex transform, the full extents otherwise.
    pub open spec fn spec_output_extents(self) -> (int, int, int) {
        if self.kind.real_input() {
            self.spec_packed_extents()
        } else {
            (self.nx as int, self.ny as int, self.nz as int)
        }
    }

    /// A well-formed descriptor: rank 1 to 3, every used extent positive,
    /// every unused extent exactly 1, a positive batch count, and — for an
    /// advanced layout — well-formed embeddings on both sides.
    pub open spec fn wf(self) -> bool {
        &&& 1 <= self.rank <= 3
        &&& self.nx >= 1
        &&& self.ny >= 1
        &&& self.nz >= 1
        &&& (self.rank < 2 ==> self.ny == 1)
        &&& (self.rank < 3 ==> self.nz == 1)
        &&& self.batch >= 1
        &&& match self.layout {
            BatchLayout::Contiguous => true,
            BatchLayout::Advanced { input, output } => embedding_wf(
                input,
                self.spec_input_extents(),
                self.rank as int,
            ) && embedding_wf(output, self.spec_output_extents(), self.rank as int),
        }
    }

    /// Extent of the innermost (fastest-varying) dimension: the one the
    /// engine stores halved-plus-one in the complex side of a real-domain
    /// transform.
    pub open spec fn last_extent(self) -> int {
        if self.rank == 1 {
            self.nx as int
        } else if self.rank == 2 {
            self.ny as int
        } else {
            self.nz as int
        }
    }

    /// Total logical elements of one execution: all extents times the batch
    /// count.
    pub open spec fn logical_elems(self) -> int {
        self.nx * self.ny * self.nz * self.batch
    }

    /// Product of the extents of all dimensions but the innermost, times the
    /// batch count.
    pub open spec fn outer_elems(self) -> int {
        if self.rank == 1 {
            self.ny * self.nz * self.batch
        } else if self.rank == 2 {
            self.nx * self.nz * self.batch
        } else {
            self.nx * self.ny * self.batch
        }
    }

    /// Elements of the complex side of a real-domain transform: the innermost
    /// extent is stored as `last / 2 + 1` complex values, the other
    /// dimensions and the batch count in full.
    pub open spec fn packed_elems(self) -> int {
        self.outer_elems() * (self.last_extent() / 2 + 1)
    }

    /// Elements the input buffer must hold, in units of the input element
    /// type of `self.kind`.
    pub open spec fn required_input_elems(self) -> int {
        match self.layout {
            BatchLayout::Contiguous => if self.kind.real_output() {
                self.packed_elems()
            } else {
                self.logical_elems()
            },
            BatchLayout::Advanced { input, output } => advanced_side_elems(
                self.spec_input_extents(),
                input,
                self.batch as int,
            ),
        }
    }

    /// Elements the output buffer must hold, in units of the output element
    /// type of `self.kind`.
    pub open spec fn required_output_elems(self) -> int {
        match self.layout {
            BatchLayout::Contiguous => if self.kind.real_input() {
                self.packed_elems()
            } else {
                self.logical_elems()
            },
            BatchLayout::Advanced { input, output } => advanced_side_elems(
                self.spec_output_extents(),
                output,
                self.batch as int,
            ),
        }
    }

    /// Total logical element count, or `None` where it exceeds what a buffer
    /// length can express.
    pub fn logical_len(&self) -> (r: Option<usize>)
        requires
            self.wf(),
        ensures
            r matches Some(v) ==> v == self.logical_elems(),
            r is None ==> self.logical_elems() > usize::MAX,
    {
        proof {
            assert(0 < (self.nx as int) * (self.ny as int) < 0x4000000000000000)
                by (nonlinear_arith)
                requires
                    0 < self.nx < 0x80000000,
                    0 < self.ny < 0x80000000,
            ;
            assert(0 < (self.nx as int) * (self.ny as int) * (self.nz as int)
                < 0x200000000000000000000000) by (nonlinear_arith)
                requires
                    0 < (self.nx as int) * (self.ny as int) < 0x4000000000000000,
                    0 < self.nz < 0x80000000,
            ;
            assert(0 < (self.nx as int) * (self.ny as int) * (self.nz as int)
                * (self.batch as int) < 0x10000000000000000000000000000000)
                by (nonlinear_arith)
                requires
                    0 < (self.nx as int) * (self.ny as int) * (self.nz as int)
                        < 0x200000000000000000000000,
                    0 < self.batch < 0x80000000,
            ;
        }
        let p: u128 = (self.nx as u128) * (self.ny as u128) * (self.nz as u128)
            * (self.batch as u128);
        if p <= usize::MAX as u128 {
            Some(p as usize)
        } else {
            None
        }
    }

    /// Element count of the complex side of a real-domain transform, or
    /// `None` where it exceeds what a buffer length can express.
    pub fn packed_len(&self) -> (r: Option<usize>)
        requires
            self.wf(),
        ensures
            r matches Some(v) ==> v == self.packed_elems(),
            r is None ==> self.packed_elems() > usize::MAX,
    {
        let (a, b): (i32, i32) = if self.rank == 1 {
            (self.ny, self.nz)
        } else if self.rank == 2 {
            (self.nx, self.nz)
        } else {
            (self.nx, self.ny)
        };
        let last: i32 = if self.rank == 1 {
            self.nx
        } else if self.rank == 2 {
            self.ny
        } else {
            self.nz
        };
        let half: i32 = last / 2 + 1;
        proof {
            assert(0 < (a as int) * (b as int) < 0x4000000000000000) by (nonlinear_arith)
                requires
                    0 < a < 0x80000000,
                    0 < b < 0x80000000,
            ;
            assert(0 < (a as int) * (b as int) * (self.batch as int)
                < 0x200000000000000000000000) by (nonlinear_arith)
                requires
                    0 < (a as int) * (b as int) < 0x4000000000000000,
                    0 < self.batch < 0x80000000,
            ;
            assert(0 < (a as int) * (b as int) * (self.batch as int) * (half as int)
                < 0x10000000000000000000000000000000) by (nonlinear_arith)
                requires
                    0 < (a as int) * (b as int) * (self.batch as int)
                        < 0x200000000000000000000000,
                    0 < half < 0x80000000,
            ;
        }
        let p: u128 = (a as u128) * (b as u128) * (self.batch as u128) * (half as u128);
        if p <= usize::MAX as u128 {
            Some(p as usize)
        } else {
            None
        }
    }

    /// Logical extents with the innermost packed to `last / 2 + 1`.
    fn packed_extents(&self) -> (r: (i32, i32, i32))
        requires
            1 <= self.rank <= 3,
            self.nx >= 1,
            self.ny >= 1,
            self.nz >= 1,
        ensures
            (r.0 as int, r.1 as int, r.2 as int) == self.spec_packed_extents(),
            r.0 >= 1 && r.1 >= 1 && r.2 >= 1,
    {
        if self.rank == 1 {
            (self.nx / 2 + 1, 1, 1)
        } else if self.rank == 2 {
            (self.nx, self.ny / 2 + 1, 1)
        } else {
            (self.nx, self.ny, self.nz / 2 + 1)
        }
    }

    /// Logical extents of the input side, in input elements.
    pub fn input_extents(&self) -> (r: (i32, i32, i32))
        requires
            1 <= self.rank <= 3,
            self.nx >= 1,
            self.ny >= 1,
            self.nz >= 1,
        ensures
            (r.0 as int, r.1 as int, r.2 as int) == self.spec_input_extents(),
            r.0 >= 1 && r.1 >= 1 && r.2 >= 1,
    {
        if matches!(self.kind, TransformKind::C2R | TransformKind::Z2D) {
            self.packed_extents()
        } else {
            (self.nx, self.ny, self.nz)
        }
    }

    /// Logical extents of the output side, in output elements.
    pub fn output_extents(&self) -> (r: (i32, i32, i32))
        requires
            1 <= self.rank <= 3,
            self.nx >= 1,
            self.ny >= 1,
            self.nz >= 1,
        ensures
            (r.0 as int, r.1 as int, r.2 as int) == self.spec_output_extents(),
            r.0 >= 1 && r.1 >= 1 && r.2 >= 1,
    {
        if matches!(self.kind, TransformKind::R2C | TransformKind::D2Z) {
            self.packed_extents()
        } else {
            (self.nx, self.ny, self.nz)
        }
    }

    /// `advanced_side_elems`, computed; `None` where it exceeds what a buffer
    /// length can express.
    fn advanced_len(l0: i32, l1: i32, l2: i32, e: &BatchEmbedding, batch: i32) -> (r: Option<
        usize,
    >)
        requires
            l0 >= 1,
            l1 >= 1,
            l2 >= 1,
            e.ny >= 1,
            e.nz >= 1,
            e.stride >= 1,
            e.dist >= 1,
            batch >= 1,
        ensures
            r matches Some(v) ==> v == advanced_side_elems(
                (l0 as int, l1 as int, l2 as int),
                *e,
                batch as int,
            ),
            r is None ==> advanced_side_elems((l0 as int, l1 as int, l2 as int), *e, batch as int)
                > usize::MAX,
    {
        proof {
            assert(0 <= (l0 - 1) * e.ny < 0x4000000000000000) by (nonlinear_arith)
                requires
                    0 <= l0 - 1 < 0x80000000,
                    0 < e.ny < 0x80000000,
            ;
            assert(0 <= (l0 - 1) * e.ny * e.nz < 0x200000000000000000000000)
                by (nonlinear_arith)
                requires
                    0 <= (l0 - 1) * e.ny < 0x4000000000000000,
                    0 < e.nz < 0x80000000,
            ;
            assert(0 <= (l1 - 1) * e.nz < 0x4000000000000000) by (nonlinear_arith)
                requires
                    0 <= l1 - 1 < 0x80000000,
                    0 < e.nz < 0x80000000,
            ;
            assert(0 <= ((l0 - 1) * e.ny * e.nz + (l1 - 1) * e.nz + (l2 - 1)) * e.stride
                < 0x20000000000000000000000000000000) by (nonlinear_arith)
                requires
                    0 <= (l0 - 1) * e.ny * e.nz + (l1 - 1) * e.nz + (l2 - 1)
                        < 0x400000000000000000000000,
                    0 < e.stride < 0x80000000,
            ;
            assert(0 <= (batch - 1) * e.dist < 0x4000000000000000) by (nonlinear_arith)
                requires
                    0 <= batch - 1 < 0x80000000,
                    0 < e.dist < 0x80000000,
            ;
        }
        let a: u128 = ((l0 - 1) as u128) * (e.ny as u128) * (e.nz as u128);
        let b: u128 = ((l1 - 1) as u128) * (e.nz as u128);
        let span: u128 = (a + b + ((l2 - 1) as u128)) * (e.stride as u128);
        let total: u128 = span + ((batch - 1) as u128) * (e.dist as u128) + 1;
        if total <= usize::MAX as u128 {
            Some(total as usize)
        } else {
            None
        }
    }

    /// `required_input_elems`, computed; `None` where it exceeds what a
    /// buffer length can express, so that no buffer can satisfy it.
    pub fn required_input_len(&self) -> (r: Option<usize>)
        requires
            self.wf(),
        ensures
            r matches Some(v) ==> v == self.required_input_elems(),
            r is None ==> self.required_input_elems() > usize::MAX,
    {
        match self.layout {
            BatchLayout::Contiguous => {
                if matches!(self.kind, TransformKind::C2R | TransformKind::Z2D) {
                    self.packed_len()
                } else {
                    self.logical_len()
                }
            },
            BatchLayout::Advanced { input, output: _ } => {
                let (l0, l1, l2): (i32, i32, i32) = self.input_extents();
                Self::advanced_len(l0, l1, l2, &input, self.batch)
            },
        }
    }

    /// `required_output_elems`, computed; `None` where it exceeds what a
    /// buffer length can express, so that no buffer can satisfy it.
    pub fn required_output_len(&self) -> (r: Option<usize>)
        requires
            self.wf(),
        ensures
            r matches Some(v) ==> v == self.required_output_elems(),
            r is None ==> self.required_output_elems() > usize::MAX,
    {
        match self.layout {
            BatchLayout::Contiguous => {
                if matches!(self.kind, TransformKind::R2C | TransformKind::D2Z) {
                    self.packed_len()
                } else {
                    self.logical_len()
                }
            },
            BatchLayout::Advanced { input: _, output } => {
                let (l0, l1, l2): (i32, i32, i32) = self.output_extents();
                Self::advanced_len(l0, l1, l2, &output, self.batch)
            },
        }
    }

    /// Whether one embedding is well-formed for side extents `l` at this
    /// rank.
    fn embedding_ok(e: &BatchEmbedding, l: (i32, i32, i32), rank: i32) -> (r: bool)
        ensures
            r == embedding_wf(*e, (l.0 as int, l.1 as int, l.2 as int), rank as int),
    {
        e.nx >= 1 && (if rank >= 2 {
            e.ny >= l.1
        } else {
            e.ny == 1
        }) && (if rank >= 3 {
            e.nz >= l.2
        } else {
            e.nz == 1
        }) && e.stride >= 1 && e.dist >= 1
    }

    /// `wf`, computed: the apply half of configuration re-checks the
    /// descriptor with this, so a malformed shape can never be recorded.
    pub fn is_wf(&self) -> (r: bool)
        ensures
            r == self.wf(),
    {
        let shape_ok: bool = 1 <= self.rank && self.rank <= 3 && self.nx >= 1 && self.ny >= 1
            && self.nz >= 1 && (self.rank >= 2 || self.ny == 1) && (self.rank >= 3 || self.nz
            == 1) && self.batch >= 1;
        shape_ok && (match self.layout {
            BatchLayout::Contiguous => true,
            BatchLayout::Advanced { input, output } => {
                let li: (i32, i32, i32) = self.input_extents();
                let lo: (i32, i32, i32) = self.output_extents();
                Self::embedding_ok(&input, li, self.rank) && Self::embedding_ok(
                    &output,
                    lo,
                    self.rank,
                )
            },
        })
    }
}

/// Normalization of a caller's embedding at a given rank: storage extents of
/// dimensions beyond the rank are ignored and recorded as 1, like the logical
/// extents.
pub open spec fn normalize_embedding(e: BatchEmbedding, rank: i32) -> BatchEmbedding {
    BatchEmbedding {
        nx: e.nx,
        ny: if rank >= 2 {
            e.ny
        } else {
            1i32
        },
        nz: if rank >= 3 {
            e.nz
        } else {
            1i32
        },
        stride: e.stride,
        dist: e.dist,
    }
}

/// Normalization of a caller's layout at a given rank.
pub open spec fn normalize_layout(layout: BatchLayout, rank: i32) -> BatchLayout {
    match layout {
        BatchLayout::Contiguous => BatchLayout::Contiguous,
        BatchLayout::Advanced { input, output } => BatchLayout::Advanced {
            input: normalize_embedding(input, rank),
            output: normalize_embedding(output, rank),
        },
    }
}

/// The descriptor a generalized batched configuration request records:
/// logical and storage extents of dimensions beyond the rank are ignored and
/// recorded as 1.
pub open spec fn many_descriptor(
    kind: TransformKind,
    rank: i32,
    nx: i32,
    ny: i32,
    nz: i32,
    batch: i32,
    layout: BatchLayout,
) -> TransformDescriptor {
    TransformDescriptor {
        kind,
        rank,
        nx,
        ny: if rank >= 2 {
            ny
        } else {
            1i32
        },
        nz: if rank >= 3 {
            nz
        } else {
            1i32
        },
        batch,
        layout: normalize_layout(layout, rank),
    }
}

} // verus!
