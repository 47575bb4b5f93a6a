//! Per-body orientation estimator: calibration state machine and the blend
//! weight that each variant applies.
//!
//! The floating-point work (averaging, integration, tilt, interpolation) is
//! supplied by the caller as closures; this module decides when each runs,
//! what it is given, and what is kept.

use vstd::prelude::*;
use crate::wire::{ImuState, QuatBits, Vec3Bits};

verus! {

/// A calibration ends once more than this many gyro readings were collected.
pub const CALIBRATION_SAMPLES: usize = 100;

/// Bit pattern of the single-precision value `1.0`.
pub const WEIGHT_ONE_BITS: u32 = 0x3F80_0000;

/// Bit pattern of the single-precision value `0.0`.
pub const WEIGHT_ZERO_BITS: u32 = 0;

/// Share of trust given to the accelerometer tilt, a value in `[0, 1]` held
/// as its IEEE-754 bit pattern. Non-negative values order as their patterns
/// do, so the range is the patterns from `0.0` up to `1.0`.
#[derive(Clone, Copy, Debug, PartialEq, Eq, Structural)]
pub struct BlendWeight {
    bits: u32,
}

impl View for BlendWeight {
    type V = u32;

    closed spec fn view(&self) -> u32 {
        self.bits
    }
}

impl BlendWeight {
    #[verifier::type_invariant]
    closed spec fn inv(&self) -> bool {
        self.bits <= WEIGHT_ONE_BITS
    }

    /// The weight whose bit pattern is `bits`; `None` outside `[0, 1]`
    /// (negative values, `-0.0`, values above one and NaN).
    pub fn from_bits(bits: u32) -> (r: Option<BlendWeight>)
        ensures
            bits <= WEIGHT_ONE_BITS ==> r is Some && r->0@ == bits,
            bits > WEIGHT_ONE_BITS ==> r is None,
    {
        if bits <= WEIGHT_ONE_BITS {
            Some(BlendWeight { bits })
        } else {
            None
        }
    }

    /// Trust the gyro alone.
    pub fn zero() -> (r: BlendWeight)
        ensures
            r@ == WEIGHT_ZERO_BITS,
    {
        BlendWeight { bits: WEIGHT_ZERO_BITS }
    }

    /// Trust the accelerometer alone.
    pub fn one() -> (r: BlendWeight)
        ensures
            r@ == WEIGHT_ONE_BITS,
    {
        BlendWeight { bits: WEIGHT_ONE_BITS }
    }

    pub fn bits(&self) -> (r: u32)
        ensures
            r == self@,
            r <= WEIGHT_ONE_BITS,
    {
        proof {
            use_type_invariant(self);
        }
        self.bits
    }
}

/// Which estimate a body shows.
#[derive(Clone, Copy, Debug, PartialEq, Eq, Structural)]
pub enum DroneVariant {
    /// Gyro integration alone.
    Gyro,
    /// Accelerometer tilt alone.
    Acc,
    /// The complementary blend of both, at the configured weight.
    Both,
}

/// The weight that fusion uses: the variant overrides the configured one.
pub open spec fn effective_weight_of(variant: DroneVariant, configured: u32) -> u32 {
    match variant {
        DroneVariant::Gyro => WEIGHT_ZERO_BITS,
        DroneVariant::Acc => WEIGHT_ONE_BITS,
        DroneVariant::Both => configured,
    }
}

/// Variant law: a gyro-only body fuses at the weight of a blending body set
/// to zero, and an accelerometer-only body at that of one set to one,
/// whatever weight either has stored.
pub proof fn lemma_variant_override(stored: u32)
    ensures
        effective_weight_of(DroneVariant::Gyro, stored) == effective_weight_of(
            DroneVariant::Both,
            WEIGHT_ZERO_BITS,
        ),
        effective_weight_of(DroneVariant::Acc, stored) == effective_weight_of(
            DroneVariant::Both,
            WEIGHT_ONE_BITS,
        ),
{
}

/// Progress of the gyro bias calibration.
pub enum Calibration {
    /// Gyro readings collected so far, oldest first.
    Calibrating(Vec<Vec3Bits>),
    /// The per-axis gyro bias: the mean of the collected readings.
    Active(Vec3Bits),
}

/// The mathematical content of a [`Calibration`].
pub enum CalibrationView {
    Calibrating(Seq<Vec3Bits>),
    Active(Vec3Bits),
}

impl View for Calibration {
    type V = CalibrationView;

    open spec fn view(&self) -> CalibrationView {
        match self {
            Calibration::Calibrating(s) => CalibrationView::Calibrating(s@),
            Calibration::Active(o) => CalibrationView::Active(*o),
        }
    }
}

/// Calibration after gyro reading `g` arrives, where `m` is the mean of the
/// readings once `g` is added: readings are collected until there are more
/// than [`CALIBRATION_SAMPLES`] of them, and then their mean becomes the bias.
pub open spec fn calibration_step(c: CalibrationView, g: Vec3Bits, m: Vec3Bits) -> CalibrationView {
    match c {
        CalibrationView::Calibrating(s) => if s.len() + 1 > CALIBRATION_SAMPLES {
            CalibrationView::Active(m)
        } else {
            CalibrationView::Calibrating(s.push(g))
        },
        CalibrationView::Active(o) => CalibrationView::Active(o),
    }
}

/// Calibration after the readings `gs` arrive, one by one, at `c`; `ms[i]`
/// is the mean that reading `i` would complete.
pub open spec fn calibration_run(
    c: CalibrationView,
    gs: Seq<Vec3Bits>,
    ms: Seq<Vec3Bits>,
) -> CalibrationView
    decreases gs.len(),
{
    if gs.len() == 0 {
        c
    } else {
        calibration_step(
            calibration_run(c, gs.drop_last(), ms),
            gs.last(),
            ms[gs.len() - 1],
        )
    }
}

/// Calibration law: a fresh calibration stays collecting, with every reading
/// kept in order, through the first [`CALIBRATION_SAMPLES`] readings, and the
/// next reading makes it active with the mean that reading completes.
pub proof fn lemma_calibration_threshold(gs: Seq<Vec3Bits>, ms: Seq<Vec3Bits>)
    requires
        gs.len() <= ms.len(),
    ensures
        gs.len() <= CALIBRATION_SAMPLES ==> calibration_run(
            CalibrationView::Calibrating(Seq::empty()),
            gs,
            ms,
        ) == CalibrationView::Calibrating(gs),
        gs.len() == CALIBRATION_SAMPLES + 1 ==> calibration_run(
            CalibrationView::Calibrating(Seq::empty()),
            gs,
            ms,
        ) == CalibrationView::Active(ms[CALIBRATION_SAMPLES as int]),
    decreases gs.len(),
{
    if gs.len() == 0 {
        assert(gs =~= Seq::<Vec3Bits>::empty());
    } else {
        let init = gs.drop_last();
        lemma_calibration_threshold(init, ms);
        if gs.len() <= CALIBRATION_SAMPLES + 1 {
            assert(init.push(gs.last()) =~= gs);
        }
    }
}

/// What one fusion tick works from: the raw gyro reading and its bias, the
/// accelerometer reading, the previous orientation (none on the first tick
/// after calibration) and the effective blend weight.
#[derive(Clone, Copy, Debug, PartialEq, Eq, Structural)]
pub struct FusionInput {
    pub gyro: Vec3Bits,
    pub offset: Vec3Bits,
    pub accel: Vec3Bits,
    pub previous: Option<QuatBits>,
    pub weight: BlendWeight,
}

/// The mathematical content of a [`GyroComponent`].
pub struct EstimatorView {
    pub variant: DroneVariant,
    pub weight: u32,
    pub calibration: CalibrationView,
    pub orientation: Option<QuatBits>,
}

/// The estimator state of one tracked body.
pub struct GyroComponent {
    pub variant: DroneVariant,
    weight: BlendWeight,
    calibration: Calibration,
    orientation: Option<QuatBits>,
}

impl View for GyroComponent {
    type V = EstimatorView;

    closed spec fn view(&self) -> EstimatorView {
        EstimatorView {
            variant: self.variant,
            weight: self.weight@,
            calibration: self.calibration@,
            orientation: self.orientation,
        }
    }
}

/// The input that fusion is handed for reading `imu` in state `e`, once
/// calibrated with bias `offset`.
pub open spec fn fusion_input_matches(
    input: FusionInput,
    e: EstimatorView,
    imu: ImuState,
    offset: Vec3Bits,
) -> bool {
    &&& input.gyro == imu.gyro
    &&& input.offset == offset
    &&& input.accel == imu.accel
    &&& input.previous == e.orientation
    &&& input.weight@ == effective_weight_of(e.variant, e.weight)
}

impl GyroComponent {
    /// A calibration collects no more readings than it needs.
    pub closed spec fn wf(&self) -> bool {
        match self.calibration {
            Calibration::Calibrating(s) => s.len() <= CALIBRATION_SAMPLES,
            Calibration::Active(_) => true,
        }
    }

    /// A body that starts calibrating, with no orientation yet.
    pub fn new(variant: DroneVariant, weight: BlendWeight) -> (r: GyroComponent)
        ensures
            r.wf(),
            r@.variant == variant,
            r@.weight == weight@,
            r@.calibration == CalibrationView::Calibrating(Seq::empty()),
            r@.orientation is None,
    {
        GyroComponent {
            variant,
            weight,
            calibration: Calibration::Calibrating(Vec::new()),
            orientation: None,
        }
    }

    /// The configured weight, which the variant may override.
    pub fn weight(&self) -> (r: BlendWeight)
        ensures
            r@ == self@.weight,
    {
        self.weight
    }

    /// Changes the configured weight; nothing else changes.
    pub fn set_weight(&mut self, weight: BlendWeight)
        requires
            old(self).wf(),
        ensures
            final(self).wf(),
            final(self)@.weight == weight@,
            final(self)@.variant == old(self)@.variant,
            final(self)@.calibration == old(self)@.calibration,
            final(self)@.orientation == old(self)@.orientation,
    {
        self.weight = weight;
    }

    /// The weight that fusion uses for this body.
    pub fn effective_weight(&self) -> (r: BlendWeight)
        ensures
            r@ == effective_weight_of(self@.variant, self@.weight),
    {
        match self.variant {
            DroneVariant::Gyro => BlendWeight::zero(),
            DroneVariant::Acc => BlendWeight::one(),
            DroneVariant::Both => self.weight,
        }
    }

    /// The last orientation produced, if any.
    pub fn orientation(&self) -> (r: Option<QuatBits>)
        ensures
            r == self@.orientation,
    {
        self.orientation
    }

    /// The gyro bias, once calibrated.
    pub fn offset(&self) -> (r: Option<Vec3Bits>)
        ensures
            r == match self@.calibration {
                CalibrationView::Active(o) => Some(o),
                CalibrationView::Calibrating(_) => None,
            },
    {
        match &self.calibration {
            Calibration::Active(o) => Some(*o),
            Calibration::Calibrating(_) => None,
        }
    }

    /// How many gyro readings the running calibration holds (zero once active).
    pub fn calibration_len(&self) -> (r: usize)
        ensures
            r == match self@.calibration {
                CalibrationView::Calibrating(s) => s.len(),
                CalibrationView::Active(_) => 0,
            },
    {
        match &self.calibration {
            Calibration::Calibrating(s) => s.len(),
            Calibration::Active(_) => 0,
        }
    }

    /// Starts a new calibration and forgets the orientation.
    pub fn recalibrate(&mut self)
        requires
            old(self).wf(),
        ensures
            final(self).wf(),
            final(self)@.variant == old(self)@.variant,
            final(self)@.weight == old(self)@.weight,
            final(self)@.calibration == CalibrationView::Calibrating(Seq::empty()),
            final(self)@.orientation is None,
    {
        self.calibration = Calibration::Calibrating(Vec::new());
        self.orientation = None;
    }

    /// Takes an orientation fused by the device itself, skipping local fusion.
    pub fn accept_precomputed(&mut self, orientation: QuatBits)
        requires
            old(self).wf(),
        ensures
            final(self).wf(),
            final(self)@.variant == old(self)@.variant,
            final(self)@.weight == old(self)@.weight,
            final(self)@.calibration == old(self)@.calibration,
            final(self)@.orientation == Some(orientation),
    {
        self.orientation = Some(orientation);
    }

    /// Advances the body by one reading.
    ///
    /// While calibrating, the gyro reading is collected and nothing is
    /// produced; the reading that takes the count past
    /// [`CALIBRATION_SAMPLES`] hands all readings to `mean`, whose result
    /// becomes the bias. Once calibrated, `fuse` computes the new orientation
    /// from the reading, the bias, the previous orientation and the effective
    /// weight; it is stored and returned.
    pub fn update<M, F>(&mut self, imu: ImuState, mean: M, fuse: F) -> (r: Option<QuatBits>) where
        M: FnOnce(Vec<Vec3Bits>) -> Vec3Bits,
        F: FnOnce(FusionInput) -> QuatBits,

        requires
            old(self).wf(),
            forall|v: Vec<Vec3Bits>| #[trigger] mean.requires((v,)),
            forall|i: FusionInput| #[trigger] fuse.requires((i,)),
        ensures
            final(self).wf(),
            final(self)@.variant == old(self)@.variant,
            final(self)@.weight == old(self)@.weight,
            match old(self)@.calibration {
                CalibrationView::Calibrating(s) => {
                    &&& r is None
                    &&& s.len() < CALIBRATION_SAMPLES ==> {
                        &&& final(self)@.calibration == CalibrationView::Calibrating(
                            s.push(imu.gyro),
                        )
                        &&& final(self)@.orientation == old(self)@.orientation
                    }
                    &&& s.len() >= CALIBRATION_SAMPLES ==> {
                        &&& exists|v: Vec<Vec3Bits>, m: Vec3Bits|
                            {
                                &&& v@ == s.push(imu.gyro)
                                &&& mean.ensures((v,), m)
                                &&& final(self)@.calibration == calibration_step(
                                    old(self)@.calibration,
                                    imu.gyro,
                                    m,
                                )
                            }
                        &&& final(self)@.orientation is None
                    }
                },
                CalibrationView::Active(offset) => {
                    &&& r is Some
                    &&& exists|input: FusionInput|
                        {
                            &&& fusion_input_matches(input, old(self)@, imu, offset)
                            &&& fuse.ensures((input,), r->0)
                        }
                    &&& final(self)@.calibration == old(self)@.calibration
                    &&& final(self)@.orientation == r
                },
            },
    {
        let weight = self.effective_weight();
        match &mut self.calibration {
            Calibration::Calibrating(samples) => {
                if samples.len() < CALIBRATION_SAMPLES {
                    samples.push(imu.gyro);
                    None
                } else {
                    let mut all: Vec<Vec3Bits> = Vec::new();
                    std::mem::swap(&mut all, samples);
                    all.push(imu.gyro);
                    let ghost collected = all;
                    let m = mean(all);
                    self.calibration = Calibration::Active(m);
                    self.orientation = None;
                    proof {
                        assert(mean.ensures((collected,), m));
                        assert(self@.calibration == calibration_step(
                            old(self)@.calibration,
                            imu.gyro,
                            m,
                        ));
                    }
                    None
                }
            },
            Calibration::Active(offset) => {
                let input = FusionInput {
                    gyro: imu.gyro,
                    offset: *offset,
                    accel: imu.accel,
                    previous: self.orientation,
                    weight,
                };
                let q = fuse(input);
                proof {
                    assert(fusion_input_matches(input, old(self)@, imu, *offset));
                    assert(fuse.ensures((input,), q));
                }
                self.orientation = Some(q);
                Some(q)
            },
        }
    }
}

/// A body showing `variant` with the initial weight, which trusts the
/// accelerometer alone until changed.
pub fn gyro_component(variant: DroneVariant) -> (r: GyroComponent)
    ensures
        r.wf(),
        r@.variant == variant,
        r@.weight == WEIGHT_ONE_BITS,
        r@.calibration == CalibrationView::Calibrating(Seq::empty()),
        r@.orientation is None,
{
    GyroComponent::new(variant, BlendWeight::one())
}

/// Variant law, stated on whole estimator states: a gyro-only body with any
/// stored weight hands fusion exactly the inputs that a blending body set to
/// zero hands it when the two agree on everything else, so both produce the
/// same orientation; likewise an accelerometer-only body and a blending body
/// set to one.
pub proof fn lemma_variant_same_fusion_input(
    e: EstimatorView,
    input: FusionInput,
    imu: ImuState,
    offset: Vec3Bits,
)
    ensures
        e.variant == DroneVariant::Gyro ==> (fusion_input_matches(input, e, imu, offset)
            <==> fusion_input_matches(
            input,
            EstimatorView { variant: DroneVariant::Both, weight: WEIGHT_ZERO_BITS, ..e },
            imu,
            offset,
        )),
        e.variant == DroneVariant::Acc ==> (fusion_input_matches(input, e, imu, offset)
            <==> fusion_input_matches(
            input,
            EstimatorView { variant: DroneVariant::Both, weight: WEIGHT_ONE_BITS, ..e },
            imu,
            offset,
        )),
{
}

} // verus!
