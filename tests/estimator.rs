use gyro::estimator::{gyro_component, BlendWeight, DroneVariant, FusionInput, GyroComponent};
use gyro::mailbox::Mailbox;
use gyro::remap::{remap, AxisAngle};
use gyro::wire::{ImuState, QuatBits, Vec3Bits};

fn vec3(x: f32, y: f32, z: f32) -> Vec3Bits {
    Vec3Bits { x: x.to_bits(), y: y.to_bits(), z: z.to_bits() }
}

fn mean(v: Vec<Vec3Bits>) -> Vec3Bits {
    let n = v.len() as f32;
    let mut s = [0.0f32; 3];
    for r in v.iter() {
        s[0] += f32::from_bits(r.x);
        s[1] += f32::from_bits(r.y);
        s[2] += f32::from_bits(r.z);
    }
    vec3(s[0] / n, s[1] / n, s[2] / n)
}

fn echo_weight(i: FusionInput) -> QuatBits {
    QuatBits { x: i.weight.bits(), y: i.gyro.x, z: i.accel.z, w: i.offset.y }
}

fn reading() -> ImuState {
    ImuState { gyro: vec3(1.0, 2.0, 3.0), accel: vec3(0.0, 0.0, 1.0) }
}

fn calibrated(variant: DroneVariant, weight: BlendWeight) -> GyroComponent {
    let mut g = GyroComponent::new(variant, weight);
    for _ in 0..101 {
        assert_eq!(g.update(reading(), mean, echo_weight), None);
    }
    g
}

#[test]
fn calibration_needs_more_than_one_hundred_readings() {
    let mut g = gyro_component(DroneVariant::Both);
    for _ in 0..100 {
        assert_eq!(g.update(reading(), mean, echo_weight), None);
    }
    assert_eq!(g.offset(), None);
    assert_eq!(g.calibration_len(), 100);
    assert_eq!(g.update(reading(), mean, echo_weight), None);
    assert_eq!(g.offset(), Some(vec3(1.0, 2.0, 3.0)));
    assert_eq!(g.calibration_len(), 0);
    assert_eq!(g.orientation(), None);
}

#[test]
fn active_update_fuses_with_bias() {
    let mut g = calibrated(DroneVariant::Both, BlendWeight::from_bits(0.25f32.to_bits()).unwrap());
    let q = g.update(reading(), mean, echo_weight).unwrap();
    assert_eq!(q.x, 0.25f32.to_bits());
    assert_eq!(q.y, 1.0f32.to_bits());
    assert_eq!(q.z, 1.0f32.to_bits());
    assert_eq!(q.w, 2.0f32.to_bits());
    assert_eq!(g.orientation(), Some(q));
}

#[test]
fn first_fusion_has_no_previous_then_chains() {
    let mut g = calibrated(DroneVariant::Both, BlendWeight::one());
    let mut seen = Vec::new();
    for _ in 0..2 {
        let q = g
            .update(reading(), mean, |i: FusionInput| {
                seen.push(i.previous);
                QuatBits { x: 0, y: 0, z: 0, w: 1.0f32.to_bits() }
            })
            .unwrap();
        assert_eq!(g.orientation(), Some(q));
    }
    assert_eq!(seen, vec![None, Some(QuatBits { x: 0, y: 0, z: 0, w: 1.0f32.to_bits() })]);
}

#[test]
fn gyro_only_ignores_stored_weight() {
    let stored = BlendWeight::from_bits(0.7f32.to_bits()).unwrap();
    let mut a = calibrated(DroneVariant::Gyro, stored);
    let mut b = calibrated(DroneVariant::Both, BlendWeight::zero());
    assert_eq!(a.effective_weight(), BlendWeight::zero());
    assert_eq!(a.update(reading(), mean, echo_weight), b.update(reading(), mean, echo_weight));
}

#[test]
fn acc_only_ignores_stored_weight() {
    let stored = BlendWeight::from_bits(0.1f32.to_bits()).unwrap();
    let mut a = calibrated(DroneVariant::Acc, stored);
    let mut b = calibrated(DroneVariant::Both, BlendWeight::one());
    assert_eq!(a.effective_weight(), BlendWeight::one());
    assert_eq!(a.update(reading(), mean, echo_weight), b.update(reading(), mean, echo_weight));
}

#[test]
fn set_weight_changes_both_variant_only() {
    let mut g = gyro_component(DroneVariant::Both);
    assert_eq!(g.weight(), BlendWeight::one());
    let w = BlendWeight::from_bits(0.08f32.to_bits()).unwrap();
    g.set_weight(w);
    assert_eq!(g.effective_weight(), w);
    let mut h = gyro_component(DroneVariant::Gyro);
    h.set_weight(w);
    assert_eq!(h.effective_weight().bits(), 0.0f32.to_bits());
}

#[test]
fn blend_weight_range() {
    assert!(BlendWeight::from_bits(0.0f32.to_bits()).is_some());
    assert!(BlendWeight::from_bits(1.0f32.to_bits()).is_some());
    assert!(BlendWeight::from_bits(0.5f32.to_bits()).is_some());
    assert!(BlendWeight::from_bits(1.5f32.to_bits()).is_none());
    assert!(BlendWeight::from_bits((-0.0f32).to_bits()).is_none());
    assert!(BlendWeight::from_bits((-0.5f32).to_bits()).is_none());
    assert!(BlendWeight::from_bits(f32::NAN.to_bits()).is_none());
}

#[test]
fn recalibrate_starts_over() {
    let mut g = calibrated(DroneVariant::Both, BlendWeight::one());
    g.update(reading(), mean, echo_weight);
    g.recalibrate();
    assert_eq!(g.offset(), None);
    assert_eq!(g.orientation(), None);
    assert_eq!(g.calibration_len(), 0);
}

#[test]
fn precomputed_orientation_is_kept() {
    let mut g = gyro_component(DroneVariant::Both);
    let q = QuatBits { x: 1, y: 2, z: 3, w: 4 };
    g.accept_precomputed(q);
    assert_eq!(g.orientation(), Some(q));
    assert_eq!(g.calibration_len(), 0);
}

#[test]
fn remap_permutes_and_flips_axis() {
    let r = remap(AxisAngle { axis: vec3(1.0, 2.0, 3.0), angle: 0.5f32.to_bits() });
    assert_eq!(r.axis, vec3(2.0, -3.0, 1.0));
    assert_eq!(r.angle, 0.5f32.to_bits());
    let z = remap(AxisAngle { axis: vec3(0.0, 0.0, 0.0), angle: 0 });
    assert_eq!(z.axis, vec3(0.0, -0.0, 0.0));
}

#[test]
fn freshest_value_wins() {
    let mut m = Mailbox::new();
    m.send("A");
    m.send("B");
    assert!(m.has_value());
    assert_eq!(m.try_receive(), Some("B"));
    assert_eq!(m.try_receive(), None);
    assert!(!m.has_value());
}

#[test]
fn negation_flips_only_the_sign_bit() {
    assert_eq!(gyro::remap::negate(2.5f32.to_bits()), (-2.5f32).to_bits());
    assert_eq!(gyro::remap::negate((-1.0f32).to_bits()), 1.0f32.to_bits());
}
