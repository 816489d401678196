use predictive::score::{is_improvement, loss_key};

fn key(x: f32) -> Option<u32> {
    loss_key(x.to_bits())
}

#[test]
fn keys_order_as_losses() {
    let values: [f32; 9] = [f32::NEG_INFINITY, -2.5, -1.0, -1.0e-40, 0.0, 1.0e-40, 0.5, 1.0, f32::INFINITY];
    for i in 0..values.len() {
        for j in 0..values.len() {
            assert_eq!(is_improvement(key(values[i]), key(values[j])), values[i] < values[j]);
        }
    }
}

#[test]
fn both_zeros_share_a_key() {
    assert_eq!(key(0.0), key(-0.0));
    assert_eq!(key(0.0), Some(0x8000_0000));
}

#[test]
fn not_a_number_has_no_key() {
    assert_eq!(key(f32::NAN), None);
    assert_eq!(key(-f32::NAN), None);
    assert!(!is_improvement(key(f32::NAN), key(1.0)));
    assert!(!is_improvement(key(1.0), key(f32::NAN)));
}

#[test]
fn half_loss_beats_full_loss() {
    assert!(is_improvement(key(0.5), key(1.0)));
    assert!(!is_improvement(key(1.0), key(0.5)));
    assert_ne!(key(0.5), key(1.0));
}
