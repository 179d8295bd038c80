use render_core::camera::{CameraController, CameraUniform, Movement};
use render_core::events::{Key, WindowEvent};
use render_core::wire::{words16_to_le_bytes, words_to_le_bytes};

#[test]
fn words_serialize_little_endian() {
    let words: Vec<u32> = vec![0x0403_0201, 0xAABB_CCDD];
    let bytes = words_to_le_bytes(&words);
    assert_eq!(bytes, vec![0x01, 0x02, 0x03, 0x04, 0xDD, 0xCC, 0xBB, 0xAA]);
}

#[test]
fn words16_serialize_little_endian() {
    let words: Vec<u16> = vec![0x0201, 0xFFEE];
    let bytes = words16_to_le_bytes(&words);
    assert_eq!(bytes, vec![0x01, 0x02, 0xEE, 0xFF]);
}

#[test]
fn controller_tracks_held_keys() {
    let mut c = CameraController::new((0.1f32).to_bits());
    assert!(!c.forward && !c.backward && !c.left && !c.right);

    assert!(c.process_events(&WindowEvent::KeyInput { key: Key::W, pressed: true }));
    assert!(c.forward);
    assert!(c.process_events(&WindowEvent::KeyInput { key: Key::Left, pressed: true }));
    assert!(c.left);
    assert!(c.process_events(&WindowEvent::KeyInput { key: Key::W, pressed: false }));
    assert!(!c.forward);
    assert!(c.left);

    // Unrecognised keys and non-key events pass through unconsumed and
    // leave the state alone.
    assert!(!c.process_events(&WindowEvent::KeyInput { key: Key::Other, pressed: true }));
    assert!(!c.process_events(&WindowEvent::CursorMoved { x: 10, y: 20 }));
    assert!(!c.process_events(&WindowEvent::Resized { width: 3, height: 4 }));
    assert!(!c.process_events(&WindowEvent::CloseRequested));
    assert!(!c.forward && c.left && !c.backward && !c.right);
}

#[test]
fn forward_only_advances_one_step() {
    let mut c = CameraController::new((0.1f32).to_bits());
    c.process_events(&WindowEvent::KeyInput { key: Key::Up, pressed: true });
    assert_eq!(c.movement(), Movement { advance: 1, strafe: 0 });
}

#[test]
fn opposed_keys_cancel() {
    let mut c = CameraController::new((0.1f32).to_bits());
    c.process_events(&WindowEvent::KeyInput { key: Key::W, pressed: true });
    c.process_events(&WindowEvent::KeyInput { key: Key::S, pressed: true });
    c.process_events(&WindowEvent::KeyInput { key: Key::D, pressed: true });
    assert_eq!(c.movement(), Movement { advance: 0, strafe: 1 });
}

#[test]
fn fresh_uniform_is_identity() {
    let u = CameraUniform::new();
    let one = (1.0f32).to_bits();
    for c in 0..4 {
        for r in 0..4 {
            let expected = if c == r { one } else { 0 };
            assert_eq!(u.view_proj[4 * c + r], expected);
        }
    }
    let bytes = u.bytes();
    assert_eq!(bytes.len(), 64);
    assert_eq!(&bytes[0..4], &[0x00, 0x00, 0x80, 0x3F]);
    assert_eq!(&bytes[4..8], &[0x00, 0x00, 0x00, 0x00]);
}

#[test]
fn uniform_bytes_follow_update() {
    let mut u = CameraUniform::new();
    let mut words = [0u32; 16];
    for (i, w) in words.iter_mut().enumerate() {
        *w = 0x0101_0101u32.wrapping_mul(i as u32);
    }
    u.update_view_proj(words);
    let bytes = u.bytes();
    for i in 0..16 {
        let le = words[i].to_le_bytes();
        assert_eq!(&bytes[4 * i..4 * i + 4], &le);
    }
}

#[test]
fn empty_word_sequences_serialize_to_nothing() {
    assert_eq!(words_to_le_bytes(&Vec::new()).len(), 0);
    assert_eq!(words16_to_le_bytes(&Vec::new()).len(), 0);
}
