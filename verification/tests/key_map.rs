use nebula_tunes::loops::key_map::KeyMap;
use nebula_tunes::loops::{InputMsg, KeyState, RawInputMsg, RawKeyCode};

#[test]
fn test_key_map_conversion() {
    let key_map = KeyMap::new(vec!["KeyA".into(), "KeyS".into(), "Space".into()]);

    let msg = RawInputMsg::Key {
        code: RawKeyCode("KeyA".into()),
        state: KeyState::Pressed,
    };
    assert_eq!(key_map.convert(msg), Some(InputMsg::KeyDown(0)));

    let unmapped_msg = RawInputMsg::Key {
        code: RawKeyCode("KeyZ".into()),
        state: KeyState::Pressed,
    };
    assert_eq!(key_map.convert(unmapped_msg), None);
}

#[test]
fn test_key_map_max_lanes() {
    let keys: Vec<String> = (0..10).map(|i| format!("Key{}", i)).collect();
    let key_map = KeyMap::new(keys);

    let msg = RawInputMsg::Key {
        code: RawKeyCode("Key8".into()),
        state: KeyState::Pressed,
    };
    assert_eq!(key_map.convert(msg), None);
}
