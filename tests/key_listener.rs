use groqbara::listener::{
    key_state, trigger_key, FnKeyListener, ListenerError, ListenerRegistry, RawKeyEvent, RegistrySlot,
    TriggerKeySpec,
};
use groqbara::platform::PlatformKind;
use groqbara::trigger::KeyEdge;

fn mac_key() -> TriggerKeySpec {
    trigger_key(PlatformKind::MacOS).unwrap()
}

fn win_key() -> TriggerKeySpec {
    trigger_key(PlatformKind::Windows).unwrap()
}

#[test]
fn fn_modifier_flag_gives_key_state() {
    let k = mac_key();
    assert_eq!(key_state(k, RawKeyEvent::Tap { event_type: 12, flags: 0x80_0000 }), Some(true));
    assert_eq!(key_state(k, RawKeyEvent::Tap { event_type: 12, flags: 0x80_0100 }), Some(true));
    assert_eq!(key_state(k, RawKeyEvent::Tap { event_type: 12, flags: 0x100 }), Some(false));
    assert_eq!(key_state(k, RawKeyEvent::Tap { event_type: 10, flags: 0x80_0000 }), None);
    assert_eq!(key_state(k, RawKeyEvent::Hook { code: 0, vk: 0xA5, message: 0x100 }), None);
}

#[test]
fn right_alt_and_f24_are_triggers_on_windows() {
    let k = win_key();
    assert_eq!(key_state(k, RawKeyEvent::Hook { code: 0, vk: 0xA5, message: 0x100 }), Some(true));
    assert_eq!(key_state(k, RawKeyEvent::Hook { code: 0, vk: 0xA5, message: 0x104 }), Some(true));
    assert_eq!(key_state(k, RawKeyEvent::Hook { code: 0, vk: 0x87, message: 0x101 }), Some(false));
    assert_eq!(key_state(k, RawKeyEvent::Hook { code: 0, vk: 0x87, message: 0x105 }), Some(false));
    assert_eq!(key_state(k, RawKeyEvent::Hook { code: 0, vk: 0x41, message: 0x100 }), None);
    assert_eq!(key_state(k, RawKeyEvent::Hook { code: 3, vk: 0xA5, message: 0x100 }), None);
    assert_eq!(key_state(k, RawKeyEvent::Hook { code: 0, vk: 0xA5, message: 0x200 }), None);
    assert_eq!(key_state(k, RawKeyEvent::Tap { event_type: 12, flags: 0x80_0000 }), None);
}

#[test]
fn only_fn_transitions_reach_the_callback() {
    let mut reg = ListenerRegistry::new();
    let l = FnKeyListener::new(&mut reg, PlatformKind::MacOS).unwrap();
    l.installed(&mut reg, Ok(())).unwrap();
    let tap = |flags: u64| RawKeyEvent::Tap { event_type: 12, flags };
    // Shift down and up while Fn is up: no edge.
    assert_eq!(reg.route(tap(0x2_0000)), None);
    assert_eq!(reg.route(tap(0)), None);
    // Fn down, then Shift down with Fn still held, then Fn up.
    assert_eq!(reg.route(tap(0x80_0000)), Some(KeyEdge::Pressed));
    assert_eq!(reg.route(tap(0x82_0000)), None);
    assert_eq!(reg.route(tap(0x2_0000)), Some(KeyEdge::Released));
    assert_eq!(reg.route(tap(0)), None);
}

#[test]
fn key_repeat_reaches_the_callback() {
    let mut reg = ListenerRegistry::new();
    let l = FnKeyListener::new(&mut reg, PlatformKind::Windows).unwrap();
    l.installed(&mut reg, Ok(())).unwrap();
    let down = RawKeyEvent::Hook { code: 0, vk: 0xA5, message: 0x104 };
    let up = RawKeyEvent::Hook { code: 0, vk: 0xA5, message: 0x105 };
    assert_eq!(reg.route(down), Some(KeyEdge::Pressed));
    assert_eq!(reg.route(down), Some(KeyEdge::Pressed));
    assert_eq!(reg.route(up), Some(KeyEdge::Released));
    let other = RawKeyEvent::Hook { code: 0, vk: 0x41, message: 0x100 };
    assert_eq!(reg.route(other), None);
}

#[test]
fn unsupported_platform_has_no_listener() {
    let mut reg = ListenerRegistry::new();
    assert!(trigger_key(PlatformKind::Unsupported).is_none());
    let r = FnKeyListener::new(&mut reg, PlatformKind::Unsupported);
    assert!(matches!(r, Err(ListenerError::Unsupported)));
    assert_eq!(reg.slot(), RegistrySlot::Free);
}

#[test]
fn only_one_listener_at_a_time() {
    let mut reg = ListenerRegistry::new();
    let first = FnKeyListener::new(&mut reg, PlatformKind::MacOS).unwrap();
    assert!(matches!(reg.slot(), RegistrySlot::Installing { .. }));
    let second = FnKeyListener::new(&mut reg, PlatformKind::MacOS);
    assert!(matches!(second, Err(ListenerError::AlreadyActive)));
    assert_eq!(ListenerError::AlreadyActive.message(), "Fn key listener already active");
    assert!(first.installed(&mut reg, Ok(())).is_ok());
    assert!(matches!(reg.slot(), RegistrySlot::Active { .. }));
    assert!(matches!(FnKeyListener::new(&mut reg, PlatformKind::MacOS), Err(ListenerError::AlreadyActive)));
}

#[test]
fn stop_then_start_with_a_new_callback_succeeds() {
    let mut reg = ListenerRegistry::new();
    let first = FnKeyListener::new(&mut reg, PlatformKind::Windows).unwrap();
    first.installed(&mut reg, Ok(())).unwrap();
    first.stop(&mut reg);
    assert_eq!(reg.slot(), RegistrySlot::Free);
    let second = FnKeyListener::new(&mut reg, PlatformKind::Windows).unwrap();
    second.installed(&mut reg, Ok(())).unwrap();
    assert!(matches!(reg.slot(), RegistrySlot::Active { .. }));
    first.stop(&mut reg);
    assert!(matches!(reg.slot(), RegistrySlot::Active { .. }));
}

#[test]
fn events_reach_only_an_active_listener() {
    let mut reg = ListenerRegistry::new();
    let ev = RawKeyEvent::Tap { event_type: 12, flags: 0x80_0000 };
    assert_eq!(ListenerError::NotInstalling.message(), "Fn key listener is not being installed");
    assert_eq!(ListenerError::InstallFailed("x".to_string()).message(), "x");
    assert_eq!(reg.route(ev), None);
    let l = FnKeyListener::new(&mut reg, PlatformKind::MacOS).unwrap();
    assert_eq!(reg.route(ev), None);
    l.installed(&mut reg, Ok(())).unwrap();
    assert_eq!(reg.route(ev), Some(KeyEdge::Pressed));
    l.stop(&mut reg);
    assert_eq!(reg.route(ev), None);
}

#[test]
fn failed_installation_releases_the_slot() {
    let mut reg = ListenerRegistry::new();
    let l = FnKeyListener::new(&mut reg, PlatformKind::MacOS).unwrap();
    let r = l.installed(&mut reg, Err("Failed to create event tap".to_string()));
    match r {
        Err(ListenerError::InstallFailed(m)) => assert_eq!(m, "Failed to create event tap"),
        _ => panic!("expected an installation failure"),
    }
    assert_eq!(reg.slot(), RegistrySlot::Free);
    assert!(matches!(l.installed(&mut reg, Ok(())), Err(ListenerError::NotInstalling)));
    assert!(FnKeyListener::new(&mut reg, PlatformKind::MacOS).is_ok());
}
