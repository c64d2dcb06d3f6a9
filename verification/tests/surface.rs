use raes::asset::changed_assets;
use raes::copyswap::{CopySwap, Flushable};
use raes::surface::event::VIRTUAL_KEY_COUNT;
use raes::surface::{
    ClickEvent, KeyEvent, ModifierState, MouseButton, PollAction, PressState, ResizeEvent, SurfaceEdgeData,
    VirtualKeyCode, WindowButton, WindowEvent, MAX_CLICK_EVENT_COUNT, MAX_KEY_EVENT_COUNT,
    MAX_RESIZE_EVENT_COUNT,
};
use raes::text::framed;

#[test]
fn key_numbers_round_trip() {
    assert_eq!(VIRTUAL_KEY_COUNT, 163);
    for code in 0..VIRTUAL_KEY_COUNT {
        let key = VirtualKeyCode::from_code(code).unwrap();
        assert_eq!(key.code(), code);
    }
    assert_eq!(VirtualKeyCode::from_code(163), None);
    assert_eq!(VirtualKeyCode::from_code(u32::MAX), None);
    assert_eq!(VirtualKeyCode::from_code(0), Some(VirtualKeyCode::Key1));
    assert_eq!(VirtualKeyCode::from_code(9), Some(VirtualKeyCode::Key0));
    assert_eq!(VirtualKeyCode::from_code(10), Some(VirtualKeyCode::A));
    assert_eq!(VirtualKeyCode::from_code(36), Some(VirtualKeyCode::Escape));
    assert_eq!(VirtualKeyCode::from_code(162), Some(VirtualKeyCode::Cut));
    assert_eq!(VirtualKeyCode::Q.code(), 26);
}

#[test]
fn new_edge_data_is_empty() {
    let edge = SurfaceEdgeData::new(1.5f32);
    assert_eq!(edge.modifiers(), ModifierState::default());
    assert_eq!(*edge.pointer(), 1.5);
    assert!(edge.key_events().is_empty());
    assert!(edge.click_events().is_empty());
    assert!(edge.resize_events().is_empty());
}

#[test]
fn events_are_recorded() {
    let mut edge = SurfaceEdgeData::new(());
    assert_eq!(edge.apply(WindowEvent::Resized { width: 640, height: 480 }), PollAction::Continue);
    assert_eq!(edge.resize_events(), &[ResizeEvent { width: 640, height: 480 }]);

    let held = ModifierState { shift: true, ctrl: false, alt: true, logo: false };
    assert_eq!(edge.apply(WindowEvent::ModifiersChanged(held)), PollAction::Continue);
    assert_eq!(edge.modifiers(), held);

    assert_eq!(
        edge.apply(WindowEvent::KeyboardInput { pressed: true, keycode: Some(10) }),
        PollAction::Continue
    );
    assert_eq!(edge.apply(WindowEvent::KeyboardInput { pressed: false, keycode: Some(10) }), PollAction::Continue);
    assert_eq!(
        edge.key_events(),
        &[
            KeyEvent { press: PressState::Down, keycode: VirtualKeyCode::A },
            KeyEvent { press: PressState::Up, keycode: VirtualKeyCode::A },
        ]
    );
    edge.apply(WindowEvent::KeyboardInput { pressed: true, keycode: None });
    edge.apply(WindowEvent::KeyboardInput { pressed: true, keycode: Some(500) });
    assert_eq!(edge.key_events().len(), 2);
}

#[test]
fn buttons_are_recorded_as_mapped() {
    let mut edge = SurfaceEdgeData::new(());
    edge.apply(WindowEvent::MouseInput { pressed: true, button: WindowButton::Left });
    edge.apply(WindowEvent::MouseInput { pressed: false, button: WindowButton::Right });
    edge.apply(WindowEvent::MouseInput { pressed: true, button: WindowButton::Other(8) });
    edge.apply(WindowEvent::MouseInput { pressed: true, button: WindowButton::Middle });
    assert_eq!(
        edge.click_events(),
        &[
            ClickEvent { press: PressState::Down, button: MouseButton::Left },
            ClickEvent { press: PressState::Up, button: MouseButton::Middle },
            ClickEvent { press: PressState::Down, button: MouseButton::Right },
        ]
    );
}

#[test]
fn close_and_cleared_steer_the_polling_loop() {
    let mut edge = SurfaceEdgeData::new(());
    assert_eq!(edge.apply(WindowEvent::CloseRequested), PollAction::Close);
    assert_eq!(edge.apply(WindowEvent::MainEventsCleared), PollAction::Exit);
    assert_eq!(edge.apply(WindowEvent::Other), PollAction::Continue);
    assert!(edge.key_events().is_empty());
    assert!(edge.click_events().is_empty());
    assert!(edge.resize_events().is_empty());
    assert_eq!(edge.modifiers(), ModifierState::default());
}

#[test]
fn buffers_drop_what_does_not_fit() {
    assert_eq!(MAX_KEY_EVENT_COUNT, 16);
    assert_eq!(MAX_CLICK_EVENT_COUNT, 4);
    assert_eq!(MAX_RESIZE_EVENT_COUNT, 2);
    let mut edge = SurfaceEdgeData::new(());
    for i in 0..20 {
        edge.apply(WindowEvent::KeyboardInput { pressed: true, keycode: Some(i) });
        edge.apply(WindowEvent::MouseInput { pressed: true, button: WindowButton::Left });
        edge.apply(WindowEvent::Resized { width: i as usize, height: 1 });
    }
    assert_eq!(edge.key_events().len(), 16);
    assert_eq!(edge.key_events()[15].keycode, VirtualKeyCode::F);
    assert_eq!(edge.click_events().len(), 4);
    assert_eq!(edge.resize_events(), &[ResizeEvent { width: 0, height: 1 }, ResizeEvent { width: 1, height: 1 }]);
}

#[test]
fn flush_empties_events_and_keeps_continuous_state() {
    let mut edge = SurfaceEdgeData::new(3u8);
    let held = ModifierState { shift: false, ctrl: true, alt: false, logo: true };
    edge.apply(WindowEvent::ModifiersChanged(held));
    edge.apply(WindowEvent::KeyboardInput { pressed: true, keycode: Some(1) });
    edge.apply(WindowEvent::MouseInput { pressed: true, button: WindowButton::Left });
    edge.apply(WindowEvent::Resized { width: 2, height: 3 });
    *edge.pointer_mut() = 4;
    edge.flush();
    assert!(edge.key_events().is_empty());
    assert!(edge.click_events().is_empty());
    assert!(edge.resize_events().is_empty());
    assert_eq!(edge.modifiers(), held);
    assert_eq!(*edge.pointer(), 4);
}

#[test]
fn edge_data_goes_through_a_copy_swap() {
    let mut swap = CopySwap::new(SurfaceEdgeData::new(0i32));
    {
        let mut back = swap.get_mut();
        back.get_mut().apply(WindowEvent::KeyboardInput { pressed: true, keycode: Some(26) });
        *back.get_mut().pointer_mut() = 9;
    }
    assert!(swap.get().key_events().is_empty());
    assert_eq!(*swap.get().pointer(), 0);
    swap.flush();
    assert!(swap.get().key_events().is_empty());
    assert_eq!(*swap.get().pointer(), 9);
    assert_eq!(*swap.get_mut().get().pointer(), 9);
}

#[test]
fn changed_assets_lists_every_watcher_of_the_path() {
    let watched = vec![String::from("/a"), String::from("/b"), String::from("/a"), String::from("/c")];
    assert_eq!(changed_assets(&watched, "/a"), [0, 2]);
    assert_eq!(changed_assets(&watched, "/c"), [3]);
    assert!(changed_assets(&watched, "/d").is_empty());
    assert!(changed_assets(&[], "/a").is_empty());
}

#[test]
fn framed_joins_three_parts() {
    assert_eq!(framed("<", "x", ">"), "<x>");
    assert_eq!(framed("", "", ""), "");
}
