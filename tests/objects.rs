use fj_kernel::input::{handle_key, Actions, CameraCommand, Key, KeyState, ScreenSize};
use fj_kernel::isosurface::{Axis, Direction, Edge, GridIndex, Sign};
use fj_kernel::objects::{Face, Services};
use fj_kernel::sketch::Sketch;
use fj_kernel::storage::Handle;

fn h(id: usize) -> Handle {
    Handle { id }
}

#[test]
fn sketch_holds_each_region_once_in_order() {
    let sketch = Sketch::new(vec![h(5), h(2), h(5), h(9), h(2)]);
    assert_eq!(sketch.regions(), vec![h(2), h(5), h(9)]);
    assert!(Sketch::new(Vec::new()).regions().is_empty());
}

#[test]
fn sketch_faces_places_each_region_on_the_surface() {
    let mut services = Services::new();
    let surface = h(1);
    let sketch = Sketch::new(vec![h(8), h(3)]);

    let faces = sketch.faces(surface, &mut services);

    assert_eq!(faces, vec![h(0), h(1)]);
    assert_eq!(*services.faces.resolve(faces[0]), Face::new(surface, h(3)));
    assert_eq!(*services.faces.resolve(faces[1]), Face::new(surface, h(8)));
    assert_eq!(services.faces.len(), 2);
}

#[test]
fn edge_reverse_swaps_ends() {
    let e = Edge { a: 1, b: 2 };
    assert_eq!(e.reverse(), Edge { a: 2, b: 1 });
}

#[test]
fn edge_direction_along_each_axis() {
    let o = GridIndex::new(1, 1, 1);
    let cases = [
        (GridIndex::new(1, 1, 0), Axis::Z, Sign::Neg),
        (GridIndex::new(1, 1, 2), Axis::Z, Sign::Pos),
        (GridIndex::new(1, 0, 1), Axis::Y, Sign::Neg),
        (GridIndex::new(1, 2, 1), Axis::Y, Sign::Pos),
        (GridIndex::new(0, 1, 1), Axis::X, Sign::Neg),
        (GridIndex::new(2, 1, 1), Axis::X, Sign::Pos),
    ];
    for (b, axis, sign) in cases {
        assert_eq!(Edge { a: o, b }.direction(), Direction { axis, sign });
    }
}

#[test]
fn actions_ask_for_nothing_at_first() {
    let a = Actions::new();
    assert!(!a.exit && !a.toggle_model && !a.toggle_mesh && !a.toggle_debug);
    assert_eq!(Actions::default(), a);
    let size = ScreenSize { width: 800, height: 600 };
    assert_eq!(size.width, 800);
}

#[test]
fn keys_set_actions_and_camera_commands() {
    let mut actions = Actions::new();
    assert_eq!(handle_key(&mut actions, Key::Escape, KeyState::Pressed), CameraCommand::Nothing);
    assert!(actions.exit);
    assert_eq!(handle_key(&mut actions, Key::Key2, KeyState::Pressed), CameraCommand::Nothing);
    assert!(actions.toggle_mesh && !actions.toggle_model && !actions.toggle_debug);
    let before = actions;
    assert_eq!(
        handle_key(&mut actions, Key::MouseLeft, KeyState::Pressed),
        CameraCommand::StartRotation
    );
    assert_eq!(
        handle_key(&mut actions, Key::MouseRight, KeyState::Released),
        CameraCommand::StopMovement
    );
    assert_eq!(handle_key(&mut actions, Key::Key1, KeyState::Released), CameraCommand::Nothing);
    assert_eq!(actions, before);
}
