use cursor_movement::{Coords, Direction, Movement};

#[test]
fn movements_compare_by_variant_and_payload() {
    let a = Movement::To(Direction::Left, 3, true);
    let b = a;
    assert_eq!(a, b);
    assert_ne!(a, Movement::To(Direction::Left, 3, false));
    assert_ne!(a, Movement::Tab(Direction::Left, 3, true));
    assert_eq!(Movement::Position(Coords { x: 1, y: 2 }), Movement::Position(Coords { x: 1, y: 2 }));
    assert_ne!(Movement::Position(Coords { x: 1, y: 2 }), Movement::Position(Coords { x: 2, y: 1 }));
    assert_ne!(Movement::ToBeginning, Movement::ToEnd);
}

#[test]
fn coords_compare_by_fields() {
    assert_eq!(Coords { x: 5, y: 10 }, Coords { x: 5, y: 10 });
    assert_ne!(Coords { x: 5, y: 10 }, Coords { x: 10, y: 5 });
    assert!(Coords { x: 1, y: 9 } < Coords { x: 2, y: 0 });
    assert!(Coords { x: 1, y: 1 } < Coords { x: 1, y: 2 });
}
