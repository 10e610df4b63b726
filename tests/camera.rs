use goose_flowers::camera::follow_player;
use goose_flowers::player::Position;

#[test]
fn camera_follows_player() {
    let mut camera = Position { x: 0, y: 0 };
    assert!(!follow_player(&mut camera, Some(Position { x: 0, y: 0 })));
    assert!(follow_player(&mut camera, Some(Position { x: 3, y: -4 })));
    assert_eq!(camera, Position { x: 3, y: -4 });
    assert!(!follow_player(&mut camera, None));
    assert_eq!(camera, Position { x: 3, y: -4 });
}
