use platformer::movement::{check_player_collisions, player_movement};
use platformer::physics::{Aabb, Collider, Position, Velocity};
use platformer::player::{ActorState, Player};

#[test]
fn a_full_tick_lands_the_falling_actor() {
    // An airborne actor sinking into the ground: the detector reports the
    // Bottom contact, and the integrator grounds the actor and leaves the
    // pending list empty for the next tick.
    let mut player = Player {
        name: "Player1".to_string(),
        state: vec![ActorState::IDLE],
        grounded: false,
    };
    let mut position = Position { x: 0, y: 0 };
    let mut velocity = Velocity { x: 0, y: 0 };
    let mut collider = Collider { half_width: 1_000, half_height: 1_000, collision: Vec::new() };
    let ground = vec![Aabb { x: 0, y: -1_900, half_width: 100_000, half_height: 1_000 }];

    check_player_collisions(position.x, position.y, &mut collider, &ground);
    assert_eq!(collider.collision.len(), 1);
    player_movement(100, &mut player, &mut position, &mut velocity, &mut collider);

    assert!(player.grounded);
    assert!(collider.collision.is_empty());
    assert_eq!(position.y, 0);

    // The next tick finds the actor resting: it stays grounded and still.
    check_player_collisions(position.x, position.y, &mut collider, &ground);
    player_movement(100, &mut player, &mut position, &mut velocity, &mut collider);
    assert!(player.grounded);
    assert_eq!(position.y, 0);
}

#[test]
fn a_full_tick_pushes_the_actor_out_of_a_side_wall() {
    let mut player = Player {
        name: "Player1".to_string(),
        state: vec![ActorState::IDLE],
        grounded: true,
    };
    let mut position = Position { x: 0, y: 0 };
    let mut velocity = Velocity { x: 0, y: 0 };
    let mut collider = Collider { half_width: 1_000, half_height: 1_000, collision: Vec::new() };
    // A wall overlapping the actor's left face by 0.1 unit.
    let walls = vec![Aabb { x: -1_900, y: 0, half_width: 1_000, half_height: 1_000 }];

    check_player_collisions(position.x, position.y, &mut collider, &walls);
    player_movement(100, &mut player, &mut position, &mut velocity, &mut collider);

    // The de-penetration nudge is one full unit rightward.
    assert_eq!(position.x, 1_000);
    assert!(collider.collision.is_empty());
}
