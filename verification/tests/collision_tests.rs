use platformer::collision::collide;
use platformer::movement::check_player_collisions;
use platformer::physics::{Aabb, Collider, Collision};

fn boxed(x: i64, y: i64, hw: i64, hh: i64) -> Aabb {
    Aabb { x, y, half_width: hw, half_height: hh }
}

#[test]
fn side_overlap_classifies_left_of_the_right_box() {
    // A centered at the origin, B centered at (1.9, 0), both with unit
    // half-extents: A penetrates B's left face.
    let a = boxed(0, 0, 1_000, 1_000);
    let b = boxed(1_900, 0, 1_000, 1_000);
    assert_eq!(collide(&a, &b), Some(Collision::Left));
    // Seen from B the sides swap.
    assert_eq!(collide(&b, &a), Some(Collision::Right));
}

#[test]
fn contained_box_classifies_full_overlap() {
    let big = boxed(0, 0, 5_000, 5_000);
    let small = boxed(0, 0, 100, 100);
    assert_eq!(collide(&big, &small), Some(Collision::FullOverlap));
    assert_eq!(collide(&small, &big), Some(Collision::FullOverlap));
}

#[test]
fn vertical_overlap_classifies_top_and_bottom() {
    let a = boxed(0, 0, 1_000, 1_000);
    let above = boxed(0, 1_900, 1_000, 1_000);
    let below = boxed(0, -1_900, 1_000, 1_000);
    assert_eq!(collide(&a, &above), Some(Collision::Bottom));
    assert_eq!(collide(&a, &below), Some(Collision::Top));
}

#[test]
fn separated_and_touching_boxes_do_not_collide() {
    let a = boxed(0, 0, 1_000, 1_000);
    let apart = boxed(5_000, 0, 1_000, 1_000);
    let touching = boxed(2_000, 0, 1_000, 1_000);
    assert_eq!(collide(&a, &apart), None);
    assert_eq!(collide(&a, &touching), None);
}

#[test]
fn shallower_axis_wins_the_classification() {
    // The wall overlaps the probe 0.9 units deep on x but only 0.1 on y, so
    // the vertical side is reported.
    let wall = boxed(0, 0, 1_000, 1_000);
    let probe = boxed(1_100, 1_900, 1_000, 1_000);
    assert_eq!(collide(&wall, &probe), Some(Collision::Bottom));
}

#[test]
fn detector_appends_one_result_per_overlapping_wall() {
    let mut player = Collider { half_width: 1_000, half_height: 1_000, collision: Vec::new() };
    let walls = vec![
        boxed(-1_900, 0, 1_000, 1_000), // on the player's left
        boxed(1_900, 0, 1_000, 1_000),
        boxed(50_000, 0, 1_000, 1_000), // far away, no overlap
        boxed(0, -1_900, 1_000, 1_000), // ground under the player
    ];
    check_player_collisions(0, 0, &mut player, &walls);
    // The wall on the player's left penetrates the player's left face, the
    // wall on its right the right face, and the ground its bottom face.
    assert_eq!(
        player.collision,
        vec![Collision::Left, Collision::Right, Collision::Bottom]
    );
}

#[test]
fn detector_appends_without_clearing_earlier_results() {
    let mut player = Collider {
        half_width: 1_000,
        half_height: 1_000,
        collision: vec![Collision::Top],
    };
    let walls = vec![boxed(-1_900, 0, 1_000, 1_000)];
    check_player_collisions(0, 0, &mut player, &walls);
    assert_eq!(player.collision, vec![Collision::Top, Collision::Left]);
}
