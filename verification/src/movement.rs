//! Collision detection and motion integration for the controlled actor. Each
//! tick the detector appends one collision result per overlapping static box
//! to the actor collider's pending list, and the integrator then consumes
//! that list exactly once, clears it, and advances the actor.

use vstd::prelude::*;
use crate::collision::{collide, spec_collide};
use crate::constants::{COLLISION_NUDGE, GRAVITY, JUMP_IMPULSE, MAX_PENDING_COLLISIONS, MAX_SPEED,
    MAX_TICK_MILLIS, VERTICAL_DAMPING};
use crate::physics::{Aabb, Collider, Collision, Position, Velocity, WORLD_LIMIT, aabb_wf};
use crate::player::{ActorState, Player, has_state};

verus! {

/// Collision results the detector produces for the actor box `p` against the
/// static boxes `walls`, one per overlapping box, in wall order. Each result
/// classifies the wall's overlap against the actor, so `Left` names a wall
/// toward the actor's left face.
pub open spec fn spec_detected(p: Aabb, walls: Seq<Aabb>) -> Seq<Collision>
    decreases walls.len(),
{
    if walls.len() == 0 {
        Seq::empty()
    } else {
        spec_detected(p, walls.drop_last()) + match spec_collide(walls.last(), p) {
            Option::Some(c) => seq![c],
            Option::None => Seq::empty(),
        }
    }
}

/// Detector pass of one tick: classify the actor's box, centered at
/// (`player_x`, `player_y`), against every static box, and append the results
/// to the actor collider's pending list. The list is never cleared here;
/// clearing is the integrator's duty.
pub fn check_player_collisions(player_x: i64, player_y: i64, player_collider: &mut Collider, walls: &Vec<Aabb>)
    requires
        old(player_collider).wf(),
        -WORLD_LIMIT <= player_x <= WORLD_LIMIT,
        -WORLD_LIMIT <= player_y <= WORLD_LIMIT,
        forall|i: int| 0 <= i < walls@.len() ==> aabb_wf(#[trigger] walls@[i]),
    ensures
        final(player_collider).half_width == old(player_collider).half_width,
        final(player_collider).half_height == old(player_collider).half_height,
        final(player_collider).collision@ == old(player_collider).collision@ + spec_detected(
            old(player_collider).spec_aabb_at(player_x, player_y), walls@),
{
    let player_box = Aabb {
        x: player_x,
        y: player_y,
        half_width: player_collider.half_width,
        half_height: player_collider.half_height,
    };
    let mut i: usize = 0;
    while i < walls.len()
        invariant
            0 <= i <= walls@.len(),
            aabb_wf(player_box),
            player_box == old(player_collider).spec_aabb_at(player_x, player_y),
            forall|j: int| 0 <= j < walls@.len() ==> aabb_wf(#[trigger] walls@[j]),
            player_collider.half_width == old(player_collider).half_width,
            player_collider.half_height == old(player_collider).half_height,
            player_collider.collision@ == old(player_collider).collision@ + spec_detected(
                player_box, walls@.take(i as int)),
        decreases walls@.len() - i,
    {
        let result = collide(&walls[i], &player_box);
        if let Some(c) = result {
            player_collider.collision.push(c);
        }
        proof {
            assert(walls@.take(i as int + 1).drop_last() =~= walls@.take(i as int));
            assert(walls@.take(i as int + 1).last() == walls@[i as int]);
        }
        i = i + 1;
    }
    proof {
        assert(walls@.take(walls@.len() as int) =~= walls@);
    }
}

/// Net horizontal de-penetration of a tick's pending contacts, in milliunits:
/// each Left contact nudges one unit rightward, each Right contact one unit
/// leftward; Top, Bottom and FullOverlap apply no positional correction.
pub open spec fn spec_nudge_dx(cs: Seq<Collision>) -> int
    decreases cs.len(),
{
    if cs.len() == 0 {
        0
    } else {
        spec_nudge_dx(cs.drop_last()) + match cs.last() {
            Collision::Left => COLLISION_NUDGE as int,
            Collision::Right => -(COLLISION_NUDGE as int),
            _ => 0,
        }
    }
}

/// Whether the actor rests on ground once the tick's contacts are consumed:
/// a Bottom contact grounds it, and an already grounded actor stays grounded
/// until a jump lifts it.
pub open spec fn spec_grounded_after_contacts(was_grounded: bool, cs: Seq<Collision>) -> bool {
    was_grounded || cs.contains(Collision::Bottom)
}

/// Whether a jump fires this tick: the actor is grounded once contacts are
/// consumed and holds the jumping intent.
pub open spec fn spec_jump_fires(grounded_after: bool, states: Seq<ActorState>) -> bool {
    grounded_after && states.contains(ActorState::JUMPING)
}

/// Displacement, in milliunits, of moving for `dt_millis` milliseconds at `v`
/// milliunits per second: the product scaled down by the milliseconds in a
/// second, rounded toward zero.
pub open spec fn spec_scale_velocity(dt_millis: int, v: int) -> int {
    if dt_millis * v >= 0 {
        dt_millis * v / 1000
    } else {
        -((-(dt_millis * v)) / 1000)
    }
}

/// Horizontal displacement of a tick: nothing without the walking intent,
/// else the scaled horizontal velocity.
pub open spec fn spec_walk_dx(walking: bool, dt_millis: int, vx: int) -> int {
    if walking {
        spec_scale_velocity(dt_millis, vx)
    } else {
        0
    }
}

/// Vertical displacement of a tick: airborne, the actor moves by its vertical
/// velocity less gravity; grounded, only a positive residual upward velocity
/// moves it, and it otherwise stays put.
pub open spec fn spec_fall_dy(grounded: bool, dt_millis: int, vy: int) -> int {
    if !grounded {
        spec_scale_velocity(dt_millis, vy - GRAVITY as int)
    } else if vy > 0 {
        spec_scale_velocity(dt_millis, vy)
    } else {
        0
    }
}

/// Displacement of moving for `dt_millis` milliseconds at `v` milliunits per
/// second.
fn scale_velocity(dt_millis: i64, v: i64) -> (r: i64)
    requires
        0 <= dt_millis <= MAX_TICK_MILLIS,
        -(MAX_SPEED + GRAVITY) <= v <= MAX_SPEED + GRAVITY,
    ensures
        r == spec_scale_velocity(dt_millis as int, v as int),
        -WORLD_LIMIT <= r <= WORLD_LIMIT,
{
    proof {
        assert(-(MAX_TICK_MILLIS * (MAX_SPEED + GRAVITY)) <= dt_millis * v
            <= MAX_TICK_MILLIS * (MAX_SPEED + GRAVITY)) by (nonlinear_arith)
            requires
                0 <= dt_millis <= MAX_TICK_MILLIS,
                -(MAX_SPEED + GRAVITY) <= v <= MAX_SPEED + GRAVITY,
        ;
    }
    let product = dt_millis * v;
    if product >= 0 {
        proof {
            assert(0 <= product / 1000 <= product) by (nonlinear_arith)
                requires
                    product >= 0,
            ;
        }
        product / 1000
    } else {
        proof {
            assert(0 <= (-product) / 1000 <= -product) by (nonlinear_arith)
                requires
                    product < 0,
            ;
        }
        -((-product) / 1000)
    }
}

/// Integrator pass of one tick, run after the detector: consume the pending
/// contacts (side contacts nudge the actor out of the wall, a Bottom contact
/// grounds it, Top and FullOverlap apply no correction), clear the list
/// exactly once, walk, fall under gravity with per-tick damping while
/// airborne, and fire a queued jump, which sets the fixed upward impulse and
/// lifts the actor immediately so the same tick cannot ground and jump it
/// twice.
pub fn player_movement(time_delta_millis: i64, player: &mut Player, position: &mut Position, velocity: &mut Velocity, collider: &mut Collider)
    requires
        0 <= time_delta_millis <= MAX_TICK_MILLIS,
        -MAX_SPEED <= old(velocity).x <= MAX_SPEED,
        -MAX_SPEED <= old(velocity).y <= MAX_SPEED,
        -WORLD_LIMIT <= old(position).x <= WORLD_LIMIT,
        -WORLD_LIMIT <= old(position).y <= WORLD_LIMIT,
        old(collider).collision@.len() <= MAX_PENDING_COLLISIONS,
    ensures
        final(collider).collision@.len() == 0,
        final(collider).half_width == old(collider).half_width,
        final(collider).half_height == old(collider).half_height,
        final(player).name@ == old(player).name@,
        final(player).state@ == old(player).state@,
        final(player).grounded == (spec_grounded_after_contacts(old(player).grounded,
            old(collider).collision@) && !spec_jump_fires(spec_grounded_after_contacts(
            old(player).grounded, old(collider).collision@), old(player).state@)),
        final(position).x == old(position).x + spec_nudge_dx(old(collider).collision@)
            + spec_walk_dx(old(player).state@.contains(ActorState::WALKING),
            time_delta_millis as int, old(velocity).x as int),
        final(position).y == old(position).y + spec_fall_dy(spec_grounded_after_contacts(
            old(player).grounded, old(collider).collision@), time_delta_millis as int,
            old(velocity).y as int),
        final(velocity).x == old(velocity).x,
        final(velocity).y == (if spec_jump_fires(spec_grounded_after_contacts(
            old(player).grounded, old(collider).collision@), old(player).state@) {
            JUMP_IMPULSE as int
        } else if !spec_grounded_after_contacts(old(player).grounded,
            old(collider).collision@) {
            old(velocity).y - VERTICAL_DAMPING as int
        } else {
            old(velocity).y as int
        }),
{
    let ghost pending = collider.collision@;
    // Consume the tick's pending contacts.
    let mut grounded = player.grounded;
    let mut dx: i64 = 0;
    let mut i: usize = 0;
    while i < collider.collision.len()
        invariant
            0 <= i <= collider.collision@.len(),
            collider.collision@ == pending,
            pending.len() <= MAX_PENDING_COLLISIONS,
            -1000 * (i as int) <= dx <= 1000 * (i as int),
            dx == spec_nudge_dx(pending.take(i as int)),
            grounded == spec_grounded_after_contacts(old(player).grounded, pending.take(i as int)),
        decreases collider.collision@.len() - i,
    {
        let c = collider.collision[i];
        match c {
            Collision::Left => {
                dx = dx + COLLISION_NUDGE;
            },
            Collision::Right => {
                dx = dx - COLLISION_NUDGE;
            },
            Collision::Top => {},
            Collision::Bottom => {
                grounded = true;
            },
            Collision::FullOverlap => {},
        }
        proof {
            assert(pending.take(i as int + 1).drop_last() =~= pending.take(i as int));
            assert(pending.take(i as int + 1).last() == pending[i as int]);
            lemma_contains_after_take(pending, i as int, Collision::Bottom);
        }
        i = i + 1;
    }
    proof {
        assert(pending.take(pending.len() as int) =~= pending);
    }
    // Contacts resolved: clear the list, exactly once.
    collider.collision.clear();
    position.x = position.x + dx;
    // Horizontal motion under the walking intent.
    let walking = has_state(&player.state, ActorState::WALKING);
    if walking {
        position.x = position.x + scale_velocity(time_delta_millis, velocity.x);
    }
    // Vertical motion: gravity and damping while airborne, residual upward
    // velocity while grounded.
    if !grounded {
        position.y = position.y + scale_velocity(time_delta_millis, velocity.y - GRAVITY);
        velocity.y = velocity.y - VERTICAL_DAMPING;
    } else if velocity.y > 0 {
        position.y = position.y + scale_velocity(time_delta_millis, velocity.y);
    }
    // A queued jump fires only from the ground and lifts the actor at once.
    let jumping = has_state(&player.state, ActorState::JUMPING);
    if grounded && jumping {
        velocity.y = JUMP_IMPULSE;
        grounded = false;
    }
    player.grounded = grounded;
}

/// A sequence one longer than a prefix contains a value exactly when the
/// prefix contains it or the newly covered element is the value.
proof fn lemma_contains_after_take<A>(s: Seq<A>, i: int, x: A)
    requires
        0 <= i < s.len(),
    ensures
        s.take(i + 1).contains(x) <==> (s.take(i).contains(x) || s[i] == x),
{
    assert(s.take(i + 1).drop_last() =~= s.take(i));
    if s.take(i).contains(x) {
        let w = choose|k: int| 0 <= k < s.take(i).len() && s.take(i)[k] == x;
        assert(s.take(i + 1)[w] == x);
    }
    if s[i] == x {
        assert(s.take(i + 1)[i] == x);
    }
    if s.take(i + 1).contains(x) {
        let w = choose|k: int| 0 <= k < s.take(i + 1).len() && #[trigger] s.take(i + 1)[k] == x;
        if w < i {
            assert(s.take(i)[w] == x);
        } else {
            assert(s[i] == x);
        }
    }
}

} // verus!
