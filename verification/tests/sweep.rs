use aabb_collision::contact::offset_at_contact;
use aabb_collision::BoundingBox;

fn at(width: i64, height: i64, x: i64, y: i64) -> BoundingBox {
    let mut b = BoundingBox::new(width, height);
    b.set_position(x, y);
    b
}

/// A mover of height 2 around y = 0.
fn mover() -> BoundingBox {
    at(2, 2, 0, 0)
}

/// An obstacle whose left edge is at x = 5, level with the mover.
fn wall_on_the_right() -> BoundingBox {
    at(4, 4, 7, 0)
}

/// An obstacle whose right edge is at x = -5, level with the mover.
fn wall_on_the_left() -> BoundingBox {
    at(4, 4, -7, 0)
}

#[test]
fn right_stops_at_a_standing_obstacle() {
    let wall = wall_on_the_right();
    assert_eq!(wall.left(), 5);
    assert_eq!(mover().get_next_right(&wall, 0, 10, 0), (5, true));
}

#[test]
fn right_ignores_an_obstacle_already_passed() {
    let wall = wall_on_the_right();
    assert_eq!(mover().get_next_right(&wall, 6, 10, 0), (10, false));
}

#[test]
fn right_ignores_an_obstacle_not_reached() {
    let wall = wall_on_the_right();
    assert_eq!(mover().get_next_right(&wall, 0, 4, 0), (4, false));
    assert_eq!(mover().get_next_right(&wall, 0, 5, 0), (5, true));
}

#[test]
fn right_ignores_an_obstacle_on_another_level() {
    let high = at(4, 4, 7, 3);
    assert_eq!(mover().get_next_right(&high, 0, 10, 0), (10, false));
    let nearly = at(4, 4, 7, 2);
    assert_eq!(mover().get_next_right(&nearly, 0, 10, 0), (5, true));
}

#[test]
fn right_meets_a_fleeing_obstacle_further_on() {
    let wall = wall_on_the_right();
    // closing 8, gap 5: the obstacle has moved 2 * 5 / 8 by then.
    assert_eq!(mover().get_next_right(&wall, 0, 10, 2), (6, true));
    // closing 6, gap 5: 4 * 5 / 6 == 3.
    assert_eq!(mover().get_next_right(&wall, 0, 10, 4), (8, true));
}

#[test]
fn right_meets_an_approaching_obstacle_sooner() {
    let wall = wall_on_the_right();
    // closing 13, gap 5: -(3 * 5 / 13) == -1.
    assert_eq!(mover().get_next_right(&wall, 0, 10, -3), (4, true));
    // closing 11, gap 5: -(1 * 5 / 11) == 0.
    assert_eq!(mover().get_next_right(&wall, 0, 10, -1), (5, true));
    // The mover stands still and the obstacle runs into it.
    assert_eq!(mover().get_next_right(&wall, 0, 0, -10), (0, true));
}

#[test]
fn right_keeping_pace_with_the_obstacle_is_left_alone() {
    let wall = wall_on_the_right();
    assert_eq!(mover().get_next_right(&wall, 5, 8, 3), (8, false));
    assert_eq!(mover().get_next_right(&wall, 5, 5, 0), (5, false));
    assert_eq!(mover().get_next_right(&wall, 5, 2, -3), (2, false));
}

#[test]
fn right_starting_in_contact_stays_there() {
    let wall = wall_on_the_right();
    assert_eq!(mover().get_next_right(&wall, 5, 9, 0), (5, true));
    assert_eq!(mover().get_next_right(&wall, 5, 9, 2), (5, true));
}

#[test]
fn left_stops_at_a_standing_obstacle() {
    let wall = wall_on_the_left();
    assert_eq!(wall.right(), -5);
    assert_eq!(mover().get_next_left(&wall, 0, -10, 0), (-5, true));
}

#[test]
fn left_ignores_an_obstacle_already_passed() {
    let wall = wall_on_the_left();
    assert_eq!(mover().get_next_left(&wall, -6, -10, 0), (-10, false));
    assert_eq!(mover().get_next_left(&wall, 0, -4, 0), (-4, false));
}

#[test]
fn left_mirrors_right() {
    let right_wall = wall_on_the_right();
    let left_wall = wall_on_the_left();
    for &(old_x, new_x, v) in &[
        (0i64, 10i64, 0i64),
        (0, 10, 2),
        (0, 10, 4),
        (0, 10, -3),
        (0, 10, -1),
        (0, 0, -10),
        (5, 8, 3),
        (6, 10, 0),
        (-7, 40, 11),
        (-7, 40, -11),
    ] {
        let (x, hit) = mover().get_next_right(&right_wall, old_x, new_x, v);
        assert_eq!(mover().get_next_left(&left_wall, -old_x, -new_x, -v), (-x, hit));
    }
}

#[test]
fn left_keeping_pace_with_the_obstacle_is_left_alone() {
    let wall = wall_on_the_left();
    assert_eq!(mover().get_next_left(&wall, -5, -8, -3), (-8, false));
    assert_eq!(mover().get_next_left(&wall, -5, -5, 0), (-5, false));
}

#[test]
fn horizontal_correction_stays_between_start_and_proposal() {
    let wall = wall_on_the_right();
    for old_x in -3i64..=5 {
        for new_x in -12i64..=12 {
            for v in -12i64..=12 {
                let (x, hit) = mover().get_next_right(&wall, old_x, new_x, v);
                assert!(old_x.min(new_x) <= x && x <= old_x.max(new_x));
                if hit {
                    assert!(5.min(5 + v) <= x && x <= 5.max(5 + v));
                } else {
                    assert_eq!(x, new_x);
                }
            }
        }
    }
}

#[test]
fn horizontal_correction_holds_at_the_ends_of_the_coordinate_range() {
    let wall = at(0, 4, 0, 0);
    assert_eq!(
        mover().get_next_right(&wall, i64::MIN, i64::MAX, i64::MIN),
        (-3074457345618258602, true)
    );
    // closing equals gap: contact comes at the very end of the step.
    assert_eq!(
        mover().get_next_right(&wall, i64::MIN, i64::MAX, i64::MAX),
        (i64::MAX, true)
    );
    assert_eq!(mover().get_next_right(&wall, i64::MIN, i64::MAX, 0), (0, true));
    assert_eq!(mover().get_next_left(&wall, i64::MAX, i64::MIN, 0), (0, true));
    assert_eq!(
        mover().get_next_left(&wall, i64::MAX, i64::MIN + 1, i64::MAX),
        (3074457345618258602, true)
    );
}

#[test]
fn offset_at_contact_rounds_toward_zero() {
    assert_eq!(offset_at_contact(0, 5, 10), 0);
    assert_eq!(offset_at_contact(7, 0, 10), 0);
    assert_eq!(offset_at_contact(7, 10, 10), 7);
    assert_eq!(offset_at_contact(-7, 10, 10), -7);
    assert_eq!(offset_at_contact(7, 5, 10), 3);
    assert_eq!(offset_at_contact(-7, 5, 10), -3);
    assert_eq!(offset_at_contact(i64::MIN, 3, 3), i64::MIN);
    assert_eq!(offset_at_contact(i64::MAX, 3, 3), i64::MAX);
}

#[test]
fn top_stops_at_the_underside_of_an_obstacle() {
    let platform = at(4, 4, 0, 12);
    assert_eq!(platform.bottom(), 10);
    assert_eq!(mover().get_next_top(&platform, 5, 20), 10);
    assert_eq!(mover().get_next_top(&platform, 10, 10), 10);
    assert_eq!(mover().get_next_top(&platform, 5, 9), 9);
}

#[test]
fn top_leaves_a_mover_that_comes_from_above_alone() {
    let platform = at(4, 4, 0, 12);
    assert_eq!(platform.bottom(), 10);
    assert_eq!(mover().get_next_top(&platform, 20, 5), 5);
    assert_eq!(mover().get_next_top(&platform, 11, 20), 20);
}

#[test]
fn top_ignores_an_obstacle_to_the_side() {
    let platform = at(4, 4, 3, 12);
    assert_eq!(mover().get_next_top(&platform, 5, 20), 20);
    let nearer = at(4, 4, 2, 12);
    assert_eq!(mover().get_next_top(&nearer, 5, 20), 10);
}

#[test]
fn bottom_stops_a_fall_on_top_of_a_platform() {
    let platform = at(4, 4, 0, 8);
    assert_eq!(platform.top(), 10);
    assert_eq!(mover().get_next_bottom(&platform, 20, 5), 10);
    assert_eq!(mover().get_next_bottom(&platform, 10, 10), 10);
    assert_eq!(mover().get_next_bottom(&platform, 20, 11), 11);
    assert_eq!(mover().get_next_bottom(&platform, 9, 5), 5);
}

#[test]
fn bottom_ignores_an_obstacle_to_the_side() {
    let platform = at(4, 4, -3, 8);
    assert_eq!(mover().get_next_bottom(&platform, 20, 5), 5);
}

#[test]
fn vertical_correction_takes_no_account_of_velocity() {
    let platform = at(4, 4, 0, 8);
    let mut drifting = platform;
    drifting.old_position = aabb_collision::Vector2::new(0, 100);
    assert_eq!(
        mover().get_next_bottom(&drifting, 20, 5),
        mover().get_next_bottom(&platform, 20, 5)
    );
}

#[test]
fn folding_over_standing_obstacles_stops_at_the_nearest() {
    let near = at(4, 4, 5, 0);
    let far = at(4, 4, 9, 0);
    assert_eq!(near.left(), 3);
    assert_eq!(far.left(), 7);
    let (x, _) = mover().get_next_right(&far, 0, 10, 0);
    let (x, hit) = mover().get_next_right(&near, 0, x, 0);
    assert_eq!((x, hit), (3, true));
    let (x, _) = mover().get_next_right(&near, 0, 10, 0);
    let (x, hit) = mover().get_next_right(&far, 0, x, 0);
    assert_eq!((x, hit), (3, false));
}

#[test]
fn folding_over_moving_obstacles_depends_on_the_order() {
    let fleeing = wall_on_the_right();
    let standing = at(4, 4, 11, 0);
    assert_eq!(standing.left(), 9);
    let (x, _) = mover().get_next_right(&fleeing, 0, 10, 4);
    assert_eq!(x, 8);
    assert_eq!(mover().get_next_right(&standing, 0, x, 0), (8, false));
    let (x, _) = mover().get_next_right(&standing, 0, 10, 0);
    assert_eq!(x, 9);
    assert_eq!(mover().get_next_right(&fleeing, 0, x, 4), (9, true));
}

#[test]
fn folding_over_platforms_gives_the_same_in_either_order() {
    let low = at(4, 4, 0, 8);
    let high = at(4, 4, 1, 12);
    assert_eq!(low.top(), 10);
    assert_eq!(high.top(), 14);
    let y = mover().get_next_bottom(&low, 20, 5);
    assert_eq!(mover().get_next_bottom(&high, 20, y), 14);
    let y = mover().get_next_bottom(&high, 20, 5);
    assert_eq!(mover().get_next_bottom(&low, 20, y), 14);
}
