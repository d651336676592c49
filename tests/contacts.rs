use move_vis::{resolve_standing_normal, Contact, Normal};

const ME: u64 = 1;

fn contact(collider1: u64, collider2: u64, active: bool, x: i64, y: i64) -> Contact {
    Contact { collider1, collider2, active, normal: Normal { x, y } }
}

#[test]
fn no_contacts_means_airborne() {
    assert_eq!(resolve_standing_normal(&vec![], ME), None);
}

#[test]
fn normal_is_oriented_away_from_the_body() {
    // the body is the first collider: the reported normal points toward the ground
    let c = vec![contact(ME, 9, true, 0, -1_000_000)];
    assert_eq!(resolve_standing_normal(&c, ME), Some(Normal { x: 0, y: 1_000_000 }));
    // the body is the second collider: the reported normal already points at it
    let c = vec![contact(9, ME, true, 0, 1_000_000)];
    assert_eq!(resolve_standing_normal(&c, ME), Some(Normal { x: 0, y: 1_000_000 }));
}

#[test]
fn most_upward_normal_wins() {
    let c = vec![
        contact(3, ME, true, 1_000_000, 0),
        contact(ME, 4, true, -707_107, -707_107),
        contact(5, ME, true, 0, 1_000_000),
        contact(6, ME, true, -1_000_000, 0),
    ];
    assert_eq!(resolve_standing_normal(&c, ME), Some(Normal { x: 0, y: 1_000_000 }));
}

#[test]
fn first_normal_wins_a_tie() {
    let c = vec![
        contact(3, ME, true, 1_000_000, 0),
        contact(4, ME, true, -1_000_000, 0),
    ];
    assert_eq!(resolve_standing_normal(&c, ME), Some(Normal { x: 1_000_000, y: 0 }));
}

#[test]
fn inactive_and_unrelated_contacts_are_ignored() {
    let c = vec![
        contact(3, ME, false, 0, 1_000_000),
        contact(3, 4, true, 0, 1_000_000),
        contact(ME, 7, true, 1_000_000, 0),
    ];
    assert_eq!(resolve_standing_normal(&c, ME), Some(Normal { x: -1_000_000, y: 0 }));
    let c = vec![contact(3, ME, false, 0, 1_000_000)];
    assert_eq!(resolve_standing_normal(&c, ME), None);
}

#[test]
fn tiny_vertical_component_snaps_to_zero() {
    let c = vec![contact(3, ME, true, 999_999, 99)];
    assert_eq!(resolve_standing_normal(&c, ME), Some(Normal { x: 999_999, y: 0 }));
    let c = vec![contact(3, ME, true, 999_999, 100)];
    assert_eq!(resolve_standing_normal(&c, ME), Some(Normal { x: 999_999, y: 100 }));
}

#[test]
fn ceiling_normal_snaps_to_zero() {
    let c = vec![contact(3, ME, true, 0, -1_000_000)];
    assert_eq!(resolve_standing_normal(&c, ME), Some(Normal { x: 0, y: 0 }));
}
