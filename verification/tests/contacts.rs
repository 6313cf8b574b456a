use bouncing_ball::contact::Contacts;
use bouncing_ball::wall::Wall;

fn contacts(left: bool, right: bool, bottom: bool, top: bool) -> Contacts {
    Contacts { left, right, bottom, top }
}

#[test]
fn clear_reaches_no_wall() {
    let c = Contacts::clear();
    assert_eq!(c, contacts(false, false, false, false));
    assert!(!c.any());
    assert!(!c.touches(Wall::Left));
    assert!(!c.touches(Wall::Right));
    assert!(!c.touches(Wall::Bottom));
    assert!(!c.touches(Wall::Top));
    assert_eq!(c.deciding(), None);
}

#[test]
fn touches_reads_the_flag_of_its_wall() {
    let c = contacts(true, false, false, true);
    assert!(c.touches(Wall::Left));
    assert!(!c.touches(Wall::Right));
    assert!(!c.touches(Wall::Bottom));
    assert!(c.touches(Wall::Top));
}

#[test]
fn any_holds_as_soon_as_one_wall_is_reached() {
    assert!(contacts(true, false, false, false).any());
    assert!(contacts(false, true, false, false).any());
    assert!(contacts(false, false, true, false).any());
    assert!(contacts(false, false, false, true).any());
    assert!(contacts(true, true, true, true).any());
}

#[test]
fn a_single_wall_decides() {
    assert_eq!(contacts(true, false, false, false).deciding(), Some(Wall::Left));
    assert_eq!(contacts(false, true, false, false).deciding(), Some(Wall::Right));
    assert_eq!(contacts(false, false, true, false).deciding(), Some(Wall::Bottom));
    assert_eq!(contacts(false, false, false, true).deciding(), Some(Wall::Top));
}

#[test]
fn the_wall_examined_last_decides() {
    assert_eq!(contacts(true, true, false, false).deciding(), Some(Wall::Right));
    assert_eq!(contacts(true, false, true, false).deciding(), Some(Wall::Bottom));
    assert_eq!(contacts(false, true, true, false).deciding(), Some(Wall::Bottom));
    assert_eq!(contacts(true, false, false, true).deciding(), Some(Wall::Top));
    assert_eq!(contacts(false, true, false, true).deciding(), Some(Wall::Top));
    assert_eq!(contacts(false, false, true, true).deciding(), Some(Wall::Top));
    assert_eq!(contacts(true, true, true, false).deciding(), Some(Wall::Bottom));
    assert_eq!(contacts(true, true, true, true).deciding(), Some(Wall::Top));
}

#[test]
fn deciding_agrees_with_examining_the_walls_in_turn() {
    for bits in 0u8..16 {
        let c = contacts(bits & 1 != 0, bits & 2 != 0, bits & 4 != 0, bits & 8 != 0);
        let mut answer = None;
        for wall in [Wall::Left, Wall::Right, Wall::Bottom, Wall::Top] {
            if c.touches(wall) {
                answer = Some(wall);
            }
        }
        assert_eq!(c.deciding(), answer);
        assert_eq!(c.deciding().is_none(), !c.any());
    }
}
