//! The menu state machine, its wire form, and the redraw cache.

use sysbadge::badge::{CurrentMembers, CurrentMenu, MemberCell, Select, Sysbadge, STATE_LEN};
use sysbadge::system::{MemberStrings, SystemVec};
use sysbadge::Button;

fn members_state(len: u8, cursor: u8, mode: Select, ids: [u16; 4]) -> CurrentMembers {
    CurrentMembers {
        members: [
            MemberCell { id: ids[0] },
            MemberCell { id: ids[1] },
            MemberCell { id: ids[2] },
            MemberCell { id: ids[3] },
        ],
        sel: (cursor, mode),
        len,
    }
}

fn five_member_system() -> SystemVec {
    let mut sys = SystemVec::new("sys".to_string());
    for name in ["a", "b", "c", "d", "e"] {
        sys.members.push(MemberStrings {
            name: name.to_string(),
            pronouns: String::new(),
        });
    }
    sys
}

#[test]
fn b_toggles_name_and_version() {
    let mut menu = CurrentMenu::SystemName;
    menu.change(Button::B, 5);
    assert_eq!(menu, CurrentMenu::Version);
    menu.change(Button::B, 5);
    assert_eq!(menu, CurrentMenu::SystemName);
}

#[test]
fn c_enters_member_screen_with_default_cell() {
    let mut menu = CurrentMenu::SystemName;
    menu.change(Button::C, 5);
    match menu {
        CurrentMenu::Member(c) => {
            assert_eq!(c.len, 1);
            assert_eq!(c.sel, (0, Select::Select));
            assert_eq!(c.members[0].id, 0);
        }
        other => panic!("expected the member screen, got {:?}", other),
    }
}

#[test]
fn c_on_last_cell_in_edit_leaves_member_screen() {
    let mut menu = CurrentMenu::Member(members_state(1, 0, Select::Edit, [7, 0, 0, 0]));
    menu.change(Button::C, 5);
    assert_eq!(menu, CurrentMenu::SystemName);
}

#[test]
fn invalid_system_ignores_buttons() {
    for b in [Button::A, Button::B, Button::C, Button::Up, Button::Down] {
        let mut menu = CurrentMenu::InvalidSystem;
        menu.change(b, 5);
        assert_eq!(menu, CurrentMenu::InvalidSystem);
    }
}

#[test]
fn updating_ignores_buttons() {
    let mut menu = CurrentMenu::Updating;
    menu.change(Button::B, 5);
    assert_eq!(menu, CurrentMenu::Updating);
}

#[test]
fn cursor_wraps_up_from_zero() {
    // len 3, cursor 0 in selection mode: Up wraps to index 2
    let mut c = members_state(3, 0, Select::Select, [0, 1, 2, 0]);
    c.button_press(Button::Up, 5);
    assert_eq!(c.sel, (2, Select::Select));
}

#[test]
fn cursor_wraps_down_from_last() {
    let mut c = members_state(3, 2, Select::Select, [0, 1, 2, 0]);
    c.button_press(Button::Down, 5);
    assert_eq!(c.sel, (0, Select::Select));
}

#[test]
fn edit_cycles_through_all_members() {
    // len 1 in edit mode over a five-member roster: Up cycles 0..5 and wraps
    let mut c = members_state(1, 0, Select::Edit, [0, 0, 0, 0]);
    let mut seen = Vec::new();
    for _ in 0..6 {
        seen.push(c.members[0].id);
        c.button_press(Button::Up, 5);
    }
    assert_eq!(seen, vec![0, 1, 2, 3, 4, 0]);
}

#[test]
fn edit_cycles_down_with_wraparound() {
    let mut c = members_state(1, 0, Select::Edit, [0, 0, 0, 0]);
    c.button_press(Button::Down, 5);
    assert_eq!(c.members[0].id, 4);
}

#[test]
fn removal_swap_compacts() {
    // removing the middle of three cells moves the former last into its slot
    let mut c = members_state(3, 1, Select::Edit, [10, 20, 30, 40]);
    c.button_press(Button::C, 5);
    assert_eq!(c.len, 2);
    assert_eq!(c.members[1].id, 30);
    assert_eq!(c.sel, (1, Select::Unselected));
}

#[test]
fn removal_of_last_cell_keeps_others() {
    let mut c = members_state(3, 2, Select::Edit, [10, 20, 30, 40]);
    c.button_press(Button::C, 5);
    assert_eq!(c.len, 2);
    assert_eq!(c.members[0].id, 10);
    assert_eq!(c.members[1].id, 20);
}

#[test]
fn grow_caps_at_four() {
    let mut c = members_state(4, 0, Select::Select, [0, 1, 2, 3]);
    c.button_press(Button::C, 5);
    assert_eq!(c.len, 4);
    assert_eq!(c.sel.1, Select::Unselected);
}

#[test]
fn up_from_idle_selects_first() {
    let mut c = members_state(3, 1, Select::Unselected, [0, 1, 2, 0]);
    c.button_press(Button::Up, 5);
    assert_eq!(c.sel, (0, Select::Select));
}

#[test]
fn down_from_idle_selects_last() {
    let mut c = members_state(3, 1, Select::Unselected, [0, 1, 2, 0]);
    c.button_press(Button::Down, 5);
    assert_eq!(c.sel, (2, Select::Select));
}

#[test]
fn b_toggles_select_and_edit() {
    let mut c = members_state(2, 0, Select::Select, [0, 1, 0, 0]);
    c.button_press(Button::B, 5);
    assert_eq!(c.sel.1, Select::Edit);
    c.button_press(Button::B, 5);
    assert_eq!(c.sel.1, Select::Select);
}

#[test]
fn state_bytes_roundtrip_member_screen() {
    let m = CurrentMenu::Member(members_state(3, 1, Select::Edit, [5, 6, 7, 8]));
    let bytes = m.as_bytes();
    assert_eq!(bytes.len(), STATE_LEN);
    assert_eq!(CurrentMenu::from_bytes(&bytes), Some(m));
}

#[test]
fn state_bytes_roundtrip_fixed_screens() {
    for m in [
        CurrentMenu::SystemName,
        CurrentMenu::Version,
        CurrentMenu::Updating,
        CurrentMenu::InvalidSystem,
    ] {
        let bytes = m.as_bytes();
        assert_eq!(bytes.len(), STATE_LEN);
        assert_eq!(CurrentMenu::from_bytes(&bytes), Some(m));
    }
}

#[test]
fn state_bytes_reject_garbage() {
    // wrong length
    assert_eq!(CurrentMenu::from_bytes(&[0u8; 11]), None);
    // unknown tag
    let mut b = [0u8; 12];
    b[0] = 9;
    assert_eq!(CurrentMenu::from_bytes(&b), None);
    // member screen with zero active cells
    let mut b = [0u8; 12];
    b[0] = 2;
    b[9] = 0;
    assert_eq!(CurrentMenu::from_bytes(&b), None);
    // member screen with a selection mode out of range
    let mut b = [0u8; 12];
    b[0] = 2;
    b[9] = 1;
    b[11] = 3;
    assert_eq!(CurrentMenu::from_bytes(&b), None);
    // a fixed screen with nonzero padding is not canonical
    let mut b = [0u8; 12];
    b[5] = 1;
    assert_eq!(CurrentMenu::from_bytes(&b), None);
}

#[test]
fn draw_skips_unchanged_state() {
    // one flush per state change: a second draw with no press plans nothing
    let mut badge = Sysbadge::new(Some(five_member_system()));
    badge.press(Button::B);
    assert!(badge.draw(296, 128).is_some());
    assert!(badge.draw(296, 128).is_none());
    badge.press(Button::B);
    assert!(badge.draw(296, 128).is_some());
}

#[test]
fn draw_plans_cells_for_member_screen() {
    let mut badge = Sysbadge::new(Some(five_member_system()));
    badge.press(Button::C);
    match badge.draw(296, 128) {
        Some(sysbadge::draw::RenderPlan::Cells(cells)) => {
            assert_eq!(cells.len(), 1);
            assert_eq!(cells[0].rect.w, 296);
            assert_eq!(cells[0].rect.h, 128);
            assert_eq!(cells[0].select, Select::Select);
        }
        other => panic!("expected a cell plan, got {:?}", other),
    }
}

#[test]
fn invalid_roster_shows_invalid_screen() {
    let badge: Sysbadge<SystemVec> = Sysbadge::new(None);
    assert_eq!(*badge.current(), CurrentMenu::InvalidSystem);
}

#[test]
fn stroke_widths_encode_selection() {
    assert_eq!(Select::Unselected.stroke_with(), 1);
    assert_eq!(Select::Select.stroke_with(), 2);
    assert_eq!(Select::Edit.stroke_with(), 4);
}
