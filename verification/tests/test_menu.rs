use ratefy::menu::{menu_step, position_of_key, MenuItem, MenuKey, MenuStep};

fn items() -> Vec<MenuItem<char>> {
    vec![
        MenuItem::new("First", 1, Some("the first"), 'a'),
        MenuItem::new("Second", 2, None, 'b'),
        MenuItem::new("Third", 3, None, 'c'),
        MenuItem::new("Second again", 2, None, 'd'),
    ]
}

fn selected_after(selected: usize, key: MenuKey) -> usize {
    match menu_step(&items(), selected, key) {
        MenuStep::Selected(now) => now,
        _ => panic!("the menu was left"),
    }
}

fn chosen_after(selected: usize, key: MenuKey) -> char {
    match menu_step(&items(), selected, key) {
        MenuStep::Chosen(next) => next,
        _ => panic!("nothing was chosen"),
    }
}

#[test]
fn test_menu_item_new() {
    let item = MenuItem::new("Exit", 2, Some("leave"), 7u32);
    assert_eq!(item.label, "Exit");
    assert_eq!(item.key, 2);
    assert_eq!(item.hint.as_deref(), Some("leave"));
    assert_eq!(item.next, 7);
    let bare = MenuItem::new("Exit", 2, None, 7u32);
    assert!(bare.hint.is_none());
}

#[test]
fn test_menu_down_moves_and_wraps() {
    assert_eq!(selected_after(0, MenuKey::Down), 1);
    assert_eq!(selected_after(2, MenuKey::Down), 3);
    assert_eq!(selected_after(3, MenuKey::Down), 0);
}

#[test]
fn test_menu_up_moves_and_wraps() {
    assert_eq!(selected_after(3, MenuKey::Up), 2);
    assert_eq!(selected_after(1, MenuKey::Up), 0);
    assert_eq!(selected_after(0, MenuKey::Up), 3);
}

#[test]
fn test_menu_enter_chooses_the_selected_item() {
    assert_eq!(chosen_after(0, MenuKey::Enter), 'a');
    assert_eq!(chosen_after(2, MenuKey::Enter), 'c');
}

#[test]
fn test_menu_digit_chooses_the_first_item_of_that_digit() {
    assert_eq!(chosen_after(0, MenuKey::Char('3')), 'c');
    assert_eq!(chosen_after(3, MenuKey::Char('2')), 'b');
    assert_eq!(chosen_after(3, MenuKey::Char('1')), 'a');
}

#[test]
fn test_menu_digit_of_no_item_changes_nothing() {
    assert_eq!(selected_after(1, MenuKey::Char('9')), 1);
    assert_eq!(selected_after(1, MenuKey::Char('0')), 1);
}

#[test]
fn test_menu_other_keys_change_nothing() {
    assert_eq!(selected_after(2, MenuKey::Char('x')), 2);
    assert_eq!(selected_after(2, MenuKey::Char('/')), 2);
    assert_eq!(selected_after(2, MenuKey::Char(':')), 2);
    assert_eq!(selected_after(2, MenuKey::Other), 2);
}

#[test]
fn test_menu_esc_leaves() {
    assert!(matches!(menu_step(&items(), 1, MenuKey::Esc), MenuStep::Aborted));
}

#[test]
fn test_menu_of_one_item() {
    let one = vec![MenuItem::new("Only", 1, None, 0u8)];
    assert!(matches!(menu_step(&one, 0, MenuKey::Down), MenuStep::Selected(0)));
    assert!(matches!(menu_step(&one, 0, MenuKey::Up), MenuStep::Selected(0)));
}

#[test]
fn test_position_of_key() {
    assert_eq!(position_of_key(&items(), 2), Some(1));
    assert_eq!(position_of_key(&items(), 3), Some(2));
    assert_eq!(position_of_key(&items(), 4), None);
    assert_eq!(position_of_key::<char>(&[], 1), None);
}
