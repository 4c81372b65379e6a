//! A menu of items, one of which is selected.

use vstd::prelude::*;

verus! {

/// An item of a menu, which leads to `next`.
pub struct MenuItem<T> {
    pub label: String,
    /// The digit that chooses the item.
    pub key: u8,
    pub hint: Option<String>,
    pub next: T,
}

impl<T> MenuItem<T> {
    /// An item with a label, the digit that chooses it, a hint if there is
    /// one, and what it leads to.
    pub fn new(label: &str, key: u8, hint: Option<&str>, next: T) -> (item: MenuItem<T>)
        ensures
            item.label@ == label@,
            item.key == key,
            item.hint is Some <==> hint is Some,
            hint matches Some(text) ==> item.hint->0@ == text@,
            item.next == next,
    {
        MenuItem {
            label: label.to_string(),
            key,
            hint: match hint {
                Some(text) => Some(text.to_string()),
                None => None,
            },
            next,
        }
    }
}

/// A key pressed on a menu.
#[derive(Clone, Copy, Debug, PartialEq, Eq, Structural)]
pub enum MenuKey {
    Up,
    Down,
    Enter,
    Char(char),
    Esc,
    Other,
}

/// What a key does to a menu.
pub enum MenuStep<T> {
    /// The menu stays, with this item selected.
    Selected(usize),
    /// An item was chosen: the menu gives what it leads to.
    Chosen(T),
    /// The user left the menu.
    Aborted,
}

/// The digit that a character is, if it is one.
pub open spec fn digit_value(c: char) -> Option<u8> {
    if '0' <= c <= '9' {
        Some((c as u32 - '0' as u32) as u8)
    } else {
        None
    }
}

/// Whether the item at `at` is the first whose digit is `key`.
pub open spec fn is_first_with_key<T>(items: Seq<MenuItem<T>>, key: u8, at: int) -> bool {
    &&& 0 <= at < items.len()
    &&& items[at].key == key
    &&& forall|before: int| 0 <= before < at ==> items[before].key != key
}

/// What a key does to a menu of `items` with the item at `selected`
/// selected: the arrows move the selection, round the ends; Enter chooses
/// the selected item, a digit the first item of that digit, if any; Esc
/// leaves; anything else changes nothing.
pub open spec fn menu_step_of<T>(items: Seq<MenuItem<T>>, selected: int, key: MenuKey) -> MenuStep<
    T,
> {
    match key {
        MenuKey::Up => MenuStep::Selected(
            if selected == 0 {
                (items.len() - 1) as usize
            } else {
                (selected - 1) as usize
            },
        ),
        MenuKey::Down => MenuStep::Selected(((selected + 1) % (items.len() as int)) as usize),
        MenuKey::Enter => MenuStep::Chosen(items[selected].next),
        MenuKey::Char(c) => match digit_value(c) {
            Some(digit) if exists|at: int| is_first_with_key(items, digit, at) => MenuStep::Chosen(
                items[choose|at: int| is_first_with_key(items, digit, at)].next,
            ),
            _ => MenuStep::Selected(selected as usize),
        },
        MenuKey::Esc => MenuStep::Aborted,
        MenuKey::Other => MenuStep::Selected(selected as usize),
    }
}

/// The place of the first item whose digit is `key`, if there is one.
pub fn position_of_key<T>(items: &[MenuItem<T>], key: u8) -> (found: Option<usize>)
    ensures
        found matches Some(at) ==> is_first_with_key(items@, key, at as int),
        found is None ==> forall|at: int| 0 <= at < items@.len() ==> items@[at].key != key,
{
    let mut at: usize = 0;
    while at < items.len()
        invariant
            at <= items@.len(),
            forall|before: int| 0 <= before < at ==> items@[before].key != key,
        decreases items@.len() - at,
    {
        if items[at].key == key {
            return Some(at);
        }
        at = at + 1;
    }
    None
}

/// What a key does to a menu of `items` with the item at `selected`
/// selected.
pub fn menu_step<T: Copy>(items: &[MenuItem<T>], selected: usize, key: MenuKey) -> (step: MenuStep<
    T,
>)
    requires
        selected < items@.len(),
    ensures
        step == menu_step_of(items@, selected as int, key),
        step matches MenuStep::Selected(now) ==> now < items@.len(),
{
    match key {
        MenuKey::Up => MenuStep::Selected(
            if selected == 0 {
                items.len() - 1
            } else {
                selected - 1
            },
        ),
        MenuKey::Down => {
            let count = items.len();
            MenuStep::Selected((selected + 1) % count)
        },
        MenuKey::Enter => MenuStep::Chosen(items[selected].next),
        MenuKey::Char(c) => {
            if '0' <= c && c <= '9' {
                let digit: u8 = (c as u32 - '0' as u32) as u8;
                match position_of_key(items, digit) {
                    Some(at) => {
                        proof {
                            lemma_first_is_unique(items@, digit, at as int);
                        }
                        MenuStep::Chosen(items[at].next)
                    },
                    None => MenuStep::Selected(selected),
                }
            } else {
                MenuStep::Selected(selected)
            }
        },
        MenuKey::Esc => MenuStep::Aborted,
        MenuKey::Other => MenuStep::Selected(selected),
    }
}

/// There is one first item of a digit.
proof fn lemma_first_is_unique<T>(items: Seq<MenuItem<T>>, key: u8, at: int)
    requires
        is_first_with_key(items, key, at),
    ensures
        (choose|other: int| is_first_with_key(items, key, other)) == at,
{
    let other = choose|other: int| is_first_with_key(items, key, other);
    assert(is_first_with_key(items, key, other));
    if other < at {
        assert(items[other].key != key);
    } else if at < other {
        assert(items[at].key != key);
    }
}

} // verus!
