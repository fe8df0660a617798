use liquid_nft::allowance::{get_or_create, Allowance, AllowanceExceeded, Whitelist};

fn s(text: &str) -> String {
    text.to_string()
}

#[test]
fn new_allowance_has_everything_left() {
    let a = Allowance::new(5);
    assert_eq!(a, Allowance { claimed: 0, max: 5 });
    assert_eq!(a.left(), 5);
}

#[test]
fn left_is_the_gap() {
    assert_eq!(Allowance { claimed: 2, max: 5 }.left(), 3);
    assert_eq!(Allowance { claimed: 5, max: 5 }.left(), 0);
}

#[test]
fn left_is_clamped_at_zero() {
    assert_eq!(Allowance { claimed: 7, max: 5 }.left(), 0);
}

#[test]
fn use_num_claims_what_is_left() {
    let mut a = Allowance::new(5);
    assert_eq!(a.use_num(2), Ok(()));
    assert_eq!(a, Allowance { claimed: 2, max: 5 });
    assert_eq!(a.left(), 3);
    assert_eq!(a.use_num(3), Ok(()));
    assert_eq!(a.left(), 0);
}

#[test]
fn use_num_of_nothing_always_succeeds() {
    let mut a = Allowance { claimed: 5, max: 5 };
    assert_eq!(a.use_num(0), Ok(()));
    assert_eq!(a, Allowance { claimed: 5, max: 5 });
}

#[test]
fn use_num_beyond_what_is_left_fails_and_changes_nothing() {
    let mut a = Allowance { claimed: 2, max: 5 };
    assert_eq!(a.use_num(4), Err(AllowanceExceeded { requested: 4, left: 3 }));
    assert_eq!(a, Allowance { claimed: 2, max: 5 });
}

#[test]
fn use_num_at_the_top_of_the_range() {
    let mut a = Allowance::new(u16::MAX);
    assert_eq!(a.use_num(u16::MAX), Ok(()));
    assert_eq!(a.left(), 0);
    assert_eq!(a.use_num(1), Err(AllowanceExceeded { requested: 1, left: 0 }));
}

#[test]
fn raise_max_widens() {
    let a = Allowance { claimed: 2, max: 5 }.raise_max(8);
    assert_eq!(a, Allowance { claimed: 2, max: 8 });
    assert_eq!(a.left(), 6);
}

#[test]
fn raise_max_never_narrows() {
    let a = Allowance { claimed: 2, max: 5 }.raise_max(3);
    assert_eq!(a, Allowance { claimed: 2, max: 5 });
    for m in [0u16, 1, 4, 5, 6, 100, u16::MAX] {
        let before = Allowance { claimed: 2, max: 5 };
        assert!(before.raise_max(m).left() >= before.left());
    }
}

#[test]
fn give_back_lowers_what_is_claimed() {
    let mut a = Allowance { claimed: 2, max: 5 };
    a.give_back(1);
    assert_eq!(a, Allowance { claimed: 1, max: 5 });
    a.give_back(4);
    assert_eq!(a, Allowance { claimed: 0, max: 5 });
}

#[test]
fn get_or_create_prefers_what_is_stored() {
    assert_eq!(get_or_create(Some(Allowance { claimed: 1, max: 2 }), 9), Allowance { claimed: 1, max: 2 });
    assert_eq!(get_or_create(None, 9), Allowance { claimed: 0, max: 9 });
}

#[test]
fn empty_table_knows_nobody() {
    let table = Whitelist::new();
    assert_eq!(table.get(&s("alice.near")), None);
    assert!(!table.contains_key(&s("alice.near")));
    assert_eq!(table.entries().len(), 0);
}

#[test]
fn table_stores_and_replaces() {
    let mut table = Whitelist::new();
    table.insert(&s("alice.near"), Allowance::new(3));
    table.insert(&s("bob.near"), Allowance::new(1));
    assert_eq!(table.get(&s("alice.near")), Some(Allowance { claimed: 0, max: 3 }));
    assert_eq!(table.get(&s("bob.near")), Some(Allowance { claimed: 0, max: 1 }));
    table.insert(&s("alice.near"), Allowance { claimed: 2, max: 3 });
    assert_eq!(table.get(&s("alice.near")), Some(Allowance { claimed: 2, max: 3 }));
    assert_eq!(table.get(&s("bob.near")), Some(Allowance { claimed: 0, max: 1 }));
    assert_eq!(table.entries().len(), 2);
    assert!(table.contains_key(&s("bob.near")));
    assert!(!table.contains_key(&s("carol.near")));
}

#[test]
fn table_creates_an_allowance_without_storing_it() {
    let mut table = Whitelist::new();
    assert_eq!(table.get_or_create(&s("alice.near"), 4), Allowance { claimed: 0, max: 4 });
    assert!(!table.contains_key(&s("alice.near")));
    table.insert(&s("alice.near"), Allowance { claimed: 1, max: 2 });
    assert_eq!(table.get_or_create(&s("alice.near"), 4), Allowance { claimed: 1, max: 2 });
}
