use warnings::summary::append_decimal;
use warnings::{GuildId, User, UserId, UserWarnings, Warnings};

fn decimal(n: u64) -> String {
    let mut out = String::new();
    append_decimal(&mut out, n);
    out
}

#[test]
fn summary_without_warnings() {
    let member = UserWarnings::new(User::new(UserId(1), "Alice".to_string()));
    assert_eq!(member.to_string(), "User Alice has 0 warning(s)");
}

#[test]
fn summary_with_two_warnings() {
    let mut store = Warnings::new();
    let bob = User::new(UserId(2), "Bob".to_string());
    store.add_warning(&GuildId(1), bob.clone(), "spam".to_string());
    store.add_warning(&GuildId(1), bob.clone(), "flood".to_string());
    let member = store.get_warnings(GuildId(1), bob).unwrap();
    assert_eq!(member.to_string(), "User Bob has 2 warning(s):\n1: spam\n2: flood\n");
}

#[test]
fn summary_with_one_warning() {
    let mut store = Warnings::new();
    let user = User::new(UserId(3), "Eve".to_string());
    store.add_warning(&GuildId(1), user.clone(), "".to_string());
    let member = store.get_warnings(GuildId(1), user).unwrap();
    assert_eq!(member.to_string(), "User Eve has 1 warning(s):\n1: \n");
}

#[test]
fn summary_numbers_run_past_nine() {
    let mut store = Warnings::new();
    let user = User::new(UserId(3), "Ten".to_string());
    let mut expected = String::from("User Ten has 12 warning(s):\n");
    for n in 1..=12 {
        store.add_warning(&GuildId(1), user.clone(), format!("r{}", n));
        expected.push_str(&format!("{}: r{}\n", n, n));
    }
    let member = store.get_warnings(GuildId(1), user).unwrap();
    assert_eq!(member.to_string(), expected);
    assert!(member.to_string().contains("\n10: r10\n11: r11\n12: r12\n"));
}

#[test]
fn summary_keeps_names_and_reasons_as_they_are() {
    let mut store = Warnings::new();
    let user = User::new(UserId(3), "Zoë: 1\n".to_string());
    store.add_warning(&GuildId(1), user.clone(), "a\nb: c".to_string());
    let member = store.get_warnings(GuildId(1), user).unwrap();
    assert_eq!(member.to_string(), "User Zoë: 1\n has 1 warning(s):\n1: a\nb: c\n");
}

#[test]
fn summary_goes_by_the_count_for_the_list() {
    // a record built by hand whose count says zero shows no list
    let mut member = UserWarnings::new(User::new(UserId(1), "Alice".to_string()));
    member.warnings.push(warnings::Warning::new("hidden".to_string()));
    assert_eq!(member.to_string(), "User Alice has 0 warning(s)");
    // and one whose count says more than there is shows the colon and what there is
    member.warning_count = 3;
    assert_eq!(member.to_string(), "User Alice has 3 warning(s):\n1: hidden\n");
    let mut empty = UserWarnings::new(User::new(UserId(1), "Alice".to_string()));
    empty.warning_count = 1;
    assert_eq!(empty.to_string(), "User Alice has 1 warning(s):\n");
}

#[test]
fn decimal_of_small_and_large_numbers() {
    assert_eq!(decimal(0), "0");
    assert_eq!(decimal(7), "7");
    assert_eq!(decimal(9), "9");
    assert_eq!(decimal(10), "10");
    assert_eq!(decimal(11), "11");
    assert_eq!(decimal(99), "99");
    assert_eq!(decimal(100), "100");
    assert_eq!(decimal(1234567890), "1234567890");
    assert_eq!(decimal(4294967295), "4294967295");
    assert_eq!(decimal(u64::MAX), "18446744073709551615");
}

#[test]
fn decimal_agrees_with_the_standard_rendering() {
    let mut n: u64 = 1;
    for _ in 0..64 {
        assert_eq!(decimal(n), n.to_string());
        assert_eq!(decimal(n - 1), (n - 1).to_string());
        n = n.wrapping_mul(3).wrapping_add(1);
    }
    for n in 0..2000u64 {
        assert_eq!(decimal(n), n.to_string());
    }
}

#[test]
fn decimal_is_appended() {
    let mut out = String::from("n = ");
    append_decimal(&mut out, 42);
    append_decimal(&mut out, 0);
    assert_eq!(out, "n = 420");
}

#[test]
fn summary_shows_the_largest_count() {
    let mut member = UserWarnings::new(User::new(UserId(1), "Max".to_string()));
    member.warning_count = u32::MAX;
    assert_eq!(member.to_string(), "User Max has 4294967295 warning(s):\n");
}
