//! The strategy applied to a batch: `Clone` leaves it alone, `Mask` masks
//! every record.

use tuxedo::replication::types::{apply_strategy, ReplicationStrategy};
use tuxedo::Mask;

#[derive(Debug, Clone, PartialEq)]
struct User {
    name: String,
    email: String,
}

impl Mask for User {
    fn mask(&mut self) {
        self.email = Self::fake_email();
    }
}

fn is_masked(user: &User) -> bool {
    user.email.ends_with("@example.com")
        || user.email.ends_with("@example.net")
        || user.email.ends_with("@example.org")
}

fn ten_users() -> Vec<User> {
    let mut users = Vec::new();
    for i in 0..10 {
        users.push(User { name: format!("user{}", i), email: "alice@x.com".to_string() });
    }
    users
}

#[test]
fn mask_strategy_replaces_every_email() {
    let mut users = ten_users();
    apply_strategy(ReplicationStrategy::Mask, &mut users);
    assert_eq!(users.len(), 10);
    for (i, user) in users.iter().enumerate() {
        assert_ne!(user.email, "alice@x.com");
        assert!(is_masked(user));
        assert_eq!(user.name, format!("user{}", i));
    }
}

#[test]
fn clone_strategy_leaves_records_unchanged() {
    let mut users = ten_users();
    apply_strategy(ReplicationStrategy::Clone, &mut users);
    assert_eq!(users, ten_users());
    for user in users.iter() {
        assert!(!is_masked(user));
    }
}

#[test]
fn strategy_applied_to_an_empty_batch() {
    let mut users: Vec<User> = Vec::new();
    apply_strategy(ReplicationStrategy::Mask, &mut users);
    assert!(users.is_empty());
}

#[test]
fn strategy_says_whether_it_masks() {
    assert!(ReplicationStrategy::Mask.masks());
    assert!(!ReplicationStrategy::Clone.masks());
}

#[test]
fn seed_is_fixed() {
    assert_eq!(User::seed(), 12345);
    assert_eq!(tuxedo::mask::DEFAULT_SEED, 12345);
}

struct Seeded;

impl Mask for Seeded {
    fn mask(&mut self) {}

    fn seed() -> i32 {
        7
    }

    fn fake_first_name() -> String {
        "Ada".to_string()
    }

    fn fake_last_name() -> String {
        "Lovelace".to_string()
    }

    fn fake_numeric_string(length: usize) -> String {
        "7".repeat(length.saturating_sub(1))
    }
}

#[test]
fn a_record_type_may_give_its_own_values() {
    assert_eq!(Seeded::seed(), 7);
    assert_eq!(Seeded::fake_full_name(), "Lovelace, Ada");
    assert_eq!(Seeded::fake_phone_number_extension(), "77");
}

#[test]
fn full_name_is_last_comma_first() {
    assert_eq!(tuxedo::mask::full_name("Doe".to_string(), "Jane"), "Doe, Jane");
    let name = User::fake_full_name();
    assert!(name.contains(", "));
}

#[test]
fn numeric_string_has_one_digit_less_than_its_length() {
    assert_eq!(User::fake_numeric_string(0), "");
    assert_eq!(User::fake_numeric_string(1), "");
    let text = User::fake_numeric_string(6);
    assert_eq!(text.chars().count(), 5);
    assert!(text.chars().all(|c| c.is_ascii_digit()));
    let extension = User::fake_phone_number_extension();
    assert_eq!(extension.chars().count(), 2);
    assert!(extension.chars().all(|c| c.is_ascii_digit()));
}

#[test]
fn concat_all_appends_in_order() {
    let parts = vec!["12".to_string(), "".to_string(), "3".to_string()];
    assert_eq!(tuxedo::mask::concat_all(&parts), "123");
    assert_eq!(tuxedo::mask::concat_all(&Vec::new()), "");
}

#[test]
fn fake_values_are_not_empty() {
    assert!(!User::fake_name().is_empty());
    assert!(!User::fake_first_name().is_empty());
    assert!(!User::fake_last_name().is_empty());
    assert!(!User::fake_comments().is_empty());
    assert!(User::fake_email().contains('@'));
    assert!(!User::fake_address().is_empty());
    assert!(!User::fake_postal_code().is_empty());
    assert!(!User::fake_phone_number().is_empty());
}

fn is_two_words(text: &str) -> bool {
    let characters: Vec<char> = text.chars().collect();
    (1..characters.len().saturating_sub(1)).any(|at| characters[at] == ' ')
}

fn fills_pattern(pattern: &str, text: &str) -> bool {
    let marks: Vec<char> = pattern.chars().collect();
    let characters: Vec<char> = text.chars().collect();
    marks.len() == characters.len()
        && marks.iter().zip(characters.iter()).all(|(mark, character)| match mark {
            '#' => character.is_ascii_digit(),
            '^' => ('1'..='9').contains(character),
            other => character == other,
        })
}

const PHONE_PATTERNS: [&str; 16] = [
    "(^##) ###-#### x###",
    "(^##) ###-#### x####",
    "(^##) ###-#### x#####",
    "(^##) ###-####",
    "1-^##-###-#### x###",
    "1-^##-###-#### x####",
    "1-^##-###-#### x#####",
    "1-^##-###-####",
    "^##-###-#### x###",
    "^##-###-#### x####",
    "^##-###-#### x#####",
    "^##-###-####",
    "^##.###.#### x###",
    "^##.###.#### x####",
    "^##.###.#### x#####",
    "^##.###.####",
];

#[test]
fn fake_names_are_two_words() {
    for _ in 0..2000 {
        let name = User::fake_name();
        assert!(is_two_words(&name), "{:?}", name);
        let street = User::fake_address();
        assert!(is_two_words(&street), "{:?}", street);
    }
}

#[test]
fn fake_first_and_last_names_are_not_empty() {
    for _ in 0..2000 {
        assert!(!User::fake_first_name().is_empty());
        assert!(!User::fake_last_name().is_empty());
    }
}

#[test]
fn fake_comments_are_sentences() {
    for _ in 0..2000 {
        let comments = User::fake_comments();
        assert!(comments.chars().count() > 1, "{:?}", comments);
        assert!(comments.ends_with('.'), "{:?}", comments);
    }
}

#[test]
fn fake_emails_are_at_example_domains() {
    let mut domains = Vec::new();
    for _ in 0..2000 {
        let email = User::fake_email();
        let domain = ["@example.com", "@example.net", "@example.org"]
            .into_iter()
            .find(|domain| email.ends_with(domain) && email.len() > domain.len());
        assert!(domain.is_some(), "{:?}", email);
        if !domains.contains(&domain) {
            domains.push(domain);
        }
    }
    assert_eq!(domains.len(), 3);
}

#[test]
fn fake_postal_codes_fill_a_pattern() {
    let mut seen = [false, false];
    for _ in 0..2000 {
        let code = User::fake_postal_code();
        let short = fills_pattern("#####", &code);
        let long = fills_pattern("#####-####", &code);
        assert!(short || long, "{:?}", code);
        seen[0] |= short;
        seen[1] |= long;
    }
    assert_eq!(seen, [true, true]);
}

#[test]
fn fake_phone_numbers_fill_a_pattern() {
    let mut seen = [false; 16];
    for _ in 0..5000 {
        let number = User::fake_phone_number();
        let which = PHONE_PATTERNS.iter().position(|pattern| fills_pattern(pattern, &number));
        match which {
            Some(pattern) => seen[pattern] = true,
            None => panic!("{:?} fills no pattern", number),
        }
    }
    assert!(seen.iter().all(|pattern| *pattern));
}
