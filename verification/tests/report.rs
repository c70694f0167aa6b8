use az::keylist::GPGKey;
use az::report::{
    display_gpg_key_info, email_or_placeholder, is_reportable, render_report, row_cells,
    title_cells,
};
use az::table::{all_plain, is_plain};

fn key(id: &str, name: &str, email: Option<&str>, expiry: Option<&str>, can_sign: bool) -> GPGKey {
    GPGKey {
        id: id.to_string(),
        fingerprint: format!("FP-{}", id),
        username: name.to_string(),
        email: email.map(|e| e.to_string()),
        creation_date: Some("15/05/2015 00:00:00".to_string()),
        expiry_date: expiry.map(|e| e.to_string()),
        can_sign,
        can_encrypt: true,
        algorithm: "RSA".to_string(),
    }
}

#[test]
fn the_titles_are_the_six_columns() {
    assert_eq!(
        title_cells(),
        vec!["ID", "User", "Created On", "Expiring On", "Signature", "Algorithm"]
    );
}

#[test]
fn a_row_shows_the_six_cells_of_a_key() {
    let cells = row_cells(&key(
        "A1",
        "Alice",
        Some("alice@example.com"),
        Some("09/09/2031 01:46:40"),
        true,
    ));
    assert_eq!(
        cells,
        vec![
            "A1",
            "Alice\n(alice@example.com)",
            "15/05/2015 00:00:00",
            "09/09/2031 01:46:40",
            "yes",
            "RSA",
        ]
    );
}

#[test]
fn a_key_that_never_expires_shows_never() {
    let cells = row_cells(&key("A1", "Alice", Some("alice@example.com"), None, true));
    assert_eq!(cells[3], "never");
}

#[test]
fn a_key_without_email_shows_the_placeholder() {
    let cells = row_cells(&key("A1", "Alice", None, None, true));
    assert_eq!(cells[1], "Alice\n(No email)");
    assert_eq!(email_or_placeholder(&None), "No email");
    assert_eq!(email_or_placeholder(&Some("a@b.c".to_string())), "a@b.c");
}

#[test]
fn a_key_that_cannot_sign_shows_no() {
    let cells = row_cells(&key("A1", "Alice", None, None, false));
    assert_eq!(cells[4], "no");
}

#[test]
fn the_report_of_no_keys_is_the_title_row() {
    let expected = "\
+----+------+------------+-------------+-----------+-----------+
| ID | User | Created On | Expiring On | Signature | Algorithm |
+----+------+------------+-------------+-----------+-----------+
+----+------+------------+-------------+-----------+-----------+
";
    assert_eq!(display_gpg_key_info(&Vec::new()), Some(expected.to_string()));
}

#[test]
fn the_report_has_one_row_for_each_key() {
    let keys = vec![
        key("A1", "Alice", Some("alice@example.com"), None, true),
        key("B2", "Bob", None, Some("01/01/2030 12:00:00"), false),
    ];
    let expected = "\
+----+---------------------+---------------------+---------------------+-----------+-----------+
| ID | User                | Created On          | Expiring On         | Signature | Algorithm |
+----+---------------------+---------------------+---------------------+-----------+-----------+
| A1 | Alice               | 15/05/2015 00:00:00 | never               | yes       | RSA       |
|    | (alice@example.com) |                     |                     |           |           |
+----+---------------------+---------------------+---------------------+-----------+-----------+
| B2 | Bob                 | 15/05/2015 00:00:00 | 01/01/2030 12:00:00 | no        | RSA       |
|    | (No email)          |                     |                     |           |           |
+----+---------------------+---------------------+---------------------+-----------+-----------+
";
    assert_eq!(display_gpg_key_info(&keys), Some(expected.to_string()));
    assert_eq!(render_report(&keys), expected);
}

#[test]
fn rendering_twice_gives_the_same_bytes() {
    let keys = vec![
        key("A1", "Alice", Some("alice@example.com"), None, true),
        key("B2", "Bob", None, Some("01/01/2030 12:00:00"), false),
        key("C3", "Carol", Some("carol@example.com"), None, true),
    ];
    let first = display_gpg_key_info(&keys).unwrap();
    let second = display_gpg_key_info(&keys).unwrap();
    assert_eq!(first.as_bytes(), second.as_bytes());
}

#[test]
fn the_report_does_not_show_the_fingerprint() {
    let one = key("A1", "Alice", Some("alice@example.com"), None, true);
    let mut other = one.clone();
    other.fingerprint = "another".to_string();
    other.can_encrypt = false;
    assert_eq!(
        display_gpg_key_info(&vec![one]),
        display_gpg_key_info(&vec![other])
    );
}

#[test]
fn the_rendered_report_shows_never_and_the_placeholder() {
    let text = display_gpg_key_info(&vec![key("A1", "Alice", None, None, true)]).unwrap();
    assert!(text.contains("| never "));
    assert!(text.contains("| (No email) "));
}

#[test]
fn a_key_without_a_creation_date_has_no_report() {
    let mut undated = key("A1", "Alice", None, None, true);
    undated.creation_date = None;
    assert!(!is_reportable(&undated));
    assert_eq!(display_gpg_key_info(&vec![undated]), None);
}

#[test]
fn a_key_with_a_colour_sequence_has_no_report() {
    let coloured = key("A1", "Al\u{1b}[31mice", None, None, true);
    assert!(!is_reportable(&coloured));
    let plain = key("B2", "Bob", None, None, true);
    assert!(is_reportable(&plain));
    assert_eq!(display_gpg_key_info(&vec![plain, coloured]), None);
}

#[test]
fn a_key_with_a_lone_escape_character_is_drawn() {
    let odd = key("A1", "Al\u{1b}ice", None, None, true);
    assert!(is_reportable(&odd));
    let text = display_gpg_key_info(&vec![odd]).unwrap();
    assert!(text.contains("Al\u{1b}ice"));
    assert!(text.contains("| (No email) "));
    assert_eq!(text.lines().count(), 6);
}

#[test]
fn every_key_without_email_has_its_row() {
    let keys = vec![
        key("A1", "Alice", None, None, true),
        key("B2", "Bob", Some("bob@example.com"), None, true),
        key("C3", "Carol", None, None, false),
    ];
    let text = display_gpg_key_info(&keys).unwrap();
    assert_eq!(text.matches("(No email)").count(), 2);
    assert!(text.contains("| A1 | Alice "));
    assert!(text.contains("| B2 | Bob "));
    assert!(text.contains("| C3 | Carol "));
}

#[test]
fn plain_texts_hold_no_escape_before_a_bracket() {
    assert!(is_plain(""));
    assert!(is_plain("Alice\n(alice@example.com)"));
    assert!(is_plain("Zo\u{eb} \u{1F600}"));
    assert!(is_plain("\u{1b}"));
    assert!(is_plain("["));
    assert!(is_plain("[\u{1b}"));
    assert!(is_plain("\u{1b} ["));
    assert!(is_plain("abc\u{1b}"));
    assert!(!is_plain("\u{1b}["));
    assert!(!is_plain("abc\u{1b}[0m"));
    assert!(!is_plain("\u{1b}\u{1b}["));
    assert!(all_plain(&vec!["a".to_string(), "b\u{1b}".to_string()]));
    assert!(!all_plain(&vec!["a".to_string(), "b\u{1b}[".to_string()]));
    assert!(all_plain(&Vec::new()));
}
