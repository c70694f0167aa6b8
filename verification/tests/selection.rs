use std::collections::HashMap;

use az::error::Error;
use az::git::{choose_signing_key, set_config, ConfigEntry};
use az::keylist::GPGKey;
use az::selector::{items_of, label_of, Action, Event, Phase, SelectItem, Selector};

fn key(id: &str, name: &str, email: Option<&str>) -> GPGKey {
    GPGKey {
        id: id.to_string(),
        fingerprint: format!("FP-{}", id),
        username: name.to_string(),
        email: email.map(|e| e.to_string()),
        creation_date: Some("15/05/2015 00:00:00".to_string()),
        expiry_date: None,
        can_sign: true,
        can_encrypt: true,
        algorithm: "RSA".to_string(),
    }
}

fn three_keys() -> Vec<GPGKey> {
    vec![
        key("A1", "Alice", Some("alice@example.com")),
        key("B2", "Bob", None),
        key("C3", "Carol", Some("carol@example.com")),
    ]
}

#[test]
fn a_label_is_name_and_email() {
    assert_eq!(
        label_of(&key("A1", "Alice", Some("alice@example.com"))),
        "Alice / alice@example.com"
    );
}

#[test]
fn a_label_without_email_has_the_placeholder() {
    assert_eq!(label_of(&key("B2", "Bob", None)), "Bob / No email");
}

#[test]
fn the_menu_has_one_entry_for_each_key() {
    assert_eq!(
        items_of(&three_keys()),
        vec![
            SelectItem { label: "Alice / alice@example.com".to_string(), id: "A1".to_string() },
            SelectItem { label: "Bob / No email".to_string(), id: "B2".to_string() },
            SelectItem { label: "Carol / carol@example.com".to_string(), id: "C3".to_string() },
        ]
    );
    assert_eq!(items_of(&Vec::new()), Vec::new());
}

#[test]
fn confirming_an_entry_returns_its_id() {
    let keys = three_keys();
    for index in 0..keys.len() {
        assert_eq!(
            choose_signing_key(&keys, Event::Confirm(index)),
            Ok(keys[index].id.clone())
        );
    }
}

#[test]
fn confirming_the_only_entry_returns_its_id() {
    let keys = vec![key("ONLY", "Olga", None)];
    assert_eq!(choose_signing_key(&keys, Event::Confirm(0)), Ok("ONLY".to_string()));
}

#[test]
fn no_keys_fail_with_empty_key_set() {
    let keys = Vec::new();
    assert_eq!(choose_signing_key(&keys, Event::Confirm(0)), Err(Error::EmptyKeySet));
    assert_eq!(choose_signing_key(&keys, Event::Quit), Err(Error::EmptyKeySet));
    assert_eq!(choose_signing_key(&keys, Event::Exit), Err(Error::EmptyKeySet));
    assert_eq!(choose_signing_key(&keys, Event::ExitSlotLost), Err(Error::EmptyKeySet));
}

#[test]
fn no_keys_are_never_rendered() {
    let mut selector = Selector::new(&Vec::new());
    assert_eq!(selector.step(Event::Open), Action::Fail(Error::EmptyKeySet));
    assert_eq!(selector.phase(), Phase::Idle);
    assert_eq!(selector.step(Event::Confirm(0)), Action::Nothing);
    assert_eq!(selector.phase(), Phase::Idle);
}

#[test]
fn quitting_selects_nothing() {
    assert_eq!(choose_signing_key(&three_keys(), Event::Quit), Err(Error::NoSelectionMade));
    let one = vec![key("A1", "Alice", None)];
    assert_eq!(choose_signing_key(&one, Event::Quit), Err(Error::NoSelectionMade));
}

#[test]
fn a_loop_that_just_ends_selects_nothing() {
    assert_eq!(choose_signing_key(&three_keys(), Event::Exit), Err(Error::NoSelectionMade));
    assert_eq!(choose_signing_key(&three_keys(), Event::Open), Err(Error::NoSelectionMade));
}

#[test]
fn a_confirm_outside_the_menu_selects_nothing() {
    assert_eq!(
        choose_signing_key(&three_keys(), Event::Confirm(3)),
        Err(Error::NoSelectionMade)
    );
    assert_eq!(
        choose_signing_key(&three_keys(), Event::Confirm(usize::MAX)),
        Err(Error::NoSelectionMade)
    );
}

#[test]
fn a_confirmed_empty_id_selects_nothing() {
    let keys = vec![key("", "Nobody", None)];
    assert_eq!(choose_signing_key(&keys, Event::Confirm(0)), Err(Error::NoSelectionMade));
}

#[test]
fn a_lost_slot_is_reported() {
    assert_eq!(
        choose_signing_key(&three_keys(), Event::ExitSlotLost),
        Err(Error::SelectionUnavailable)
    );
}

#[test]
fn the_dialog_goes_from_idle_to_closed_by_a_confirm() {
    let mut selector = Selector::new(&three_keys());
    assert_eq!(selector.phase(), Phase::Idle);
    assert_eq!(selector.items().len(), 3);
    assert_eq!(selector.step(Event::Open), Action::Render);
    assert_eq!(selector.phase(), Phase::Rendering);
    assert_eq!(selector.step(Event::Confirm(2)), Action::Stop);
    assert_eq!(selector.phase(), Phase::Confirmed);
    assert_eq!(selector.step(Event::Exit), Action::Deliver("C3".to_string()));
    assert_eq!(selector.phase(), Phase::Closed);
}

#[test]
fn the_dialog_goes_from_idle_to_closed_by_a_quit() {
    let mut selector = Selector::new(&three_keys());
    assert_eq!(selector.step(Event::Open), Action::Render);
    assert_eq!(selector.step(Event::Quit), Action::Stop);
    assert_eq!(selector.phase(), Phase::Aborted);
    assert_eq!(selector.step(Event::Exit), Action::Fail(Error::NoSelectionMade));
    assert_eq!(selector.phase(), Phase::Closed);
}

#[test]
fn only_the_first_confirm_counts() {
    let mut selector = Selector::new(&three_keys());
    selector.step(Event::Open);
    assert_eq!(selector.step(Event::Confirm(0)), Action::Stop);
    assert_eq!(selector.step(Event::Confirm(1)), Action::Nothing);
    assert_eq!(selector.step(Event::Quit), Action::Nothing);
    assert_eq!(selector.step(Event::Open), Action::Nothing);
    assert_eq!(selector.phase(), Phase::Confirmed);
    assert_eq!(selector.step(Event::Exit), Action::Deliver("A1".to_string()));
}

#[test]
fn a_confirm_after_a_quit_is_ignored() {
    let mut selector = Selector::new(&three_keys());
    selector.step(Event::Open);
    selector.step(Event::Quit);
    assert_eq!(selector.step(Event::Confirm(1)), Action::Nothing);
    assert_eq!(selector.step(Event::Exit), Action::Fail(Error::NoSelectionMade));
}

#[test]
fn a_closed_dialog_ignores_every_event() {
    let mut selector = Selector::new(&three_keys());
    selector.step(Event::Open);
    selector.step(Event::Confirm(1));
    selector.step(Event::Exit);
    for event in [Event::Open, Event::Confirm(0), Event::Quit, Event::Exit, Event::ExitSlotLost] {
        assert_eq!(selector.step(event), Action::Nothing);
        assert_eq!(selector.phase(), Phase::Closed);
    }
}

#[test]
fn an_idle_dialog_ignores_the_loop() {
    let mut selector = Selector::new(&three_keys());
    for event in [Event::Confirm(0), Event::Quit, Event::Exit, Event::ExitSlotLost] {
        assert_eq!(selector.step(event), Action::Nothing);
        assert_eq!(selector.phase(), Phase::Idle);
    }
}

#[test]
fn a_lost_slot_closes_the_dialog() {
    let mut selector = Selector::new(&three_keys());
    selector.step(Event::Open);
    selector.step(Event::Confirm(1));
    assert_eq!(selector.step(Event::ExitSlotLost), Action::Fail(Error::SelectionUnavailable));
    assert_eq!(selector.phase(), Phase::Closed);
}

#[test]
fn the_identity_is_three_entries() {
    let chosen = key("B2", "Alice", Some("alice@example.com"));
    let write = set_config("repoPath", &chosen);
    assert_eq!(write.repo_path, "repoPath");
    assert_eq!(
        write.entries,
        vec![
            ConfigEntry { name: "user.name".to_string(), value: "Alice".to_string() },
            ConfigEntry { name: "user.email".to_string(), value: "alice@example.com".to_string() },
            ConfigEntry { name: "user.signingkey".to_string(), value: "B2".to_string() },
        ]
    );
}

#[test]
fn choosing_the_second_of_three_and_registering_it() {
    let keys = vec![
        key("A1", "Anna", Some("anna@example.com")),
        key("B2", "Alice", Some("alice@example.com")),
        key("C3", "Carol", Some("carol@example.com")),
    ];
    let chosen = choose_signing_key(&keys, Event::Confirm(1)).unwrap();
    assert_eq!(chosen, "B2");
    let identity = keys.iter().find(|k| k.id == chosen).unwrap();

    let mut config: HashMap<String, String> = HashMap::new();
    config.insert("core.editor".to_string(), "vi".to_string());
    config.insert("user.name".to_string(), "Somebody Else".to_string());
    for entry in set_config("repoPath", identity).entries {
        config.insert(entry.name, entry.value);
    }
    assert_eq!(config.len(), 4);
    assert_eq!(config["user.name"], "Alice");
    assert_eq!(config["user.email"], "alice@example.com");
    assert_eq!(config["user.signingkey"], "B2");
    assert_eq!(config["core.editor"], "vi");

    let once = config.clone();
    for entry in set_config("repoPath", identity).entries {
        config.insert(entry.name, entry.value);
    }
    assert_eq!(config, once);
}
