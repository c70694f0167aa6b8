//! Choosing the signing key, and the configuration entries that register it.

use vstd::prelude::*;
use crate::error::Error;
use crate::keylist::{GPGKey, KeyRecord, valid_key_set};
use crate::selector::{Action, ActionRecord, Event, Selector, initial, next};

verus! {

/// The outcome of one whole dialog over a sequence of keys, in which the
/// operator's part is one event.
///
/// Without keys the dialog fails with `EmptyKeySet` before anything is
/// shown. Otherwise a confirm on an entry of the menu gives the identifier
/// of that entry's key, unless the identifier is empty; a lost result slot
/// gives `SelectionUnavailable`; and everything else ends the dialog with
/// `NoSelectionMade`.
pub open spec fn selection(keys: Seq<KeyRecord>, operator: Event) -> Result<Seq<char>, Error> {
    if keys.len() == 0 {
        Err(Error::EmptyKeySet)
    } else {
        match operator {
            Event::Confirm(index) => if index < keys.len() && keys[index as int].id.len() > 0 {
                Ok(keys[index as int].id)
            } else {
                Err(Error::NoSelectionMade)
            },
            Event::ExitSlotLost => Err(Error::SelectionUnavailable),
            _ => Err(Error::NoSelectionMade),
        }
    }
}

/// Runs the selection dialog over a sequence of keys with the operator's
/// part given as one event: opens the dialog, hands it the event, and ends
/// the display loop if the event has not ended it.
pub fn choose_signing_key(gpg_info_list: &Vec<GPGKey>, operator: Event) -> (result: Result<
    String,
    Error,
>)
    ensures
        match result {
            Ok(id) => selection(gpg_info_list.deep_view(), operator) == Ok::<Seq<char>, Error>(
                id@,
            ),
            Err(error) => selection(gpg_info_list.deep_view(), operator) == Err::<
                Seq<char>,
                Error,
            >(error),
        },
{
    let mut selector = Selector::new(gpg_info_list);
    match selector.step(Event::Open) {
        Action::Fail(error) => { return Err(error); },
        _ => {},
    }
    let answer = selector.step(operator);
    let last = match answer {
        Action::Fail(error) => { return Err(error); },
        _ => selector.step(Event::Exit),
    };
    match last {
        Action::Deliver(id) => Ok(id),
        Action::Fail(error) => Err(error),
        // Not reached: a running dialog answers `Exit` with one of the two.
        _ => Err(Error::NoSelectionMade),
    }
}

/// The dialog over a sequence of keys, run through the machine: opened,
/// handed the operator's event, and closed by the end of the display loop
/// unless the event has closed it. The result is the last action.
pub open spec fn dialog(keys: Seq<KeyRecord>, operator: Event) -> ActionRecord {
    let (opened, first) = next(initial(keys), Event::Open);
    if first is Fail {
        first
    } else {
        let (decided, answer) = next(opened, operator);
        if answer is Fail {
            answer
        } else {
            next(decided, Event::Exit).1
        }
    }
}

/// What [`selection`] says of a dialog is what the machine does: the
/// dialog delivers the selected identifier, or fails with the error of the
/// selection.
pub proof fn lemma_selection_is_the_dialog(keys: Seq<KeyRecord>, operator: Event)
    ensures
        dialog(keys, operator) == match selection(keys, operator) {
            Ok(id) => ActionRecord::Deliver(id),
            Err(error) => ActionRecord::Fail(error),
        },
{
}

/// Confirming the entry at a place of the menu gives exactly the identifier
/// of the key at that place, for every valid sequence of keys that is not
/// empty.
pub proof fn lemma_confirm_gives_the_id(keys: Seq<KeyRecord>, index: usize)
    requires
        valid_key_set(keys),
        index < keys.len(),
    ensures
        selection(keys, Event::Confirm(index)) == Ok::<Seq<char>, Error>(keys[index as int].id),
{
}

/// Without keys the dialog fails with `EmptyKeySet`, whatever the operator
/// would have done.
pub proof fn lemma_no_keys_no_dialog(keys: Seq<KeyRecord>, operator: Event)
    requires
        keys.len() == 0,
    ensures
        selection(keys, operator) == Err::<Seq<char>, Error>(Error::EmptyKeySet),
{
}

/// Quitting a dialog over any keys gives `NoSelectionMade`.
pub proof fn lemma_quit_selects_nothing(keys: Seq<KeyRecord>)
    requires
        keys.len() > 0,
    ensures
        selection(keys, Event::Quit) == Err::<Seq<char>, Error>(Error::NoSelectionMade),
{
}

/// One entry of a repository's configuration: a name and the text stored
/// under it.
#[derive(Debug, Clone, PartialEq, Eq)]
pub struct ConfigEntry {
    pub name: String,
    pub value: String,
}

/// The mathematical value of a [`ConfigEntry`].
pub struct EntryRecord {
    pub name: Seq<char>,
    pub value: Seq<char>,
}

impl DeepView for ConfigEntry {
    type V = EntryRecord;

    open spec fn deep_view(&self) -> EntryRecord {
        EntryRecord { name: self.name@, value: self.value@ }
    }
}

impl View for ConfigEntry {
    type V = EntryRecord;

    open spec fn view(&self) -> EntryRecord {
        self.deep_view()
    }
}

/// The writes that register an identity in a repository: the repository's
/// path, and the entries to store in its configuration, in order.
#[derive(Debug, Clone, PartialEq, Eq)]
pub struct ConfigWrite {
    pub repo_path: String,
    pub entries: Vec<ConfigEntry>,
}

/// The entries that register a key as the signing identity: the name and
/// the email address of its user, and its identifier as the signing key.
pub open spec fn identity_entries(key: KeyRecord) -> Seq<EntryRecord>
    recommends
        key.email is Some,
{
    seq![
        EntryRecord { name: "user.name"@, value: key.username },
        EntryRecord { name: "user.email"@, value: key.email.unwrap() },
        EntryRecord { name: "user.signingkey"@, value: key.id },
    ]
}

/// A configuration in which the entries have been stored one after the
/// other, each under its name, in place of what stood there.
pub open spec fn stored(
    config: Map<Seq<char>, Seq<char>>,
    entries: Seq<EntryRecord>,
) -> Map<Seq<char>, Seq<char>>
    decreases entries.len(),
{
    if entries.len() == 0 {
        config
    } else {
        stored(config, entries.drop_last()).insert(entries.last().name, entries.last().value)
    }
}

/// Plans the registration of a key as the signing identity of the
/// repository at `repo_path`: three entries, `user.name`, `user.email` and
/// `user.signingkey`. The key must have an email address.
pub fn set_config(repo_path: &str, gpg_key_info: &GPGKey) -> (write: ConfigWrite)
    requires
        gpg_key_info.email is Some,
    ensures
        write.repo_path@ == repo_path@,
        write.entries.deep_view() == identity_entries(gpg_key_info@),
{
    let email = match &gpg_key_info.email {
        Some(address) => address.clone(),
        None => String::new(),
    };
    let mut entries: Vec<ConfigEntry> = Vec::new();
    entries.push(
        ConfigEntry { name: String::from_str("user.name"), value: gpg_key_info.username.clone() },
    );
    entries.push(ConfigEntry { name: String::from_str("user.email"), value: email });
    entries.push(
        ConfigEntry { name: String::from_str("user.signingkey"), value: gpg_key_info.id.clone() },
    );
    assert(entries.deep_view() =~= identity_entries(gpg_key_info@));
    ConfigWrite { repo_path: String::from_str(repo_path), entries }
}

/// Storing the entries of an identity leaves exactly its three values under
/// the three names and touches no other name, and storing them a second
/// time changes nothing.
pub proof fn lemma_identity_is_stored_once(config: Map<Seq<char>, Seq<char>>, key: KeyRecord)
    requires
        key.email is Some,
    ensures
        ({
            let after = stored(config, identity_entries(key));
            &&& after.dom() == config.dom().insert("user.name"@).insert("user.email"@).insert(
                "user.signingkey"@,
            )
            &&& after["user.name"@] == key.username
            &&& after["user.email"@] == key.email.unwrap()
            &&& after["user.signingkey"@] == key.id
            &&& forall|name: Seq<char>|
                config.dom().contains(name) && name != "user.name"@ && name != "user.email"@
                    && name != "user.signingkey"@ ==> after[name] == config[name]
            &&& stored(after, identity_entries(key)) == after
        }),
{
    reveal_strlit("user.name");
    reveal_strlit("user.email");
    reveal_strlit("user.signingkey");
    let entries = identity_entries(key);
    let written = config.insert(entries[0].name, entries[0].value).insert(
        entries[1].name,
        entries[1].value,
    ).insert(entries[2].name, entries[2].value);
    lemma_stored_three(config, entries);
    lemma_stored_three(written, entries);
    assert("user.name"@ != "user.email"@) by {
        assert("user.name"@.len() != "user.email"@.len());
    }
    assert("user.name"@ != "user.signingkey"@) by {
        assert("user.name"@.len() != "user.signingkey"@.len());
    }
    assert("user.email"@ != "user.signingkey"@) by {
        assert("user.email"@.len() != "user.signingkey"@.len());
    }
    assert(written.insert(entries[0].name, entries[0].value).insert(
        entries[1].name,
        entries[1].value,
    ).insert(entries[2].name, entries[2].value) =~= written);
}

/// Storing three entries is three insertions, in their order.
proof fn lemma_stored_three(config: Map<Seq<char>, Seq<char>>, entries: Seq<EntryRecord>)
    requires
        entries.len() == 3,
    ensures
        stored(config, entries) == config.insert(entries[0].name, entries[0].value).insert(
            entries[1].name,
            entries[1].value,
        ).insert(entries[2].name, entries[2].value),
{
    let two = entries.drop_last();
    let one = two.drop_last();
    assert(one.drop_last().len() == 0);
    assert(stored(config, one.drop_last()) == config);
    assert(stored(config, one) == config.insert(entries[0].name, entries[0].value));
    assert(stored(config, two) == stored(config, one).insert(entries[1].name, entries[1].value));
}

} // verus!
