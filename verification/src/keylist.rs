//! Key records, and how a key of the store becomes one.

use vstd::prelude::*;
use crate::dates::{date_text, end_of_year_9999, format_date};
use crate::error::{Error, KeyFault};

verus! {

/// One OpenPGP key, as the report and the selector show it.
#[derive(Debug, Clone, PartialEq, Eq)]
pub struct GPGKey {
    /// The identifier of the key.
    pub id: String,
    /// The full fingerprint. Neither the report nor the selector shows it.
    pub fingerprint: String,
    /// The name of the primary user id.
    pub username: String,
    /// The email address of the primary user id, if it has one.
    pub email: Option<String>,
    /// When the key was made, as a date text.
    pub creation_date: Option<String>,
    /// When the key expires, as a date text. `None`: it never does.
    pub expiry_date: Option<String>,
    /// Whether the key can sign.
    pub can_sign: bool,
    /// Whether the key can encrypt.
    pub can_encrypt: bool,
    /// The name of the key's algorithm.
    pub algorithm: String,
}

/// The mathematical value of a [`GPGKey`].
pub struct KeyRecord {
    pub id: Seq<char>,
    pub fingerprint: Seq<char>,
    pub username: Seq<char>,
    pub email: Option<Seq<char>>,
    pub creation_date: Option<Seq<char>>,
    pub expiry_date: Option<Seq<char>>,
    pub can_sign: bool,
    pub can_encrypt: bool,
    pub algorithm: Seq<char>,
}

impl DeepView for GPGKey {
    type V = KeyRecord;

    open spec fn deep_view(&self) -> KeyRecord {
        KeyRecord {
            id: self.id@,
            fingerprint: self.fingerprint@,
            username: self.username@,
            email: self.email.deep_view(),
            creation_date: self.creation_date.deep_view(),
            expiry_date: self.expiry_date.deep_view(),
            can_sign: self.can_sign,
            can_encrypt: self.can_encrypt,
            algorithm: self.algorithm@,
        }
    }
}

impl View for GPGKey {
    type V = KeyRecord;

    open spec fn view(&self) -> KeyRecord {
        self.deep_view()
    }
}

/// A record is valid when its identifier is not empty.
pub open spec fn valid_record(key: KeyRecord) -> bool {
    key.id.len() > 0
}

/// An enumeration is valid when each of its records is valid and no
/// identifier occurs twice in it.
pub open spec fn valid_key_set(keys: Seq<KeyRecord>) -> bool {
    &&& forall|i: int| 0 <= i < keys.len() ==> valid_record(#[trigger] keys[i])
    &&& forall|i: int, j: int|
        0 <= i < j < keys.len() ==> (#[trigger] keys[i]).id != (#[trigger] keys[j]).id
}

/// What the key store tells of one key, before anything is decided about
/// it. Times are seconds since 1970-01-01 00:00:00 UTC.
#[derive(Debug, Clone, PartialEq, Eq)]
pub struct RawKey {
    /// The key's identifier, if the store has one for it.
    pub id: Option<String>,
    /// The key's fingerprint.
    pub fingerprint: String,
    /// The name of the first user id; `None` where the key has no user id
    /// or the user id has no readable name.
    pub username: Option<String>,
    /// The email address of the first user id; `None` where the key has no
    /// user id or the user id has no readable address.
    pub email: Option<String>,
    /// The creation time of the primary subkey.
    pub created: Option<i64>,
    /// The expiration time of the primary subkey; `None` for a key that
    /// does not expire.
    pub expires: Option<i64>,
    /// Whether the primary subkey can sign.
    pub can_sign: bool,
    /// Whether the primary subkey can encrypt.
    pub can_encrypt: bool,
    /// The name of the primary subkey's algorithm.
    pub algorithm: String,
}

/// The mathematical value of a [`RawKey`].
pub struct RawRecord {
    pub id: Option<Seq<char>>,
    pub fingerprint: Seq<char>,
    pub username: Option<Seq<char>>,
    pub email: Option<Seq<char>>,
    pub created: Option<i64>,
    pub expires: Option<i64>,
    pub can_sign: bool,
    pub can_encrypt: bool,
    pub algorithm: Seq<char>,
}

impl DeepView for RawKey {
    type V = RawRecord;

    open spec fn deep_view(&self) -> RawRecord {
        RawRecord {
            id: self.id.deep_view(),
            fingerprint: self.fingerprint@,
            username: self.username.deep_view(),
            email: self.email.deep_view(),
            created: self.created,
            expires: self.expires,
            can_sign: self.can_sign,
            can_encrypt: self.can_encrypt,
            algorithm: self.algorithm@,
        }
    }
}

impl View for RawKey {
    type V = RawRecord;

    open spec fn view(&self) -> RawRecord {
        self.deep_view()
    }
}

/// The identifier given to a key for which the store has none.
pub open spec fn unknown_id() -> Seq<char> {
    "unknown"@
}

/// What is wrong with a key of the store, given the date texts of its two
/// times: first its identity is looked at, then its creation time, then its
/// expiration time. `None`: nothing is wrong.
pub open spec fn key_fault(
    raw: RawRecord,
    creation_date: Option<Seq<char>>,
    expiry_date: Option<Seq<char>>,
) -> Option<KeyFault> {
    if raw.username is None || raw.email is None {
        Some(KeyFault::MissingIdentity)
    } else if raw.created is None || creation_date is None {
        Some(KeyFault::UnresolvableTimestamp)
    } else if raw.expires is Some && expiry_date is None {
        Some(KeyFault::UnresolvableTimestamp)
    } else {
        None
    }
}

/// The record of a key of the store with which nothing is wrong, given the
/// date texts of its two times.
pub open spec fn key_record(
    raw: RawRecord,
    creation_date: Option<Seq<char>>,
    expiry_date: Option<Seq<char>>,
) -> KeyRecord {
    KeyRecord {
        id: match raw.id {
            Some(id) => id,
            None => unknown_id(),
        },
        fingerprint: raw.fingerprint,
        username: raw.username.unwrap(),
        email: raw.email,
        creation_date: creation_date,
        expiry_date: if raw.expires is Some {
            expiry_date
        } else {
            None
        },
        can_sign: raw.can_sign,
        can_encrypt: raw.can_encrypt,
        algorithm: raw.algorithm,
    }
}

/// The date text of a time of the store, where it has one.
pub open spec fn time_text(time: Option<i64>) -> Option<Seq<char>> {
    match time {
        Some(secs) => date_text(secs as int),
        None => None,
    }
}

/// The outcome of converting one key of the store: its record, or what is
/// wrong with it.
pub open spec fn converted(raw: RawRecord) -> Result<KeyRecord, KeyFault> {
    let creation_date = time_text(raw.created);
    let expiry_date = time_text(raw.expires);
    match key_fault(raw, creation_date, expiry_date) {
        Some(fault) => Err(fault),
        None => Ok(key_record(raw, creation_date, expiry_date)),
    }
}

/// Builds the record of a key of the store from what the store tells of it
/// and from the date texts of its creation and expiration times. A key
/// without a name, an email address, a creation time or a text for one of
/// its times is refused; a key without an identifier is called "unknown".
pub fn build_key(
    raw: &RawKey,
    creation_date: Option<String>,
    expiry_date: Option<String>,
) -> (result: Result<GPGKey, KeyFault>)
    ensures
        match result {
            Ok(key) => key_fault(raw@, creation_date.deep_view(), expiry_date.deep_view())
                is None && key@ == key_record(
                raw@,
                creation_date.deep_view(),
                expiry_date.deep_view(),
            ),
            Err(fault) => key_fault(raw@, creation_date.deep_view(), expiry_date.deep_view())
                == Some(fault),
        },
{
    let username = match &raw.username {
        Some(name) => name.clone(),
        None => { return Err(KeyFault::MissingIdentity); },
    };
    let email = match &raw.email {
        Some(address) => address.clone(),
        None => { return Err(KeyFault::MissingIdentity); },
    };
    if raw.created.is_none() || creation_date.is_none() {
        return Err(KeyFault::UnresolvableTimestamp);
    }
    if raw.expires.is_some() && expiry_date.is_none() {
        return Err(KeyFault::UnresolvableTimestamp);
    }
    let id = match &raw.id {
        Some(id) => id.clone(),
        None => String::from_str("unknown"),
    };
    Ok(
        GPGKey {
            id,
            fingerprint: raw.fingerprint.clone(),
            username,
            email: Some(email),
            creation_date,
            expiry_date: if raw.expires.is_some() {
                expiry_date
            } else {
                None
            },
            can_sign: raw.can_sign,
            can_encrypt: raw.can_encrypt,
            algorithm: raw.algorithm.clone(),
        },
    )
}

/// A key of the store is ordinary when it has a name, an email address and
/// a creation time, and its times lie between the epoch and the end of the
/// year 9999. Every ordinary key converts.
pub open spec fn ordinary(raw: RawRecord) -> bool {
    &&& raw.username is Some
    &&& raw.email is Some
    &&& raw.created matches Some(secs) && 0 <= secs <= end_of_year_9999()
    &&& raw.expires matches Some(secs) ==> 0 <= secs <= end_of_year_9999()
}

/// Converts one key of the store: formats its times and builds its record.
pub fn convert_key(raw: &RawKey) -> (result: Result<GPGKey, KeyFault>)
    ensures
        match result {
            Ok(key) => converted(raw@) == Ok::<KeyRecord, KeyFault>(key@),
            Err(fault) => converted(raw@) == Err::<KeyRecord, KeyFault>(fault),
        },
        ordinary(raw@) ==> result is Ok && converted(raw@) is Ok,
{
    let creation_date = match raw.created {
        Some(secs) => format_date(secs),
        None => None,
    };
    let expiry_date = match raw.expires {
        Some(secs) => format_date(secs),
        None => None,
    };
    build_key(raw, creation_date, expiry_date)
}

/// The identifier that the record of a key of the store gets.
pub open spec fn record_id(raw: RawRecord) -> Seq<char> {
    match raw.id {
        Some(id) => id,
        None => unknown_id(),
    }
}

/// The identifiers of a sequence of records, in their order.
pub open spec fn ids_of(keys: Seq<KeyRecord>) -> Seq<Seq<char>> {
    Seq::new(keys.len(), |i: int| keys[i].id)
}

/// What keeps a key of the store out of an enumeration that already holds
/// keys with the identifiers `ids`: what is wrong with the key itself, or an
/// identifier that is empty, or one that an earlier key has. `None`: the key
/// joins the enumeration.
pub open spec fn entry_fault(ids: Seq<Seq<char>>, raw: RawRecord) -> Option<KeyFault> {
    match converted(raw) {
        Err(fault) => Some(fault),
        Ok(key) => if key.id.len() == 0 {
            Some(KeyFault::EmptyIdentifier)
        } else if ids.contains(key.id) {
            Some(KeyFault::DuplicateIdentifier)
        } else {
            None
        },
    }
}

/// What keeps the key at place `i` of the store out of the enumeration,
/// given the keys before it.
pub open spec fn store_fault(raw_keys: Seq<RawRecord>, i: int) -> Option<KeyFault> {
    entry_fault(Seq::new(i as nat, |j: int| record_id(raw_keys[j])), raw_keys[i])
}

/// Whether one of the keys has this identifier.
pub fn has_id(key_list: &Vec<GPGKey>, id: &String) -> (found: bool)
    ensures
        found == ids_of(key_list.deep_view()).contains(id@),
{
    let mut n: usize = 0;
    while n < key_list.len()
        invariant
            n <= key_list.len(),
            forall|i: int| 0 <= i < n ==> (#[trigger] ids_of(key_list.deep_view())[i]) != id@,
        decreases key_list.len() - n,
    {
        if key_list[n].id == *id {
            assert(ids_of(key_list.deep_view())[n as int] == id@);
            return true;
        }
        n = n + 1;
    }
    false
}

/// Converts one key of the store and adds its record to an enumeration.
/// The key is refused, and the enumeration stays as it is, where something
/// is wrong with the key, where its identifier is empty, and where a key of
/// the enumeration already has its identifier.
pub fn add_key(key_list: &mut Vec<GPGKey>, raw: &RawKey) -> (result: Result<(), KeyFault>)
    ensures
        match result {
            Ok(()) => {
                &&& entry_fault(ids_of(old(key_list).deep_view()), raw@) is None
                &&& final(key_list).len() == old(key_list).len() + 1
                &&& final(key_list).deep_view() == old(key_list).deep_view().push(
                    converted(raw@)->Ok_0,
                )
            },
            Err(fault) => {
                &&& entry_fault(ids_of(old(key_list).deep_view()), raw@) == Some(fault)
                &&& *final(key_list) == *old(key_list)
            },
        },
        valid_key_set(old(key_list).deep_view()) ==> valid_key_set(final(key_list).deep_view()),
        ordinary(raw@) ==> converted(raw@) is Ok,
        ordinary(raw@) && record_id(raw@).len() > 0 && !ids_of(
            old(key_list).deep_view(),
        ).contains(record_id(raw@)) ==> result is Ok,
{
    let key = match convert_key(raw) {
        Ok(key) => key,
        Err(fault) => { return Err(fault); },
    };
    if key.id.as_str().is_empty() {
        return Err(KeyFault::EmptyIdentifier);
    }
    if has_id(key_list, &key.id) {
        return Err(KeyFault::DuplicateIdentifier);
    }
    let ghost before = key_list.deep_view();
    key_list.push(key);
    proof {
        let after = key_list.deep_view();
        assert(after =~= before.push(key@)) by {
            assert forall|i: int| 0 <= i < after.len() implies after[i] == before.push(key@)[i] by {
                if i < before.len() {
                    assert(after[i] == key_list[i].deep_view());
                    assert(before[i] == old(key_list)[i].deep_view());
                }
            }
        }
        if valid_key_set(before) {
            assert forall|i: int, j: int| 0 <= i < j < after.len() implies (#[trigger] after[i]).id
                != (#[trigger] after[j]).id by {
                if j == before.len() {
                    assert(ids_of(before)[i] == before[i].id);
                }
            }
        }
    }
    Ok(())
}

/// Every key of the store is ordinary, no identifier is empty, and no two
/// keys get the same identifier. Such a store always has an enumeration.
pub open spec fn sound_store(raw_keys: Seq<RawRecord>) -> bool {
    &&& forall|i: int| 0 <= i < raw_keys.len() ==> ordinary(#[trigger] raw_keys[i])
    &&& forall|i: int| 0 <= i < raw_keys.len() ==> record_id(#[trigger] raw_keys[i]).len() > 0
    &&& forall|i: int, j: int|
        0 <= i < j < raw_keys.len() ==> record_id(#[trigger] raw_keys[i]) != record_id(
            #[trigger] raw_keys[j],
        )
}

/// Converts every key of the store, in the order of the store. There are no
/// partial results: the first key that is refused fails the whole
/// enumeration, with its fault. A key is refused where something is wrong
/// with it, where its identifier is empty, and where an earlier key has its
/// identifier; so the identifiers of an enumeration are not empty and no
/// two of them are the same.
pub fn get_keys(raw_keys: &Vec<RawKey>) -> (result: Result<Vec<GPGKey>, Error>)
    ensures
        match result {
            Ok(keys) => {
                &&& keys.len() == raw_keys.len()
                &&& forall|i: int|
                    0 <= i < raw_keys.len() ==> store_fault(raw_keys.deep_view(), i) is None
                        && converted(#[trigger] raw_keys[i]@) == Ok::<KeyRecord, KeyFault>(
                        keys[i]@,
                    )
                &&& valid_key_set(keys.deep_view())
            },
            Err(error) => exists|i: int|
                {
                    &&& 0 <= i < raw_keys.len()
                    &&& forall|j: int|
                        0 <= j < i ==> (#[trigger] store_fault(raw_keys.deep_view(), j)) is None
                    &&& (#[trigger] store_fault(raw_keys.deep_view(), i)) is Some
                    &&& error == Error::KeySourceFailure(store_fault(raw_keys.deep_view(), i)->0)
                    &&& ordinary(raw_keys[i]@) ==> converted(raw_keys[i]@) is Ok
                },
        },
        sound_store(raw_keys.deep_view()) ==> result is Ok,
{
    let mut key_list: Vec<GPGKey> = Vec::new();
    let mut n: usize = 0;
    while n < raw_keys.len()
        invariant
            n <= raw_keys.len(),
            key_list.len() == n,
            valid_key_set(key_list.deep_view()),
            forall|i: int|
                0 <= i < n ==> (#[trigger] store_fault(raw_keys.deep_view(), i)) is None,
            forall|i: int|
                0 <= i < n ==> converted(#[trigger] raw_keys[i]@) == Ok::<KeyRecord, KeyFault>(
                    key_list[i]@,
                ),
        decreases raw_keys.len() - n,
    {
        let ghost before = key_list.deep_view();
        proof {
            let earlier = Seq::new(n as nat, |j: int| record_id(raw_keys.deep_view()[j]));
            assert(ids_of(before) =~= earlier) by {
                assert forall|j: int| 0 <= j < n implies ids_of(before)[j] == earlier[j] by {
                    assert(converted(raw_keys[j]@) == Ok::<KeyRecord, KeyFault>(key_list[j]@));
                }
            }
        }
        match add_key(&mut key_list, &raw_keys[n]) {
            Ok(()) => {
                assert forall|i: int| 0 <= i <= n implies converted(#[trigger] raw_keys[i]@)
                    == Ok::<KeyRecord, KeyFault>(key_list[i]@) by {
                    if i < n {
                        assert(key_list.deep_view()[i] == before[i]);
                    } else {
                        assert(key_list.deep_view()[i] == converted(raw_keys[n as int]@)->Ok_0);
                    }
                }
            },
            Err(fault) => {
                assert(store_fault(raw_keys.deep_view(), n as int) == Some(fault));
                assert(!sound_store(raw_keys.deep_view())) by {
                    if sound_store(raw_keys.deep_view()) {
                        assert(ordinary(raw_keys.deep_view()[n as int]));
                        let id = record_id(raw_keys.deep_view()[n as int]);
                        assert(ids_of(before).contains(id));
                        let j = choose|j: int| 0 <= j < n && ids_of(before)[j] == id;
                        assert(record_id(raw_keys.deep_view()[j]) == id);
                    }
                }
                return Err(Error::KeySourceFailure(fault));
            },
        }
        n = n + 1;
    }
    Ok(key_list)
}

} // verus!
