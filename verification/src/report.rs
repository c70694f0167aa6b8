//! The report: one table row for each key.

use vstd::prelude::*;
use crate::keylist::{GPGKey, KeyRecord};
use crate::table::{all_plain, plain_cells, plain_rows, plain_text, render_table, table_text};

verus! {

/// What stands for the email address of a key that has none.
pub open spec fn email_placeholder() -> Seq<char> {
    "No email"@
}

/// The email address of a key as it is shown: the address, or the
/// placeholder.
pub open spec fn shown_email(email: Option<Seq<char>>) -> Seq<char> {
    match email {
        Some(address) => address,
        None => email_placeholder(),
    }
}

/// The titles of the report's columns.
pub open spec fn report_titles() -> Seq<Seq<char>> {
    seq!["ID"@, "User"@, "Created On"@, "Expiring On"@, "Signature"@, "Algorithm"@]
}

/// The user cell of a key: the name, and on a second line the email address
/// in round brackets.
pub open spec fn user_cell(key: KeyRecord) -> Seq<char> {
    key.username + "\n("@ + shown_email(key.email) + ")"@
}

/// The expiry cell of a key: its expiry date, or "never".
pub open spec fn expiry_cell(key: KeyRecord) -> Seq<char> {
    match key.expiry_date {
        Some(date) => date,
        None => "never"@,
    }
}

/// The signature cell of a key: "yes" if it can sign, else "no".
pub open spec fn signature_cell(key: KeyRecord) -> Seq<char> {
    if key.can_sign {
        "yes"@
    } else {
        "no"@
    }
}

/// The row of a key, for a key that has a creation date: identifier, user,
/// creation date, expiry, signature, algorithm.
pub open spec fn report_row(key: KeyRecord) -> Seq<Seq<char>>
    recommends
        key.creation_date is Some,
{
    seq![
        key.id,
        user_cell(key),
        key.creation_date.unwrap(),
        expiry_cell(key),
        signature_cell(key),
        key.algorithm,
    ]
}

/// The rows of the report: the row of each key, in the order of the keys.
pub open spec fn report_rows(keys: Seq<KeyRecord>) -> Seq<Seq<Seq<char>>> {
    Seq::new(keys.len(), |i: int| report_row(keys[i]))
}

/// The report of a sequence of keys, as text.
pub open spec fn report_text(keys: Seq<KeyRecord>) -> Seq<char> {
    table_text(report_titles(), report_rows(keys))
}

/// A key can be shown in the report when it has a creation date and every
/// cell of its row is plain.
pub open spec fn reportable(key: KeyRecord) -> bool {
    key.creation_date is Some && plain_cells(report_row(key))
}

/// Every key of the sequence can be shown in the report.
pub open spec fn all_reportable(keys: Seq<KeyRecord>) -> bool {
    forall|i: int| 0 <= i < keys.len() ==> reportable(#[trigger] keys[i])
}

/// The email address of a key as it is shown.
pub fn email_or_placeholder(email: &Option<String>) -> (text: String)
    ensures
        text@ == shown_email(email.deep_view()),
{
    match email {
        Some(address) => address.clone(),
        None => String::from_str("No email"),
    }
}

/// The titles of the report's columns.
pub fn title_cells() -> (titles: Vec<String>)
    ensures
        titles.deep_view() == report_titles(),
        plain_cells(titles.deep_view()),
{
    let mut titles: Vec<String> = Vec::new();
    titles.push(String::from_str("ID"));
    titles.push(String::from_str("User"));
    titles.push(String::from_str("Created On"));
    titles.push(String::from_str("Expiring On"));
    titles.push(String::from_str("Signature"));
    titles.push(String::from_str("Algorithm"));
    proof {
        reveal_strlit("ID");
        reveal_strlit("User");
        reveal_strlit("Created On");
        reveal_strlit("Expiring On");
        reveal_strlit("Signature");
        reveal_strlit("Algorithm");
        assert(titles.deep_view() =~= report_titles());
    }
    titles
}

/// The cells of the row of one key.
pub fn row_cells(key: &GPGKey) -> (cells: Vec<String>)
    requires
        key.creation_date is Some,
    ensures
        cells.deep_view() == report_row(key@),
{
    let mut user = key.username.clone();
    user.append("\n(");
    let email = email_or_placeholder(&key.email);
    user.append(email.as_str());
    user.append(")");
    let created = match &key.creation_date {
        Some(date) => date.clone(),
        None => String::new(),
    };
    let expiry = match &key.expiry_date {
        Some(date) => date.clone(),
        None => String::from_str("never"),
    };
    let signature = if key.can_sign {
        String::from_str("yes")
    } else {
        String::from_str("no")
    };
    let mut cells: Vec<String> = Vec::new();
    cells.push(key.id.clone());
    cells.push(user);
    cells.push(created);
    cells.push(expiry);
    cells.push(signature);
    cells.push(key.algorithm.clone());
    assert(cells.deep_view() =~= report_row(key@));
    cells
}

/// Draws the report of keys that can all be shown in it.
pub fn render_report(gpg_key_list: &Vec<GPGKey>) -> (text: String)
    requires
        all_reportable(gpg_key_list.deep_view()),
    ensures
        text@ == report_text(gpg_key_list.deep_view()),
{
    let titles = title_cells();
    let mut rows: Vec<Vec<String>> = Vec::new();
    let mut n: usize = 0;
    while n < gpg_key_list.len()
        invariant
            n <= gpg_key_list.len(),
            all_reportable(gpg_key_list.deep_view()),
            rows.len() == n,
            forall|i: int|
                0 <= i < n ==> (#[trigger] rows.deep_view()[i]) == report_row(
                    gpg_key_list.deep_view()[i],
                ),
        decreases gpg_key_list.len() - n,
    {
        assert(reportable(gpg_key_list.deep_view()[n as int]));
        let cells = row_cells(&gpg_key_list[n]);
        let ghost before = rows.deep_view();
        rows.push(cells);
        assert forall|i: int| 0 <= i <= n implies (#[trigger] rows.deep_view()[i]) == report_row(
            gpg_key_list.deep_view()[i],
        ) by {
            if i < n {
                assert(rows.deep_view()[i] == before[i]);
            }
        }
        n = n + 1;
    }
    assert(rows.deep_view() =~= report_rows(gpg_key_list.deep_view()));
    assert(plain_rows(rows.deep_view())) by {
        assert forall|i: int| 0 <= i < rows.deep_view().len() implies plain_cells(
            #[trigger] rows.deep_view()[i],
        ) by {
            assert(reportable(gpg_key_list.deep_view()[i]));
        }
    }
    render_table(&titles, &rows)
}

/// Whether a key can be shown in the report.
pub fn is_reportable(key: &GPGKey) -> (shown: bool)
    ensures
        shown == reportable(key@),
{
    if key.creation_date.is_none() {
        return false;
    }
    let cells = row_cells(key);
    all_plain(&cells)
}

/// Draws the report of a sequence of keys: a table with one row for each
/// key, under the titles ID, User, Created On, Expiring On, Signature and
/// Algorithm. There is no report, and `None` comes back, where one of the
/// keys cannot be shown in it.
pub fn display_gpg_key_info(gpg_key_list: &Vec<GPGKey>) -> (report: Option<String>)
    ensures
        match report {
            Some(text) => all_reportable(gpg_key_list.deep_view()) && text@ == report_text(
                gpg_key_list.deep_view(),
            ),
            None => !all_reportable(gpg_key_list.deep_view()),
        },
{
    let mut n: usize = 0;
    while n < gpg_key_list.len()
        invariant
            n <= gpg_key_list.len(),
            forall|i: int| 0 <= i < n ==> reportable(#[trigger] gpg_key_list.deep_view()[i]),
        decreases gpg_key_list.len() - n,
    {
        if !is_reportable(&gpg_key_list[n]) {
            assert(!reportable(gpg_key_list.deep_view()[n as int]));
            return None;
        }
        n = n + 1;
    }
    Some(render_report(gpg_key_list))
}

/// The report is a function of the rows: two sequences of keys whose rows
/// are the same give the same text, so drawing one sequence twice gives the
/// same text twice, and the fingerprint and the encryption flag, which no
/// cell shows, do not change it.
pub proof fn lemma_report_repeats(first: Seq<KeyRecord>, second: Seq<KeyRecord>)
    requires
        first.len() == second.len(),
        forall|i: int| 0 <= i < first.len() ==> report_row(first[i]) == report_row(second[i]),
    ensures
        report_text(first) == report_text(second),
{
    assert(report_rows(first) =~= report_rows(second));
}

/// A key that never expires has "never" in the expiry column, and a key
/// without an email address has the placeholder, in round brackets, on the
/// second line of the user column.
pub proof fn lemma_never_and_placeholder(key: KeyRecord)
    ensures
        key.expiry_date is None ==> report_row(key)[3] == "never"@,
        key.email is None ==> report_row(key)[1] == key.username + "\n("@ + "No email"@ + ")"@,
{
}

} // verus!
