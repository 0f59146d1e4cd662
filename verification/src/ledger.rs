//! The license activation ledger.
//!
//! A key is accepted once.  The ledger is a text of one record per line,
//! `KEY|VALIDITY_DAYS|UNIX_TIMESTAMP`; an accepted key is appended to it, and
//! a key that already heads one of its lines is turned down as a replay.
//! Reading and writing the file is the caller's business: [`activate`] takes
//! the ledger's text and returns the text to store.
use crate::resolver::{join, joined, optional_text, separator_of, usable};
use crate::spawn::Platform;
use crate::text::{as_text, chars_of, decimal, occurs, occurs_at, push_decimal, texts};
use vstd::prelude::*;
use vstd::string::StringExecFns;

verus! {

/// A key of the compiled-in list, with the number of days it is good for
/// (0: without limit).
pub struct Grant {
    pub key: String,
    pub validity_days: u32,
}

/// A [`Grant`] as a mathematical value.
pub struct GrantView {
    pub key: Seq<char>,
    pub validity_days: nat,
}

impl View for Grant {
    type V = GrantView;

    open spec fn view(&self) -> GrantView {
        GrantView { key: self.key@, validity_days: self.validity_days as nat }
    }
}

/// The grants of a table, in order.
pub open spec fn grants_of(table: Seq<Grant>) -> Seq<GrantView> {
    table.map_values(|g: Grant| g@)
}

/// One line of the ledger.
pub struct UsedLicenseRecord {
    /// The key in canonical upper case.
    pub key: String,
    /// The days the key is good for (0: without limit).
    pub validity_days: u32,
    /// When the key was activated, in seconds since the Unix epoch.
    pub activated_at_epoch_seconds: u64,
}

/// The answer to an activation request.
pub struct Activation {
    pub accepted: bool,
    /// What to tell the user.
    pub message: String,
    /// The days the key is good for (0: without limit, or not accepted).
    pub validity_days: u32,
    /// The text to store as the new ledger, where the key was accepted.
    /// `None` means that the ledger stays as it is.
    pub ledger: Option<String>,
}

/// An [`Activation`] as a mathematical value.
pub struct ActivationView {
    pub accepted: bool,
    pub message: Seq<char>,
    pub validity_days: nat,
    pub ledger: Option<Seq<char>>,
}

impl View for Activation {
    type V = ActivationView;

    open spec fn view(&self) -> ActivationView {
        ActivationView {
            accepted: self.accepted,
            message: self.message@,
            validity_days: self.validity_days as nat,
            ledger: match self.ledger {
                Some(text) => Some(text@),
                None => None,
            },
        }
    }
}

/// The upper-case form of an ASCII letter; any other character is itself.
pub open spec fn upper(c: char) -> char {
    if 'a' <= c && c <= 'z' {
        ((c as u8) - 32) as u8 as char
    } else {
        c
    }
}

/// The canonical form of a submitted key: its ASCII letters in upper case.
pub open spec fn canonical_key(submitted: Seq<char>) -> Seq<char> {
    submitted.map_values(|c: char| upper(c))
}

/// The compiled-in list of valid keys.
pub open spec fn known_grants() -> Seq<GrantView> {
    seq![GrantView { key: "AZMI-2025-PREM-LIFE"@, validity_days: 0 }]
}

/// The index of the first grant of `table` with the given key, if there is one.
pub open spec fn grant_index(table: Seq<GrantView>, key: Seq<char>) -> Option<int>
    decreases table.len(),
{
    if table.len() == 0 {
        None
    } else if table[0].key == key {
        Some(0)
    } else {
        match grant_index(table.drop_first(), key) {
            Some(i) => Some(i + 1),
            None => None,
        }
    }
}

/// Whether a line begins at position `at` of `content`.
pub open spec fn line_starts_at(content: Seq<char>, at: int) -> bool {
    at == 0 || (0 < at <= content.len() && content[at - 1] == '\n')
}

/// Whether a record of `key` begins at position `at` of `content`: a line
/// begins there, with the key and a `|` after it.
pub open spec fn record_at(content: Seq<char>, key: Seq<char>, at: int) -> bool {
    &&& line_starts_at(content, at)
    &&& occurs_at(content, key.push('|'), at)
}

/// Whether the ledger holds a record of `key`.
pub open spec fn ledger_holds(content: Seq<char>, key: Seq<char>) -> bool {
    exists|at: int| 0 <= at <= content.len() && #[trigger] record_at(content, key, at)
}

/// The line that records an activation, with its line feed.
pub open spec fn record_line(key: Seq<char>, validity_days: nat, activated_at: nat) -> Seq<char> {
    key + seq!['|'] + as_text(decimal(validity_days)) + seq!['|'] + as_text(decimal(activated_at))
        + seq!['\n']
}

/// The ledger with one more line: the old text, a line feed where its last
/// line lacks one, and the new line.
pub open spec fn ledger_with(content: Seq<char>, line: Seq<char>) -> Seq<char> {
    if content.len() == 0 || content.last() == '\n' {
        content + line
    } else {
        content + seq!['\n'] + line
    }
}

/// What the user is told when a key is accepted.
pub open spec fn accepted_message(validity_days: nat) -> Seq<char> {
    if validity_days == 0 {
        "License activated: unlimited validity"@
    } else {
        "License activated: valid for "@ + as_text(decimal(validity_days)) + " days"@
    }
}

/// What the user is told when the key is not in the list.
pub open spec fn unknown_key_message() -> Seq<char> {
    "Invalid license key"@
}

/// What the user is told when the key has been used before.
pub open spec fn replay_message() -> Seq<char> {
    "This license key has already been used"@
}

/// The answer that `submitted` gets at time `now` (seconds since the Unix
/// epoch), given the list of valid keys and the ledger's text.
///
/// A key that is not in the list is turned down; so is one that the ledger
/// holds already; neither changes the ledger.  Any other key is accepted for
/// the days its grant gives, and the ledger gets its record.
pub open spec fn activation_of(
    table: Seq<GrantView>,
    submitted: Seq<char>,
    content: Seq<char>,
    now: nat,
) -> ActivationView {
    let key = canonical_key(submitted);
    match grant_index(table, key) {
        None => ActivationView {
            accepted: false,
            message: unknown_key_message(),
            validity_days: 0,
            ledger: None,
        },
        Some(i) => {
            if ledger_holds(content, key) {
                ActivationView {
                    accepted: false,
                    message: replay_message(),
                    validity_days: 0,
                    ledger: None,
                }
            } else {
                ActivationView {
                    accepted: true,
                    message: accepted_message(table[i].validity_days),
                    validity_days: table[i].validity_days,
                    ledger: Some(
                        ledger_with(content, record_line(key, table[i].validity_days, now)),
                    ),
                }
            }
        },
    }
}

/// The compiled-in list of valid keys.
pub fn builtin_grants() -> (table: Vec<Grant>)
    ensures
        grants_of(table@) == known_grants(),
{
    let mut table: Vec<Grant> = Vec::new();
    table.push(Grant { key: String::from_str("AZMI-2025-PREM-LIFE"), validity_days: 0 });
    table
}

/// The canonical form of a submitted key.
pub fn canonicalize(submitted: &str) -> (key: Vec<char>)
    ensures
        key@ == canonical_key(submitted@),
{
    let chars = chars_of(submitted);
    let mut key: Vec<char> = Vec::new();
    let mut i: usize = 0;
    while i < chars.len()
        invariant
            i <= chars.len(),
            key@ == canonical_key(chars@.subrange(0, i as int)),
        decreases chars.len() - i,
    {
        let c = chars[i];
        let u = if c >= 'a' && c <= 'z' {
            ((c as u8) - 32) as char
        } else {
            c
        };
        key.push(u);
        i += 1;
    }
    key
}

fn same_text(left: &Vec<char>, right: &Vec<char>) -> (same: bool)
    ensures
        same == (left@ == right@),
{
    if left.len() != right.len() {
        return false;
    }
    let found = occurs(left, right, 0);
    assert(left@.subrange(0, left@.len() as int) =~= left@);
    found
}

/// Looks `key` up in the table: the index of its first grant.
pub fn find_grant(table: &Vec<Grant>, key: &Vec<char>) -> (found: Option<usize>)
    ensures
        match found {
            Some(i) => grant_index(grants_of(table@), key@) == Some(i as int),
            None => grant_index(grants_of(table@), key@) is None,
        },
        match found {
            Some(i) => i < table.len() && table@[i as int].key@ == key@ && forall|j: int|
                0 <= j < i ==> table@[j].key@ != key@,
            None => forall|j: int| 0 <= j < table.len() ==> table@[j].key@ != key@,
        },
{
    let mut i: usize = 0;
    while i < table.len()
        invariant
            i <= table.len(),
            forall|j: int| 0 <= j < i ==> table@[j].key@ != key@,
        decreases table.len() - i,
    {
        let candidate = chars_of(table[i].key.as_str());
        if same_text(&candidate, key) {
            proof {
                let views = grants_of(table@);
                grant_index_finds_key(views, key@);
                assert(views[i as int].key == key@);
                let first = grant_index(views, key@)->0;
                assert(views[first].key == table@[first].key@);
            }
            return Some(i);
        }
        i += 1;
    }
    proof {
        grant_index_finds_key(grants_of(table@), key@);
    }
    None
}

/// Whether the ledger holds a record of `key`.
pub fn holds_record(content: &Vec<char>, key: &Vec<char>) -> (held: bool)
    ensures
        held == ledger_holds(content@, key@),
{
    let mut pattern: Vec<char> = Vec::new();
    let mut k: usize = 0;
    while k < key.len()
        invariant
            k <= key.len(),
            pattern@ == key@.subrange(0, k as int),
        decreases key.len() - k,
    {
        pattern.push(key[k]);
        k += 1;
    }
    pattern.push('|');
    let mut at: usize = 0;
    while at < content.len()
        invariant
            at <= content.len(),
            pattern@ == key@.push('|'),
            forall|j: int| 0 <= j < at ==> !record_at(content@, key@, j),
        decreases content.len() - at,
    {
        if at == 0 || content[at - 1] == '\n' {
            if occurs(content, &pattern, at) {
                assert(record_at(content@, key@, at as int));
                return true;
            }
        }
        at += 1;
    }
    false
}

/// The line that records an activation.
pub fn render_record(record: &UsedLicenseRecord) -> (line: String)
    ensures
        line@ == record_line(
            record.key@,
            record.validity_days as nat,
            record.activated_at_epoch_seconds as nat,
        ),
{
    proof {
        reveal_strlit("|");
        reveal_strlit("\n");
    }
    let mut line = record.key.clone();
    line.append("|");
    push_decimal(&mut line, record.validity_days as u64);
    line.append("|");
    push_decimal(&mut line, record.activated_at_epoch_seconds);
    line.append("\n");
    line
}

/// The ledger's text with `line` appended; `chars` are the characters of
/// `content`.
fn append_line(content: &str, chars: &Vec<char>, line: &str) -> (text: String)
    requires
        chars@ == content@,
    ensures
        text@ == ledger_with(content@, line@),
{
    proof {
        reveal_strlit("\n");
    }
    let mut text = content.to_owned();
    if chars.len() != 0 && chars[chars.len() - 1] != '\n' {
        text.append("\n");
    }
    text.append(line);
    text
}

fn message_for(validity_days: u32) -> (message: String)
    ensures
        message@ == accepted_message(validity_days as nat),
{
    if validity_days == 0 {
        String::from_str("License activated: unlimited validity")
    } else {
        let mut message = String::from_str("License activated: valid for ");
        push_decimal(&mut message, validity_days as u64);
        message.append(" days");
        message
    }
}

/// Decides on a submitted key against a given list of valid keys.
///
/// `ledger` is the ledger's present text, `now` the time in seconds since
/// the Unix epoch.
pub fn activate_with(table: &Vec<Grant>, submitted: &str, ledger: &str, now: u64) -> (answer:
    Activation)
    ensures
        answer@ == activation_of(grants_of(table@), submitted@, ledger@, now as nat),
{
    let key = canonicalize(submitted);
    match find_grant(table, &key) {
        None => Activation {
            accepted: false,
            message: String::from_str("Invalid license key"),
            validity_days: 0,
            ledger: None,
        },
        Some(i) => {
            let content = chars_of(ledger);
            if holds_record(&content, &key) {
                Activation {
                    accepted: false,
                    message: String::from_str("This license key has already been used"),
                    validity_days: 0,
                    ledger: None,
                }
            } else {
                let grant = &table[i];
                let record = UsedLicenseRecord {
                    key: grant.key.clone(),
                    validity_days: grant.validity_days,
                    activated_at_epoch_seconds: now,
                };
                proof {
                    grant_index_finds_key(grants_of(table@), key@);
                }
                let line = render_record(&record);
                let text = append_line(ledger, &content, line.as_str());
                Activation {
                    accepted: true,
                    message: message_for(grant.validity_days),
                    validity_days: grant.validity_days,
                    ledger: Some(text),
                }
            }
        },
    }
}

/// Decides on a submitted key against the compiled-in list.
pub fn activate(submitted: &str, ledger: &str, now: u64) -> (answer: Activation)
    ensures
        answer@ == activation_of(known_grants(), submitted@, ledger@, now as nat),
{
    let table = builtin_grants();
    activate_with(&table, submitted, ledger, now)
}

/// The grant that [`grant_index`] finds has the key that was looked for, and
/// no grant before it has.
pub proof fn grant_index_finds_key(table: Seq<GrantView>, key: Seq<char>)
    ensures
        match grant_index(table, key) {
            Some(i) => 0 <= i < table.len() && table[i].key == key && forall|j: int|
                0 <= j < i ==> table[j].key != key,
            None => forall|j: int| 0 <= j < table.len() ==> table[j].key != key,
        },
    decreases table.len(),
{
    if table.len() > 0 && table[0].key != key {
        grant_index_finds_key(table.drop_first(), key);
        match grant_index(table.drop_first(), key) {
            Some(i) => {
                assert forall|j: int| 0 <= j < i + 1 implies table[j].key != key by {
                    if j > 0 {
                        assert(table.drop_first()[j - 1] == table[j]);
                    }
                }
            },
            None => {
                assert forall|j: int| 0 <= j < table.len() implies table[j].key != key by {
                    if j > 0 {
                        assert(table.drop_first()[j - 1] == table[j]);
                    }
                }
            },
        }
    }
}

/// Once a line recording `key` is appended, the ledger holds `key`.
pub proof fn appended_record_is_held(
    content: Seq<char>,
    key: Seq<char>,
    validity_days: nat,
    activated_at: nat,
)
    ensures
        ledger_holds(ledger_with(content, record_line(key, validity_days, activated_at)), key),
{
    let line = record_line(key, validity_days, activated_at);
    let text = ledger_with(content, line);
    let at: int = text.len() - line.len();
    assert(line.subrange(0, key.len() as int + 1) =~= key.push('|'));
    assert(text.subrange(at, at + key.len() + 1) =~= line.subrange(0, key.len() as int + 1));
    assert(record_at(text, key, at));
}

/// The ledger only grows: what it held before an activation, it holds after.
pub proof fn ledger_keeps_its_text(content: Seq<char>, line: Seq<char>)
    ensures
        ledger_with(content, line).len() >= content.len(),
        ledger_with(content, line).subrange(0, content.len() as int) == content,
{
}

/// Appending a line never frees a key: a key that the ledger held before,
/// it holds after.
pub proof fn held_keys_stay_held(content: Seq<char>, line: Seq<char>, key: Seq<char>)
    requires
        ledger_holds(content, key),
    ensures
        ledger_holds(ledger_with(content, line), key),
{
    let at = choose|at: int| 0 <= at <= content.len() && #[trigger] record_at(content, key, at);
    let text = ledger_with(content, line);
    let pattern = key.push('|');
    assert(text.subrange(at, at + pattern.len()) =~= content.subrange(at, at + pattern.len()));
    assert(record_at(text, key, at));
}

/// A key is accepted once: after an accepted activation has been stored, the
/// same key, in whatever case it is submitted, is turned down as a replay
/// and the ledger is left alone.
pub proof fn accepted_key_is_rejected_afterwards(
    table: Seq<GrantView>,
    submitted: Seq<char>,
    again: Seq<char>,
    content: Seq<char>,
    now: nat,
    later: nat,
)
    requires
        activation_of(table, submitted, content, now).accepted,
        canonical_key(again) == canonical_key(submitted),
    ensures
        ({
            let stored = activation_of(table, submitted, content, now).ledger->0;
            let second = activation_of(table, again, stored, later);
            &&& activation_of(table, submitted, content, now).ledger is Some
            &&& !second.accepted
            &&& second.message == replay_message()
            &&& second.ledger is None
        }),
{
    let key = canonical_key(submitted);
    let i = grant_index(table, key)->0;
    appended_record_is_held(content, key, table[i].validity_days, now);
}

/// A key that is not in the list is always turned down, and never changes
/// the ledger.
pub proof fn unknown_key_is_rejected(
    table: Seq<GrantView>,
    submitted: Seq<char>,
    content: Seq<char>,
    now: nat,
)
    requires
        forall|j: int| 0 <= j < table.len() ==> table[j].key != canonical_key(submitted),
    ensures
        !activation_of(table, submitted, content, now).accepted,
        activation_of(table, submitted, content, now).message == unknown_key_message(),
        activation_of(table, submitted, content, now).ledger is None,
{
    grant_index_finds_key(table, canonical_key(submitted));
}

/// The name of the ledger file.
pub open spec fn ledger_file_name() -> Seq<char> {
    "used_licenses.txt"@
}

/// Where the ledger file lies: in the application's directory under the
/// per-user configuration root where the environment names one; else in the
/// application's dot-directory under the user's home; and where neither is
/// known, nowhere.
pub open spec fn ledger_location_of(
    platform: Platform,
    app_name: Seq<char>,
    config_root: Option<Seq<char>>,
    home: Option<Seq<char>>,
) -> Option<Seq<char>> {
    let separator = separator_of(platform);
    if usable(config_root) {
        Some(joined(config_root->0, seq![app_name, ledger_file_name()], separator))
    } else if usable(home) {
        Some(joined(home->0, seq![seq!['.'] + app_name, ledger_file_name()], separator))
    } else {
        None
    }
}

/// Composes the path of the ledger file.
pub fn ledger_location(
    platform: Platform,
    app_name: &str,
    config_root: &Option<String>,
    home: &Option<String>,
) -> (location: Option<String>)
    ensures
        optional_text(location) == ledger_location_of(
            platform,
            app_name@,
            optional_text(*config_root),
            optional_text(*home),
        ),
{
    let mut segments: Vec<String> = Vec::new();
    match config_root {
        Some(root) => {
            if !root.as_str().is_empty() {
                segments.push(app_name.to_owned());
                segments.push(String::from_str("used_licenses.txt"));
                assert(texts(segments@) =~= seq![app_name@, ledger_file_name()]);
                return Some(join(platform, root.as_str(), &segments));
            }
        },
        None => {},
    }
    match home {
        Some(root) => {
            if !root.as_str().is_empty() {
                proof {
                    reveal_strlit(".");
                }
                let mut hidden = String::from_str(".");
                hidden.append(app_name);
                assert(hidden@ =~= seq!['.'] + app_name@);
                segments.push(hidden);
                segments.push(String::from_str("used_licenses.txt"));
                assert(texts(segments@) =~= seq![seq!['.'] + app_name@, ledger_file_name()]);
                return Some(join(platform, root.as_str(), &segments));
            }
        },
        None => {},
    }
    None
}

} // verus!
