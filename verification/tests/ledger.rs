use runtime_supervisor::ledger::{
    activate, activate_with, builtin_grants, canonicalize, find_grant, holds_record,
    ledger_location, render_record, Grant, UsedLicenseRecord,
};
use runtime_supervisor::spawn::Platform;

fn chars(text: &str) -> Vec<char> {
    text.chars().collect()
}

#[test]
fn lifetime_key_is_accepted_once() {
    let first = activate("AZMI-2025-PREM-LIFE", "", 1_700_000_000);
    assert!(first.accepted);
    assert_eq!(first.validity_days, 0);
    assert_eq!(first.message, "License activated: unlimited validity");
    let stored = first.ledger.expect("an accepted key is recorded");
    assert_eq!(stored, "AZMI-2025-PREM-LIFE|0|1700000000\n");

    let second = activate("AZMI-2025-PREM-LIFE", &stored, 1_700_000_100);
    assert!(!second.accepted);
    assert_eq!(second.validity_days, 0);
    assert_eq!(second.message, "This license key has already been used");
    assert!(second.ledger.is_none());
}

#[test]
fn unknown_key_is_rejected_without_writing() {
    let answer = activate("BAD-KEY-0000", "", 1_700_000_000);
    assert!(!answer.accepted);
    assert_eq!(answer.message, "Invalid license key");
    assert_eq!(answer.validity_days, 0);
    assert!(answer.ledger.is_none());

    let ledger = "AZMI-2025-PREM-LIFE|0|1700000000\n";
    let again = activate("BAD-KEY-0000", ledger, 1_700_000_001);
    assert!(!again.accepted);
    assert!(again.ledger.is_none());
}

#[test]
fn key_is_folded_to_upper_case() {
    let answer = activate("azmi-2025-prem-life", "", 5);
    assert!(answer.accepted);
    assert_eq!(answer.ledger.as_deref(), Some("AZMI-2025-PREM-LIFE|0|5\n"));
    let replay = activate("Azmi-2025-Prem-Life", "AZMI-2025-PREM-LIFE|0|5\n", 6);
    assert!(!replay.accepted);
    assert_eq!(replay.message, "This license key has already been used");
}

#[test]
fn canonical_form_touches_ascii_letters_only() {
    assert_eq!(canonicalize("abc-xyz-09"), chars("ABC-XYZ-09"));
    assert_eq!(canonicalize("ÄöPq|{`"), chars("ÄöPQ|{`"));
    assert_eq!(canonicalize(""), chars(""));
}

#[test]
fn record_is_appended_after_existing_lines() {
    let ledger = "OTHER-KEY|30|100\n";
    let answer = activate("AZMI-2025-PREM-LIFE", ledger, 200);
    assert!(answer.accepted);
    assert_eq!(answer.ledger.as_deref(), Some("OTHER-KEY|30|100\nAZMI-2025-PREM-LIFE|0|200\n"));
}

#[test]
fn missing_final_line_feed_is_supplied() {
    let ledger = "OTHER-KEY|30|100";
    let answer = activate("AZMI-2025-PREM-LIFE", ledger, 200);
    assert_eq!(answer.ledger.as_deref(), Some("OTHER-KEY|30|100\nAZMI-2025-PREM-LIFE|0|200\n"));
    let kept = activate("AZMI-2025-PREM-LIFE", "OTHER-KEY|30|100\n\n", 200);
    assert_eq!(kept.ledger.as_deref(), Some("OTHER-KEY|30|100\n\nAZMI-2025-PREM-LIFE|0|200\n"));
}

#[test]
fn only_a_line_headed_by_the_key_is_a_replay() {
    let key = chars("AZMI-2025-PREM-LIFE");
    assert!(holds_record(&chars("AZMI-2025-PREM-LIFE|0|1\n"), &key));
    assert!(holds_record(&chars("X|1|2\nAZMI-2025-PREM-LIFE|0|1"), &key));
    assert!(!holds_record(&chars(""), &key));
    assert!(!holds_record(&chars("AZMI-2025-PREM-LIFE"), &key));
    assert!(!holds_record(&chars("AZMI-2025-PREM-LIFE\n|0|1\n"), &key));
    assert!(!holds_record(&chars("XAZMI-2025-PREM-LIFE|0|1\n"), &key));
    assert!(!holds_record(&chars("AZMI-2025-PREM-LIFETIME|0|1\n"), &key));
    assert!(!holds_record(&chars("OTHER|AZMI-2025-PREM-LIFE|0|1\n"), &key));
}

#[test]
fn time_limited_grant_reports_its_days() {
    let table = vec![
        Grant { key: "TRIAL-30".to_string(), validity_days: 30 },
        Grant { key: "YEAR-365".to_string(), validity_days: 365 },
    ];
    let answer = activate_with(&table, "year-365", "", 1_234_567_890);
    assert!(answer.accepted);
    assert_eq!(answer.validity_days, 365);
    assert_eq!(answer.message, "License activated: valid for 365 days");
    assert_eq!(answer.ledger.as_deref(), Some("YEAR-365|365|1234567890\n"));

    let other = activate_with(&table, "TRIAL-30", "YEAR-365|365|1234567890\n", 7);
    assert!(other.accepted);
    assert_eq!(other.message, "License activated: valid for 30 days");
    assert_eq!(other.ledger.as_deref(), Some("YEAR-365|365|1234567890\nTRIAL-30|30|7\n"));

    let unknown = activate_with(&table, "AZMI-2025-PREM-LIFE", "", 7);
    assert!(!unknown.accepted);
    assert_eq!(unknown.message, "Invalid license key");
}

#[test]
fn first_grant_of_a_key_counts() {
    let table = vec![
        Grant { key: "A".to_string(), validity_days: 1 },
        Grant { key: "B".to_string(), validity_days: 2 },
        Grant { key: "A".to_string(), validity_days: 3 },
    ];
    assert_eq!(find_grant(&table, &chars("A")), Some(0));
    assert_eq!(find_grant(&table, &chars("B")), Some(1));
    assert_eq!(find_grant(&table, &chars("C")), None);
    assert_eq!(find_grant(&table, &chars("a")), None);
    assert_eq!(find_grant(&Vec::new(), &chars("A")), None);
}

#[test]
fn builtin_table_holds_the_lifetime_key() {
    let table = builtin_grants();
    assert_eq!(table.len(), 1);
    assert_eq!(table[0].key, "AZMI-2025-PREM-LIFE");
    assert_eq!(table[0].validity_days, 0);
}

#[test]
fn record_line_is_pipe_delimited() {
    let record = UsedLicenseRecord {
        key: "KEY-1".to_string(),
        validity_days: 90,
        activated_at_epoch_seconds: 1_700_000_000,
    };
    assert_eq!(render_record(&record), "KEY-1|90|1700000000\n");
    let zero = UsedLicenseRecord { key: "K".to_string(), validity_days: 0, activated_at_epoch_seconds: 0 };
    assert_eq!(render_record(&zero), "K|0|0\n");
    let large = UsedLicenseRecord {
        key: "K".to_string(),
        validity_days: u32::MAX,
        activated_at_epoch_seconds: u64::MAX,
    };
    assert_eq!(render_record(&large), "K|4294967295|18446744073709551615\n");
}

#[test]
fn ledger_lies_under_config_root_or_home() {
    assert_eq!(
        ledger_location(
            Platform::Linux,
            "azmi",
            &Some("/home/u/.config".to_string()),
            &Some("/home/u".to_string())
        ),
        Some("/home/u/.config/azmi/used_licenses.txt".to_string())
    );
    assert_eq!(
        ledger_location(Platform::Linux, "azmi", &None, &Some("/home/u".to_string())),
        Some("/home/u/.azmi/used_licenses.txt".to_string())
    );
    assert_eq!(
        ledger_location(Platform::Windows, "azmi", &Some(String::new()), &Some("C:\\Users\\u".to_string())),
        Some("C:\\Users\\u\\.azmi\\used_licenses.txt".to_string())
    );
    assert_eq!(ledger_location(Platform::MacOs, "azmi", &None, &None), None);
    assert_eq!(ledger_location(Platform::MacOs, "azmi", &Some(String::new()), &Some(String::new())), None);
}
