use pkg_updates_notifier::config::{Config, Mail, SMTP};
use pkg_updates_notifier::events::{ProgressOutput, UnitText};
use pkg_updates_notifier::report::{make_html, make_plain, plain_pkg_line};
use pkg_updates_notifier::upgrade::{
    archive_label, extract_upgradeable, CandidateSnapshot, PackageSnapshot, Upgradeable,
    VersionSnapshot,
};
use pkg_updates_notifier::util::get_hostname;

fn no_units() -> UnitText {
    UnitText {
        size: String::new(),
        elapsed: String::new(),
        rate: String::new(),
    }
}

#[test]
fn a_package_without_installed_version_extracts_cleanly() {
    let snapshot = PackageSnapshot {
        name: "pkg".to_string(),
        installed: None,
        candidate: Some(CandidateSnapshot {
            version: "2.0".to_string(),
            arch: "amd64".to_string(),
        }),
        versions: vec![VersionSnapshot { files: vec![None] }],
    };
    let record = Upgradeable::from(&snapshot);
    assert_eq!(record.name, "pkg");
    assert_eq!(record.installed, None);
    assert_eq!(record.candidate, Some("2.0".to_string()));
    assert_eq!(record.arch, "amd64");
    assert_eq!(record.archive, "unknown");
}

#[test]
fn a_package_without_candidate_gets_an_empty_arch() {
    let snapshot = PackageSnapshot {
        name: "old".to_string(),
        installed: Some("1.1".to_string()),
        candidate: None,
        versions: vec![VersionSnapshot {
            files: vec![Some("stable".to_string())],
        }],
    };
    let record = Upgradeable::from(&snapshot);
    assert_eq!(record.installed, Some("1.1".to_string()));
    assert_eq!(record.candidate, None);
    assert_eq!(record.arch, "");
    assert_eq!(record.archive, "stable");
}

#[test]
fn archive_labels_join_with_commas_and_keep_duplicates() {
    let files = vec![
        Some("main".to_string()),
        None,
        Some("main".to_string()),
        Some("universe".to_string()),
    ];
    assert_eq!(archive_label(&files), "main,unknown,main,universe");
    assert_eq!(archive_label(&vec![]), "");
}

#[test]
fn an_empty_index_extracts_to_an_empty_sequence() {
    let records = extract_upgradeable(&vec![]);
    assert!(records.is_empty());
}

#[test]
fn extraction_keeps_the_enumeration_order() {
    let mk = |name: &str| PackageSnapshot {
        name: name.to_string(),
        installed: Some("1".to_string()),
        candidate: Some(CandidateSnapshot {
            version: "2".to_string(),
            arch: "all".to_string(),
        }),
        versions: vec![VersionSnapshot { files: vec![] }],
    };
    let records = extract_upgradeable(&vec![mk("a"), mk("b"), mk("c")]);
    let names: Vec<&str> = records.iter().map(|r| r.name.as_str()).collect();
    assert_eq!(names, vec!["a", "b", "c"]);
}

#[test]
fn the_default_subject_renders_count_and_host() {
    let mail = Mail::default();
    assert_eq!(
        mail.subject_fmt_with(3, "myhost"),
        "There are 3 package updates available for myhost"
    );
}

#[test]
fn every_placeholder_occurrence_is_replaced() {
    let mail = Mail::new(String::new(), vec![], "#x#@y@".to_string());
    assert_eq!(mail.subject_fmt_with(12, "h"), "12x12hyh");
}

#[test]
fn subject_fmt_agrees_with_the_explicit_host_form() {
    let mail = Mail::default();
    let host = get_hostname().unwrap_or_default();
    assert_eq!(mail.subject_fmt(5), mail.subject_fmt_with(5, &host));
}

#[test]
fn mail_getters_hand_back_what_was_given() {
    let mail = Mail::new(
        "root@example.org".to_string(),
        vec!["admin@example.org".to_string()],
        "subject".to_string(),
    );
    assert_eq!(mail.from, "root@example.org");
    assert_eq!(mail.to(), vec!["admin@example.org".to_string()]);
    assert_eq!(mail.subject(), "subject");
    assert!(mail.html());
    assert_eq!(mail.prepend(), None);
    assert_eq!(mail.append(), None);
}

#[test]
fn smtp_getters_hand_back_what_was_given() {
    let smtp = SMTP::new(
        "mail.example.org".to_string(),
        "user".to_string(),
        "app-password-1".to_string(),
    );
    assert_eq!(smtp.relay(), "mail.example.org");
    assert_eq!(smtp.username(), "user");
    assert_eq!(smtp.password(), "app-password-1");
}

#[test]
fn the_default_config_is_the_default_mail_and_smtp() {
    let config = Config::default();
    assert_eq!(config.smtp.relay(), "");
    assert_eq!(
        config.mail.subject(),
        "There are # package updates available for @"
    );
    assert!(config.mail.html());
}

#[test]
fn the_plain_package_line_matches_the_report_format() {
    let record = Upgradeable {
        name: "curl".to_string(),
        installed: Some("7.88.1-10".to_string()),
        candidate: Some("7.88.1-11".to_string()),
        archive: "stable-security".to_string(),
        arch: "amd64".to_string(),
    };
    assert_eq!(
        plain_pkg_line(&record),
        "curl/stable-security amd64 7.88.1-11 [upgradeable from: 7.88.1-10]"
    );
}

#[test]
fn the_plain_report_lists_packages_then_output() {
    let mail = Mail::new(String::new(), vec![], "s".to_string());
    let records = vec![Upgradeable {
        name: "pkg".to_string(),
        installed: None,
        candidate: Some("2.0".to_string()),
        archive: "unknown".to_string(),
        arch: "amd64".to_string(),
    }];
    let output = vec![ProgressOutput::Hit(1, "a".to_string())];
    let units = vec![no_units()];
    let body = make_plain(&mail, &records, &output, &units);
    let expected = [
        "# Packages\n",
        "pkg/unknown amd64 2.0 [upgradeable from: ]",
        "\n",
        "# Output\n",
        "Hit:1 a",
    ]
    .join("\n");
    assert_eq!(body, expected);
}

#[test]
fn the_plain_report_wraps_with_prepend_and_append() {
    let mut mail = Mail::new(String::new(), vec![], "s".to_string());
    mail.prepend = Some("hello".to_string());
    mail.append = Some("bye".to_string());
    let body = make_plain(&mail, &vec![], &vec![], &vec![]);
    let expected = ["hello", "# Packages\n", "\n", "# Output\n", "bye"].join("\n");
    assert_eq!(body, expected);
}

#[test]
fn the_html_report_nests_the_sections_in_the_document() {
    let mail = Mail::new(String::new(), vec![], "s".to_string());
    let records = vec![Upgradeable {
        name: "pkg".to_string(),
        installed: Some("1.0".to_string()),
        candidate: Some("2.0".to_string()),
        archive: "stable".to_string(),
        arch: "amd64".to_string(),
    }];
    let output = vec![ProgressOutput::Hit(1, "a".to_string())];
    let units = vec![no_units()];
    let body = make_html(&mail, &records, &output, &units);
    let expected = [
        "<!DOCTYPE html>\n    <html>\n    <head>\n    </head>\n    <body>",
        "        <h1>Packages</h1>\n        <table border=\"1\" rules=\"all\">\n            <tr>\n                <th>Package</th>\n                <th>Installed</th>\n                <th>Candidate</th>\n            </tr>",
        "<tr><td><code>pkg</code><br><code>/stable amd64</code></td><td><code>1.0</code></td><td><code>2.0</code></td></tr>",
        "        </table><h1>Output</h1><pre>",
        "Hit:1 a",
        "</pre>",
        "\n    </body>\n    </html>",
    ]
    .join("\n");
    assert_eq!(body, expected);
}
