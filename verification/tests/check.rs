use gem_audit::advisory::{Advisory, Criticality};
use gem_audit::check::{
    build_ignore_comments, check_staleness, staleness_warning, update_ignore_list,
};
use gem_audit::configuration::Configuration;
use gem_audit::ids::IdSet;
use gem_audit::report::{InsecureSource, Report, UnpatchedGem, VulnerableRuby};

fn empty_report() -> Report {
    Report {
        insecure_sources: vec![],
        unpatched_gems: vec![],
        vulnerable_rubies: vec![],
        version_parse_errors: 0,
        advisory_load_errors: 0,
    }
}

fn advisory(id: &str, title: Option<&str>, criticality: Option<Criticality>) -> Advisory {
    Advisory {
        id: id.to_string(),
        title: title.map(|t| t.to_string()),
        identifiers: vec![id.to_string()],
        criticality,
    }
}

fn gem(name: &str, version: &str, advisory: Advisory) -> UnpatchedGem {
    UnpatchedGem {
        name: name.to_string(),
        version: version.to_string(),
        advisory,
    }
}

#[test]
fn build_ignore_comments_empty_report() {
    let report = empty_report();
    let (ids, comments) = build_ignore_comments(&report);
    assert!(ids.is_empty());
    assert!(comments.is_empty());
}

#[test]
fn build_ignore_comments_with_gem_vuln() {
    let advisory = advisory("CVE-2020-1234", Some("Test vuln"), Some(Criticality::Critical));
    let report = Report {
        unpatched_gems: vec![gem("test", "0.5.0", advisory)],
        ..empty_report()
    };

    let (ids, comments) = build_ignore_comments(&report);
    assert!(ids.contains("CVE-2020-1234"));
    let comment = comments.get("CVE-2020-1234").unwrap();
    assert!(comment.contains("test"));
    assert!(comment.contains("0.5.0"));
    assert!(comment.contains("critical"));
    assert!(comment.contains("Test vuln"));
    assert_eq!(comment, "test 0.5.0 (critical) - Test vuln");
}

#[test]
fn build_ignore_comments_with_ruby_vuln() {
    let advisory = advisory("CVE-2021-31810", Some("Ruby vuln"), Some(Criticality::Medium));
    let report = Report {
        vulnerable_rubies: vec![VulnerableRuby {
            engine: "ruby".to_string(),
            version: "2.6.0".to_string(),
            advisory,
        }],
        ..empty_report()
    };

    let (ids, comments) = build_ignore_comments(&report);
    assert!(ids.contains("CVE-2021-31810"));
    let comment = comments.get("CVE-2021-31810").unwrap();
    assert!(comment.contains("ruby"));
    assert!(comment.contains("2.6.0"));
    assert_eq!(comment, "ruby 2.6.0 (medium) - Ruby vuln");
}

#[test]
fn build_ignore_comments_includes_insecure_sources_only_in_report() {
    let report = Report {
        insecure_sources: vec![InsecureSource {
            source: "http://rubygems.org/".to_string(),
        }],
        ..empty_report()
    };

    // Insecure sources don't produce advisory IDs
    let (ids, comments) = build_ignore_comments(&report);
    assert!(ids.is_empty());
    assert!(comments.is_empty());
}

#[test]
fn build_ignore_comments_deduplicates_ids() {
    let first = advisory("CVE-2020-1234", Some("First"), Some(Criticality::Critical));
    let second = advisory("CVE-2020-1234", Some("Duplicate"), Some(Criticality::Critical));
    let report = Report {
        unpatched_gems: vec![gem("test", "0.5.0", first), gem("test", "0.5.0", second)],
        ..empty_report()
    };

    let (ids, comments) = build_ignore_comments(&report);
    // Should have exactly 1 entry despite 2 vulns with same CVE
    assert_eq!(ids.len(), 1);
    assert!(ids.contains("CVE-2020-1234"));
    assert_eq!(
        comments.get("CVE-2020-1234").unwrap(),
        "test 0.5.0 (critical) - First"
    );
}

#[test]
fn comment_without_title_and_severity() {
    let report = Report {
        unpatched_gems: vec![gem("rack", "1.0", advisory("OSVDB-1", None, None))],
        ..empty_report()
    };
    let (_, comments) = build_ignore_comments(&report);
    assert_eq!(comments.get("OSVDB-1").unwrap(), "rack 1.0 (Unknown) - N/A");
    assert!(comments.get("OSVDB-2").is_none());
}

#[test]
fn every_identifier_of_an_advisory_gets_its_comment() {
    let mut both = advisory("CVE-2020-1", Some("T"), Some(Criticality::Low));
    both.identifiers.push("GHSA-aaaa-bbbb-cccc".to_string());
    let report = Report {
        unpatched_gems: vec![gem("rack", "1.0", both)],
        ..empty_report()
    };
    let (ids, comments) = build_ignore_comments(&report);
    assert_eq!(ids.len(), 2);
    assert_eq!(ids.items(), &vec!["CVE-2020-1", "GHSA-aaaa-bbbb-cccc"]);
    assert_eq!(comments.get("CVE-2020-1").unwrap(), "rack 1.0 (low) - T");
    assert_eq!(
        comments.get("GHSA-aaaa-bbbb-cccc").unwrap(),
        "rack 1.0 (low) - T"
    );
}

#[test]
fn gems_come_before_the_interpreter_in_comments() {
    let report = Report {
        unpatched_gems: vec![gem("g", "1", advisory("CVE-1", None, Some(Criticality::High)))],
        vulnerable_rubies: vec![VulnerableRuby {
            engine: "ruby".to_string(),
            version: "2".to_string(),
            advisory: advisory("CVE-1", None, Some(Criticality::NoImpact)),
        }],
        ..empty_report()
    };
    let (ids, comments) = build_ignore_comments(&report);
    assert_eq!(ids.len(), 1);
    assert_eq!(comments.get("CVE-1").unwrap(), "g 1 (high) - N/A");
}

#[test]
fn updating_the_ignore_list_counts_new_ids_only() {
    let mut ignore = IdSet::new();
    assert!(ignore.insert("CVE-OLD".to_string()));
    assert!(ignore.insert("CVE-2020-1234".to_string()));
    assert!(!ignore.insert("CVE-OLD".to_string()));
    let config = Configuration {
        ignore,
        max_db_age_days: Some(7),
    };
    let report = Report {
        unpatched_gems: vec![
            gem("a", "1", advisory("CVE-2020-1234", None, None)),
            gem("b", "1", advisory("CVE-NEW", None, None)),
        ],
        ..empty_report()
    };
    let update = update_ignore_list(&report, &config);
    assert_eq!(update.added, 1);
    assert_eq!(update.config.max_db_age_days, Some(7));
    assert_eq!(update.config.ignore.len(), 3);
    assert!(update.config.ignore.contains("CVE-OLD"));
    assert!(update.config.ignore.contains("CVE-2020-1234"));
    assert!(update.config.ignore.contains("CVE-NEW"));
    assert_eq!(update.comments.get("CVE-NEW").unwrap(), "b 1 (Unknown) - N/A");
    assert!(update.comments.get("CVE-OLD").is_none());
}

const DAY: i64 = 86400;

#[test]
fn staleness_is_measured_in_whole_days() {
    // Seven days and a second are seven days old
    assert!(!check_staleness(Some(0), 7 * DAY + 1, Some(7), None));
    assert!(!check_staleness(Some(0), 8 * DAY - 1, Some(7), None));
    assert!(check_staleness(Some(0), 8 * DAY, Some(7), None));
    assert_eq!(
        staleness_warning(Some(0), 8 * DAY, Some(7), None).unwrap(),
        "warning: advisory database is 8 days old (max: 7 days)"
    );
    assert!(staleness_warning(Some(0), 7 * DAY, Some(7), None).is_none());
}

#[test]
fn staleness_prefers_the_command_line() {
    let now = 100 * DAY;
    assert!(check_staleness(Some(0), now, Some(7), Some(1000)));
    assert!(!check_staleness(Some(0), now, Some(1000), Some(7)));
    assert!(check_staleness(Some(0), now, None, Some(7)));
    assert!(!check_staleness(Some(0), now, None, None));
    assert!(!check_staleness(None, now, Some(7), Some(7)));
}

#[test]
fn staleness_at_the_limits() {
    // An update in the future is not old
    assert!(!check_staleness(Some(10 * DAY), 0, Some(0), None));
    assert!(!check_staleness(Some(0), DAY - 1, Some(0), None));
    assert!(check_staleness(Some(0), DAY, Some(0), None));
    // No database is older than an age beyond all measure
    assert!(!check_staleness(Some(0), i64::MAX, Some(u64::MAX), None));
    assert!(check_staleness(Some(i64::MIN), i64::MAX, Some(0), None));
    assert_eq!(
        staleness_warning(Some(i64::MIN), i64::MAX, Some(10), None).unwrap(),
        "warning: advisory database is 213503982334601 days old (max: 10 days)"
    );
}

#[test]
fn staleness_lasts_until_the_next_update() {
    for day in 0..20 {
        let now = day * DAY;
        assert_eq!(check_staleness(Some(0), now, Some(7), None), day > 7);
    }
    assert!(!check_staleness(Some(19 * DAY), 19 * DAY, Some(7), None));
}
