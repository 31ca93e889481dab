use gem_audit::advisory::{Advisory, Answer, Criticality, Database};
use gem_audit::audit::{audit_lockfile, Findings};
use gem_audit::check::build_ignore_comments;
use gem_audit::configuration::Configuration;
use gem_audit::ids::IdSet;
use gem_audit::lockfile::{
    GitSource, LockedSpec, Lockfile, PathSource, RubyVersion, RubygemsSource, Source,
};
use gem_audit::options::CheckOptions;
use gem_audit::scanner::{
    has_insecure_scheme, is_insecure_uri, LockfileRead, ScanError, ScanOptions, Scanner,
};

fn rubygems(remote: &str) -> Source {
    Source::Rubygems(RubygemsSource {
        remote: remote.to_string(),
        internal: false,
    })
}

fn git(remote: &str) -> Source {
    Source::Git(GitSource {
        remote: remote.to_string(),
        internal: false,
    })
}

fn spec(name: &str, version: &str) -> LockedSpec {
    LockedSpec {
        name: name.to_string(),
        version: version.to_string(),
        version_valid: true,
    }
}

fn bad_spec(name: &str, version: &str) -> LockedSpec {
    LockedSpec {
        name: name.to_string(),
        version: version.to_string(),
        version_valid: false,
    }
}

fn advisory(id: &str, criticality: Option<Criticality>) -> Advisory {
    Advisory {
        id: id.to_string(),
        title: Some(format!("About {}", id)),
        identifiers: vec![id.to_string()],
        criticality,
    }
}

fn answer(name: &str, version: &str, advisories: Vec<Advisory>, load_errors: usize) -> Answer {
    Answer {
        name: name.to_string(),
        version: version.to_string(),
        advisories,
        load_errors,
    }
}

fn secure_lockfile() -> Lockfile {
    Lockfile {
        sources: vec![rubygems("https://rubygems.org/")],
        specs: vec![spec("rack", "2.0.0"), spec("rails", "5.2.8")],
        ruby_version: None,
    }
}

fn vulnerable_ruby_lockfile() -> Lockfile {
    Lockfile {
        sources: vec![rubygems("https://rubygems.org/")],
        specs: vec![spec("rack", "2.0.0")],
        ruby_version: Some(RubyVersion {
            engine: "ruby".to_string(),
            version: "2.6.0".to_string(),
            version_valid: true,
        }),
    }
}

fn unpatched_lockfile() -> Lockfile {
    Lockfile {
        sources: vec![rubygems("https://rubygems.org/")],
        specs: vec![spec("activerecord", "3.2.10"), spec("rack", "1.4.1")],
        ruby_version: None,
    }
}

fn bad_lockfile() -> Lockfile {
    Lockfile {
        sources: vec![rubygems("https://rubygems.org/")],
        specs: vec![bad_spec("badgem", "!!!invalid!!!")],
        ruby_version: None,
    }
}

fn mock_database() -> Database {
    Database {
        gems: vec![answer(
            "test",
            "0.5.0",
            vec![advisory("CVE-2020-1234", Some(Criticality::Critical))],
            0,
        )],
        rubies: vec![answer(
            "ruby",
            "2.6.0",
            vec![advisory("CVE-2021-31810", Some(Criticality::Medium))],
            0,
        )],
    }
}

fn local_database() -> Option<Database> {
    Some(Database {
        gems: vec![
            answer(
                "activerecord",
                "3.2.10",
                vec![
                    advisory("CVE-2013-0155", Some(Criticality::Medium)),
                    advisory("OSVDB-91453", None),
                    advisory("CVE-2013-0156", Some(Criticality::High)),
                ],
                1,
            ),
            answer(
                "rack",
                "1.4.1",
                vec![advisory("CVE-2013-0263", Some(Criticality::High))],
                2,
            ),
        ],
        rubies: vec![],
    })
}

fn ids_of(gems: &[gem_audit::report::UnpatchedGem]) -> Vec<&str> {
    gems.iter().map(|g| g.advisory.id.as_str()).collect()
}

// ========== Source Scanning ==========

#[test]
fn scan_secure_sources() {
    let scanner = Scanner::from_lockfile(secure_lockfile(), mock_database());

    let insecure = scanner.scan_sources();
    assert!(
        insecure.is_empty(),
        "secure lockfile should have no insecure sources"
    );
}

#[test]
fn scan_insecure_sources() {
    let lockfile = Lockfile {
        sources: vec![
            git("git://github.com/rails/jquery-rails.git"),
            rubygems("http://rubygems.org/"),
        ],
        specs: vec![spec("jquery-rails", "2.2.1")],
        ruby_version: None,
    };
    let scanner = Scanner::from_lockfile(lockfile, mock_database());

    let insecure = scanner.scan_sources();
    assert_eq!(insecure.len(), 2);

    let sources: Vec<&str> = insecure.iter().map(|s| s.source.as_str()).collect();
    assert!(sources.contains(&"git://github.com/rails/jquery-rails.git"));
    assert!(sources.contains(&"http://rubygems.org/"));
}

#[test]
fn internal_sources_are_not_reported() {
    let lockfile = Lockfile {
        sources: vec![
            Source::Git(GitSource {
                remote: "git://git.corp/a.git".to_string(),
                internal: true,
            }),
            Source::Rubygems(RubygemsSource {
                remote: "http://10.0.0.1/".to_string(),
                internal: true,
            }),
            git("http://example.com/b.git"),
        ],
        specs: vec![],
        ruby_version: None,
    };
    let scanner = Scanner::from_lockfile(lockfile, mock_database());
    let insecure = scanner.scan_sources();
    assert_eq!(insecure.len(), 1);
    assert_eq!(insecure[0].source, "http://example.com/b.git");
}

#[test]
fn insecure_schemes() {
    assert!(is_insecure_uri("git://github.com/a.git"));
    assert!(is_insecure_uri("http://github.com/a.git"));
    assert!(!is_insecure_uri("https://github.com/a.git"));
    assert!(!is_insecure_uri("git@github.com:a.git"));
    assert!(!is_insecure_uri("http:/"));
    assert!(!is_insecure_uri(""));
    assert!(is_insecure_uri("http://"));
    // A gem server is not fetched over the git protocol
    assert!(!has_insecure_scheme(&rubygems("git://rubygems.org/")));
    assert!(has_insecure_scheme(&rubygems("http://rubygems.org/")));
    assert!(has_insecure_scheme(&git("git://rubygems.org/")));
    assert!(!has_insecure_scheme(&Source::Path(PathSource {
        remote: "http://".to_string()
    })));
}

// ========== Spec Scanning (with mock DB) ==========

#[test]
fn scan_specs_with_mock_db() {
    let scanner = Scanner::from_lockfile(secure_lockfile(), mock_database());

    let opts = ScanOptions::default();
    let (vulns, _, _) = scanner.scan_specs(&opts);
    assert!(vulns.is_empty());
}

#[test]
fn scan_unpatched_gems_with_real_db() {
    if let Some(db) = local_database() {
        let scanner = Scanner::from_lockfile(unpatched_lockfile(), db);

        let opts = ScanOptions::default();
        let report = scanner.scan(&opts);

        assert!(
            !report.unpatched_gems.is_empty(),
            "expected vulnerabilities for unpatched_gems fixture"
        );

        let has_activerecord = report
            .unpatched_gems
            .iter()
            .any(|v| v.name == "activerecord");
        assert!(has_activerecord, "expected activerecord vulnerability");
        assert_eq!(report.advisory_load_errors, 3);
        assert_eq!(report.count(), 4);
    }
}

#[test]
fn scan_secure_lockfile_with_real_db() {
    if let Some(db) = local_database() {
        let scanner = Scanner::from_lockfile(secure_lockfile(), db);

        let insecure = scanner.scan_sources();
        assert!(insecure.is_empty());
    }
}

#[test]
fn scan_with_ignore_list() {
    if let Some(db) = local_database() {
        let scanner = Scanner::from_lockfile(unpatched_lockfile(), db);

        let all_opts = ScanOptions::default();
        let (all_vulns, _, _) = scanner.scan_specs(&all_opts);

        if let Some(first_vuln) = all_vulns.first() {
            let mut ignore = IdSet::new();
            for id in first_vuln.advisory.identifiers() {
                ignore.insert(id.clone());
            }
            let filtered_opts = ScanOptions {
                ignore,
                ..Default::default()
            };
            let (filtered_vulns, _, _) = scanner.scan_specs(&filtered_opts);

            assert!(
                filtered_vulns.len() < all_vulns.len(),
                "ignore list should reduce vulnerability count"
            );
            assert_eq!(
                ids_of(&filtered_vulns),
                vec!["CVE-2013-0263", "CVE-2013-0155", "OSVDB-91453"]
            );
        }
    }
}

#[test]
fn findings_are_sorted_and_ties_keep_their_order() {
    let scanner = Scanner::from_lockfile(unpatched_lockfile(), local_database().unwrap());
    let (vulns, parse_errors, load_errors) = scanner.scan_specs(&ScanOptions::default());
    assert_eq!(
        ids_of(&vulns),
        vec!["CVE-2013-0156", "CVE-2013-0263", "CVE-2013-0155", "OSVDB-91453"]
    );
    assert_eq!(vulns[0].name, "activerecord");
    assert_eq!(vulns[0].version, "3.2.10");
    assert_eq!(vulns[1].name, "rack");
    assert_eq!(parse_errors, 0);
    assert_eq!(load_errors, 3);
}

#[test]
fn every_severity_has_its_place() {
    let lockfile = Lockfile {
        sources: vec![],
        specs: vec![spec("g", "1")],
        ruby_version: None,
    };
    let db = Database {
        gems: vec![answer(
            "g",
            "1",
            vec![
                advisory("unknown", None),
                advisory("none", Some(Criticality::NoImpact)),
                advisory("low", Some(Criticality::Low)),
                advisory("medium", Some(Criticality::Medium)),
                advisory("high", Some(Criticality::High)),
                advisory("critical", Some(Criticality::Critical)),
            ],
            0,
        )],
        rubies: vec![],
    };
    let scanner = Scanner::from_lockfile(lockfile, db);
    let (vulns, _, _) = scanner.scan_specs(&ScanOptions::default());
    assert_eq!(
        ids_of(&vulns),
        vec!["critical", "high", "medium", "low", "none", "unknown"]
    );
    let opts = ScanOptions {
        severity: Some(Criticality::Medium),
        ..Default::default()
    };
    let (vulns, _, _) = scanner.scan_specs(&opts);
    assert_eq!(ids_of(&vulns), vec!["critical", "high", "medium"]);
    // An unknown severity does not meet even the lowest threshold
    let opts = ScanOptions {
        severity: Some(Criticality::NoImpact),
        ..Default::default()
    };
    let (vulns, _, _) = scanner.scan_specs(&opts);
    assert_eq!(
        ids_of(&vulns),
        vec!["critical", "high", "medium", "low", "none"]
    );
    assert_eq!(Criticality::NoImpact.to_string(), "none");
    assert_eq!(Criticality::Low.to_string(), "low");
    assert_eq!(Criticality::Medium.to_string(), "medium");
    assert_eq!(Criticality::High.to_string(), "high");
    assert_eq!(Criticality::Critical.to_string(), "critical");
}

#[test]
fn platform_variants_are_looked_at_once() {
    let lockfile = Lockfile {
        sources: vec![],
        specs: vec![
            spec("rack", "1.4.1"),
            spec("rack", "1.4.1"),
            bad_spec("bad", "?"),
            bad_spec("bad", "?"),
            spec("activerecord", "3.2.10"),
            spec("rack", "1.4.1"),
            bad_spec("worse", "?"),
        ],
        ruby_version: None,
    };
    let queries: Vec<String> = lockfile
        .gem_queries()
        .iter()
        .map(|q| format!("{} {}", q.name, q.version))
        .collect();
    assert_eq!(queries, vec!["rack 1.4.1", "activerecord 3.2.10"]);

    let scanner = Scanner::from_lockfile(lockfile, local_database().unwrap());
    let (vulns, parse_errors, load_errors) = scanner.scan_specs(&ScanOptions::default());
    assert_eq!(
        ids_of(&vulns),
        vec!["CVE-2013-0263", "CVE-2013-0156", "CVE-2013-0155", "OSVDB-91453"]
    );
    assert_eq!(parse_errors, 2);
    assert_eq!(load_errors, 3);
}

#[test]
fn first_answer_on_a_version_counts() {
    let db = Database {
        gems: vec![
            answer("g", "2", vec![], 7),
            answer("g", "1", vec![advisory("A", None)], 1),
            answer("g", "1", vec![advisory("B", None)], 2),
        ],
        rubies: vec![],
    };
    let (found, errors) = db.check_gem(&"g".to_string(), &"1".to_string());
    assert_eq!(found.len(), 1);
    assert_eq!(found[0].id, "A");
    assert_eq!(found[0].title.as_deref(), Some("About A"));
    assert_eq!(errors, 1);
    let (found, errors) = db.check_gem(&"g".to_string(), &"3".to_string());
    assert!(found.is_empty());
    assert_eq!(errors, 0);
    let (found, errors) = db.check_ruby(&"g".to_string(), &"1".to_string());
    assert!(found.is_empty());
    assert_eq!(errors, 0);
}

// ========== ScanError Display ==========

#[test]
fn scan_error_lockfile_not_found_display() {
    let err = ScanError::LockfileNotFound("/tmp/missing".to_string());
    assert!(err.to_string().contains("Gemfile.lock not found"));
    assert!(err.to_string().contains("/tmp/missing"));
    assert_eq!(err.to_string(), "Gemfile.lock not found: /tmp/missing");
}

#[test]
fn scan_error_lockfile_parse_display() {
    let err = ScanError::LockfileParse("bad content".to_string());
    assert!(err.to_string().contains("failed to parse Gemfile.lock"));
    assert_eq!(err.to_string(), "failed to parse Gemfile.lock: bad content");
}

#[test]
fn scan_error_io_display() {
    let io_err = std::io::Error::new(std::io::ErrorKind::NotFound, "file not found");
    let err = ScanError::Io(io_err.to_string());
    assert!(err.to_string().contains("IO error"));
    assert_eq!(err.to_string(), "IO error: file not found");
}

#[test]
fn scan_error_database_display() {
    let err = ScanError::Database("no gems".to_string());
    assert_eq!(err.to_string(), "database error: no gems");
}

#[test]
fn scanner_from_what_was_read() {
    let path = "Gemfile.lock".to_string();
    match Scanner::new(path.clone(), LockfileRead::Unreadable, mock_database()) {
        Err(ScanError::LockfileNotFound(p)) => assert_eq!(p, "Gemfile.lock"),
        other => panic!("unexpected: {:?}", other),
    }
    let read = LockfileRead::Malformed("line 3".to_string());
    match Scanner::new(path.clone(), read, mock_database()) {
        Err(ScanError::LockfileParse(reason)) => assert_eq!(reason, "line 3"),
        other => panic!("unexpected: {:?}", other),
    }
    let read = LockfileRead::Parsed(vulnerable_ruby_lockfile());
    let scanner = Scanner::new(path, read, mock_database()).unwrap();
    assert_eq!(scanner.scan_ruby(&ScanOptions::default()).0.len(), 1);
}

// ========== Version parse error tracking ==========

#[test]
fn scan_specs_tracks_version_parse_errors() {
    let scanner = Scanner::from_lockfile(bad_lockfile(), mock_database());

    let opts = ScanOptions::default();
    let (_, version_parse_errors, _) = scanner.scan_specs(&opts);
    assert!(
        version_parse_errors > 0,
        "expected version parse errors for invalid version"
    );
    assert_eq!(version_parse_errors, 1);
    assert!(scanner.version_warnings(&opts).is_empty());
}

#[test]
fn scan_specs_strict_mode_prints_warning() {
    let scanner = Scanner::from_lockfile(bad_lockfile(), mock_database());

    let opts = ScanOptions {
        strict: true,
        ..Default::default()
    };
    let (_, version_parse_errors, _) = scanner.scan_specs(&opts);
    assert!(version_parse_errors > 0);
    assert_eq!(
        scanner.version_warnings(&opts),
        vec!["warning: failed to parse version '!!!invalid!!!' for gem 'badgem'"]
    );
}

// ========== Path source scanning ==========

#[test]
fn scan_path_source_is_safe() {
    let lockfile = Lockfile {
        sources: vec![
            Source::Path(PathSource {
                remote: ".".to_string(),
            }),
            rubygems("https://rubygems.org/"),
        ],
        specs: vec![spec("my_gem", "0.1.0"), spec("rack", "2.0.0")],
        ruby_version: None,
    };
    let scanner = Scanner::from_lockfile(lockfile, mock_database());

    let insecure = scanner.scan_sources();
    assert!(insecure.is_empty(), "PATH sources should be safe");
}

// ========== Ruby Version Scanning ==========

#[test]
fn scan_ruby_detects_vulnerable_version() {
    let scanner = Scanner::from_lockfile(vulnerable_ruby_lockfile(), mock_database());

    let opts = ScanOptions::default();
    let (vulns, _) = scanner.scan_ruby(&opts);
    assert_eq!(vulns.len(), 1);
    assert_eq!(vulns[0].engine, "ruby");
    assert_eq!(vulns[0].version, "2.6.0");
    assert_eq!(vulns[0].advisory.id, "CVE-2021-31810");
}

#[test]
fn scan_ruby_no_ruby_version_section() {
    let scanner = Scanner::from_lockfile(secure_lockfile(), mock_database());

    let opts = ScanOptions::default();
    let (vulns, _) = scanner.scan_ruby(&opts);
    assert!(vulns.is_empty());
}

#[test]
fn scan_ruby_respects_ignore_list() {
    let scanner = Scanner::from_lockfile(vulnerable_ruby_lockfile(), mock_database());

    let mut ignore = IdSet::new();
    ignore.insert("CVE-2021-31810".to_string());
    let opts = ScanOptions {
        ignore,
        ..Default::default()
    };
    let (vulns, _) = scanner.scan_ruby(&opts);
    assert!(vulns.is_empty());
}

#[test]
fn scan_ruby_respects_severity_filter() {
    let scanner = Scanner::from_lockfile(vulnerable_ruby_lockfile(), mock_database());

    let opts = ScanOptions {
        severity: Some(Criticality::High),
        ..Default::default()
    };
    let (vulns, _) = scanner.scan_ruby(&opts);
    assert!(vulns.is_empty());
}

#[test]
fn scan_full_includes_ruby_vulnerabilities() {
    let scanner = Scanner::from_lockfile(vulnerable_ruby_lockfile(), mock_database());

    let opts = ScanOptions::default();
    let report = scanner.scan(&opts);
    assert!(report.vulnerable());
    assert_eq!(report.vulnerable_rubies.len(), 1);
}

#[test]
fn scan_ruby_severity_threshold_met() {
    let scanner = Scanner::from_lockfile(vulnerable_ruby_lockfile(), mock_database());

    let opts = ScanOptions {
        severity: Some(Criticality::Medium),
        ..Default::default()
    };
    let (vulns, _) = scanner.scan_ruby(&opts);
    assert_eq!(vulns.len(), 1);
}

#[test]
fn scan_ruby_unparseable_version() {
    let lockfile = Lockfile {
        sources: vec![rubygems("https://rubygems.org/")],
        specs: vec![spec("rack", "2.0.0")],
        ruby_version: Some(RubyVersion {
            engine: "ruby".to_string(),
            version: "!!!invalid!!!".to_string(),
            version_valid: false,
        }),
    };
    let scanner = Scanner::from_lockfile(lockfile, mock_database());

    let opts = ScanOptions::default();
    let (vulns, _) = scanner.scan_ruby(&opts);
    assert!(vulns.is_empty());
}

#[test]
fn scan_ruby_counts_load_errors_and_sorts() {
    let db = Database {
        gems: vec![],
        rubies: vec![answer(
            "ruby",
            "2.6.0",
            vec![
                advisory("a", Some(Criticality::Low)),
                advisory("b", Some(Criticality::Critical)),
            ],
            5,
        )],
    };
    let scanner = Scanner::from_lockfile(vulnerable_ruby_lockfile(), db);
    let (vulns, errors) = scanner.scan_ruby(&ScanOptions::default());
    assert_eq!(vulns[0].advisory.id, "b");
    assert_eq!(vulns[1].advisory.id, "a");
    assert_eq!(errors, 5);
    let report = scanner.scan(&ScanOptions::default());
    assert_eq!(report.advisory_load_errors, 5);
    assert!(report.incomplete());
}

#[test]
fn should_report_ignore_nonmatching() {
    let mut ignore = IdSet::new();
    ignore.insert("CVE-9999-0000".to_string());
    let opts = ScanOptions {
        ignore,
        ..Default::default()
    };
    let advisory = advisory("CVE-2020-1234", Some(Criticality::Critical));
    assert!(opts.should_report(&advisory));
}

#[test]
fn should_report_any_identifier_counts() {
    let mut both = advisory("CVE-2020-1234", Some(Criticality::Critical));
    both.identifiers.push("GHSA-aaaa-bbbb-cccc".to_string());
    let mut ignore = IdSet::new();
    ignore.insert("GHSA-aaaa-bbbb-cccc".to_string());
    let opts = ScanOptions {
        ignore,
        ..Default::default()
    };
    assert!(!opts.should_report(&both));
    assert!(opts.should_report(&advisory("CVE-2020-1234", None)));
}

#[test]
fn report_count_includes_ruby_vulns() {
    let scanner = Scanner::from_lockfile(vulnerable_ruby_lockfile(), mock_database());

    let opts = ScanOptions::default();
    let report = scanner.scan(&opts);
    assert!(report.count() >= 1);
    assert_eq!(report.count(), 1);
}

#[test]
fn ignoring_what_was_reported_leaves_nothing() {
    let scanner = Scanner::from_lockfile(unpatched_lockfile(), local_database().unwrap());
    let report = scanner.scan(&ScanOptions::default());
    assert_eq!(report.unpatched_gems.len(), 4);
    let (ignore, _) = build_ignore_comments(&report);
    let opts = ScanOptions {
        ignore,
        ..Default::default()
    };
    let report = scanner.scan(&opts);
    assert!(!report.vulnerable());
    assert_eq!(report.count(), 0);
    // What could not be loaded is counted all the same
    assert_eq!(report.advisory_load_errors, 3);
}

#[test]
fn answers_to_other_questions_do_not_matter() {
    let mut db = local_database().unwrap();
    db.gems.insert(0, answer("rails", "3.2.10", vec![advisory("X", None)], 9));
    db.gems.push(answer("rack", "1.4.1", vec![advisory("Y", None)], 9));
    let plain = Scanner::from_lockfile(unpatched_lockfile(), local_database().unwrap());
    let padded = Scanner::from_lockfile(unpatched_lockfile(), db);
    let (a, _, a_errors) = plain.scan_specs(&ScanOptions::default());
    let (b, _, b_errors) = padded.scan_specs(&ScanOptions::default());
    assert_eq!(ids_of(&a), ids_of(&b));
    assert_eq!(a_errors, b_errors);
}

#[test]
fn advisories_without_identifiers_cannot_be_ignored() {
    let mut nameless = advisory("X", Some(Criticality::Low));
    nameless.identifiers.clear();
    let lockfile = Lockfile {
        sources: vec![],
        specs: vec![spec("g", "1")],
        ruby_version: None,
    };
    let db = Database {
        gems: vec![answer(
            "g",
            "1",
            vec![nameless, advisory("Y", Some(Criticality::High))],
            0,
        )],
        rubies: vec![],
    };
    let scanner = Scanner::from_lockfile(lockfile, db);
    let report = scanner.scan(&ScanOptions::default());
    assert_eq!(ids_of(&report.unpatched_gems), vec!["Y", "X"]);
    let (ignore, _) = build_ignore_comments(&report);
    assert_eq!(ignore.len(), 1);
    let opts = ScanOptions {
        ignore,
        ..Default::default()
    };
    let (left, _, _) = scanner.scan_specs(&opts);
    assert_eq!(ids_of(&left), vec!["X"]);
}

#[test]
fn strict_audits_announce_each_unreadable_version_once() {
    let lockfile = Lockfile {
        sources: vec![],
        specs: vec![
            bad_spec("a", "?"),
            spec("b", "1"),
            bad_spec("a", "?"),
            bad_spec("c", "!"),
        ],
        ruby_version: None,
    };
    let scanner = Scanner::from_lockfile(lockfile, mock_database());
    let opts = ScanOptions {
        strict: true,
        ..Default::default()
    };
    assert_eq!(
        scanner.version_warnings(&opts),
        vec![
            "warning: failed to parse version '?' for gem 'a'",
            "warning: failed to parse version '!' for gem 'c'",
        ]
    );
    assert_eq!(scanner.scan_specs(&opts).1, 2);
}

// ========== Replies of the database ==========

fn reply(id: &str, load_errors: usize) -> (Vec<Advisory>, usize) {
    (vec![advisory(id, None)], load_errors)
}

fn asked_lockfile() -> Lockfile {
    Lockfile {
        sources: vec![],
        specs: vec![
            spec("rack", "1.4.1"),
            bad_spec("bad", "?"),
            spec("rack", "1.4.1"),
            spec("rack", "1.4.2"),
        ],
        ruby_version: Some(RubyVersion {
            engine: "jruby".to_string(),
            version: "9.1".to_string(),
            version_valid: true,
        }),
    }
}

#[test]
fn replies_are_paired_with_questions() {
    let lockfile = asked_lockfile();
    let gems = vec![reply("A", 1), reply("B", 2)];
    let db = Database::from_replies(&lockfile, gems, Some(reply("C", 4))).unwrap();
    let (found, errors) = db.check_gem(&"rack".to_string(), &"1.4.1".to_string());
    assert_eq!((found[0].id.as_str(), errors), ("A", 1));
    let (found, errors) = db.check_gem(&"rack".to_string(), &"1.4.2".to_string());
    assert_eq!((found[0].id.as_str(), errors), ("B", 2));
    let (found, errors) = db.check_ruby(&"jruby".to_string(), &"9.1".to_string());
    assert_eq!((found[0].id.as_str(), errors), ("C", 4));
    assert_eq!(db.gems.len(), 2);
    assert_eq!(db.rubies.len(), 1);
}

#[test]
fn every_question_has_its_reply() {
    let lockfile = asked_lockfile();
    let one = vec![reply("A", 0)];
    assert!(Database::from_replies(&lockfile, one, Some(reply("C", 0))).is_none());
    let three = vec![reply("A", 0), reply("B", 0), reply("D", 0)];
    assert!(Database::from_replies(&lockfile, three, Some(reply("C", 0))).is_none());
    let two = vec![reply("A", 0), reply("B", 0)];
    assert!(Database::from_replies(&lockfile, two, None).is_none());

    let mut lockfile = asked_lockfile();
    lockfile.ruby_version.as_mut().unwrap().version_valid = false;
    let two = vec![reply("A", 0), reply("B", 0)];
    assert!(Database::from_replies(&lockfile, two, Some(reply("C", 0))).is_none());
    let two = vec![reply("A", 0), reply("B", 0)];
    let db = Database::from_replies(&lockfile, two, None).unwrap();
    assert!(db.rubies.is_empty());

    lockfile.ruby_version = None;
    let two = vec![reply("A", 0), reply("B", 0)];
    assert!(Database::from_replies(&lockfile, two, Some(reply("C", 0))).is_none());
    let two = vec![reply("A", 0), reply("B", 0)];
    assert!(Database::from_replies(&lockfile, two, None).is_some());
}

// ========== Whole audits ==========

fn no_settings() -> Configuration {
    Configuration {
        ignore: IdSet::new(),
        max_db_age_days: None,
    }
}

fn audited(
    opts: &CheckOptions,
    lockfile: Lockfile,
    database: Database,
) -> (Vec<String>, [usize; 4], Vec<String>, Findings) {
    let path = "Gemfile.lock".to_string();
    let read = LockfileRead::Parsed(lockfile);
    let (report, warnings, found) =
        audit_lockfile(opts, &no_settings(), path, read, database).unwrap();
    let ids = ids_of(&report.unpatched_gems)
        .iter()
        .map(|id| id.to_string())
        .collect();
    let counts = [
        report.insecure_sources.len(),
        report.vulnerable_rubies.len(),
        report.version_parse_errors,
        report.advisory_load_errors,
    ];
    (ids, counts, warnings, found)
}

#[test]
fn audits_put_everything_together() {
    let opts = CheckOptions {
        severity: Some(Criticality::High),
        ignore: vec!["CVE-2013-0156".to_string()],
        strict: true,
        ..Default::default()
    };
    let mut lockfile = unpatched_lockfile();
    lockfile.sources.push(git("git://github.com/rails/rails.git"));
    lockfile.specs.push(bad_spec("badgem", "?"));
    let (ids, counts, warnings, found) = audited(&opts, lockfile, local_database().unwrap());
    assert_eq!(ids, vec!["CVE-2013-0263"]);
    assert_eq!(counts, [1, 0, 1, 3]);
    assert_eq!(
        warnings,
        vec!["warning: failed to parse version '?' for gem 'badgem'"]
    );
    assert_eq!(
        found,
        Findings {
            unpatched: true,
            vulnerable: true,
            incomplete: true,
        }
    );

    let opts = CheckOptions::default();
    let (ids, counts, warnings, found) = audited(&opts, bad_lockfile(), mock_database());
    assert!(ids.is_empty());
    assert_eq!(counts, [0, 0, 1, 0]);
    assert!(warnings.is_empty());
    assert_eq!(
        found,
        Findings {
            unpatched: false,
            vulnerable: false,
            incomplete: true,
        }
    );

    let (_, counts, _, found) = audited(&opts, vulnerable_ruby_lockfile(), mock_database());
    assert_eq!(counts, [0, 1, 0, 0]);
    assert_eq!(
        found,
        Findings {
            unpatched: false,
            vulnerable: true,
            incomplete: false,
        }
    );
}

#[test]
fn audits_follow_the_settings() {
    let mut config = no_settings();
    config.ignore.insert("CVE-2013-0263".to_string());
    let read = LockfileRead::Parsed(unpatched_lockfile());
    let path = "Gemfile.lock".to_string();
    let database = local_database().unwrap();
    let (report, _, _) =
        audit_lockfile(&CheckOptions::default(), &config, path, read, database).unwrap();
    assert_eq!(
        ids_of(&report.unpatched_gems),
        vec!["CVE-2013-0156", "CVE-2013-0155", "OSVDB-91453"]
    );
}

#[test]
fn audits_need_a_lockfile() {
    let opts = CheckOptions::default();
    let path = "dir/Gemfile.lock".to_string();
    let read = LockfileRead::Unreadable;
    match audit_lockfile(&opts, &no_settings(), path.clone(), read, mock_database()) {
        Err(ScanError::LockfileNotFound(p)) => assert_eq!(p, "dir/Gemfile.lock"),
        _ => panic!("a lockfile that cannot be read"),
    }
    let read = LockfileRead::Malformed("line 3".to_string());
    match audit_lockfile(&opts, &no_settings(), path, read, mock_database()) {
        Err(ScanError::LockfileParse(reason)) => assert_eq!(reason, "line 3"),
        _ => panic!("a lockfile that cannot be parsed"),
    }
}
