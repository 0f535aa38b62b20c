use pom::{get_duration, minutes_left, Moment, Pom, PomError, StartOutcome, Status, StopOutcome};

const NOW: Moment = Moment { millis: 1_700_000_000_000, offset_secs: 0 };

fn stored(running: bool, ends_at: &str) -> Option<Pom> {
    Some(Pom { running, ends_at: String::from(ends_at) })
}

#[test]
fn default_duration_is_twenty_five() {
    assert_eq!(get_duration(), Some(25));
}

#[test]
fn minutes_left_truncates_toward_zero() {
    assert_eq!(minutes_left(600_000, 0), 10);
    assert_eq!(minutes_left(119_999, 0), 1);
    assert_eq!(minutes_left(59_999, 0), 0);
    assert_eq!(minutes_left(0, 59_999), 0);
    assert_eq!(minutes_left(0, 300_000), -5);
    assert_eq!(minutes_left(0, 119_999), -1);
}

#[test]
fn minutes_left_at_the_extremes() {
    assert_eq!(minutes_left(i64::MAX, i64::MIN), 307_445_734_561_825);
    assert_eq!(minutes_left(i64::MIN, i64::MAX), -307_445_734_561_825);
}

#[test]
fn serialize_writes_two_lines() {
    let p = Pom { running: true, ends_at: String::from("2023-11-14T22:38:20+00:00") };
    assert_eq!(p.serialize(), "running: true\nends_at: '2023-11-14T22:38:20+00:00'\n");
    let q = Pom { running: false, ends_at: String::new() };
    assert_eq!(q.serialize(), "running: false\nends_at: ''\n");
}

#[test]
fn round_trip_keeps_the_session() {
    for (running, ends_at) in [(true, "2023-11-14T22:38:20.123+01:00"), (false, ""), (false, "2023-11-14T22:38:20Z")] {
        let p = Pom { running, ends_at: String::from(ends_at) };
        let back = Pom::deserialize(&p.serialize()).unwrap();
        assert_eq!(back.running, running);
        assert_eq!(back.ends_at, ends_at);
    }
}

#[test]
fn deserialize_reads_plain_and_unterminated_values() {
    let p = Pom::deserialize("running: true\nends_at: 2023-11-14T22:38:20Z").unwrap();
    assert!(p.running);
    assert_eq!(p.ends_at, "2023-11-14T22:38:20Z");
    let q = Pom::deserialize("running: false\nends_at: ''").unwrap();
    assert!(!q.running);
    assert_eq!(q.ends_at, "");
}

#[test]
fn deserialize_refuses_malformed_documents() {
    let bad = [
        "",
        "running: true\n",
        "running: yes\nends_at: ''\n",
        "ends_at: ''\nrunning: true\n",
        "running: true\nends_at: \n",
        "running: true\nends_at: 'a'b'\n",
        "running: true\nends_at: 'a\n",
        "running: true\nends_at: ''\nmore\n",
    ];
    for text in bad {
        assert!(matches!(Pom::deserialize(text), Err(PomError::Corrupt)), "{text:?}");
    }
}

#[test]
fn new_session_ends_after_duration_at_the_offset() {
    let now = Moment { millis: 1_700_000_000_000, offset_secs: 3600 };
    let p = Pom::new(&25, true, now).unwrap();
    assert!(p.running);
    assert_eq!(p.ends_at, "2023-11-14T23:38:20+01:00");
}

#[test]
fn new_session_out_of_range() {
    assert!(matches!(Pom::new(&i64::MAX, true, NOW), Err(PomError::OutOfRange)));
    let far = Moment { millis: i64::MAX - 1000, offset_secs: 0 };
    assert!(matches!(Pom::new(&1, true, far), Err(PomError::OutOfRange)));
    assert!(matches!(Pom::start_at(&None, &1, far), Err(PomError::OutOfRange)));
}

#[test]
fn start_on_empty_creates_running_session() {
    match Pom::start_at(&None, &25, NOW).unwrap() {
        StartOutcome::Started(p) => {
            assert!(p.running);
            assert_eq!(p.ends_at, "2023-11-14T22:38:20+00:00");
        }
        other => panic!("unexpected {other:?}"),
    }
}

#[test]
fn start_on_empty_with_the_clock() {
    let before = chrono::Local::now().timestamp_millis();
    let p = match Pom::start(&None, &25).unwrap() {
        StartOutcome::Started(p) => p,
        other => panic!("unexpected {other:?}"),
    };
    let after = chrono::Local::now().timestamp_millis();
    let end = chrono::DateTime::parse_from_rfc3339(&p.ends_at).unwrap().timestamp_millis();
    assert!(p.running);
    assert!(end >= before + 25 * 60_000 - 2000 && end <= after + 25 * 60_000 + 2000);
}

#[test]
fn start_keeps_an_active_session() {
    let s = stored(true, "2023-11-14T22:23:20+00:00");
    for d in [1, 25, 90] {
        match Pom::start_at(&s, &d, NOW).unwrap() {
            StartOutcome::Active { session, minutes_left } => {
                assert_eq!(minutes_left, 10);
                assert!(session.running);
                assert_eq!(session.ends_at, "2023-11-14T22:23:20+00:00");
            }
            other => panic!("unexpected {other:?}"),
        }
    }
}

#[test]
fn start_replaces_an_expired_session() {
    let s = stored(true, "2023-11-14T21:13:20+00:00");
    match Pom::start_at(&s, &25, NOW).unwrap() {
        StartOutcome::Started(p) => assert_eq!(p.ends_at, "2023-11-14T22:38:20+00:00"),
        other => panic!("unexpected {other:?}"),
    }
    let almost = stored(true, "2023-11-14T22:14:19+00:00");
    assert!(matches!(Pom::start_at(&almost, &25, NOW), Ok(StartOutcome::Started(_))));
}

#[test]
fn start_after_stop_begins_anew() {
    let s = stored(false, "");
    assert!(matches!(Pom::start_at(&s, &25, NOW), Ok(StartOutcome::Started(_))));
}

#[test]
fn start_on_corrupt_end_fails() {
    let s = stored(true, "not a date");
    assert!(matches!(Pom::start_at(&s, &25, NOW), Err(PomError::Corrupt)));
}

#[test]
fn stop_twice() {
    let s = stored(true, "2023-11-14T22:23:20+00:00");
    let first = match Pom::stop(&s).unwrap() {
        StopOutcome::Stopped(p) => p,
        other => panic!("unexpected {other:?}"),
    };
    assert!(!first.running);
    assert_eq!(first.ends_at, "");
    let written = first.serialize();
    let reread = Pom::deserialize(&written).unwrap();
    assert!(matches!(Pom::stop(&Some(reread)), Ok(StopOutcome::NotRunning)));
}

#[test]
fn status_sign_flip() {
    let late = stored(true, "2023-11-14T22:08:20+00:00");
    assert_eq!(Pom::status_at(&late, NOW), Ok(Status::Overdue(-5)));
    let early = stored(true, "2023-11-14T22:18:20+00:00");
    assert_eq!(Pom::status_at(&early, NOW), Ok(Status::Remaining(5)));
    let now_end = stored(true, "2023-11-14T22:13:20+00:00");
    assert_eq!(Pom::status_at(&now_end, NOW), Ok(Status::Remaining(0)));
}

#[test]
fn status_of_a_stopped_session_is_idle() {
    assert_eq!(Pom::status_at(&stored(false, ""), NOW), Ok(Status::Idle));
}

#[test]
fn status_on_corrupt_end_fails() {
    assert_eq!(Pom::status_at(&stored(true, ""), NOW), Err(PomError::Corrupt));
}

#[test]
fn status_with_the_clock() {
    let end = chrono::Local::now() + chrono::Duration::minutes(30);
    let s = stored(true, &end.to_rfc3339());
    match Pom::print(&s).unwrap() {
        Status::Remaining(m) => assert!(m == 29 || m == 30),
        other => panic!("unexpected {other:?}"),
    }
}

#[test]
fn missing_session() {
    assert!(matches!(Pom::stop(&None), Err(PomError::NotFound)));
    assert_eq!(Pom::status_at(&None, NOW), Err(PomError::NotFound));
    assert_eq!(Pom::print(&None), Err(PomError::NotFound));
}

#[test]
fn describes_a_session() {
    let p = Pom { running: true, ends_at: String::from("2023-11-14T22:38:20+00:00") };
    assert_eq!(p.to_string(), "Status: true; Time to end: 2023-11-14T22:38:20+00:00");
    let q = Pom { running: false, ends_at: String::new() };
    assert_eq!(q.to_string(), "Status: false; Time to end: ");
}

#[test]
fn deserialize_refuses_an_end_that_is_no_date() {
    for text in [
        "running: true\nends_at: 5\n",
        "running: true\nends_at: ''\n",
        "running: false\nends_at: 'soon'\n",
    ] {
        assert!(matches!(Pom::deserialize(text), Err(PomError::Corrupt)), "{text:?}");
    }
}

#[test]
fn stop_on_a_corrupt_end_fails() {
    assert!(matches!(Pom::stop(&stored(true, "5")), Err(PomError::Corrupt)));
    assert!(matches!(Pom::stop(&stored(false, "")), Ok(StopOutcome::NotRunning)));
}

#[test]
fn new_session_at_the_last_representable_minute() {
    let late = Moment { millis: pom::clock::LATEST_MILLIS - 60_000, offset_secs: 0 };
    let p = Pom::new(&1, true, late).unwrap();
    assert_eq!(p.ends_at, "+262142-12-31T23:59:59.999+00:00");
    let past = Moment { millis: pom::clock::LATEST_MILLIS - 59_999, offset_secs: 0 };
    assert!(matches!(Pom::new(&1, true, past), Err(PomError::OutOfRange)));
}
