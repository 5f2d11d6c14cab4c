//! End-to-end scenarios: event streams in, bulk-copy write plans out.

use discogs_load::artist::ArtistsParser;
use discogs_load::events::XmlEvent;
use discogs_load::label::LabelsParser;
use discogs_load::master::MastersParser;
use discogs_load::release::ReleasesParser;
use discogs_load::sql::{DbOpt, SqlValue, TableWrite};

fn opts(batch_size: usize) -> DbOpt {
    DbOpt {
        batch_size,
        db_host: String::from("localhost"),
        db_user: String::from("dev"),
        db_password: String::from("dev_pass"),
        db_name: String::from("discogs"),
    }
}

fn st(tag: &str) -> XmlEvent {
    XmlEvent::Start(String::from(tag), Vec::new())
}

fn sta(tag: &str, attrs: &[&str]) -> XmlEvent {
    let vals: Vec<String> = attrs.iter().map(|a| String::from(*a)).collect();
    XmlEvent::Start(String::from(tag), vals)
}

fn ema(tag: &str, attrs: &[&str]) -> XmlEvent {
    let vals: Vec<String> = attrs.iter().map(|a| String::from(*a)).collect();
    XmlEvent::Empty(String::from(tag), vals)
}

fn en(tag: &str) -> XmlEvent {
    XmlEvent::End(String::from(tag))
}

fn tx(t: &str) -> XmlEvent {
    XmlEvent::Text(String::from(t))
}

fn integer(v: i32) -> SqlValue {
    SqlValue::Integer(v)
}

fn text(s: &str) -> SqlValue {
    SqlValue::Text(String::from(s))
}

fn arr(items: &[&str]) -> SqlValue {
    SqlValue::TextArray(items.iter().map(|s| String::from(*s)).collect())
}

fn run_artists(events: Vec<XmlEvent>, batch_size: usize) -> Vec<TableWrite> {
    let o = opts(batch_size);
    let mut p = ArtistsParser::new(&o);
    let mut out = Vec::new();
    for ev in events {
        out.extend(p.process(ev).expect("no parse error expected"));
    }
    out
}

fn run_releases(events: Vec<XmlEvent>, batch_size: usize) -> Vec<TableWrite> {
    let o = opts(batch_size);
    let mut p = ReleasesParser::new(&o);
    let mut out = Vec::new();
    for ev in events {
        out.extend(p.process(ev).expect("no parse error expected"));
    }
    out
}

#[test]
fn minimal_artist() {
    let events = vec![
        st("artists"),
        st("artist"),
        st("id"),
        tx("1"),
        en("id"),
        st("name"),
        tx("Alice"),
        en("name"),
        en("artist"),
        en("artists"),
    ];
    let writes = run_artists(events, 100);
    assert_eq!(writes.len(), 1);
    let w = &writes[0];
    assert_eq!(w.table, "artist");
    assert_eq!(
        w.copy_stm,
        "COPY artist (id, name, real_name, profile, data_quality, \
         name_variations, urls, aliases, members) FROM STDIN BINARY"
    );
    assert_eq!(w.rows.len(), 1);
    assert_eq!(
        w.rows[0],
        vec![
            integer(1),
            text("Alice"),
            text(""),
            text(""),
            text(""),
            arr(&[]),
            arr(&[]),
            arr(&[]),
            arr(&[]),
        ]
    );
}

#[test]
fn artist_with_collections() {
    let events = vec![
        st("artists"),
        st("artist"),
        st("id"),
        tx("7"),
        en("id"),
        st("name"),
        tx("Band"),
        en("name"),
        st("urls"),
        st("url"),
        tx("http://a"),
        en("url"),
        st("url"),
        tx("http://b"),
        en("url"),
        en("urls"),
        en("artist"),
        en("artists"),
    ];
    let writes = run_artists(events, 100);
    assert_eq!(writes.len(), 1);
    assert_eq!(
        writes[0].rows[0],
        vec![
            integer(7),
            text("Band"),
            text(""),
            text(""),
            text(""),
            arr(&[]),
            arr(&["http://a", "http://b"]),
            arr(&[]),
            arr(&[]),
        ]
    );
}

#[test]
fn artist_aliases_members_and_variations() {
    let events = vec![
        st("artists"),
        st("artist"),
        st("id"),
        tx("3"),
        en("id"),
        st("namevariations"),
        st("name"),
        tx("Var One"),
        en("name"),
        en("namevariations"),
        st("aliases"),
        st("alias"),
        tx("Other Self"),
        en("alias"),
        en("aliases"),
        st("members"),
        st("id"),
        tx("77"),
        en("id"),
        st("name"),
        tx("Member One"),
        en("name"),
        en("members"),
        en("artist"),
        en("artists"),
    ];
    let writes = run_artists(events, 100);
    assert_eq!(writes.len(), 1);
    assert_eq!(
        writes[0].rows[0],
        vec![
            integer(3),
            text(""),
            text(""),
            text(""),
            text(""),
            arr(&["Var One"]),
            arr(&[]),
            arr(&["Other Self"]),
            arr(&["Member One"]),
        ]
    );
}

#[test]
fn duplicate_release_in_one_batch() {
    let events = vec![
        st("releases"),
        sta("release", &["10", "Accepted"]),
        st("title"),
        tx("First"),
        en("title"),
        en("release"),
        sta("release", &["10", "Accepted"]),
        st("title"),
        tx("Second"),
        en("title"),
        en("release"),
        en("releases"),
    ];
    let writes = run_releases(events, 100);
    assert_eq!(writes.len(), 1);
    let w = &writes[0];
    assert_eq!(w.table, "release");
    assert_eq!(w.rows.len(), 1);
    assert_eq!(
        w.rows[0],
        vec![
            integer(10),
            text("Accepted"),
            text("First"),
            text(""),
            text(""),
            text(""),
            arr(&[]),
            arr(&[]),
            integer(0),
            text(""),
        ]
    );
}

#[test]
fn release_with_labels_and_videos() {
    let events = vec![
        st("releases"),
        sta("release", &["42", "Accepted"]),
        st("title"),
        tx("T"),
        en("title"),
        st("labels"),
        ema("label", &["LN", "C1", "9"]),
        en("labels"),
        st("videos"),
        sta("video", &["http://v", "180"]),
        tx("some caption"),
        en("video"),
        en("videos"),
        en("release"),
        en("releases"),
    ];
    let writes = run_releases(events, 100);
    assert_eq!(writes.len(), 3);
    assert_eq!(writes[0].table, "release");
    assert_eq!(writes[1].table, "release_label");
    assert_eq!(writes[2].table, "release_video");
    assert_eq!(
        writes[0].rows[0][0..3],
        vec![integer(42), text("Accepted"), text("T")]
    );
    assert_eq!(
        writes[1].rows,
        vec![vec![integer(42), text("LN"), text("C1"), integer(9)]]
    );
    assert_eq!(
        writes[1].copy_stm,
        "COPY release_label (release_id, label, catno, label_id) FROM STDIN BINARY"
    );
    assert_eq!(
        writes[2].rows,
        vec![vec![integer(42), integer(180), text("http://v"), text("")]]
    );
    assert_eq!(
        writes[2].copy_stm,
        "COPY release_video (release_id, duration, src, title) FROM STDIN BINARY"
    );
}

#[test]
fn batch_flush_boundary() {
    let mut events = vec![st("artists")];
    for id in ["1", "2", "3"] {
        events.push(st("artist"));
        events.push(st("id"));
        events.push(tx(id));
        events.push(en("id"));
        events.push(en("artist"));
    }
    events.push(en("artists"));

    let o = opts(2);
    let mut p = ArtistsParser::new(&o);
    let mut flushes: Vec<Vec<TableWrite>> = Vec::new();
    for ev in events {
        let w = p.process(ev).expect("no parse error expected");
        if !w.is_empty() {
            flushes.push(w);
        }
    }
    assert_eq!(flushes.len(), 2);
    assert_eq!(flushes[0].len(), 1);
    assert_eq!(flushes[0][0].rows.len(), 2);
    assert_eq!(flushes[0][0].rows[0][0], integer(1));
    assert_eq!(flushes[0][0].rows[1][0], integer(2));
    assert_eq!(flushes[1].len(), 1);
    assert_eq!(flushes[1][0].rows.len(), 1);
    assert_eq!(flushes[1][0].rows[0][0], integer(3));
}

#[test]
fn master_with_two_artists() {
    let events = vec![
        st("masters"),
        sta("master", &["5"]),
        st("main_release"),
        tx("100"),
        en("main_release"),
        st("title"),
        tx("M"),
        en("title"),
        st("artists"),
        st("artist"),
        st("id"),
        tx("11"),
        en("id"),
        st("name"),
        tx("A"),
        en("name"),
        st("anv"),
        tx("a"),
        en("anv"),
        st("role"),
        tx("lead"),
        en("role"),
        en("artist"),
        st("artist"),
        st("id"),
        tx("12"),
        en("id"),
        st("name"),
        tx("B"),
        en("name"),
        st("anv"),
        en("anv"),
        st("role"),
        en("role"),
        en("artist"),
        en("artists"),
        en("master"),
        en("masters"),
    ];
    let o = opts(100);
    let mut p = MastersParser::new(&o);
    let mut out = Vec::new();
    for ev in events {
        out.extend(p.process(ev).expect("no parse error expected"));
    }
    assert_eq!(out.len(), 2);
    assert_eq!(out[0].table, "master");
    assert_eq!(
        out[0].rows,
        vec![vec![
            integer(5),
            text("M"),
            integer(100),
            integer(0),
            text(""),
            arr(&[]),
            arr(&[]),
            text(""),
        ]]
    );
    assert_eq!(out[1].table, "master_artist");
    assert_eq!(
        out[1].rows,
        vec![
            vec![integer(11), integer(5), text("A"), text("a"), text("lead")],
            vec![integer(12), integer(5), text("B"), text(""), text("")],
        ]
    );
}

#[test]
fn master_year_genres_styles() {
    let events = vec![
        st("masters"),
        sta("master", &["8"]),
        st("year"),
        tx("1998"),
        en("year"),
        st("genres"),
        st("genre"),
        tx("Electronic"),
        en("genre"),
        en("genres"),
        st("styles"),
        st("style"),
        tx("Ambient"),
        en("style"),
        st("style"),
        tx("Downtempo"),
        en("style"),
        en("styles"),
        en("master"),
        en("masters"),
    ];
    let o = opts(100);
    let mut p = MastersParser::new(&o);
    let mut out = Vec::new();
    for ev in events {
        out.extend(p.process(ev).expect("no parse error expected"));
    }
    assert_eq!(out.len(), 1);
    assert_eq!(
        out[0].rows,
        vec![vec![
            integer(8),
            text(""),
            integer(0),
            integer(1998),
            text(""),
            arr(&["Electronic"]),
            arr(&["Ambient", "Downtempo"]),
            text(""),
        ]]
    );
}

#[test]
fn label_full_record() {
    let events = vec![
        st("labels"),
        st("label"),
        st("id"),
        tx("21"),
        en("id"),
        st("name"),
        tx("Warm"),
        en("name"),
        st("contactinfo"),
        tx("mail someone"),
        en("contactinfo"),
        st("profile"),
        tx("An imprint"),
        en("profile"),
        st("parent_label"),
        tx("Big Group"),
        en("parent_label"),
        st("sublabels"),
        st("label"),
        tx("Warm Classics"),
        en("label"),
        en("sublabels"),
        st("urls"),
        st("url"),
        tx("http://warm"),
        en("url"),
        en("urls"),
        st("data_quality"),
        tx("Correct"),
        en("data_quality"),
        en("label"),
        en("labels"),
    ];
    let o = opts(100);
    let mut p = LabelsParser::new(&o);
    let mut out = Vec::new();
    for ev in events {
        out.extend(p.process(ev).expect("no parse error expected"));
    }
    assert_eq!(out.len(), 1);
    assert_eq!(out[0].table, "label");
    assert_eq!(
        out[0].rows,
        vec![vec![
            integer(21),
            text("Warm"),
            text("mail someone"),
            text("An imprint"),
            text("Big Group"),
            arr(&["Warm Classics"]),
            arr(&["http://warm"]),
            text("Correct"),
        ]]
    );
}

#[test]
fn empty_record_defaults() {
    let events = vec![st("artists"), st("artist"), en("artist"), en("artists")];
    let writes = run_artists(events, 100);
    assert_eq!(writes.len(), 1);
    assert_eq!(
        writes[0].rows,
        vec![vec![
            integer(0),
            text(""),
            text(""),
            text(""),
            text(""),
            arr(&[]),
            arr(&[]),
            arr(&[]),
            arr(&[]),
        ]]
    );
}

#[test]
fn release_all_scalar_fields() {
    let events = vec![
        st("releases"),
        sta("release", &["314", "Draft"]),
        st("title"),
        tx("Album"),
        en("title"),
        st("country"),
        tx("NL"),
        en("country"),
        st("released"),
        tx("1999-05"),
        en("released"),
        st("notes"),
        tx("first pressing"),
        en("notes"),
        st("genres"),
        st("genre"),
        tx("Rock"),
        en("genre"),
        en("genres"),
        st("styles"),
        st("style"),
        tx("Indie"),
        en("style"),
        en("styles"),
        st("master_id"),
        tx("271"),
        en("master_id"),
        st("data_quality"),
        tx("Correct"),
        en("data_quality"),
        en("release"),
        en("releases"),
    ];
    let writes = run_releases(events, 100);
    assert_eq!(writes.len(), 1);
    assert_eq!(
        writes[0].rows,
        vec![vec![
            integer(314),
            text("Draft"),
            text("Album"),
            text("NL"),
            text("1999-05"),
            text("first pressing"),
            arr(&["Rock"]),
            arr(&["Indie"]),
            integer(271),
            text("Correct"),
        ]]
    );
}

#[test]
fn artist_all_scalar_fields() {
    let events = vec![
        st("artists"),
        st("artist"),
        st("id"),
        tx("2"),
        en("id"),
        st("name"),
        tx("N"),
        en("name"),
        st("realname"),
        tx("R"),
        en("realname"),
        st("profile"),
        tx("P"),
        en("profile"),
        st("data_quality"),
        tx("Needs Vote"),
        en("data_quality"),
        en("artist"),
        en("artists"),
    ];
    let writes = run_artists(events, 100);
    assert_eq!(
        writes[0].rows[0][0..5],
        vec![integer(2), text("N"), text("R"), text("P"), text("Needs Vote")]
    );
}

#[test]
fn record_reset_clears_previous_fields() {
    // The second record must not inherit the first one's scalars or
    // collections.
    let events = vec![
        st("artists"),
        st("artist"),
        st("id"),
        tx("1"),
        en("id"),
        st("name"),
        tx("First"),
        en("name"),
        st("urls"),
        st("url"),
        tx("http://one"),
        en("url"),
        en("urls"),
        en("artist"),
        st("artist"),
        st("id"),
        tx("2"),
        en("id"),
        en("artist"),
        en("artists"),
    ];
    let writes = run_artists(events, 100);
    assert_eq!(writes[0].rows.len(), 2);
    assert_eq!(
        writes[0].rows[1],
        vec![
            integer(2),
            text(""),
            text(""),
            text(""),
            text(""),
            arr(&[]),
            arr(&[]),
            arr(&[]),
            arr(&[]),
        ]
    );
}

#[test]
fn zero_batch_size_flushes_every_commit() {
    let mut events = vec![st("artists")];
    for id in ["1", "2"] {
        events.push(st("artist"));
        events.push(st("id"));
        events.push(tx(id));
        events.push(en("id"));
        events.push(en("artist"));
    }
    events.push(en("artists"));
    let o = opts(0);
    let mut p = ArtistsParser::new(&o);
    let mut flushes = 0usize;
    let mut rows = 0usize;
    for ev in events {
        let w = p.process(ev).expect("no parse error expected");
        if !w.is_empty() {
            flushes += 1;
            rows += w.iter().map(|t| t.rows.len()).sum::<usize>();
        }
    }
    assert_eq!(flushes, 2);
    assert_eq!(rows, 2);
}

#[test]
fn purity_across_batch_sizes() {
    let make_events = || {
        let mut events = vec![st("artists")];
        for id in ["1", "2", "3", "4", "5"] {
            events.push(st("artist"));
            events.push(st("id"));
            events.push(tx(id));
            events.push(en("id"));
            events.push(en("artist"));
        }
        events.push(en("artists"));
        events
    };
    let mut all_rows: Vec<Vec<Vec<SqlValue>>> = Vec::new();
    for b in [1usize, 2, 3, 100] {
        let writes = run_artists(make_events(), b);
        let rows: Vec<Vec<SqlValue>> = writes.into_iter().flat_map(|w| w.rows).collect();
        all_rows.push(rows);
    }
    for rows in &all_rows[1..] {
        assert_eq!(rows, &all_rows[0]);
    }
}

#[test]
fn deduplication_resets_across_batches() {
    let make_events = || {
        let mut events = vec![st("artists")];
        for id in ["10", "10"] {
            events.push(st("artist"));
            events.push(st("id"));
            events.push(tx(id));
            events.push(en("id"));
            events.push(en("artist"));
        }
        events.push(en("artists"));
        events
    };
    // Both occurrences land in one batch: the duplicate is dropped.
    let one_batch = run_artists(make_events(), 100);
    let total_one: usize = one_batch.iter().map(|w| w.rows.len()).sum();
    assert_eq!(total_one, 1);
    // A batch size of one puts them in separate batches: deduplication is
    // per batch, so both are written.
    let two_batches = run_artists(make_events(), 1);
    let total_two: usize = two_batches.iter().map(|w| w.rows.len()).sum();
    assert_eq!(total_two, 2);
}

#[test]
fn unconditional_flush_on_family_end_even_when_empty() {
    let events = vec![st("artists"), en("artists")];
    let writes = run_artists(events, 100);
    // Nothing accumulated: the plan holds no table at all.
    assert_eq!(writes.len(), 0);
}

#[test]
fn namespaced_tags_match_by_local_name() {
    let events = vec![
        st("ns:artists"),
        st("ns:artist"),
        st("ns:id"),
        tx("9"),
        en("ns:id"),
        en("ns:artist"),
        en("ns:artists"),
    ];
    let writes = run_artists(events, 100);
    assert_eq!(writes.len(), 1);
    assert_eq!(writes[0].rows.len(), 1);
    assert_eq!(writes[0].rows[0][0], integer(9));
}
