//! The SQL side: copy statements, column tuples, write plans, the batch
//! sink and the connection string.

use discogs_load::rows::{Artist, Label, Master, MasterArtist, Release, ReleaseLabel, ReleaseVideo};
use discogs_load::sink::DedupRows;
use discogs_load::sql::{
    get_copy_statement, write_artists, write_labels, write_masters, write_releases, DbOpt,
    InsertCommand, SqlSerialization, SqlType, SqlValue,
};

fn text(s: &str) -> SqlValue {
    SqlValue::Text(String::from(s))
}

#[test]
fn copy_statement_shape() {
    assert_eq!(
        get_copy_statement("artist", "(a, b)"),
        "COPY artist (a, b) FROM STDIN BINARY"
    );
}

#[test]
fn insert_command_holds_the_statement() {
    let cmd = InsertCommand::new("release_video", "(release_id, duration, src, title)");
    assert_eq!(
        cmd.copy_stm,
        "COPY release_video (release_id, duration, src, title) FROM STDIN BINARY"
    );
}

#[test]
fn connection_string_from_options() {
    let o = DbOpt {
        batch_size: 10000,
        db_host: String::from("db.example"),
        db_user: String::from("u"),
        db_password: String::from("hunter2"),
        db_name: String::from("discogs"),
    };
    assert_eq!(
        o.connection_string(),
        "host=db.example user=u password=hunter2 dbname=discogs"
    );
}

#[test]
fn artist_column_tuple() {
    let a = Artist {
        id: 4,
        name: String::from("N"),
        real_name: String::from("R"),
        profile: String::from("P"),
        data_quality: String::from("Q"),
        name_variations: vec![String::from("v1")],
        urls: vec![String::from("u1"), String::from("u2")],
        aliases: Vec::new(),
        members: vec![String::from("m")],
    };
    assert_eq!(
        a.to_sql(),
        vec![
            SqlValue::Integer(4),
            text("N"),
            text("R"),
            text("P"),
            text("Q"),
            SqlValue::TextArray(vec![String::from("v1")]),
            SqlValue::TextArray(vec![String::from("u1"), String::from("u2")]),
            SqlValue::TextArray(Vec::new()),
            SqlValue::TextArray(vec![String::from("m")]),
        ]
    );
}

#[test]
fn release_child_column_tuples() {
    let l = ReleaseLabel {
        release_id: 42,
        label: String::from("LN"),
        catno: String::from("C1"),
        label_id: 9,
    };
    assert_eq!(
        l.to_sql(),
        vec![SqlValue::Integer(42), text("LN"), text("C1"), SqlValue::Integer(9)]
    );
    let v = ReleaseVideo {
        release_id: 42,
        duration: 180,
        src: String::from("http://v"),
        title: String::new(),
    };
    assert_eq!(
        v.to_sql(),
        vec![SqlValue::Integer(42), SqlValue::Integer(180), text("http://v"), text("")]
    );
}

#[test]
fn default_constructors() {
    let a = Artist::new();
    assert_eq!(a.id, 0);
    assert_eq!(a.name, "");
    assert!(a.urls.is_empty());
    let l = Label::new();
    assert_eq!(l.id, 0);
    assert!(l.sublabels.is_empty());
    let m = Master::new();
    assert_eq!(m.year, 0);
    assert_eq!(m.release_id, 0);
    let ma = MasterArtist::new();
    assert_eq!(ma.master_id, 0);
    let r = Release::new();
    assert_eq!(r.status, "");
    assert_eq!(r.master_id, 0);
    let rl = ReleaseLabel::new();
    assert_eq!(rl.label_id, 0);
    assert_eq!(rl.catno, "");
}

#[test]
fn artist_write_plan_types_and_statement() {
    let rows = vec![Artist::new()];
    let w = write_artists(&rows);
    assert_eq!(w.len(), 1);
    assert_eq!(w[0].table, "artist");
    assert_eq!(
        w[0].types,
        vec![
            SqlType::Int4,
            SqlType::Text,
            SqlType::Text,
            SqlType::Text,
            SqlType::Text,
            SqlType::TextArray,
            SqlType::TextArray,
            SqlType::TextArray,
            SqlType::TextArray,
        ]
    );
    assert_eq!(
        w[0].copy_stm,
        "COPY artist (id, name, real_name, profile, data_quality, \
         name_variations, urls, aliases, members) FROM STDIN BINARY"
    );
}

#[test]
fn label_write_plan_types_and_statement() {
    let rows = vec![Label::new()];
    let w = write_labels(&rows);
    assert_eq!(w.len(), 1);
    assert_eq!(
        w[0].types,
        vec![
            SqlType::Int4,
            SqlType::Text,
            SqlType::Text,
            SqlType::Text,
            SqlType::Text,
            SqlType::TextArray,
            SqlType::TextArray,
            SqlType::Text,
        ]
    );
    assert_eq!(
        w[0].copy_stm,
        "COPY label (id, name, contactinfo, profile, parent_label, \
         sublabels, urls, data_quality) FROM STDIN BINARY"
    );
}

#[test]
fn master_write_plan_parent_before_child() {
    let masters = vec![Master::new()];
    let kids = vec![MasterArtist::new()];
    let w = write_masters(&masters, &kids);
    assert_eq!(w.len(), 2);
    assert_eq!(w[0].table, "master");
    assert_eq!(
        w[0].copy_stm,
        "COPY master (id, title, release_id, year, notes, genres, styles, \
         data_quality) FROM STDIN BINARY"
    );
    assert_eq!(
        w[0].types,
        vec![
            SqlType::Int4,
            SqlType::Text,
            SqlType::Int4,
            SqlType::Int4,
            SqlType::Text,
            SqlType::TextArray,
            SqlType::TextArray,
            SqlType::Text,
        ]
    );
    assert_eq!(w[1].table, "master_artist");
    assert_eq!(
        w[1].copy_stm,
        "COPY master_artist (artist_id, master_id, name, anv, role) FROM STDIN BINARY"
    );
    assert_eq!(
        w[1].types,
        vec![SqlType::Int4, SqlType::Int4, SqlType::Text, SqlType::Text, SqlType::Text]
    );
}

#[test]
fn release_write_plan_skips_empty_tables() {
    let releases = vec![Release::new()];
    let labels: Vec<ReleaseLabel> = Vec::new();
    let videos = vec![ReleaseVideo {
        release_id: 0,
        duration: 0,
        src: String::new(),
        title: String::new(),
    }];
    let w = write_releases(&releases, &labels, &videos);
    assert_eq!(w.len(), 2);
    assert_eq!(w[0].table, "release");
    assert_eq!(
        w[0].copy_stm,
        "COPY release (id, status, title, country, released, notes, genres, \
         styles, master_id, data_quality) FROM STDIN BINARY"
    );
    assert_eq!(
        w[0].types,
        vec![
            SqlType::Int4,
            SqlType::Text,
            SqlType::Text,
            SqlType::Text,
            SqlType::Text,
            SqlType::Text,
            SqlType::TextArray,
            SqlType::TextArray,
            SqlType::Int4,
            SqlType::Text,
        ]
    );
    assert_eq!(w[1].table, "release_video");
    assert_eq!(w[1].types, vec![SqlType::Int4, SqlType::Int4, SqlType::Text, SqlType::Text]);
}

#[test]
fn empty_batches_write_nothing() {
    let artists: Vec<Artist> = Vec::new();
    assert!(write_artists(&artists).is_empty());
    let masters: Vec<Master> = Vec::new();
    let kids: Vec<MasterArtist> = Vec::new();
    assert!(write_masters(&masters, &kids).is_empty());
}

#[test]
fn dedup_rows_first_write_wins() {
    let mut d: DedupRows<Artist> = DedupRows::new();
    let mut first = Artist::new();
    first.id = 5;
    first.name = String::from("first");
    let mut second = Artist::new();
    second.id = 5;
    second.name = String::from("second");
    assert!(d.commit(5, first));
    assert!(!d.commit(5, second));
    assert_eq!(d.len(), 1);
    let rows = d.take();
    assert_eq!(rows.len(), 1);
    assert_eq!(rows[0].name, "first");
    assert_eq!(d.len(), 0);
    // After a flush the key may be committed anew.
    let mut third = Artist::new();
    third.id = 5;
    assert!(d.commit(5, third));
    assert_eq!(d.len(), 1);
}
