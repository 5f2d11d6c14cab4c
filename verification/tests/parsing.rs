//! Field decoding: integer parsing, XML unescaping, error reporting.

use discogs_load::artist::ArtistsParser;
use discogs_load::error::LoadError;
use discogs_load::events::{detect_family, Family, XmlEvent};
use discogs_load::master::MastersParser;
use discogs_load::release::ReleasesParser;
use discogs_load::sql::{DbOpt, SqlValue};
use discogs_load::text::parse_i32;

fn opts(batch_size: usize) -> DbOpt {
    DbOpt {
        batch_size,
        db_host: String::from("localhost"),
        db_user: String::from("dev"),
        db_password: String::from("dev_pass"),
        db_name: String::from("discogs"),
    }
}

fn st(tag: &str) -> XmlEvent {
    XmlEvent::Start(String::from(tag), Vec::new())
}

fn sta(tag: &str, attrs: &[&str]) -> XmlEvent {
    let vals: Vec<String> = attrs.iter().map(|a| String::from(*a)).collect();
    XmlEvent::Start(String::from(tag), vals)
}

fn ema(tag: &str, attrs: &[&str]) -> XmlEvent {
    let vals: Vec<String> = attrs.iter().map(|a| String::from(*a)).collect();
    XmlEvent::Empty(String::from(tag), vals)
}

fn en(tag: &str) -> XmlEvent {
    XmlEvent::End(String::from(tag))
}

fn tx(t: &str) -> XmlEvent {
    XmlEvent::Text(String::from(t))
}

#[test]
fn parse_i32_plain_values() {
    assert_eq!(parse_i32("0"), Some(0));
    assert_eq!(parse_i32("42"), Some(42));
    assert_eq!(parse_i32("+12"), Some(12));
    assert_eq!(parse_i32("-7"), Some(-7));
    assert_eq!(parse_i32("007"), Some(7));
    assert_eq!(parse_i32("-0"), Some(0));
}

#[test]
fn parse_i32_bounds() {
    assert_eq!(parse_i32("2147483647"), Some(i32::MAX));
    assert_eq!(parse_i32("2147483648"), None);
    assert_eq!(parse_i32("-2147483648"), Some(i32::MIN));
    assert_eq!(parse_i32("-2147483649"), None);
    assert_eq!(parse_i32("99999999999999999999999"), None);
    assert_eq!(parse_i32("00000000000000000000001"), Some(1));
}

#[test]
fn parse_i32_rejects_junk() {
    assert_eq!(parse_i32(""), None);
    assert_eq!(parse_i32("+"), None);
    assert_eq!(parse_i32("-"), None);
    assert_eq!(parse_i32("1a"), None);
    assert_eq!(parse_i32("a1"), None);
    assert_eq!(parse_i32(" 1"), None);
    assert_eq!(parse_i32("1 "), None);
    assert_eq!(parse_i32("1_000"), None);
    assert_eq!(parse_i32("½"), None);
}

#[test]
fn integer_field_error_carries_breadcrumb() {
    let o = opts(100);
    let mut p = ArtistsParser::new(&o);
    for ev in [st("artists"), st("artist"), st("id")] {
        p.process(ev).unwrap();
    }
    let err = p.process(tx("abc")).unwrap_err();
    assert_eq!(
        err,
        LoadError::Parse { at: String::from("artist.id"), raw: String::from("abc") }
    );
    assert_eq!(
        err.describe(),
        "integer expected at artist.id, got \"abc\""
    );
}

#[test]
fn parser_state_survives_a_rejected_value() {
    let o = opts(100);
    let mut p = ArtistsParser::new(&o);
    for ev in [st("artists"), st("artist"), st("id")] {
        p.process(ev).unwrap();
    }
    assert!(p.process(tx("not a number")).is_err());
    // The failed event left the parser untouched; a good value still lands.
    p.process(tx("31")).unwrap();
    for ev in [en("id"), en("artist")] {
        p.process(ev).unwrap();
    }
    let writes = p.process(en("artists")).unwrap();
    assert_eq!(writes[0].rows[0][0], SqlValue::Integer(31));
}

#[test]
fn unescaping_resolves_entities() {
    let o = opts(100);
    let mut p = ArtistsParser::new(&o);
    for ev in [st("artists"), st("artist"), st("name")] {
        p.process(ev).unwrap();
    }
    p.process(tx("Tom &amp; Jerry &lt;live&gt;")).unwrap();
    for ev in [en("name"), en("artist")] {
        p.process(ev).unwrap();
    }
    let writes = p.process(en("artists")).unwrap();
    assert_eq!(
        writes[0].rows[0][1],
        SqlValue::Text(String::from("Tom & Jerry <live>"))
    );
}

#[test]
fn multibyte_text_survives_unescaping() {
    let o = opts(100);
    let mut p = ArtistsParser::new(&o);
    for ev in [st("artists"), st("artist"), st("name")] {
        p.process(ev).unwrap();
    }
    p.process(tx("Caf\u{e9} \u{2014} №9 &#233;&#x1F3B5;")).unwrap();
    for ev in [en("name"), en("artist")] {
        p.process(ev).unwrap();
    }
    let writes = p.process(en("artists")).unwrap();
    assert_eq!(
        writes[0].rows[0][1],
        SqlValue::Text(String::from("Caf\u{e9} \u{2014} №9 \u{e9}\u{1F3B5}"))
    );
}

#[test]
fn malformed_escape_is_an_xml_error() {
    let o = opts(100);
    let mut p = ArtistsParser::new(&o);
    for ev in [st("artists"), st("artist"), st("name")] {
        p.process(ev).unwrap();
    }
    let err = p.process(tx("broken &nosuchentity; text")).unwrap_err();
    assert_eq!(
        err,
        LoadError::Xml { raw: String::from("broken &nosuchentity; text") }
    );
}

#[test]
fn release_missing_attribute() {
    let o = opts(100);
    let mut p = ReleasesParser::new(&o);
    p.process(st("releases")).unwrap();
    let err = p.process(sta("release", &["10"])).unwrap_err();
    assert_eq!(err, LoadError::Attr { index: 1 });
    assert_eq!(err.describe(), "missing mandatory attribute");
}

#[test]
fn master_missing_attribute() {
    let o = opts(100);
    let mut p = MastersParser::new(&o);
    p.process(st("masters")).unwrap();
    let err = p.process(st("master")).unwrap_err();
    assert_eq!(err, LoadError::Attr { index: 0 });
}

#[test]
fn release_label_missing_attribute() {
    let o = opts(100);
    let mut p = ReleasesParser::new(&o);
    for ev in [st("releases"), sta("release", &["1", "Accepted"]), st("labels")] {
        p.process(ev).unwrap();
    }
    let err = p.process(ema("label", &["LN", "C1"])).unwrap_err();
    assert_eq!(err, LoadError::Attr { index: 2 });
}

#[test]
fn release_bad_id_attribute() {
    let o = opts(100);
    let mut p = ReleasesParser::new(&o);
    p.process(st("releases")).unwrap();
    let err = p.process(sta("release", &["ten", "Accepted"])).unwrap_err();
    assert_eq!(
        err,
        LoadError::Parse { at: String::from("release.id"), raw: String::from("ten") }
    );
}

#[test]
fn attribute_values_are_unescaped() {
    let o = opts(100);
    let mut p = ReleasesParser::new(&o);
    let events = vec![
        st("releases"),
        sta("release", &["77", "Acc&amp;epted"]),
        en("release"),
    ];
    for ev in events {
        p.process(ev).unwrap();
    }
    let writes = p.process(en("releases")).unwrap();
    assert_eq!(writes[0].rows[0][1], SqlValue::Text(String::from("Acc&epted")));
}

#[test]
fn family_detection() {
    assert_eq!(detect_family(&st("artists")), Some(Family::Artists));
    assert_eq!(detect_family(&st("labels")), Some(Family::Labels));
    assert_eq!(detect_family(&st("masters")), Some(Family::Masters));
    assert_eq!(detect_family(&st("releases")), Some(Family::Releases));
    assert_eq!(detect_family(&st("dump:releases")), Some(Family::Releases));
    assert_eq!(detect_family(&st("something")), None);
    assert_eq!(detect_family(&tx("releases")), None);
    assert_eq!(detect_family(&en("releases")), None);
    assert_eq!(detect_family(&XmlEvent::Other), None);
}

#[test]
fn xml_error_description() {
    let e = LoadError::Xml { raw: String::from("&bad;") };
    assert_eq!(e.describe(), "malformed XML escape in \"&bad;\"");
}
