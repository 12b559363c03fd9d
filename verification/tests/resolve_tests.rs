//! Tests of the topology resolver over hand-built tables.

use mojxml::{ParsedData, Point, PointRef, Segment};
use mojxml::data::ResolveError;

fn point(x: &str, y: &str) -> Point {
    Point { x: x.to_string(), y: y.to_string() }
}

fn table_with_one_ring() -> ParsedData {
    let mut d = ParsedData::new();
    d.points.insert("p1".to_string(), point("36.5", "139.5"));
    d.segments.insert(
        "c1".to_string(),
        Segment {
            start: PointRef::Indirect("p1".to_string()),
            end: PointRef::Direct(point("0.0", "0.0")),
        },
    );
    d.segments.insert(
        "c2".to_string(),
        Segment {
            start: PointRef::Direct(point("1.5", "2.5")),
            end: PointRef::Indirect("p1".to_string()),
        },
    );
    d.surfaces.insert(
        "s1".to_string(),
        vec![vec!["c1".to_string(), "c2".to_string()]],
    );
    d
}

#[test]
fn indirect_endpoint_swaps_axes() {
    // A point recorded as (x, y) comes back as (y, x) through an indirect
    // reference, while a direct endpoint passes through unchanged.
    let d = table_with_one_ring();
    let rings = d.resolve_surface("s1").expect("all identifiers resolve");
    assert_eq!(rings.len(), 1);
    assert_eq!(rings[0][0].x, "139.5");
    assert_eq!(rings[0][0].y, "36.5");
    assert_eq!(rings[0][1].x, "1.5");
    assert_eq!(rings[0][1].y, "2.5");
}

#[test]
fn only_first_endpoint_contributes() {
    // Each segment contributes exactly one vertex: its first endpoint.
    let d = table_with_one_ring();
    let rings = d.resolve_surface("s1").expect("all identifiers resolve");
    assert_eq!(rings[0].len(), 2);
}

#[test]
fn missing_surface_is_reported() {
    let d = table_with_one_ring();
    match d.resolve_surface("nope") {
        Err(ResolveError::SurfaceNotFound(id)) => assert_eq!(id, "nope"),
        _ => panic!("a missing surface must be reported by name"),
    }
}

#[test]
fn missing_segment_is_reported() {
    let mut d = ParsedData::new();
    d.surfaces.insert("s1".to_string(), vec![vec!["ghost".to_string()]]);
    match d.resolve_surface("s1") {
        Err(ResolveError::SegmentNotFound(id)) => assert_eq!(id, "ghost"),
        _ => panic!("a missing segment must be reported by name"),
    }
}

#[test]
fn missing_point_is_reported() {
    let mut d = ParsedData::new();
    d.segments.insert(
        "c1".to_string(),
        Segment {
            start: PointRef::Indirect("ghost".to_string()),
            end: PointRef::Indirect("ghost".to_string()),
        },
    );
    d.surfaces.insert("s1".to_string(), vec![vec!["c1".to_string()]]);
    match d.resolve_surface("s1") {
        Err(ResolveError::PointNotFound(id)) => assert_eq!(id, "ghost"),
        _ => panic!("a missing point must be reported by name"),
    }
}

#[test]
fn ring_order_is_preserved() {
    let mut d = table_with_one_ring();
    d.surfaces.insert(
        "s2".to_string(),
        vec![vec!["c1".to_string()], vec!["c2".to_string()]],
    );
    let rings = d.resolve_surface("s2").expect("all identifiers resolve");
    assert_eq!(rings.len(), 2);
    assert_eq!(rings[0][0].x, "139.5");
    assert_eq!(rings[1][0].x, "1.5");
}

#[test]
fn empty_parcel_attributes_are_all_absent() {
    let a = mojxml::FudeAttributes::default();
    assert_eq!(a.id, "");
    assert_eq!(a.chiban, None);
    assert_eq!(a.oaza, None);
    assert_eq!(a.coord_class, None);
}

#[test]
fn float_text_grammar() {
    assert!(mojxml::text::is_float_text("123.45"));
    assert!(mojxml::text::is_float_text("-1e5"));
    assert!(mojxml::text::is_float_text("+0.5E-3"));
    assert!(mojxml::text::is_float_text("36."));
    assert!(mojxml::text::is_float_text(".5"));
    assert!(!mojxml::text::is_float_text(""));
    assert!(!mojxml::text::is_float_text("."));
    assert!(!mojxml::text::is_float_text("abc"));
    assert!(!mojxml::text::is_float_text("1.2.3"));
    assert!(!mojxml::text::is_float_text("1e"));
    assert!(!mojxml::text::is_float_text("--1"));
}
