//! End-to-end tests of the document parser over real XML bytes.

use mojxml::parser::{Error, MojxmlParser};

fn parse_str(doc: &str, skip_arbitrary: bool) -> Result<mojxml::ParsedData, Error> {
    let mut parser = MojxmlParser::new(doc.as_bytes().to_vec());
    parser.skip_arbitrary_crs(skip_arbitrary);
    parser.parse()
}

fn full_doc(chiban: &str) -> String {
    let mut s = String::new();
    s.push_str("<地図>\n<空間属性>\n");
    s.push_str(
        "<GM_Point id=\"p1\"><GM_Point.position><DirectPosition><X>36.5</X><Y>139.5</Y></DirectPosition></GM_Point.position></GM_Point>\n",
    );
    s.push_str(
        "<GM_Curve id=\"c1\"><GM_Curve.segment><GM_LineString><GM_PointRef.point idref=\"p1\"/><GM_Position.direct><X>36.6</X><Y>139.6</Y></GM_Position.direct></GM_LineString></GM_Curve.segment></GM_Curve>\n",
    );
    s.push_str(
        "<GM_Curve id=\"c2\"><GM_Curve.segment><GM_LineString><GM_Position.direct><X>1.5</X><Y>2.5</Y></GM_Position.direct><GM_PointRef.point idref=\"p1\"/></GM_LineString></GM_Curve.segment></GM_Curve>\n",
    );
    s.push_str(
        "<GM_Surface id=\"s1\"><GM_Surface.patch><GM_Polygon.boundary><GM_SurfaceBoundary.exterior><GM_Ring><GM_CompositeCurve.generator idref=\"c1\"/><GM_CompositeCurve.generator idref=\"c2\"/></GM_Ring></GM_SurfaceBoundary.exterior></GM_Polygon.boundary></GM_Surface.patch></GM_Surface>\n",
    );
    s.push_str("</空間属性>\n<主題属性>\n");
    s.push_str(&format!(
        "<筆 id=\"f1\"><大字コード>0001</大字コード><地番>{}</地番><精度区分>甲2</精度区分><形状 idref=\"s1\"/></筆>\n",
        chiban
    ));
    s.push_str("</主題属性>\n</地図>\n");
    s
}

#[test]
fn parses_full_document() {
    let data = parse_str(&full_doc("123番"), false).expect("well-formed document");
    let p = data.points.get("p1").expect("point recorded");
    assert_eq!(p.x, "36.5");
    assert_eq!(p.y, "139.5");
    let seg = data.segments.get("c1").expect("segment recorded");
    match &seg.start {
        mojxml::PointRef::Indirect(id) => assert_eq!(id, "p1"),
        _ => panic!("first endpoint of c1 should be indirect"),
    }
    let rings = data.surfaces.get("s1").expect("surface recorded");
    assert_eq!(rings.len(), 1);
    assert_eq!(rings[0], vec!["c1".to_string(), "c2".to_string()]);
    let fude = data.fudes.get("f1").expect("parcel recorded");
    assert_eq!(fude.surface_id, "s1");
    assert_eq!(fude.attributes.chiban.as_deref(), Some("123番"));
    assert_eq!(fude.attributes.oaza_code.as_deref(), Some("0001"));
    assert_eq!(fude.attributes.accuracy_class.as_deref(), Some("甲2"));
    assert_eq!(fude.attributes.koaza, None);
}

#[test]
fn resolves_with_axis_swap() {
    // The indirect endpoint of c1 resolves to the stored point with its two
    // components exchanged; the direct endpoint of c2 passes through.
    let data = parse_str(&full_doc("123番"), false).expect("well-formed document");
    let rings = data.resolve_surface("s1").expect("resolvable surface");
    assert_eq!(rings.len(), 1);
    assert_eq!(rings[0].len(), 2);
    assert_eq!(rings[0][0].x, "139.5");
    assert_eq!(rings[0][0].y, "36.5");
    assert_eq!(rings[0][1].x, "1.5");
    assert_eq!(rings[0][1].y, "2.5");
}

fn curve_doc(endpoints: usize) -> String {
    let mut s = String::new();
    s.push_str("<地図><空間属性><GM_Curve id=\"c1\"><GM_Curve.segment><GM_LineString>");
    for i in 0..endpoints {
        s.push_str(&format!(
            "<GM_Position.direct><X>{}.0</X><Y>{}.5</Y></GM_Position.direct>",
            i, i
        ));
    }
    s.push_str("</GM_LineString></GM_Curve.segment></GM_Curve></空間属性></地図>");
    s
}

#[test]
fn curve_with_zero_endpoints_fails() {
    let r = parse_str(&curve_doc(0), false);
    assert!(matches!(r, Err(Error::EndpointCount)));
}

#[test]
fn curve_with_one_endpoint_fails() {
    let r = parse_str(&curve_doc(1), false);
    assert!(matches!(r, Err(Error::EndpointCount)));
}

#[test]
fn curve_with_two_endpoints_succeeds() {
    let data = parse_str(&curve_doc(2), false).expect("two endpoints are exactly right");
    assert!(data.segments.get("c1").is_some());
}

#[test]
fn curve_with_three_endpoints_fails() {
    let r = parse_str(&curve_doc(3), false);
    assert!(matches!(r, Err(Error::EndpointCount)));
}

#[test]
fn parcel_outside_district_is_excluded() {
    let data = parse_str(&full_doc("地区外"), false).expect("exclusion is not an error");
    assert!(data.fudes.get("f1").is_none());
    assert_eq!(data.fudes.len(), 0);
    // The geometry is still there.
    assert!(data.surfaces.get("s1").is_some());
}

#[test]
fn parcel_on_separate_sheet_is_excluded() {
    let data = parse_str(&full_doc("12番の別図あり"), false).expect("exclusion is not an error");
    assert!(data.fudes.get("f1").is_none());
}

#[test]
fn ordinary_parcel_is_kept() {
    let data = parse_str(&full_doc("123番"), false).expect("ordinary parcel");
    assert!(data.fudes.get("f1").is_some());
    assert_eq!(data.fudes.len(), 1);
}

fn crs_doc(crs: &str) -> String {
    let mut s = String::new();
    s.push_str("<地図><座標系>");
    s.push_str(crs);
    s.push_str("</座標系><空間属性><GM_Point id=\"p9\"><GM_Point.position><DirectPosition><X>1.0</X><Y>2.0</Y></DirectPosition></GM_Point.position></GM_Point></空間属性></地図>");
    s
}

#[test]
fn arbitrary_crs_is_skipped_when_asked() {
    let r = parse_str(&crs_doc("任意座標系"), true);
    assert!(matches!(r, Err(Error::SkipAll)));
}

#[test]
fn arbitrary_crs_parses_when_not_asked() {
    let data = parse_str(&crs_doc("任意座標系"), false).expect("flag off: parse normally");
    assert!(data.points.get("p9").is_some());
}

#[test]
fn named_crs_parses_with_flag_on() {
    let data = parse_str(&crs_doc("公共座標9系"), true).expect("a named system is kept");
    assert!(data.points.get("p9").is_some());
}

#[test]
fn surface_without_exterior_fails() {
    let doc = "<地図><空間属性><GM_Surface id=\"s1\"><GM_Surface.patch><GM_Polygon.boundary><GM_SurfaceBoundary.interior><GM_Ring><GM_CompositeCurve.generator idref=\"c1\"/></GM_Ring></GM_SurfaceBoundary.interior></GM_Polygon.boundary></GM_Surface.patch></GM_Surface></空間属性></地図>";
    let r = parse_str(doc, false);
    assert!(matches!(r, Err(Error::MissingExteriorRing)));
}

#[test]
fn second_exterior_ring_fails() {
    let doc = "<地図><空間属性><GM_Surface id=\"s1\"><GM_Surface.patch><GM_Polygon.boundary><GM_SurfaceBoundary.exterior><GM_Ring/></GM_SurfaceBoundary.exterior><GM_SurfaceBoundary.exterior><GM_Ring/></GM_SurfaceBoundary.exterior></GM_Polygon.boundary></GM_Surface.patch></GM_Surface></空間属性></地図>";
    let r = parse_str(doc, false);
    assert!(matches!(r, Err(Error::MultipleExteriorRings)));
}

#[test]
fn exterior_after_interior_is_stored_first() {
    let doc = "<地図><空間属性><GM_Surface id=\"s1\"><GM_Surface.patch><GM_Polygon.boundary><GM_SurfaceBoundary.interior><GM_Ring><GM_CompositeCurve.generator idref=\"ci\"/></GM_Ring></GM_SurfaceBoundary.interior><GM_SurfaceBoundary.exterior><GM_Ring><GM_CompositeCurve.generator idref=\"ce\"/></GM_Ring></GM_SurfaceBoundary.exterior></GM_Polygon.boundary></GM_Surface.patch></GM_Surface></空間属性></地図>";
    let data = parse_str(doc, false).expect("one exterior among interiors");
    let rings = data.surfaces.get("s1").expect("surface recorded");
    assert_eq!(rings.len(), 2);
    assert_eq!(rings[0], vec!["ce".to_string()]);
    assert_eq!(rings[1], vec!["ci".to_string()]);
}

#[test]
fn geometry_without_id_fails() {
    let doc = "<地図><空間属性><GM_Point><GM_Point.position/></GM_Point></空間属性></地図>";
    let r = parse_str(doc, false);
    assert!(matches!(r, Err(Error::MissingAttribute)));
}

#[test]
fn unknown_geometry_kind_fails() {
    let doc = "<地図><空間属性><GM_Sphere id=\"x\"/></空間属性></地図>";
    let r = parse_str(doc, false);
    assert!(matches!(r, Err(Error::UnexpectedElement(_))));
}

#[test]
fn unknown_root_fails() {
    let r = parse_str("<帳簿/>", false);
    assert!(matches!(r, Err(Error::UnexpectedElement(_))));
}

#[test]
fn non_numeric_coordinate_fails() {
    let doc = "<地図><空間属性><GM_Point id=\"p1\"><GM_Point.position><DirectPosition><X>abc</X><Y>2.0</Y></DirectPosition></GM_Point.position></GM_Point></空間属性></地図>";
    let r = parse_str(doc, false);
    assert!(matches!(r, Err(Error::InvalidCoordinate)));
}

#[test]
fn direct_position_missing_component_fails() {
    let doc = "<地図><空間属性><GM_Point id=\"p1\"><GM_Point.position><DirectPosition><X>1.0</X></DirectPosition></GM_Point.position></GM_Point></空間属性></地図>";
    let r = parse_str(doc, false);
    assert!(matches!(r, Err(Error::MissingCoordinate)));
}

#[test]
fn point_without_position_is_silently_absent() {
    let doc = "<地図><空間属性><GM_Point id=\"p1\"><GM_Point.position/></GM_Point></空間属性></地図>";
    let data = parse_str(doc, false).expect("a bare point is not an error");
    assert!(data.points.get("p1").is_none());
}

#[test]
fn unknown_parcel_field_fails() {
    let doc = "<地図><主題属性><筆 id=\"f1\"><秘密>x</秘密><形状 idref=\"s1\"/></筆></主題属性></地図>";
    let r = parse_str(doc, false);
    assert!(matches!(r, Err(Error::UnexpectedAttribute(_))));
}

#[test]
fn parcel_without_shape_fails() {
    let doc = "<地図><主題属性><筆 id=\"f1\"><地番>1番</地番></筆></主題属性></地図>";
    let r = parse_str(doc, false);
    assert!(matches!(r, Err(Error::MissingSurfaceRef)));
}

#[test]
fn skipped_record_kinds_are_ignored() {
    let doc = "<地図><主題属性><基準点 id=\"k1\"><名称>x</名称></基準点><筆界点 id=\"k2\"/><筆界線 id=\"k3\"/><仮行政界線 id=\"k4\"/></主題属性></地図>";
    let data = parse_str(doc, false).expect("skipped kinds are not errors");
    assert_eq!(data.fudes.len(), 0);
}

#[test]
fn undetermined_boundary_field_is_skipped() {
    let doc = "<地図><主題属性><筆 id=\"f1\"><筆界未定構成筆><内訳>1番</内訳><内訳>2番</内訳></筆界未定構成筆><形状 idref=\"s1\"/></筆></主題属性></地図>";
    let data = parse_str(doc, false).expect("the skipped field is ignored wholesale");
    let fude = data.fudes.get("f1").expect("parcel recorded");
    assert_eq!(fude.attributes.hikkai_mitei, None);
}

#[test]
fn escaped_text_is_unescaped() {
    let doc = "<地図><主題属性><筆 id=\"f1\"><大字名>A&amp;B</大字名><形状 idref=\"s1\"/></筆></主題属性></地図>";
    let data = parse_str(doc, false).expect("escaped text");
    let fude = data.fudes.get("f1").expect("parcel recorded");
    assert_eq!(fude.attributes.oaza.as_deref(), Some("A&B"));
}

#[test]
fn text_is_trimmed_whole_around_references() {
    // The run is trimmed as one piece: whitespace around the reference
    // survives, whitespace at the run's edges goes.
    let doc = "<地図><主題属性><筆 id=\"f1\"><大字名> A &amp; B </大字名><形状 idref=\"s1\"/></筆></主題属性></地図>";
    let data = parse_str(doc, false).expect("escaped text");
    let fude = data.fudes.get("f1").expect("parcel recorded");
    assert_eq!(fude.attributes.oaza.as_deref(), Some("A & B"));
}

#[test]
fn parsing_the_same_bytes_twice_agrees() {
    let doc = full_doc("123番");
    let a = parse_str(&doc, false).expect("well-formed document");
    let b = parse_str(&doc, false).expect("well-formed document");
    assert_eq!(a.fudes.len(), b.fudes.len());
    let ra = a.resolve_surface("s1").expect("resolvable");
    let rb = b.resolve_surface("s1").expect("resolvable");
    assert_eq!(ra.len(), rb.len());
    assert_eq!(ra[0][0].x, rb[0][0].x);
    assert_eq!(ra[0][0].y, rb[0][0].y);
}

#[test]
fn map_sheet_boundary_is_skipped() {
    let doc = "<地図><図郭><座標>1</座標><座標>2</座標></図郭><空間属性></空間属性></地図>";
    let data = parse_str(doc, false).expect("the map-sheet boundary is skipped wholesale");
    assert!(data.points.get("1").is_none());
}

#[test]
fn malformed_xml_fails() {
    let r = parse_str("<地図><空間属性></地図>", false);
    assert!(matches!(r, Err(Error::Xml(_))));
}
