//! The document parser: a depth-tracked state machine over the XML token
//! stream that fills the four identifier-keyed tables of a
//! [`ParsedData`](crate::data::ParsedData), or fails with a structured
//! [`Error`].
//!
//! The machine is a stack of frames, one per open sub-parse. Each token moves
//! the machine one step: [`sp_step`] is the mathematical transition, and the
//! executable parser is proved to follow it token by token.

use vstd::prelude::*;

use crate::data::DocV;
use crate::data::Fude;
use crate::data::FudeAttributes;
use crate::data::FudeAttributesV;
use crate::data::FudeV;
use crate::data::ParsedData;
use crate::data::Point;
use crate::data::PointRef;
use crate::data::PointRefV;
use crate::data::PointV;
use crate::data::Segment;
use crate::data::SegmentV;
use crate::events::EventV;
use crate::events::RawEvent;
use crate::events::sp_tokens;
use crate::events::tokenize;
use crate::text::parses_as_float;
use crate::text::is_float_text;
use crate::text::sp_contains;
use crate::text::str_contains;
use crate::text::str_eq;
use crate::text::unescape_text;
use crate::text::xml_unescape;

verus! {

/// A structured parse failure, or the deliberate skip signal.
#[derive(Debug, Clone)]
pub enum Error {
    /// Malformed XML, with the reader's message.
    Xml(String),
    /// An element that the closed set of known tags does not hold.
    UnexpectedElement(String),
    /// Character data where none is allowed.
    UnexpectedText,
    /// A start or end tag where character data is required.
    ExpectedText,
    /// A geometry element without its identifier attribute, or an indirect
    /// endpoint without its reference attribute.
    MissingAttribute,
    /// A coordinate component that is not a floating-point literal.
    InvalidCoordinate,
    /// A direct position closed without both of its components.
    MissingCoordinate,
    /// A curve with fewer or more than two endpoints.
    EndpointCount,
    /// A surface closed without an exterior boundary.
    MissingExteriorRing,
    /// A surface with a second exterior boundary.
    MultipleExteriorRings,
    /// A parcel record closed without its surface reference.
    MissingSurfaceRef,
    /// A parcel field name outside the fixed set.
    UnexpectedAttribute(String),
    /// The input ended inside an open sub-parse.
    UnexpectedEof,
    /// The whole document is to be discarded: its declared coordinate system
    /// is the arbitrary one. Not a failure.
    SkipAll,
}

/// Mathematical value of an [`Error`]. The reader's message on malformed XML
/// is diagnostic only and carries no weight here.
pub enum ErrorV {
    Xml,
    UnexpectedElement(Seq<char>),
    UnexpectedText,
    ExpectedText,
    MissingAttribute,
    InvalidCoordinate,
    MissingCoordinate,
    EndpointCount,
    MissingExteriorRing,
    MultipleExteriorRings,
    MissingSurfaceRef,
    UnexpectedAttribute(Seq<char>),
    UnexpectedEof,
    SkipAll,
}

impl View for Error {
    type V = ErrorV;

    open spec fn view(&self) -> ErrorV {
        match self {
            Error::Xml(_) => ErrorV::Xml,
            Error::UnexpectedElement(n) => ErrorV::UnexpectedElement(n@),
            Error::UnexpectedText => ErrorV::UnexpectedText,
            Error::ExpectedText => ErrorV::ExpectedText,
            Error::MissingAttribute => ErrorV::MissingAttribute,
            Error::InvalidCoordinate => ErrorV::InvalidCoordinate,
            Error::MissingCoordinate => ErrorV::MissingCoordinate,
            Error::EndpointCount => ErrorV::EndpointCount,
            Error::MissingExteriorRing => ErrorV::MissingExteriorRing,
            Error::MultipleExteriorRings => ErrorV::MultipleExteriorRings,
            Error::MissingSurfaceRef => ErrorV::MissingSurfaceRef,
            Error::UnexpectedAttribute(n) => ErrorV::UnexpectedAttribute(n@),
            Error::UnexpectedEof => ErrorV::UnexpectedEof,
            Error::SkipAll => ErrorV::SkipAll,
        }
    }
}

/// Which component of a direct position is being read.
#[derive(Debug, Clone, Copy, PartialEq, Eq, Structural)]
pub enum Mode {
    Blank,
    AxisX,
    AxisY,
}

/// The parcel field a text sub-parse is about to fill.
#[derive(Debug, Clone, Copy, PartialEq, Eq, Structural)]
pub enum FieldKind {
    OazaCode,
    ChomeCode,
    KoazaCode,
    YobiCode,
    Oaza,
    Chome,
    Koaza,
    Yobi,
    Chiban,
    AccuracyClass,
    CoordClass,
}

/// Where a finished direct position delivers its coordinate: back into a
/// point sub-parse, or as the next endpoint of a curve sub-parse.
#[derive(Debug, Clone)]
pub enum DirectRet {
    ToPoint { id: String, level: usize, },
    ToCurve { id: String, level: usize, pts: Vec<PointRef>, },
}

/// Mathematical value of a [`DirectRet`].
pub enum DirectRetV {
    ToPoint { id: Seq<char>, level: usize, },
    ToCurve { id: Seq<char>, level: usize, pts: Seq<PointRefV>, },
}

impl View for DirectRet {
    type V = DirectRetV;

    open spec fn view(&self) -> DirectRetV {
        match self {
            DirectRet::ToPoint { id, level } => DirectRetV::ToPoint { id: id@, level: *level },
            DirectRet::ToCurve { id, level, pts } => DirectRetV::ToCurve {
                id: id@,
                level: *level,
                pts: pts.deep_view(),
            },
        }
    }
}

/// One open sub-parse. `level` counts starts not yet matched by ends within
/// the sub-parse, so that optional sub-content can be skipped structurally.
#[derive(Debug, Clone)]
pub enum Frame {
    /// Outside the root element.
    Root,
    /// Inside the root element.
    Chizu { level: usize, },
    /// Inside the spatial section.
    Geometric,
    /// Inside the thematic section.
    Thematic,
    /// Inside a point element.
    Point { id: String, level: usize, pt: Option<Point>, },
    /// Inside a direct position.
    DirectPos { mode: Mode, x: Option<String>, y: Option<String>, ret: DirectRet, },
    /// Inside a curve element.
    Curve { id: String, level: usize, pts: Vec<PointRef>, },
    /// Inside a surface element, between its boundary children.
    Surface { id: String, level: usize, found_exterior: bool, rings: Vec<Vec<String>>, },
    /// Inside one boundary ring of a surface; carries the suspended surface.
    Ring {
        surface_id: String,
        surface_level: usize,
        found_exterior: bool,
        rings: Vec<Vec<String>>,
        exterior: bool,
        level: usize,
        ring: Vec<String>,
    },
    /// Inside a parcel record.
    Fude { id: String, level: usize, attributes: FudeAttributes, surface_id: Option<String>, },
    /// Reading the text of one parcel field; carries the suspended record.
    FudeField {
        id: String,
        level: usize,
        attributes: FudeAttributes,
        surface_id: Option<String>,
        field: FieldKind,
    },
    /// Reading the declared coordinate system's text; carries the suspended
    /// root level.
    CrsCheck { level: usize, },
    /// Skipping a subtree wholesale until its matching end.
    Skip { depth: usize, },
}

/// Mathematical value of a [`Frame`].
pub enum FrameV {
    Root,
    Chizu { level: usize, },
    Geometric,
    Thematic,
    Point { id: Seq<char>, level: usize, pt: Option<PointV>, },
    DirectPos { mode: Mode, x: Option<Seq<char>>, y: Option<Seq<char>>, ret: DirectRetV, },
    Curve { id: Seq<char>, level: usize, pts: Seq<PointRefV>, },
    Surface { id: Seq<char>, level: usize, found_exterior: bool, rings: Seq<Seq<Seq<char>>>, },
    Ring {
        surface_id: Seq<char>,
        surface_level: usize,
        found_exterior: bool,
        rings: Seq<Seq<Seq<char>>>,
        exterior: bool,
        level: usize,
        ring: Seq<Seq<char>>,
    },
    Fude { id: Seq<char>, level: usize, attributes: FudeAttributesV, surface_id: Option<Seq<char>>, },
    FudeField {
        id: Seq<char>,
        level: usize,
        attributes: FudeAttributesV,
        surface_id: Option<Seq<char>>,
        field: FieldKind,
    },
    CrsCheck { level: usize, },
    Skip { depth: usize, },
}

impl View for Frame {
    type V = FrameV;

    open spec fn view(&self) -> FrameV {
        match self {
            Frame::Root => FrameV::Root,
            Frame::Chizu { level } => FrameV::Chizu { level: *level },
            Frame::Geometric => FrameV::Geometric,
            Frame::Thematic => FrameV::Thematic,
            Frame::Point { id, level, pt } => FrameV::Point {
                id: id@,
                level: *level,
                pt: pt.deep_view(),
            },
            Frame::DirectPos { mode, x, y, ret } => FrameV::DirectPos {
                mode: *mode,
                x: x.deep_view(),
                y: y.deep_view(),
                ret: ret@,
            },
            Frame::Curve { id, level, pts } => FrameV::Curve {
                id: id@,
                level: *level,
                pts: pts.deep_view(),
            },
            Frame::Surface { id, level, found_exterior, rings } => FrameV::Surface {
                id: id@,
                level: *level,
                found_exterior: *found_exterior,
                rings: rings.deep_view(),
            },
            Frame::Ring { surface_id, surface_level, found_exterior, rings, exterior, level, ring } => FrameV::Ring {
                surface_id: surface_id@,
                surface_level: *surface_level,
                found_exterior: *found_exterior,
                rings: rings.deep_view(),
                exterior: *exterior,
                level: *level,
                ring: ring.deep_view(),
            },
            Frame::Fude { id, level, attributes, surface_id } => FrameV::Fude {
                id: id@,
                level: *level,
                attributes: attributes@,
                surface_id: surface_id.deep_view(),
            },
            Frame::FudeField { id, level, attributes, surface_id, field } => FrameV::FudeField {
                id: id@,
                level: *level,
                attributes: attributes@,
                surface_id: surface_id.deep_view(),
                field: *field,
            },
            Frame::CrsCheck { level } => FrameV::CrsCheck { level: *level },
            Frame::Skip { depth } => FrameV::Skip { depth: *depth },
        }
    }
}

impl DeepView for Frame {
    type V = FrameV;

    open spec fn deep_view(&self) -> FrameV {
        self.view()
    }
}

/// The whole machine: the frame stack (innermost sub-parse last) and the
/// tables filled so far.
pub struct State {
    pub stack: Vec<Frame>,
    pub doc: ParsedData,
}

/// Mathematical value of a [`State`].
#[verifier::ext_equal]
pub struct StateV {
    pub stack: Seq<FrameV>,
    pub doc: DocV,
}

impl View for State {
    type V = StateV;

    open spec fn view(&self) -> StateV {
        StateV { stack: self.stack.deep_view(), doc: self.doc@ }
    }
}

/// What one step yields: the next state, the finished tables, or a failure.
#[verifier::ext_equal]
pub enum StepV {
    Next(StateV),
    Done(DocV),
    Fail(ErrorV),
}

/// Executable counterpart of [`StepV`].
pub enum StepRes {
    Next(State),
    Done(ParsedData),
    Fail(Error),
}

/// Whether the executable step result carries exactly the mathematical one.
pub open spec fn step_matches(sv: StepV, r: StepRes) -> bool {
    match r {
        StepRes::Next(s2) => sv == StepV::Next(s2@),
        StepRes::Done(d) => sv == StepV::Done(d@),
        StepRes::Fail(e) => sv == StepV::Fail(e@),
    }
}

/// A depth counter one deeper. Saturates at the machine limit, which no
/// document that fits in memory can reach.
pub open spec fn sp_bump(l: usize) -> usize {
    if l == usize::MAX {
        l
    } else {
        (l + 1) as usize
    }
}

/// Executable counterpart of [`sp_bump`].
fn bump(l: usize) -> (r: usize)
    ensures
        r == sp_bump(l),
{
    if l == usize::MAX {
        l
    } else {
        l + 1
    }
}

/// The value of the first attribute with this key, if any.
pub open spec fn sp_find_attr(attrs: Seq<(Seq<char>, Seq<char>)>, key: Seq<char>) -> Option<
    Seq<char>,
>
    decreases attrs.len(),
{
    if attrs.len() == 0 {
        None
    } else if attrs[0].0 == key {
        Some(attrs[0].1)
    } else {
        sp_find_attr(attrs.skip(1), key)
    }
}

/// Executable counterpart of [`sp_find_attr`].
fn find_attr(attrs: &Vec<(String, String)>, key: &str) -> (r: Option<String>)
    ensures
        r.deep_view() == sp_find_attr(attrs.deep_view(), key@),
{
    let ghost av: Seq<(Seq<char>, Seq<char>)> = attrs.deep_view();
    proof {
        assert(av.skip(0) =~= av);
    }
    let n = attrs.len();
    for j in 0..n
        invariant
            n == attrs@.len(),
            av == attrs.deep_view(),
            sp_find_attr(av, key@) == sp_find_attr(av.skip(j as int), key@),
    {
        let ghost before: Seq<(Seq<char>, Seq<char>)> = av.skip(j as int);
        proof {
            assert(before[0] == av[j as int]);
            assert(before.skip(1) =~= av.skip(j as int + 1));
        }
        if str_eq(&attrs[j].0, key) {
            return Some(attrs[j].1.clone());
        }
    }
    proof {
        assert(av.skip(n as int) =~= Seq::<(Seq<char>, Seq<char>)>::empty());
    }
    None
}

/// Whether a parcel's lot-number text carries one of the two administrative
/// exclusion markers: outside the district, or on a separate sheet.
pub open spec fn sp_excluded(chiban: Option<Seq<char>>) -> bool {
    match chiban {
        Some(c) => sp_contains(c, "地区外"@) || sp_contains(c, "別図"@),
        None => false,
    }
}

/// Executable counterpart of [`sp_excluded`].
pub fn excluded(chiban: &Option<String>) -> (r: bool)
    ensures
        r == sp_excluded(chiban.deep_view()),
{
    match chiban {
        Some(c) => str_contains(c.as_str(), "地区外") || str_contains(c.as_str(), "別図"),
        None => false,
    }
}

/// One parcel field set to its text.
pub open spec fn sp_set_field(a: FudeAttributesV, f: FieldKind, v: Seq<char>) -> FudeAttributesV {
    match f {
        FieldKind::OazaCode => FudeAttributesV { oaza_code: Some(v), ..a },
        FieldKind::ChomeCode => FudeAttributesV { chome_code: Some(v), ..a },
        FieldKind::KoazaCode => FudeAttributesV { koaza_code: Some(v), ..a },
        FieldKind::YobiCode => FudeAttributesV { yobi_code: Some(v), ..a },
        FieldKind::Oaza => FudeAttributesV { oaza: Some(v), ..a },
        FieldKind::Chome => FudeAttributesV { chome: Some(v), ..a },
        FieldKind::Koaza => FudeAttributesV { koaza: Some(v), ..a },
        FieldKind::Yobi => FudeAttributesV { yobi: Some(v), ..a },
        FieldKind::Chiban => FudeAttributesV { chiban: Some(v), ..a },
        FieldKind::AccuracyClass => FudeAttributesV { accuracy_class: Some(v), ..a },
        FieldKind::CoordClass => FudeAttributesV { coord_class: Some(v), ..a },
    }
}

/// Executable counterpart of [`sp_set_field`].
fn set_field(a: FudeAttributes, f: FieldKind, v: String) -> (r: FudeAttributes)
    ensures
        r@ == sp_set_field(a@, f, v@),
{
    let r = match f {
        FieldKind::OazaCode => FudeAttributes { oaza_code: Some(v), ..a },
        FieldKind::ChomeCode => FudeAttributes { chome_code: Some(v), ..a },
        FieldKind::KoazaCode => FudeAttributes { koaza_code: Some(v), ..a },
        FieldKind::YobiCode => FudeAttributes { yobi_code: Some(v), ..a },
        FieldKind::Oaza => FudeAttributes { oaza: Some(v), ..a },
        FieldKind::Chome => FudeAttributes { chome: Some(v), ..a },
        FieldKind::Koaza => FudeAttributes { koaza: Some(v), ..a },
        FieldKind::Yobi => FudeAttributes { yobi: Some(v), ..a },
        FieldKind::Chiban => FudeAttributes { chiban: Some(v), ..a },
        FieldKind::AccuracyClass => FudeAttributes { accuracy_class: Some(v), ..a },
        FieldKind::CoordClass => FudeAttributes { coord_class: Some(v), ..a },
    };
    proof {
        assert(r@ =~= sp_set_field(a@, f, v@));
    }
    r
}

/// The parcel field a known field name denotes.
pub open spec fn sp_field_kind(name: Seq<char>) -> Option<FieldKind> {
    if name == "大字コード"@ {
        Some(FieldKind::OazaCode)
    } else if name == "丁目コード"@ {
        Some(FieldKind::ChomeCode)
    } else if name == "小字コード"@ {
        Some(FieldKind::KoazaCode)
    } else if name == "予備コード"@ {
        Some(FieldKind::YobiCode)
    } else if name == "大字名"@ {
        Some(FieldKind::Oaza)
    } else if name == "丁目名"@ {
        Some(FieldKind::Chome)
    } else if name == "小字名"@ {
        Some(FieldKind::Koaza)
    } else if name == "予備名"@ {
        Some(FieldKind::Yobi)
    } else if name == "地番"@ {
        Some(FieldKind::Chiban)
    } else if name == "精度区分"@ {
        Some(FieldKind::AccuracyClass)
    } else if name == "座標値種別"@ {
        Some(FieldKind::CoordClass)
    } else {
        None
    }
}

/// Executable counterpart of [`sp_field_kind`].
fn field_kind(name: &String) -> (r: Option<FieldKind>)
    ensures
        r == sp_field_kind(name@),
{
    if str_eq(name, "大字コード") {
        Some(FieldKind::OazaCode)
    } else if str_eq(name, "丁目コード") {
        Some(FieldKind::ChomeCode)
    } else if str_eq(name, "小字コード") {
        Some(FieldKind::KoazaCode)
    } else if str_eq(name, "予備コード") {
        Some(FieldKind::YobiCode)
    } else if str_eq(name, "大字名") {
        Some(FieldKind::Oaza)
    } else if str_eq(name, "丁目名") {
        Some(FieldKind::Chome)
    } else if str_eq(name, "小字名") {
        Some(FieldKind::Koaza)
    } else if str_eq(name, "予備名") {
        Some(FieldKind::Yobi)
    } else if str_eq(name, "地番") {
        Some(FieldKind::Chiban)
    } else if str_eq(name, "精度区分") {
        Some(FieldKind::AccuracyClass)
    } else if str_eq(name, "座標値種別") {
        Some(FieldKind::CoordClass)
    } else {
        None
    }
}

/// One step of the machine for the outermost frame: only the root element
/// (or the end of input) is acceptable here.
pub open spec fn sp_root_step(rest: Seq<FrameV>, doc: DocV, ev: EventV) -> StepV {
    match ev {
        EventV::Start { name, attrs } => if name == "地図"@ {
            StepV::Next(
                StateV {
                    stack: rest.push(FrameV::Root).push(FrameV::Chizu { level: 0 }),
                    doc,
                },
            )
        } else {
            StepV::Fail(ErrorV::UnexpectedElement(name))
        },
        EventV::Text(_) => StepV::Fail(ErrorV::UnexpectedText),
        EventV::Eof => StepV::Done(doc),
        _ => StepV::Next(StateV { stack: rest.push(FrameV::Root), doc }),
    }
}

/// One step inside the root element: dispatch to the spatial or thematic
/// section, skip the map-sheet boundary wholesale, check the declared
/// coordinate system when asked to, and skip anything else by depth.
pub open spec fn sp_chizu_step(
    flag: bool,
    rest: Seq<FrameV>,
    doc: DocV,
    level: usize,
    ev: EventV,
) -> StepV {
    match ev {
        EventV::Start { name, attrs } => if name == "空間属性"@ {
            StepV::Next(
                StateV {
                    stack: rest.push(FrameV::Chizu { level }).push(FrameV::Geometric),
                    doc,
                },
            )
        } else if name == "主題属性"@ {
            StepV::Next(
                StateV { stack: rest.push(FrameV::Chizu { level }).push(FrameV::Thematic), doc },
            )
        } else if name == "図郭"@ {
            StepV::Next(
                StateV {
                    stack: rest.push(FrameV::Chizu { level }).push(FrameV::Skip { depth: 1 }),
                    doc,
                },
            )
        } else if flag && name == "座標系"@ {
            StepV::Next(StateV { stack: rest.push(FrameV::CrsCheck { level }), doc })
        } else {
            StepV::Next(StateV { stack: rest.push(FrameV::Chizu { level: sp_bump(level) }), doc })
        },
        EventV::End => if level == 0 {
            StepV::Next(StateV { stack: rest, doc })
        } else {
            StepV::Next(
                StateV { stack: rest.push(FrameV::Chizu { level: (level - 1) as usize }), doc },
            )
        },
        EventV::Eof => StepV::Fail(ErrorV::UnexpectedEof),
        _ => StepV::Next(StateV { stack: rest.push(FrameV::Chizu { level }), doc }),
    }
}

/// One step inside the spatial section: every child must carry an identifier
/// attribute and be one of the three geometry kinds.
pub open spec fn sp_geometric_step(rest: Seq<FrameV>, doc: DocV, ev: EventV) -> StepV {
    match ev {
        EventV::Start { name, attrs } => match sp_find_attr(attrs, "id"@) {
            None => StepV::Fail(ErrorV::MissingAttribute),
            Some(id) => if name == "GM_Point"@ {
                StepV::Next(
                    StateV {
                        stack: rest.push(FrameV::Geometric).push(
                            FrameV::Point { id, level: 0, pt: None },
                        ),
                        doc,
                    },
                )
            } else if name == "GM_Curve"@ {
                StepV::Next(
                    StateV {
                        stack: rest.push(FrameV::Geometric).push(
                            FrameV::Curve { id, level: 0, pts: Seq::empty() },
                        ),
                        doc,
                    },
                )
            } else if name == "GM_Surface"@ {
                StepV::Next(
                    StateV {
                        stack: rest.push(FrameV::Geometric).push(
                            FrameV::Surface {
                                id,
                                level: 0,
                                found_exterior: false,
                                rings: Seq::empty(),
                            },
                        ),
                        doc,
                    },
                )
            } else {
                StepV::Fail(ErrorV::UnexpectedElement(name))
            },
        },
        EventV::End => StepV::Next(StateV { stack: rest, doc }),
        EventV::Eof => StepV::Fail(ErrorV::UnexpectedEof),
        _ => StepV::Next(StateV { stack: rest.push(FrameV::Geometric), doc }),
    }
}

/// One step inside the thematic section: a parcel record (which must carry
/// an identifier), one of the four record kinds skipped wholesale, or an
/// error.
pub open spec fn sp_thematic_step(rest: Seq<FrameV>, doc: DocV, ev: EventV) -> StepV {
    match ev {
        EventV::Start { name, attrs } => if name == "筆"@ {
            match sp_find_attr(attrs, "id"@) {
                None => StepV::Fail(ErrorV::MissingAttribute),
                Some(id) => StepV::Next(
                    StateV {
                        stack: rest.push(FrameV::Thematic).push(
                            FrameV::Fude {
                                id,
                                level: 0,
                                attributes: FudeAttributesV::empty(),
                                surface_id: None,
                            },
                        ),
                        doc,
                    },
                ),
            }
        } else if name == "基準点"@ || name == "筆界点"@ || name == "仮行政界線"@ || name
            == "筆界線"@ {
            StepV::Next(
                StateV {
                    stack: rest.push(FrameV::Thematic).push(FrameV::Skip { depth: 1 }),
                    doc,
                },
            )
        } else {
            StepV::Fail(ErrorV::UnexpectedElement(name))
        },
        EventV::End => StepV::Next(StateV { stack: rest, doc }),
        EventV::Eof => StepV::Fail(ErrorV::UnexpectedEof),
        _ => StepV::Next(StateV { stack: rest.push(FrameV::Thematic), doc }),
    }
}

/// One step inside a point element: descend into its direct position, skip
/// anything else by depth, and record the coordinate (when one was found)
/// when the element closes. A point without a direct position yields no
/// table entry and no error.
pub open spec fn sp_point_step(
    rest: Seq<FrameV>,
    doc: DocV,
    id: Seq<char>,
    level: usize,
    pt: Option<PointV>,
    ev: EventV,
) -> StepV {
    match ev {
        EventV::Start { name, attrs } => if name == "DirectPosition"@ {
            StepV::Next(
                StateV {
                    stack: rest.push(
                        FrameV::DirectPos {
                            mode: Mode::Blank,
                            x: None,
                            y: None,
                            ret: DirectRetV::ToPoint { id, level },
                        },
                    ),
                    doc,
                },
            )
        } else {
            StepV::Next(
                StateV { stack: rest.push(FrameV::Point { id, level: sp_bump(level), pt }), doc },
            )
        },
        EventV::End => if level == 0 {
            match pt {
                Some(p) => StepV::Next(
                    StateV { stack: rest, doc: DocV { points: doc.points.insert(id, p), ..doc } },
                ),
                None => StepV::Next(StateV { stack: rest, doc }),
            }
        } else {
            StepV::Next(
                StateV {
                    stack: rest.push(FrameV::Point { id, level: (level - 1) as usize, pt }),
                    doc,
                },
            )
        },
        EventV::Eof => StepV::Fail(ErrorV::UnexpectedEof),
        _ => StepV::Next(StateV { stack: rest.push(FrameV::Point { id, level, pt }), doc }),
    }
}

/// One step inside a direct position: an X or Y component element, its
/// numeric text, and the close that hands the finished coordinate back.
pub open spec fn sp_directpos_step(
    rest: Seq<FrameV>,
    doc: DocV,
    mode: Mode,
    x: Option<Seq<char>>,
    y: Option<Seq<char>>,
    ret: DirectRetV,
    ev: EventV,
) -> StepV {
    match ev {
        EventV::Start { name, attrs } => if mode is Blank && name == "X"@ {
            StepV::Next(
                StateV {
                    stack: rest.push(FrameV::DirectPos { mode: Mode::AxisX, x, y, ret }),
                    doc,
                },
            )
        } else if mode is Blank && name == "Y"@ {
            StepV::Next(
                StateV {
                    stack: rest.push(FrameV::DirectPos { mode: Mode::AxisY, x, y, ret }),
                    doc,
                },
            )
        } else {
            StepV::Fail(ErrorV::UnexpectedElement(name))
        },
        EventV::Text(t) => match mode {
            Mode::Blank => StepV::Fail(ErrorV::UnexpectedText),
            Mode::AxisX => match xml_unescape(t) {
                None => StepV::Fail(ErrorV::Xml),
                Some(u) => if parses_as_float(u) {
                    StepV::Next(
                        StateV {
                            stack: rest.push(FrameV::DirectPos { mode, x: Some(u), y, ret }),
                            doc,
                        },
                    )
                } else {
                    StepV::Fail(ErrorV::InvalidCoordinate)
                },
            },
            Mode::AxisY => match xml_unescape(t) {
                None => StepV::Fail(ErrorV::Xml),
                Some(u) => if parses_as_float(u) {
                    StepV::Next(
                        StateV {
                            stack: rest.push(FrameV::DirectPos { mode, x, y: Some(u), ret }),
                            doc,
                        },
                    )
                } else {
                    StepV::Fail(ErrorV::InvalidCoordinate)
                },
            },
        },
        EventV::End => match mode {
            Mode::AxisX => StepV::Next(
                StateV {
                    stack: rest.push(FrameV::DirectPos { mode: Mode::Blank, x, y, ret }),
                    doc,
                },
            ),
            Mode::AxisY => StepV::Next(
                StateV {
                    stack: rest.push(FrameV::DirectPos { mode: Mode::Blank, x, y, ret }),
                    doc,
                },
            ),
            Mode::Blank => match x {
                Some(xv) => match y {
                    Some(yv) => {
                        let p = PointV { x: xv, y: yv };
                        match ret {
                            DirectRetV::ToPoint { id, level } => StepV::Next(
                                StateV {
                                    stack: rest.push(FrameV::Point { id, level, pt: Some(p) }),
                                    doc,
                                },
                            ),
                            DirectRetV::ToCurve { id, level, pts } => StepV::Next(
                                StateV {
                                    stack: rest.push(
                                        FrameV::Curve {
                                            id,
                                            level,
                                            pts: pts.push(PointRefV::Direct(p)),
                                        },
                                    ),
                                    doc,
                                },
                            ),
                        }
                    },
                    None => StepV::Fail(ErrorV::MissingCoordinate),
                },
                None => StepV::Fail(ErrorV::MissingCoordinate),
            },
        },
        EventV::Eof => StepV::Fail(ErrorV::UnexpectedEof),
        _ => StepV::Next(StateV { stack: rest.push(FrameV::DirectPos { mode, x, y, ret }), doc }),
    }
}

/// One step inside a curve element: at most two endpoints, each an indirect
/// reference (which must carry its reference attribute) or an inline direct
/// position; exactly two when the element closes.
pub open spec fn sp_curve_step(
    rest: Seq<FrameV>,
    doc: DocV,
    id: Seq<char>,
    level: usize,
    pts: Seq<PointRefV>,
    ev: EventV,
) -> StepV {
    match ev {
        EventV::Start { name, attrs } => if name == "GM_PointRef.point"@ {
            if pts.len() >= 2 {
                StepV::Fail(ErrorV::EndpointCount)
            } else {
                match sp_find_attr(attrs, "idref"@) {
                    None => StepV::Fail(ErrorV::MissingAttribute),
                    Some(r) => StepV::Next(
                        StateV {
                            stack: rest.push(
                                FrameV::Curve {
                                    id,
                                    level: sp_bump(level),
                                    pts: pts.push(PointRefV::Indirect(r)),
                                },
                            ),
                            doc,
                        },
                    ),
                }
            }
        } else if name == "GM_Position.direct"@ {
            if pts.len() >= 2 {
                StepV::Fail(ErrorV::EndpointCount)
            } else {
                StepV::Next(
                    StateV {
                        stack: rest.push(
                            FrameV::DirectPos {
                                mode: Mode::Blank,
                                x: None,
                                y: None,
                                ret: DirectRetV::ToCurve { id, level, pts },
                            },
                        ),
                        doc,
                    },
                )
            }
        } else {
            StepV::Next(
                StateV {
                    stack: rest.push(FrameV::Curve { id, level: sp_bump(level), pts }),
                    doc,
                },
            )
        },
        EventV::End => if level == 0 {
            if pts.len() != 2 {
                StepV::Fail(ErrorV::EndpointCount)
            } else {
                StepV::Next(
                    StateV {
                        stack: rest,
                        doc: DocV {
                            segments: doc.segments.insert(
                                id,
                                SegmentV { start: pts[0], end: pts[1] },
                            ),
                            ..doc
                        },
                    },
                )
            }
        } else {
            StepV::Next(
                StateV {
                    stack: rest.push(FrameV::Curve { id, level: (level - 1) as usize, pts }),
                    doc,
                },
            )
        },
        EventV::Eof => StepV::Fail(ErrorV::UnexpectedEof),
        _ => StepV::Next(StateV { stack: rest.push(FrameV::Curve { id, level, pts }), doc }),
    }
}

/// One step inside a surface element, between boundary children: exactly one
/// exterior boundary, any number of interior ones, anything else skipped by
/// depth; the rings are recorded when the element closes, exterior first.
pub open spec fn sp_surface_step(
    rest: Seq<FrameV>,
    doc: DocV,
    id: Seq<char>,
    level: usize,
    found_exterior: bool,
    rings: Seq<Seq<Seq<char>>>,
    ev: EventV,
) -> StepV {
    match ev {
        EventV::Start { name, attrs } => if name == "GM_SurfaceBoundary.exterior"@ {
            if found_exterior {
                StepV::Fail(ErrorV::MultipleExteriorRings)
            } else {
                StepV::Next(
                    StateV {
                        stack: rest.push(
                            FrameV::Ring {
                                surface_id: id,
                                surface_level: level,
                                found_exterior,
                                rings,
                                exterior: true,
                                level: 0,
                                ring: Seq::empty(),
                            },
                        ),
                        doc,
                    },
                )
            }
        } else if name == "GM_SurfaceBoundary.interior"@ {
            StepV::Next(
                StateV {
                    stack: rest.push(
                        FrameV::Ring {
                            surface_id: id,
                            surface_level: level,
                            found_exterior,
                            rings,
                            exterior: false,
                            level: 0,
                            ring: Seq::empty(),
                        },
                    ),
                    doc,
                },
            )
        } else {
            StepV::Next(
                StateV {
                    stack: rest.push(
                        FrameV::Surface { id, level: sp_bump(level), found_exterior, rings },
                    ),
                    doc,
                },
            )
        },
        EventV::End => if level == 0 {
            if !found_exterior {
                StepV::Fail(ErrorV::MissingExteriorRing)
            } else {
                StepV::Next(
                    StateV {
                        stack: rest,
                        doc: DocV { surfaces: doc.surfaces.insert(id, rings), ..doc },
                    },
                )
            }
        } else {
            StepV::Next(
                StateV {
                    stack: rest.push(
                        FrameV::Surface {
                            id,
                            level: (level - 1) as usize,
                            found_exterior,
                            rings,
                        },
                    ),
                    doc,
                },
            )
        },
        EventV::Eof => StepV::Fail(ErrorV::UnexpectedEof),
        _ => StepV::Next(
            StateV {
                stack: rest.push(FrameV::Surface { id, level, found_exterior, rings }),
                doc,
            },
        ),
    }
}

/// One step inside one boundary ring: collect the segment identifiers named
/// by generator references, in order; a generator without the reference
/// attribute contributes nothing. The finished ring goes back into the
/// surface: an exterior ring to the front, an interior one to the back.
pub open spec fn sp_ring_step(
    rest: Seq<FrameV>,
    doc: DocV,
    surface_id: Seq<char>,
    surface_level: usize,
    found_exterior: bool,
    rings: Seq<Seq<Seq<char>>>,
    exterior: bool,
    level: usize,
    ring: Seq<Seq<char>>,
    ev: EventV,
) -> StepV {
    match ev {
        EventV::Start { name, attrs } => {
            let ring2 = if name == "GM_CompositeCurve.generator"@ {
                match sp_find_attr(attrs, "idref"@) {
                    Some(r) => ring.push(r),
                    None => ring,
                }
            } else {
                ring
            };
            StepV::Next(
                StateV {
                    stack: rest.push(
                        FrameV::Ring {
                            surface_id,
                            surface_level,
                            found_exterior,
                            rings,
                            exterior,
                            level: sp_bump(level),
                            ring: ring2,
                        },
                    ),
                    doc,
                },
            )
        },
        EventV::End => if level == 0 {
            let rings2 = if exterior {
                rings.insert(0, ring)
            } else {
                rings.push(ring)
            };
            StepV::Next(
                StateV {
                    stack: rest.push(
                        FrameV::Surface {
                            id: surface_id,
                            level: surface_level,
                            found_exterior: found_exterior || exterior,
                            rings: rings2,
                        },
                    ),
                    doc,
                },
            )
        } else {
            StepV::Next(
                StateV {
                    stack: rest.push(
                        FrameV::Ring {
                            surface_id,
                            surface_level,
                            found_exterior,
                            rings,
                            exterior,
                            level: (level - 1) as usize,
                            ring,
                        },
                    ),
                    doc,
                },
            )
        },
        EventV::Eof => StepV::Fail(ErrorV::UnexpectedEof),
        _ => StepV::Next(
            StateV {
                stack: rest.push(
                    FrameV::Ring {
                        surface_id,
                        surface_level,
                        found_exterior,
                        rings,
                        exterior,
                        level,
                        ring,
                    },
                ),
                doc,
            },
        ),
    }
}

/// One step inside a parcel record: the shape child sets the surface
/// reference, the undetermined-boundary field is skipped wholesale, each
/// known field name opens a text sub-parse, and anything else is an error.
/// On close the record must have its surface reference; a record whose
/// lot number carries an exclusion marker is parsed but not inserted.
pub open spec fn sp_fude_step(
    rest: Seq<FrameV>,
    doc: DocV,
    id: Seq<char>,
    level: usize,
    attributes: FudeAttributesV,
    surface_id: Option<Seq<char>>,
    ev: EventV,
) -> StepV {
    match ev {
        EventV::Start { name, attrs } => if name == "形状"@ {
            let s2 = match sp_find_attr(attrs, "idref"@) {
                Some(r) => Some(r),
                None => surface_id,
            };
            StepV::Next(
                StateV {
                    stack: rest.push(
                        FrameV::Fude { id, level: sp_bump(level), attributes, surface_id: s2 },
                    ),
                    doc,
                },
            )
        } else if name == "筆界未定構成筆"@ {
            StepV::Next(
                StateV {
                    stack: rest.push(FrameV::Fude { id, level, attributes, surface_id }).push(
                        FrameV::Skip { depth: 1 },
                    ),
                    doc,
                },
            )
        } else {
            match sp_field_kind(name) {
                Some(f) => StepV::Next(
                    StateV {
                        stack: rest.push(
                            FrameV::FudeField { id, level, attributes, surface_id, field: f },
                        ),
                        doc,
                    },
                ),
                None => StepV::Fail(ErrorV::UnexpectedAttribute(name)),
            }
        },
        EventV::End => if level == 0 {
            match surface_id {
                None => StepV::Fail(ErrorV::MissingSurfaceRef),
                Some(sid) => if sp_excluded(attributes.chiban) {
                    StepV::Next(StateV { stack: rest, doc })
                } else {
                    StepV::Next(
                        StateV {
                            stack: rest,
                            doc: DocV {
                                fudes: doc.fudes.insert(
                                    id,
                                    FudeV { attributes, surface_id: sid },
                                ),
                                ..doc
                            },
                        },
                    )
                },
            }
        } else {
            StepV::Next(
                StateV {
                    stack: rest.push(
                        FrameV::Fude { id, level: (level - 1) as usize, attributes, surface_id },
                    ),
                    doc,
                },
            )
        },
        EventV::Eof => StepV::Fail(ErrorV::UnexpectedEof),
        _ => StepV::Next(
            StateV { stack: rest.push(FrameV::Fude { id, level, attributes, surface_id }), doc },
        ),
    }
}

/// One step while reading one parcel field's text: the text fills the field
/// and the record resumes one level deeper; a tag instead of text is an
/// error.
pub open spec fn sp_fudefield_step(
    rest: Seq<FrameV>,
    doc: DocV,
    id: Seq<char>,
    level: usize,
    attributes: FudeAttributesV,
    surface_id: Option<Seq<char>>,
    field: FieldKind,
    ev: EventV,
) -> StepV {
    match ev {
        EventV::Text(t) => match xml_unescape(t) {
            None => StepV::Fail(ErrorV::Xml),
            Some(u) => StepV::Next(
                StateV {
                    stack: rest.push(
                        FrameV::Fude {
                            id,
                            level: sp_bump(level),
                            attributes: sp_set_field(attributes, field, u),
                            surface_id,
                        },
                    ),
                    doc,
                },
            ),
        },
        EventV::Start { name, attrs } => StepV::Fail(ErrorV::ExpectedText),
        EventV::End => StepV::Fail(ErrorV::ExpectedText),
        EventV::Eof => StepV::Fail(ErrorV::UnexpectedEof),
        _ => StepV::Next(
            StateV {
                stack: rest.push(
                    FrameV::FudeField { id, level, attributes, surface_id, field },
                ),
                doc,
            },
        ),
    }
}

/// One step while reading the declared coordinate system's text: the
/// arbitrary marker discards the whole document with the skip signal; any
/// other value resumes the root sub-parse one level deeper.
pub open spec fn sp_crscheck_step(rest: Seq<FrameV>, doc: DocV, level: usize, ev: EventV) -> StepV {
    match ev {
        EventV::Text(t) => match xml_unescape(t) {
            None => StepV::Fail(ErrorV::Xml),
            Some(u) => if u == "任意座標系"@ {
                StepV::Fail(ErrorV::SkipAll)
            } else {
                StepV::Next(
                    StateV { stack: rest.push(FrameV::Chizu { level: sp_bump(level) }), doc },
                )
            },
        },
        EventV::Start { name, attrs } => StepV::Fail(ErrorV::ExpectedText),
        EventV::End => StepV::Fail(ErrorV::ExpectedText),
        EventV::Eof => StepV::Fail(ErrorV::UnexpectedEof),
        _ => StepV::Next(StateV { stack: rest.push(FrameV::CrsCheck { level }), doc }),
    }
}

/// One step while skipping a subtree wholesale: count starts and ends until
/// the depth returns to zero.
pub open spec fn sp_skip_step(rest: Seq<FrameV>, doc: DocV, depth: usize, ev: EventV) -> StepV {
    match ev {
        EventV::Start { name, attrs } => StepV::Next(
            StateV { stack: rest.push(FrameV::Skip { depth: sp_bump(depth) }), doc },
        ),
        EventV::End => if depth <= 1 {
            StepV::Next(StateV { stack: rest, doc })
        } else {
            StepV::Next(
                StateV { stack: rest.push(FrameV::Skip { depth: (depth - 1) as usize }), doc },
            )
        },
        EventV::Eof => StepV::Fail(ErrorV::UnexpectedEof),
        _ => StepV::Next(StateV { stack: rest.push(FrameV::Skip { depth }), doc }),
    }
}

/// The transition of the machine on one token: dispatch on the innermost
/// open sub-parse.
pub open spec fn sp_step(flag: bool, st: StateV, ev: EventV) -> StepV {
    if st.stack.len() == 0 {
        StepV::Fail(ErrorV::UnexpectedEof)
    } else {
        let rest = st.stack.drop_last();
        match st.stack.last() {
            FrameV::Root => sp_root_step(rest, st.doc, ev),
            FrameV::Chizu { level } => sp_chizu_step(flag, rest, st.doc, level, ev),
            FrameV::Geometric => sp_geometric_step(rest, st.doc, ev),
            FrameV::Thematic => sp_thematic_step(rest, st.doc, ev),
            FrameV::Point { id, level, pt } => sp_point_step(rest, st.doc, id, level, pt, ev),
            FrameV::DirectPos { mode, x, y, ret } => sp_directpos_step(
                rest,
                st.doc,
                mode,
                x,
                y,
                ret,
                ev,
            ),
            FrameV::Curve { id, level, pts } => sp_curve_step(rest, st.doc, id, level, pts, ev),
            FrameV::Surface { id, level, found_exterior, rings } => sp_surface_step(
                rest,
                st.doc,
                id,
                level,
                found_exterior,
                rings,
                ev,
            ),
            FrameV::Ring {
                surface_id,
                surface_level,
                found_exterior,
                rings,
                exterior,
                level,
                ring,
            } => sp_ring_step(
                rest,
                st.doc,
                surface_id,
                surface_level,
                found_exterior,
                rings,
                exterior,
                level,
                ring,
                ev,
            ),
            FrameV::Fude { id, level, attributes, surface_id } => sp_fude_step(
                rest,
                st.doc,
                id,
                level,
                attributes,
                surface_id,
                ev,
            ),
            FrameV::FudeField { id, level, attributes, surface_id, field } => sp_fudefield_step(
                rest,
                st.doc,
                id,
                level,
                attributes,
                surface_id,
                field,
                ev,
            ),
            FrameV::CrsCheck { level } => sp_crscheck_step(rest, st.doc, level, ev),
            FrameV::Skip { depth } => sp_skip_step(rest, st.doc, depth, ev),
        }
    }
}

/// Push one frame, tracking the stack's mathematical value.
fn push_frame(stack: &mut Vec<Frame>, f: Frame)
    ensures
        final(stack).deep_view() == old(stack).deep_view().push(f@),
{
    let ghost fv: FrameV = f@;
    let ghost before: Seq<FrameV> = stack.deep_view();
    stack.push(f);
    proof {
        assert(stack.deep_view() =~= before.push(fv));
    }
}

/// One executable step for the outermost frame.
fn step_root(stack: Vec<Frame>, doc: ParsedData, ev: &RawEvent) -> (r: StepRes)
    ensures
        step_matches(sp_root_step(stack.deep_view(), doc@, ev@), r),
{
    let mut stack = stack;
    match ev {
        RawEvent::Start { name, attrs } => {
            if str_eq(name, "地図") {
                push_frame(&mut stack, Frame::Root);
                push_frame(&mut stack, Frame::Chizu { level: 0 });
                StepRes::Next(State { stack, doc })
            } else {
                StepRes::Fail(Error::UnexpectedElement(name.clone()))
            }
        },
        RawEvent::Text(_) => StepRes::Fail(Error::UnexpectedText),
        RawEvent::Eof => StepRes::Done(doc),
        _ => {
            push_frame(&mut stack, Frame::Root);
            StepRes::Next(State { stack, doc })
        },
    }
}

/// One executable step inside the root element.
fn step_chizu(flag: bool, stack: Vec<Frame>, doc: ParsedData, level: usize, ev: &RawEvent) -> (r:
    StepRes)
    ensures
        step_matches(sp_chizu_step(flag, stack.deep_view(), doc@, level, ev@), r),
{
    let mut stack = stack;
    match ev {
        RawEvent::Start { name, attrs } => {
            if str_eq(name, "空間属性") {
                push_frame(&mut stack, Frame::Chizu { level });
                push_frame(&mut stack, Frame::Geometric);
                StepRes::Next(State { stack, doc })
            } else if str_eq(name, "主題属性") {
                push_frame(&mut stack, Frame::Chizu { level });
                push_frame(&mut stack, Frame::Thematic);
                StepRes::Next(State { stack, doc })
            } else if str_eq(name, "図郭") {
                push_frame(&mut stack, Frame::Chizu { level });
                push_frame(&mut stack, Frame::Skip { depth: 1 });
                StepRes::Next(State { stack, doc })
            } else if flag && str_eq(name, "座標系") {
                push_frame(&mut stack, Frame::CrsCheck { level });
                StepRes::Next(State { stack, doc })
            } else {
                push_frame(&mut stack, Frame::Chizu { level: bump(level) });
                StepRes::Next(State { stack, doc })
            }
        },
        RawEvent::End => {
            if level == 0 {
                StepRes::Next(State { stack, doc })
            } else {
                push_frame(&mut stack, Frame::Chizu { level: level - 1 });
                StepRes::Next(State { stack, doc })
            }
        },
        RawEvent::Eof => StepRes::Fail(Error::UnexpectedEof),
        _ => {
            push_frame(&mut stack, Frame::Chizu { level });
            StepRes::Next(State { stack, doc })
        },
    }
}

/// One executable step inside the spatial section.
fn step_geometric(stack: Vec<Frame>, doc: ParsedData, ev: &RawEvent) -> (r: StepRes)
    ensures
        step_matches(sp_geometric_step(stack.deep_view(), doc@, ev@), r),
{
    let mut stack = stack;
    match ev {
        RawEvent::Start { name, attrs } => {
            match find_attr(attrs, "id") {
                None => StepRes::Fail(Error::MissingAttribute),
                Some(id) => {
                    if str_eq(name, "GM_Point") {
                        push_frame(&mut stack, Frame::Geometric);
                        push_frame(&mut stack, Frame::Point { id, level: 0, pt: None });
                        StepRes::Next(State { stack, doc })
                    } else if str_eq(name, "GM_Curve") {
                        push_frame(&mut stack, Frame::Geometric);
                        let pts: Vec<PointRef> = Vec::new();
                        proof {
                            assert(pts.deep_view() =~= Seq::<PointRefV>::empty());
                        }
                        push_frame(&mut stack, Frame::Curve { id, level: 0, pts });
                        StepRes::Next(State { stack, doc })
                    } else if str_eq(name, "GM_Surface") {
                        push_frame(&mut stack, Frame::Geometric);
                        let rings: Vec<Vec<String>> = Vec::new();
                        proof {
                            assert(rings.deep_view() =~= Seq::<Seq<Seq<char>>>::empty());
                        }
                        push_frame(
                            &mut stack,
                            Frame::Surface { id, level: 0, found_exterior: false, rings },
                        );
                        StepRes::Next(State { stack, doc })
                    } else {
                        StepRes::Fail(Error::UnexpectedElement(name.clone()))
                    }
                },
            }
        },
        RawEvent::End => StepRes::Next(State { stack, doc }),
        RawEvent::Eof => StepRes::Fail(Error::UnexpectedEof),
        _ => {
            push_frame(&mut stack, Frame::Geometric);
            StepRes::Next(State { stack, doc })
        },
    }
}

/// One executable step inside the thematic section.
fn step_thematic(stack: Vec<Frame>, doc: ParsedData, ev: &RawEvent) -> (r: StepRes)
    ensures
        step_matches(sp_thematic_step(stack.deep_view(), doc@, ev@), r),
{
    let mut stack = stack;
    match ev {
        RawEvent::Start { name, attrs } => {
            if str_eq(name, "筆") {
                match find_attr(attrs, "id") {
                    None => StepRes::Fail(Error::MissingAttribute),
                    Some(id) => {
                        push_frame(&mut stack, Frame::Thematic);
                        let attributes = FudeAttributes::default();
                        push_frame(
                            &mut stack,
                            Frame::Fude { id, level: 0, attributes, surface_id: None },
                        );
                        StepRes::Next(State { stack, doc })
                    },
                }
            } else if str_eq(name, "基準点") || str_eq(name, "筆界点") || str_eq(
                name,
                "仮行政界線",
            ) || str_eq(name, "筆界線") {
                push_frame(&mut stack, Frame::Thematic);
                push_frame(&mut stack, Frame::Skip { depth: 1 });
                StepRes::Next(State { stack, doc })
            } else {
                StepRes::Fail(Error::UnexpectedElement(name.clone()))
            }
        },
        RawEvent::End => StepRes::Next(State { stack, doc }),
        RawEvent::Eof => StepRes::Fail(Error::UnexpectedEof),
        _ => {
            push_frame(&mut stack, Frame::Thematic);
            StepRes::Next(State { stack, doc })
        },
    }
}

/// One executable step inside a point element.
fn step_point(
    stack: Vec<Frame>,
    doc: ParsedData,
    id: String,
    level: usize,
    pt: Option<Point>,
    ev: &RawEvent,
) -> (r: StepRes)
    ensures
        step_matches(sp_point_step(stack.deep_view(), doc@, id@, level, pt.deep_view(), ev@), r),
{
    let mut stack = stack;
    let mut doc = doc;
    match ev {
        RawEvent::Start { name, attrs } => {
            if str_eq(name, "DirectPosition") {
                push_frame(
                    &mut stack,
                    Frame::DirectPos {
                        mode: Mode::Blank,
                        x: None,
                        y: None,
                        ret: DirectRet::ToPoint { id, level },
                    },
                );
                StepRes::Next(State { stack, doc })
            } else {
                push_frame(&mut stack, Frame::Point { id, level: bump(level), pt });
                StepRes::Next(State { stack, doc })
            }
        },
        RawEvent::End => {
            if level == 0 {
                match pt {
                    Some(p) => {
                        let ghost docv0: DocV = doc@;
                        let ghost idv: Seq<char> = id@;
                        let ghost pv: PointV = p@;
                        doc.points.insert(id, p);
                        proof {
                            assert(doc@ =~= DocV { points: docv0.points.insert(idv, pv), ..docv0 });
                        }
                        StepRes::Next(State { stack, doc })
                    },
                    None => StepRes::Next(State { stack, doc }),
                }
            } else {
                push_frame(&mut stack, Frame::Point { id, level: level - 1, pt });
                StepRes::Next(State { stack, doc })
            }
        },
        RawEvent::Eof => StepRes::Fail(Error::UnexpectedEof),
        _ => {
            push_frame(&mut stack, Frame::Point { id, level, pt });
            StepRes::Next(State { stack, doc })
        },
    }
}

/// One executable step inside a direct position.
fn step_directpos(
    stack: Vec<Frame>,
    doc: ParsedData,
    mode: Mode,
    x: Option<String>,
    y: Option<String>,
    ret: DirectRet,
    ev: &RawEvent,
) -> (r: StepRes)
    ensures
        step_matches(
            sp_directpos_step(
                stack.deep_view(),
                doc@,
                mode,
                x.deep_view(),
                y.deep_view(),
                ret@,
                ev@,
            ),
            r,
        ),
{
    let mut stack = stack;
    match ev {
        RawEvent::Start { name, attrs } => {
            let blank = match mode {
                Mode::Blank => true,
                _ => false,
            };
            if blank && str_eq(name, "X") {
                push_frame(&mut stack, Frame::DirectPos { mode: Mode::AxisX, x, y, ret });
                StepRes::Next(State { stack, doc })
            } else if blank && str_eq(name, "Y") {
                push_frame(&mut stack, Frame::DirectPos { mode: Mode::AxisY, x, y, ret });
                StepRes::Next(State { stack, doc })
            } else {
                StepRes::Fail(Error::UnexpectedElement(name.clone()))
            }
        },
        RawEvent::Text(t) => {
            match mode {
                Mode::Blank => StepRes::Fail(Error::UnexpectedText),
                Mode::AxisX => {
                    match unescape_text(t.as_str()) {
                        Err(m) => StepRes::Fail(Error::Xml(m)),
                        Ok(u) => {
                            if is_float_text(u.as_str()) {
                                push_frame(
                                    &mut stack,
                                    Frame::DirectPos { mode, x: Some(u), y, ret },
                                );
                                StepRes::Next(State { stack, doc })
                            } else {
                                StepRes::Fail(Error::InvalidCoordinate)
                            }
                        },
                    }
                },
                Mode::AxisY => {
                    match unescape_text(t.as_str()) {
                        Err(m) => StepRes::Fail(Error::Xml(m)),
                        Ok(u) => {
                            if is_float_text(u.as_str()) {
                                push_frame(
                                    &mut stack,
                                    Frame::DirectPos { mode, x, y: Some(u), ret },
                                );
                                StepRes::Next(State { stack, doc })
                            } else {
                                StepRes::Fail(Error::InvalidCoordinate)
                            }
                        },
                    }
                },
            }
        },
        RawEvent::End => {
            match mode {
                Mode::AxisX => {
                    push_frame(&mut stack, Frame::DirectPos { mode: Mode::Blank, x, y, ret });
                    StepRes::Next(State { stack, doc })
                },
                Mode::AxisY => {
                    push_frame(&mut stack, Frame::DirectPos { mode: Mode::Blank, x, y, ret });
                    StepRes::Next(State { stack, doc })
                },
                Mode::Blank => {
                    match x {
                        Some(xv) => match y {
                            Some(yv) => {
                                let p = Point { x: xv, y: yv };
                                match ret {
                                    DirectRet::ToPoint { id, level } => {
                                        push_frame(
                                            &mut stack,
                                            Frame::Point { id, level, pt: Some(p) },
                                        );
                                        StepRes::Next(State { stack, doc })
                                    },
                                    DirectRet::ToCurve { id, level, pts } => {
                                        let ghost ptsv: Seq<PointRefV> = pts.deep_view();
                                        let ghost pv: PointV = p@;
                                        let mut pts = pts;
                                        pts.push(PointRef::Direct(p));
                                        proof {
                                            assert(pts.deep_view() =~= ptsv.push(
                                                PointRefV::Direct(pv),
                                            ));
                                        }
                                        push_frame(&mut stack, Frame::Curve { id, level, pts });
                                        StepRes::Next(State { stack, doc })
                                    },
                                }
                            },
                            None => StepRes::Fail(Error::MissingCoordinate),
                        },
                        None => StepRes::Fail(Error::MissingCoordinate),
                    }
                },
            }
        },
        RawEvent::Eof => StepRes::Fail(Error::UnexpectedEof),
        _ => {
            push_frame(&mut stack, Frame::DirectPos { mode, x, y, ret });
            StepRes::Next(State { stack, doc })
        },
    }
}

/// One executable step inside a curve element.
fn step_curve(
    stack: Vec<Frame>,
    doc: ParsedData,
    id: String,
    level: usize,
    pts: Vec<PointRef>,
    ev: &RawEvent,
) -> (r: StepRes)
    ensures
        step_matches(sp_curve_step(stack.deep_view(), doc@, id@, level, pts.deep_view(), ev@), r),
{
    let mut stack = stack;
    let mut doc = doc;
    match ev {
        RawEvent::Start { name, attrs } => {
            if str_eq(name, "GM_PointRef.point") {
                if pts.len() >= 2 {
                    StepRes::Fail(Error::EndpointCount)
                } else {
                    match find_attr(attrs, "idref") {
                        None => StepRes::Fail(Error::MissingAttribute),
                        Some(idref) => {
                            let ghost ptsv: Seq<PointRefV> = pts.deep_view();
                            let ghost rv: Seq<char> = idref@;
                            let mut pts = pts;
                            pts.push(PointRef::Indirect(idref));
                            proof {
                                assert(pts.deep_view() =~= ptsv.push(PointRefV::Indirect(rv)));
                            }
                            push_frame(&mut stack, Frame::Curve { id, level: bump(level), pts });
                            StepRes::Next(State { stack, doc })
                        },
                    }
                }
            } else if str_eq(name, "GM_Position.direct") {
                if pts.len() >= 2 {
                    StepRes::Fail(Error::EndpointCount)
                } else {
                    push_frame(
                        &mut stack,
                        Frame::DirectPos {
                            mode: Mode::Blank,
                            x: None,
                            y: None,
                            ret: DirectRet::ToCurve { id, level, pts },
                        },
                    );
                    StepRes::Next(State { stack, doc })
                }
            } else {
                push_frame(&mut stack, Frame::Curve { id, level: bump(level), pts });
                StepRes::Next(State { stack, doc })
            }
        },
        RawEvent::End => {
            if level == 0 {
                if pts.len() != 2 {
                    StepRes::Fail(Error::EndpointCount)
                } else {
                    let ghost docv0: DocV = doc@;
                    let ghost idv: Seq<char> = id@;
                    let ghost ptsv: Seq<PointRefV> = pts.deep_view();
                    let mut pts = pts;
                    let second = pts.pop().unwrap();
                    let first = pts.pop().unwrap();
                    let seg = Segment { start: first, end: second };
                    proof {
                        assert(seg@ =~= SegmentV { start: ptsv[0], end: ptsv[1] });
                    }
                    let ghost segv: SegmentV = seg@;
                    doc.segments.insert(id, seg);
                    proof {
                        assert(doc@ =~= DocV {
                            segments: docv0.segments.insert(idv, segv),
                            ..docv0
                        });
                    }
                    StepRes::Next(State { stack, doc })
                }
            } else {
                push_frame(&mut stack, Frame::Curve { id, level: level - 1, pts });
                StepRes::Next(State { stack, doc })
            }
        },
        RawEvent::Eof => StepRes::Fail(Error::UnexpectedEof),
        _ => {
            push_frame(&mut stack, Frame::Curve { id, level, pts });
            StepRes::Next(State { stack, doc })
        },
    }
}

/// One executable step inside a surface element, between boundary children.
fn step_surface(
    stack: Vec<Frame>,
    doc: ParsedData,
    id: String,
    level: usize,
    found_exterior: bool,
    rings: Vec<Vec<String>>,
    ev: &RawEvent,
) -> (r: StepRes)
    ensures
        step_matches(
            sp_surface_step(
                stack.deep_view(),
                doc@,
                id@,
                level,
                found_exterior,
                rings.deep_view(),
                ev@,
            ),
            r,
        ),
{
    let mut stack = stack;
    let mut doc = doc;
    match ev {
        RawEvent::Start { name, attrs } => {
            if str_eq(name, "GM_SurfaceBoundary.exterior") {
                if found_exterior {
                    StepRes::Fail(Error::MultipleExteriorRings)
                } else {
                    let ring: Vec<String> = Vec::new();
                    proof {
                        assert(ring.deep_view() =~= Seq::<Seq<char>>::empty());
                    }
                    push_frame(
                        &mut stack,
                        Frame::Ring {
                            surface_id: id,
                            surface_level: level,
                            found_exterior,
                            rings,
                            exterior: true,
                            level: 0,
                            ring,
                        },
                    );
                    StepRes::Next(State { stack, doc })
                }
            } else if str_eq(name, "GM_SurfaceBoundary.interior") {
                let ring: Vec<String> = Vec::new();
                proof {
                    assert(ring.deep_view() =~= Seq::<Seq<char>>::empty());
                }
                push_frame(
                    &mut stack,
                    Frame::Ring {
                        surface_id: id,
                        surface_level: level,
                        found_exterior,
                        rings,
                        exterior: false,
                        level: 0,
                        ring,
                    },
                );
                StepRes::Next(State { stack, doc })
            } else {
                push_frame(
                    &mut stack,
                    Frame::Surface { id, level: bump(level), found_exterior, rings },
                );
                StepRes::Next(State { stack, doc })
            }
        },
        RawEvent::End => {
            if level == 0 {
                if !found_exterior {
                    StepRes::Fail(Error::MissingExteriorRing)
                } else {
                    let ghost docv0: DocV = doc@;
                    let ghost idv: Seq<char> = id@;
                    let ghost ringsv: Seq<Seq<Seq<char>>> = rings.deep_view();
                    doc.surfaces.insert(id, rings);
                    proof {
                        assert(doc@ =~= DocV {
                            surfaces: docv0.surfaces.insert(idv, ringsv),
                            ..docv0
                        });
                    }
                    StepRes::Next(State { stack, doc })
                }
            } else {
                push_frame(
                    &mut stack,
                    Frame::Surface { id, level: level - 1, found_exterior, rings },
                );
                StepRes::Next(State { stack, doc })
            }
        },
        RawEvent::Eof => StepRes::Fail(Error::UnexpectedEof),
        _ => {
            push_frame(&mut stack, Frame::Surface { id, level, found_exterior, rings });
            StepRes::Next(State { stack, doc })
        },
    }
}

/// One executable step inside one boundary ring.
fn step_ring(
    stack: Vec<Frame>,
    doc: ParsedData,
    surface_id: String,
    surface_level: usize,
    found_exterior: bool,
    rings: Vec<Vec<String>>,
    exterior: bool,
    level: usize,
    ring: Vec<String>,
    ev: &RawEvent,
) -> (r: StepRes)
    ensures
        step_matches(
            sp_ring_step(
                stack.deep_view(),
                doc@,
                surface_id@,
                surface_level,
                found_exterior,
                rings.deep_view(),
                exterior,
                level,
                ring.deep_view(),
                ev@,
            ),
            r,
        ),
{
    let mut stack = stack;
    match ev {
        RawEvent::Start { name, attrs } => {
            let ghost ringv: Seq<Seq<char>> = ring.deep_view();
            let mut ring = ring;
            if str_eq(name, "GM_CompositeCurve.generator") {
                match find_attr(attrs, "idref") {
                    Some(idref) => {
                        let ghost rv: Seq<char> = idref@;
                        ring.push(idref);
                        proof {
                            assert(ring.deep_view() =~= ringv.push(rv));
                        }
                    },
                    None => {},
                }
            }
            push_frame(
                &mut stack,
                Frame::Ring {
                    surface_id,
                    surface_level,
                    found_exterior,
                    rings,
                    exterior,
                    level: bump(level),
                    ring,
                },
            );
            StepRes::Next(State { stack, doc })
        },
        RawEvent::End => {
            if level == 0 {
                let ghost ringsv: Seq<Seq<Seq<char>>> = rings.deep_view();
                let ghost ringv: Seq<Seq<char>> = ring.deep_view();
                let mut rings = rings;
                if exterior {
                    rings.insert(0, ring);
                    proof {
                        assert(rings.deep_view() =~= ringsv.insert(0, ringv));
                    }
                } else {
                    rings.push(ring);
                    proof {
                        assert(rings.deep_view() =~= ringsv.push(ringv));
                    }
                }
                push_frame(
                    &mut stack,
                    Frame::Surface {
                        id: surface_id,
                        level: surface_level,
                        found_exterior: found_exterior || exterior,
                        rings,
                    },
                );
                StepRes::Next(State { stack, doc })
            } else {
                push_frame(
                    &mut stack,
                    Frame::Ring {
                        surface_id,
                        surface_level,
                        found_exterior,
                        rings,
                        exterior,
                        level: level - 1,
                        ring,
                    },
                );
                StepRes::Next(State { stack, doc })
            }
        },
        RawEvent::Eof => StepRes::Fail(Error::UnexpectedEof),
        _ => {
            push_frame(
                &mut stack,
                Frame::Ring {
                    surface_id,
                    surface_level,
                    found_exterior,
                    rings,
                    exterior,
                    level,
                    ring,
                },
            );
            StepRes::Next(State { stack, doc })
        },
    }
}

/// One executable step inside a parcel record.
fn step_fude(
    stack: Vec<Frame>,
    doc: ParsedData,
    id: String,
    level: usize,
    attributes: FudeAttributes,
    surface_id: Option<String>,
    ev: &RawEvent,
) -> (r: StepRes)
    ensures
        step_matches(
            sp_fude_step(
                stack.deep_view(),
                doc@,
                id@,
                level,
                attributes@,
                surface_id.deep_view(),
                ev@,
            ),
            r,
        ),
{
    let mut stack = stack;
    let mut doc = doc;
    match ev {
        RawEvent::Start { name, attrs } => {
            if str_eq(name, "形状") {
                let s2 = match find_attr(attrs, "idref") {
                    Some(idref) => Some(idref),
                    None => surface_id,
                };
                push_frame(
                    &mut stack,
                    Frame::Fude { id, level: bump(level), attributes, surface_id: s2 },
                );
                StepRes::Next(State { stack, doc })
            } else if str_eq(name, "筆界未定構成筆") {
                push_frame(&mut stack, Frame::Fude { id, level, attributes, surface_id });
                push_frame(&mut stack, Frame::Skip { depth: 1 });
                StepRes::Next(State { stack, doc })
            } else {
                match field_kind(name) {
                    Some(field) => {
                        push_frame(
                            &mut stack,
                            Frame::FudeField { id, level, attributes, surface_id, field },
                        );
                        StepRes::Next(State { stack, doc })
                    },
                    None => StepRes::Fail(Error::UnexpectedAttribute(name.clone())),
                }
            }
        },
        RawEvent::End => {
            if level == 0 {
                match surface_id {
                    None => StepRes::Fail(Error::MissingSurfaceRef),
                    Some(sid) => {
                        if excluded(&attributes.chiban) {
                            StepRes::Next(State { stack, doc })
                        } else {
                            let ghost docv0: DocV = doc@;
                            let ghost idv: Seq<char> = id@;
                            let fude = Fude { attributes, surface_id: sid };
                            let ghost fv: FudeV = fude@;
                            doc.fudes.insert(id, fude);
                            proof {
                                assert(doc@ =~= DocV {
                                    fudes: docv0.fudes.insert(idv, fv),
                                    ..docv0
                                });
                            }
                            StepRes::Next(State { stack, doc })
                        }
                    },
                }
            } else {
                push_frame(&mut stack, Frame::Fude { id, level: level - 1, attributes, surface_id });
                StepRes::Next(State { stack, doc })
            }
        },
        RawEvent::Eof => StepRes::Fail(Error::UnexpectedEof),
        _ => {
            push_frame(&mut stack, Frame::Fude { id, level, attributes, surface_id });
            StepRes::Next(State { stack, doc })
        },
    }
}

/// One executable step while reading one parcel field's text.
fn step_fudefield(
    stack: Vec<Frame>,
    doc: ParsedData,
    id: String,
    level: usize,
    attributes: FudeAttributes,
    surface_id: Option<String>,
    field: FieldKind,
    ev: &RawEvent,
) -> (r: StepRes)
    ensures
        step_matches(
            sp_fudefield_step(
                stack.deep_view(),
                doc@,
                id@,
                level,
                attributes@,
                surface_id.deep_view(),
                field,
                ev@,
            ),
            r,
        ),
{
    let mut stack = stack;
    match ev {
        RawEvent::Text(t) => {
            match unescape_text(t.as_str()) {
                Err(m) => StepRes::Fail(Error::Xml(m)),
                Ok(u) => {
                    let attributes = set_field(attributes, field, u);
                    push_frame(
                        &mut stack,
                        Frame::Fude { id, level: bump(level), attributes, surface_id },
                    );
                    StepRes::Next(State { stack, doc })
                },
            }
        },
        RawEvent::Start { name, attrs } => StepRes::Fail(Error::ExpectedText),
        RawEvent::End => StepRes::Fail(Error::ExpectedText),
        RawEvent::Eof => StepRes::Fail(Error::UnexpectedEof),
        _ => {
            push_frame(&mut stack, Frame::FudeField { id, level, attributes, surface_id, field });
            StepRes::Next(State { stack, doc })
        },
    }
}

/// One executable step while reading the declared coordinate system's text.
fn step_crscheck(stack: Vec<Frame>, doc: ParsedData, level: usize, ev: &RawEvent) -> (r: StepRes)
    ensures
        step_matches(sp_crscheck_step(stack.deep_view(), doc@, level, ev@), r),
{
    let mut stack = stack;
    match ev {
        RawEvent::Text(t) => {
            match unescape_text(t.as_str()) {
                Err(m) => StepRes::Fail(Error::Xml(m)),
                Ok(u) => {
                    if str_eq(&u, "任意座標系") {
                        StepRes::Fail(Error::SkipAll)
                    } else {
                        push_frame(&mut stack, Frame::Chizu { level: bump(level) });
                        StepRes::Next(State { stack, doc })
                    }
                },
            }
        },
        RawEvent::Start { name, attrs } => StepRes::Fail(Error::ExpectedText),
        RawEvent::End => StepRes::Fail(Error::ExpectedText),
        RawEvent::Eof => StepRes::Fail(Error::UnexpectedEof),
        _ => {
            push_frame(&mut stack, Frame::CrsCheck { level });
            StepRes::Next(State { stack, doc })
        },
    }
}

/// One executable step while skipping a subtree wholesale.
fn step_skip(stack: Vec<Frame>, doc: ParsedData, depth: usize, ev: &RawEvent) -> (r: StepRes)
    ensures
        step_matches(sp_skip_step(stack.deep_view(), doc@, depth, ev@), r),
{
    let mut stack = stack;
    match ev {
        RawEvent::Start { name, attrs } => {
            push_frame(&mut stack, Frame::Skip { depth: bump(depth) });
            StepRes::Next(State { stack, doc })
        },
        RawEvent::End => {
            if depth <= 1 {
                StepRes::Next(State { stack, doc })
            } else {
                push_frame(&mut stack, Frame::Skip { depth: depth - 1 });
                StepRes::Next(State { stack, doc })
            }
        },
        RawEvent::Eof => StepRes::Fail(Error::UnexpectedEof),
        _ => {
            push_frame(&mut stack, Frame::Skip { depth });
            StepRes::Next(State { stack, doc })
        },
    }
}

/// One executable step of the whole machine.
fn step(flag: bool, st: State, ev: &RawEvent) -> (r: StepRes)
    ensures
        step_matches(sp_step(flag, st@, ev@), r),
{
    let State { mut stack, doc } = st;
    let ghost full: Seq<FrameV> = stack.deep_view();
    match stack.pop() {
        None => {
            proof {
                assert(full.len() == 0);
            }
            StepRes::Fail(Error::UnexpectedEof)
        },
        Some(top) => {
            proof {
                assert(full.len() > 0);
                assert(top@ == full.last());
                assert(stack.deep_view() =~= full.drop_last());
            }
            match top {
                Frame::Root => step_root(stack, doc, ev),
                Frame::Chizu { level } => step_chizu(flag, stack, doc, level, ev),
                Frame::Geometric => step_geometric(stack, doc, ev),
                Frame::Thematic => step_thematic(stack, doc, ev),
                Frame::Point { id, level, pt } => step_point(stack, doc, id, level, pt, ev),
                Frame::DirectPos { mode, x, y, ret } => step_directpos(
                    stack,
                    doc,
                    mode,
                    x,
                    y,
                    ret,
                    ev,
                ),
                Frame::Curve { id, level, pts } => step_curve(stack, doc, id, level, pts, ev),
                Frame::Surface { id, level, found_exterior, rings } => step_surface(
                    stack,
                    doc,
                    id,
                    level,
                    found_exterior,
                    rings,
                    ev,
                ),
                Frame::Ring {
                    surface_id,
                    surface_level,
                    found_exterior,
                    rings,
                    exterior,
                    level,
                    ring,
                } => step_ring(
                    stack,
                    doc,
                    surface_id,
                    surface_level,
                    found_exterior,
                    rings,
                    exterior,
                    level,
                    ring,
                    ev,
                ),
                Frame::Fude { id, level, attributes, surface_id } => step_fude(
                    stack,
                    doc,
                    id,
                    level,
                    attributes,
                    surface_id,
                    ev,
                ),
                Frame::FudeField { id, level, attributes, surface_id, field } => step_fudefield(
                    stack,
                    doc,
                    id,
                    level,
                    attributes,
                    surface_id,
                    field,
                    ev,
                ),
                Frame::CrsCheck { level } => step_crscheck(stack, doc, level, ev),
                Frame::Skip { depth } => step_skip(stack, doc, depth, ev),
            }
        },
    }
}

/// The machine's starting state: only the outermost frame, all tables empty.
pub open spec fn sp_init() -> StateV {
    StateV { stack: seq![FrameV::Root], doc: DocV::empty() }
}

/// Run the machine over the tokens from position `i` on: the finished
/// tables, or the first failure. Running off the end of the tokens is the
/// end-of-input failure.
pub open spec fn sp_run(evs: Seq<EventV>, i: int, flag: bool, st: StateV) -> Result<DocV, ErrorV>
    decreases evs.len() - i,
{
    if i < 0 || i >= evs.len() {
        Err(ErrorV::UnexpectedEof)
    } else {
        match sp_step(flag, st, evs[i]) {
            StepV::Next(st2) => sp_run(evs, i + 1, flag, st2),
            StepV::Done(d) => Ok(d),
            StepV::Fail(e) => Err(e),
        }
    }
}

/// What parsing a whole token stream yields.
pub open spec fn sp_parse(evs: Seq<EventV>, flag: bool) -> Result<DocV, ErrorV> {
    sp_run(evs, 0, flag, sp_init())
}

/// Drive the state machine over a token stream. Exactly [`sp_parse`] of the
/// tokens' values.
pub fn parse_events(events: &Vec<RawEvent>, skip_arbitrary_crs: bool) -> (r: Result<
    ParsedData,
    Error,
>)
    ensures
        match r {
            Ok(d) => sp_parse(events.deep_view(), skip_arbitrary_crs) == Ok::<DocV, ErrorV>(d@),
            Err(e) => sp_parse(events.deep_view(), skip_arbitrary_crs) == Err::<DocV, ErrorV>(e@),
        },
{
    let ghost evsv: Seq<EventV> = events.deep_view();
    let mut stack: Vec<Frame> = Vec::new();
    push_frame(&mut stack, Frame::Root);
    let mut st = State { stack, doc: ParsedData::new() };
    proof {
        assert(st@.stack =~= seq![FrameV::Root]);
        assert(st@ =~= sp_init());
    }
    let n = events.len();
    for i in 0..n
        invariant
            n == events@.len(),
            evsv == events.deep_view(),
            sp_run(evsv, 0, skip_arbitrary_crs, sp_init()) == sp_run(
                evsv,
                i as int,
                skip_arbitrary_crs,
                st@,
            ),
    {
        let ev = &events[i];
        proof {
            assert(ev@ == evsv[i as int]);
        }
        match step(skip_arbitrary_crs, st, ev) {
            StepRes::Next(s2) => {
                st = s2;
            },
            StepRes::Done(d) => {
                return Ok(d);
            },
            StepRes::Fail(e) => {
                return Err(e);
            },
        }
    }
    Err(Error::UnexpectedEof)
}

/// The document parser. Feed it the raw bytes of one document; `parse`
/// tokenizes them and drives the state machine.
pub struct MojxmlParser {
    data: Vec<u8>,
    skip_arbitrary_crs: bool,
}

impl MojxmlParser {
    /// Whether the early-exit check of the declared coordinate system is on.
    pub closed spec fn skip_flag(&self) -> bool {
        self.skip_arbitrary_crs
    }

    /// The raw bytes of the document this parser was given.
    pub closed spec fn data_view(&self) -> Seq<u8> {
        self.data@
    }

    /// A parser over the raw bytes of one document; the early-exit check is
    /// off until asked for.
    pub fn new(data: Vec<u8>) -> (r: MojxmlParser)
        ensures
            !r.skip_flag(),
            r.data_view() == data@,
    {
        MojxmlParser { data, skip_arbitrary_crs: false }
    }

    /// Switch the early-exit check of the declared coordinate system: when
    /// on, a document that declares the arbitrary coordinate system is
    /// discarded with the skip signal before its geometry is parsed. The
    /// stored document is untouched.
    pub fn skip_arbitrary_crs(&mut self, skip: bool)
        ensures
            final(self).skip_flag() == skip,
            final(self).data_view() == old(self).data_view(),
    {
        self.skip_arbitrary_crs = skip;
    }

    /// Parse the document: the four tables, or the first failure. The stored
    /// bytes tokenize as [`sp_tokens`] says, and the result is exactly the
    /// run of the state machine over that token stream; a tokenizer failure
    /// is reported as malformed XML.
    pub fn parse(self) -> (r: Result<ParsedData, Error>)
        ensures
            match sp_tokens(self.data_view()) {
                Ok(evs) => match r {
                    Ok(d) => sp_parse(evs, self.skip_flag()) == Ok::<DocV, ErrorV>(d@),
                    Err(e) => sp_parse(evs, self.skip_flag()) == Err::<DocV, ErrorV>(e@),
                },
                Err(u) => r matches Err(e) && e is Xml,
            },
    {
        let ghost me: MojxmlParser = self;
        let MojxmlParser { data, skip_arbitrary_crs } = self;
        proof {
            assert(me.data_view() == data@);
            assert(me.skip_flag() == skip_arbitrary_crs);
        }
        match tokenize(data) {
            Err(m) => {
                proof {
                    assert(sp_tokens(me.data_view()) is Err);
                }
                Err(Error::Xml(m))
            },
            Ok(events) => {
                let ghost evsv: Seq<EventV> = events.deep_view();
                let r = parse_events(&events, skip_arbitrary_crs);
                proof {
                    assert(sp_tokens(me.data_view()) matches Ok(tv) && tv == evsv);
                    match &r {
                        Ok(d) => {
                            assert(sp_parse(evsv, me.skip_flag()) == Ok::<DocV, ErrorV>(d@));
                        },
                        Err(e) => {
                            assert(sp_parse(evsv, me.skip_flag()) == Err::<DocV, ErrorV>(e@));
                        },
                    }
                }
                r
            },
        }
    }
}

/// Endpoint arity at the close of a curve: a curve element may close only
/// over exactly two endpoints; any other count is the endpoint-count error,
/// and exactly two records the segment under the curve's identifier.
pub proof fn lemma_endpoint_arity_at_close(
    rest: Seq<FrameV>,
    doc: DocV,
    id: Seq<char>,
    pts: Seq<PointRefV>,
)
    ensures
        pts.len() != 2 ==> sp_curve_step(rest, doc, id, 0, pts, EventV::End) == StepV::Fail(
            ErrorV::EndpointCount,
        ),
        pts.len() == 2 ==> sp_curve_step(rest, doc, id, 0, pts, EventV::End) == StepV::Next(
            StateV {
                stack: rest,
                doc: DocV {
                    segments: doc.segments.insert(id, SegmentV { start: pts[0], end: pts[1] }),
                    ..doc
                },
            },
        ),
{
}

/// Endpoint arity on a third endpoint: a curve that already holds two
/// endpoints rejects any further endpoint child with the endpoint-count
/// error, whichever of the two endpoint forms it takes.
pub proof fn lemma_endpoint_arity_overflow(
    rest: Seq<FrameV>,
    doc: DocV,
    id: Seq<char>,
    level: usize,
    pts: Seq<PointRefV>,
    name: Seq<char>,
    attrs: Seq<(Seq<char>, Seq<char>)>,
)
    requires
        pts.len() >= 2,
        name == "GM_PointRef.point"@ || name == "GM_Position.direct"@,
    ensures
        sp_curve_step(rest, doc, id, level, pts, EventV::Start { name, attrs }) == StepV::Fail(
            ErrorV::EndpointCount,
        ),
{
}

/// The exclusion filter at the close of a parcel record: a record whose
/// lot-number text carries an exclusion marker is parsed without error but
/// never inserted; any other record is inserted under its identifier.
pub proof fn lemma_exclusion_filter(
    rest: Seq<FrameV>,
    doc: DocV,
    id: Seq<char>,
    attributes: FudeAttributesV,
    sid: Seq<char>,
)
    ensures
        sp_excluded(attributes.chiban) ==> sp_fude_step(
            rest,
            doc,
            id,
            0,
            attributes,
            Some(sid),
            EventV::End,
        ) == StepV::Next(StateV { stack: rest, doc }),
        !sp_excluded(attributes.chiban) ==> sp_fude_step(
            rest,
            doc,
            id,
            0,
            attributes,
            Some(sid),
            EventV::End,
        ) == StepV::Next(
            StateV {
                stack: rest,
                doc: DocV {
                    fudes: doc.fudes.insert(id, FudeV { attributes, surface_id: sid }),
                    ..doc
                },
            },
        ),
{
}

/// A lot number that is exactly an exclusion marker is excluded: the marker
/// occurs in itself.
pub proof fn lemma_marker_itself_excluded(c: Seq<char>)
    requires
        c == "地区外"@ || sp_contains(c, "別図"@),
    ensures
        sp_excluded(Some(c)),
{
    if c == "地区外"@ {
        assert(c.subrange(0, 0 + "地区外"@.len() as int) =~= "地区外"@);
        assert(sp_contains(c, "地区外"@));
    }
}

/// A surface may close only over an exterior ring: closing without one is
/// the missing-exterior-ring error, never a silently recorded surface; with
/// one, the rings are recorded under the surface's identifier.
pub proof fn lemma_exterior_ring_required(
    rest: Seq<FrameV>,
    doc: DocV,
    id: Seq<char>,
    rings: Seq<Seq<Seq<char>>>,
)
    ensures
        sp_surface_step(rest, doc, id, 0, false, rings, EventV::End) == StepV::Fail(
            ErrorV::MissingExteriorRing,
        ),
        sp_surface_step(rest, doc, id, 0, true, rings, EventV::End) == StepV::Next(
            StateV { stack: rest, doc: DocV { surfaces: doc.surfaces.insert(id, rings), ..doc } },
        ),
{
}

/// A finished exterior ring always leaves the surface with at least one
/// ring, stored first.
pub proof fn lemma_exterior_ring_stored_first(
    rest: Seq<FrameV>,
    doc: DocV,
    surface_id: Seq<char>,
    surface_level: usize,
    found_exterior: bool,
    rings: Seq<Seq<Seq<char>>>,
    ring: Seq<Seq<char>>,
)
    ensures
        sp_ring_step(
            rest,
            doc,
            surface_id,
            surface_level,
            found_exterior,
            rings,
            true,
            0,
            ring,
            EventV::End,
        ) == StepV::Next(
            StateV {
                stack: rest.push(
                    FrameV::Surface {
                        id: surface_id,
                        level: surface_level,
                        found_exterior: true,
                        rings: rings.insert(0, ring),
                    },
                ),
                doc,
            },
        ),
        rings.insert(0, ring).len() >= 1,
        rings.insert(0, ring)[0] == ring,
{
}

/// The skip signal short-circuits: while the declared coordinate system's
/// text is being read (which happens only when the early-exit flag is on),
/// the arbitrary-coordinate-system marker stops the whole parse with the
/// skip signal, so no tables are ever handed out for such a document.
pub proof fn lemma_skip_signal(rest: Seq<FrameV>, doc: DocV, level: usize, t: Seq<char>)
    requires
        xml_unescape(t) == Some("任意座標系"@),
    ensures
        sp_crscheck_step(rest, doc, level, EventV::Text(t)) == StepV::Fail(ErrorV::SkipAll),
{
}

/// The coordinate-system check runs only when asked for: with the early-exit
/// flag on, the declaration's element suspends the root sub-parse for the
/// check; with it off, the element is skipped structurally like any unknown
/// element, and its geometry parses normally.
pub proof fn lemma_crs_checked_only_when_asked(
    rest: Seq<FrameV>,
    doc: DocV,
    level: usize,
    attrs: Seq<(Seq<char>, Seq<char>)>,
)
    ensures
        sp_chizu_step(true, rest, doc, level, EventV::Start { name: "座標系"@, attrs })
            == StepV::Next(StateV { stack: rest.push(FrameV::CrsCheck { level }), doc }),
        sp_chizu_step(false, rest, doc, level, EventV::Start { name: "座標系"@, attrs })
            == StepV::Next(
            StateV { stack: rest.push(FrameV::Chizu { level: sp_bump(level) }), doc },
        ),
{
    reveal_strlit("座標系");
    reveal_strlit("空間属性");
    reveal_strlit("主題属性");
    reveal_strlit("図郭");
    assert("座標系"@.len() == 3);
    assert("空間属性"@.len() == 4);
    assert("主題属性"@.len() == 4);
    assert("図郭"@.len() == 2);
}

/// Well-formed tables: every recorded surface holds at least its exterior
/// ring.
pub open spec fn wf_doc(doc: DocV) -> bool {
    forall|sid: Seq<char>|
        #[trigger] doc.surfaces.contains_key(sid) ==> doc.surfaces[sid].len() >= 1
}

/// Well-formed frame: a surface sub-parse that has seen its exterior ring
/// holds at least one ring, whether it is running or suspended under a ring
/// sub-parse.
pub open spec fn wf_frame(f: FrameV) -> bool {
    match f {
        FrameV::Surface { found_exterior, rings, .. } => found_exterior ==> rings.len() >= 1,
        FrameV::Ring { found_exterior, rings, .. } => found_exterior ==> rings.len() >= 1,
        _ => true,
    }
}

/// Well-formed machine: tables and every open sub-parse.
pub open spec fn wf_state(st: StateV) -> bool {
    wf_doc(st.doc) && forall|i: int| 0 <= i < st.stack.len() ==> wf_frame(#[trigger] st.stack[i])
}

proof fn lemma_wf_push(s: Seq<FrameV>, f: FrameV)
    requires
        forall|i: int| 0 <= i < s.len() ==> wf_frame(#[trigger] s[i]),
        wf_frame(f),
    ensures
        forall|i: int| 0 <= i < s.push(f).len() ==> wf_frame(#[trigger] s.push(f)[i]),
{
    assert forall|i: int| 0 <= i < s.push(f).len() implies wf_frame(s.push(f)[i]) by {
        if i < s.len() {
            assert(s.push(f)[i] == s[i]);
        } else {
            assert(s.push(f)[i] == f);
        }
    }
}

proof fn lemma_wf_drop(s: Seq<FrameV>)
    requires
        s.len() > 0,
        forall|i: int| 0 <= i < s.len() ==> wf_frame(#[trigger] s[i]),
    ensures
        forall|i: int| 0 <= i < s.drop_last().len() ==> wf_frame(#[trigger] s.drop_last()[i]),
{
    assert forall|i: int| 0 <= i < s.drop_last().len() implies wf_frame(s.drop_last()[i]) by {
        assert(s.drop_last()[i] == s[i]);
    }
}

/// One step keeps the machine well-formed, and a finished machine hands out
/// well-formed tables.
pub proof fn lemma_step_preserves_wf(flag: bool, st: StateV, ev: EventV)
    requires
        wf_state(st),
    ensures
        sp_step(flag, st, ev) matches StepV::Next(s2) ==> wf_state(s2),
        sp_step(flag, st, ev) matches StepV::Done(d) ==> wf_doc(d),
{
    if st.stack.len() == 0 {
    } else {
        let rest = st.stack.drop_last();
        lemma_wf_drop(st.stack);
        assert(wf_frame(st.stack[st.stack.len() - 1]));
        match st.stack.last() {
            FrameV::Root => {
                match ev {
                    EventV::Start { name, attrs } => {
                        lemma_wf_push(rest, FrameV::Root);
                        lemma_wf_push(rest.push(FrameV::Root), FrameV::Chizu { level: 0 });
                    },
                    _ => {
                        lemma_wf_push(rest, FrameV::Root);
                    },
                }
            },
            FrameV::Chizu { level } => {
                lemma_wf_push(rest, FrameV::Chizu { level });
                lemma_wf_push(rest.push(FrameV::Chizu { level }), FrameV::Geometric);
                lemma_wf_push(rest.push(FrameV::Chizu { level }), FrameV::Thematic);
                lemma_wf_push(rest.push(FrameV::Chizu { level }), FrameV::Skip { depth: 1 });
                lemma_wf_push(rest, FrameV::CrsCheck { level });
                lemma_wf_push(rest, FrameV::Chizu { level: sp_bump(level) });
                lemma_wf_push(rest, FrameV::Chizu { level: (level - 1) as usize });
            },
            FrameV::Geometric => {
                lemma_wf_push(rest, FrameV::Geometric);
                match ev {
                    EventV::Start { name, attrs } => {
                        match sp_find_attr(attrs, "id"@) {
                            Some(id) => {
                                lemma_wf_push(
                                    rest.push(FrameV::Geometric),
                                    FrameV::Point { id, level: 0, pt: None },
                                );
                                lemma_wf_push(
                                    rest.push(FrameV::Geometric),
                                    FrameV::Curve { id, level: 0, pts: Seq::empty() },
                                );
                                lemma_wf_push(
                                    rest.push(FrameV::Geometric),
                                    FrameV::Surface {
                                        id,
                                        level: 0,
                                        found_exterior: false,
                                        rings: Seq::empty(),
                                    },
                                );
                            },
                            None => {},
                        }
                    },
                    _ => {},
                }
            },
            FrameV::Thematic => {
                lemma_wf_push(rest, FrameV::Thematic);
                lemma_wf_push(rest.push(FrameV::Thematic), FrameV::Skip { depth: 1 });
                match ev {
                    EventV::Start { name, attrs } => {
                        match sp_find_attr(attrs, "id"@) {
                            Some(id) => {
                                lemma_wf_push(
                                    rest.push(FrameV::Thematic),
                                    FrameV::Fude {
                                        id,
                                        level: 0,
                                        attributes: FudeAttributesV::empty(),
                                        surface_id: None,
                                    },
                                );
                            },
                            None => {},
                        }
                    },
                    _ => {},
                }
            },
            FrameV::Point { id, level, pt } => {
                lemma_wf_push(rest, FrameV::Point { id, level, pt });
                lemma_wf_push(rest, FrameV::Point { id, level: sp_bump(level), pt });
                lemma_wf_push(rest, FrameV::Point { id, level: (level - 1) as usize, pt });
                lemma_wf_push(
                    rest,
                    FrameV::DirectPos {
                        mode: Mode::Blank,
                        x: None,
                        y: None,
                        ret: DirectRetV::ToPoint { id, level },
                    },
                );
                match pt {
                    Some(p) => {
                        let d2 = DocV { points: st.doc.points.insert(id, p), ..st.doc };
                        assert(d2.surfaces == st.doc.surfaces);
                        assert(wf_doc(d2));
                    },
                    None => {},
                }
            },
            FrameV::DirectPos { mode, x, y, ret } => {
                lemma_wf_push(rest, FrameV::DirectPos { mode, x, y, ret });
                lemma_wf_push(rest, FrameV::DirectPos { mode: Mode::Blank, x, y, ret });
                lemma_wf_push(rest, FrameV::DirectPos { mode: Mode::AxisX, x, y, ret });
                lemma_wf_push(rest, FrameV::DirectPos { mode: Mode::AxisY, x, y, ret });
                match ev {
                    EventV::Text(t) => {
                        match xml_unescape(t) {
                            Some(u) => {
                                lemma_wf_push(
                                    rest,
                                    FrameV::DirectPos { mode, x: Some(u), y, ret },
                                );
                                lemma_wf_push(
                                    rest,
                                    FrameV::DirectPos { mode, x, y: Some(u), ret },
                                );
                            },
                            None => {},
                        }
                    },
                    _ => {},
                }
                match x {
                    Some(xv) => match y {
                        Some(yv) => {
                            let p = PointV { x: xv, y: yv };
                            match ret {
                                DirectRetV::ToPoint { id, level } => {
                                    lemma_wf_push(
                                        rest,
                                        FrameV::Point { id, level, pt: Some(p) },
                                    );
                                },
                                DirectRetV::ToCurve { id, level, pts } => {
                                    lemma_wf_push(
                                        rest,
                                        FrameV::Curve {
                                            id,
                                            level,
                                            pts: pts.push(PointRefV::Direct(p)),
                                        },
                                    );
                                },
                            }
                        },
                        None => {},
                    },
                    None => {},
                }
            },
            FrameV::Curve { id, level, pts } => {
                lemma_wf_push(rest, FrameV::Curve { id, level, pts });
                lemma_wf_push(rest, FrameV::Curve { id, level: sp_bump(level), pts });
                lemma_wf_push(rest, FrameV::Curve { id, level: (level - 1) as usize, pts });
                lemma_wf_push(
                    rest,
                    FrameV::DirectPos {
                        mode: Mode::Blank,
                        x: None,
                        y: None,
                        ret: DirectRetV::ToCurve { id, level, pts },
                    },
                );
                match ev {
                    EventV::Start { name, attrs } => {
                        match sp_find_attr(attrs, "idref"@) {
                            Some(r) => {
                                lemma_wf_push(
                                    rest,
                                    FrameV::Curve {
                                        id,
                                        level: sp_bump(level),
                                        pts: pts.push(PointRefV::Indirect(r)),
                                    },
                                );
                            },
                            None => {},
                        }
                    },
                    _ => {},
                }
                if pts.len() == 2 {
                    let d2 = DocV {
                        segments: st.doc.segments.insert(
                            id,
                            SegmentV { start: pts[0], end: pts[1] },
                        ),
                        ..st.doc
                    };
                    assert(d2.surfaces == st.doc.surfaces);
                    assert(wf_doc(d2));
                }
            },
            FrameV::Surface { id, level, found_exterior, rings } => {
                lemma_wf_push(rest, FrameV::Surface { id, level, found_exterior, rings });
                lemma_wf_push(
                    rest,
                    FrameV::Surface { id, level: sp_bump(level), found_exterior, rings },
                );
                lemma_wf_push(
                    rest,
                    FrameV::Surface {
                        id,
                        level: (level - 1) as usize,
                        found_exterior,
                        rings,
                    },
                );
                lemma_wf_push(
                    rest,
                    FrameV::Ring {
                        surface_id: id,
                        surface_level: level,
                        found_exterior,
                        rings,
                        exterior: true,
                        level: 0,
                        ring: Seq::empty(),
                    },
                );
                lemma_wf_push(
                    rest,
                    FrameV::Ring {
                        surface_id: id,
                        surface_level: level,
                        found_exterior,
                        rings,
                        exterior: false,
                        level: 0,
                        ring: Seq::empty(),
                    },
                );
                if found_exterior {
                    let d2 = DocV { surfaces: st.doc.surfaces.insert(id, rings), ..st.doc };
                    assert(rings.len() >= 1);
                    assert forall|sid: Seq<char>| #[trigger] d2.surfaces.contains_key(sid)
                        implies d2.surfaces[sid].len() >= 1 by {
                        if sid != id {
                            assert(st.doc.surfaces.contains_key(sid));
                        }
                    }
                    assert(wf_doc(d2));
                }
            },
            FrameV::Ring {
                surface_id,
                surface_level,
                found_exterior,
                rings,
                exterior,
                level,
                ring,
            } => {
                lemma_wf_push(
                    rest,
                    FrameV::Ring {
                        surface_id,
                        surface_level,
                        found_exterior,
                        rings,
                        exterior,
                        level,
                        ring,
                    },
                );
                lemma_wf_push(
                    rest,
                    FrameV::Ring {
                        surface_id,
                        surface_level,
                        found_exterior,
                        rings,
                        exterior,
                        level: sp_bump(level),
                        ring,
                    },
                );
                lemma_wf_push(
                    rest,
                    FrameV::Ring {
                        surface_id,
                        surface_level,
                        found_exterior,
                        rings,
                        exterior,
                        level: (level - 1) as usize,
                        ring,
                    },
                );
                match ev {
                    EventV::Start { name, attrs } => {
                        match sp_find_attr(attrs, "idref"@) {
                            Some(r) => {
                                lemma_wf_push(
                                    rest,
                                    FrameV::Ring {
                                        surface_id,
                                        surface_level,
                                        found_exterior,
                                        rings,
                                        exterior,
                                        level: sp_bump(level),
                                        ring: ring.push(r),
                                    },
                                );
                            },
                            None => {},
                        }
                    },
                    _ => {},
                }
                let rings2 = if exterior {
                    rings.insert(0, ring)
                } else {
                    rings.push(ring)
                };
                assert((found_exterior || exterior) ==> rings2.len() >= 1);
                lemma_wf_push(
                    rest,
                    FrameV::Surface {
                        id: surface_id,
                        level: surface_level,
                        found_exterior: found_exterior || exterior,
                        rings: rings2,
                    },
                );
            },
            FrameV::Fude { id, level, attributes, surface_id } => {
                lemma_wf_push(rest, FrameV::Fude { id, level, attributes, surface_id });
                lemma_wf_push(
                    rest,
                    FrameV::Fude { id, level: sp_bump(level), attributes, surface_id },
                );
                lemma_wf_push(
                    rest,
                    FrameV::Fude { id, level: (level - 1) as usize, attributes, surface_id },
                );
                lemma_wf_push(
                    rest.push(FrameV::Fude { id, level, attributes, surface_id }),
                    FrameV::Skip { depth: 1 },
                );
                match ev {
                    EventV::Start { name, attrs } => {
                        let s2 = match sp_find_attr(attrs, "idref"@) {
                            Some(r) => Some(r),
                            None => surface_id,
                        };
                        lemma_wf_push(
                            rest,
                            FrameV::Fude { id, level: sp_bump(level), attributes, surface_id: s2 },
                        );
                        match sp_field_kind(name) {
                            Some(field) => {
                                lemma_wf_push(
                                    rest,
                                    FrameV::FudeField { id, level, attributes, surface_id, field },
                                );
                            },
                            None => {},
                        }
                    },
                    _ => {},
                }
                match surface_id {
                    Some(sid) => {
                        let d2 = DocV {
                            fudes: st.doc.fudes.insert(id, FudeV { attributes, surface_id: sid }),
                            ..st.doc
                        };
                        assert(d2.surfaces == st.doc.surfaces);
                        assert(wf_doc(d2));
                    },
                    None => {},
                }
            },
            FrameV::FudeField { id, level, attributes, surface_id, field } => {
                lemma_wf_push(
                    rest,
                    FrameV::FudeField { id, level, attributes, surface_id, field },
                );
                match ev {
                    EventV::Text(t) => {
                        match xml_unescape(t) {
                            Some(u) => {
                                lemma_wf_push(
                                    rest,
                                    FrameV::Fude {
                                        id,
                                        level: sp_bump(level),
                                        attributes: sp_set_field(attributes, field, u),
                                        surface_id,
                                    },
                                );
                            },
                            None => {},
                        }
                    },
                    _ => {},
                }
            },
            FrameV::CrsCheck { level } => {
                lemma_wf_push(rest, FrameV::CrsCheck { level });
                lemma_wf_push(rest, FrameV::Chizu { level: sp_bump(level) });
            },
            FrameV::Skip { depth } => {
                lemma_wf_push(rest, FrameV::Skip { depth });
                lemma_wf_push(rest, FrameV::Skip { depth: sp_bump(depth) });
                lemma_wf_push(rest, FrameV::Skip { depth: (depth - 1) as usize });
            },
        }
    }
}

/// A whole run from a well-formed machine hands out well-formed tables.
proof fn lemma_run_wf(evs: Seq<EventV>, i: int, flag: bool, st: StateV)
    requires
        wf_state(st),
    ensures
        sp_run(evs, i, flag, st) matches Ok(d) ==> wf_doc(d),
    decreases evs.len() - i,
{
    if i < 0 || i >= evs.len() {
    } else {
        lemma_step_preserves_wf(flag, st, evs[i]);
        match sp_step(flag, st, evs[i]) {
            StepV::Next(st2) => {
                lemma_run_wf(evs, i + 1, flag, st2);
            },
            _ => {},
        }
    }
}

/// Ring well-formedness of every parse: whatever tables a parse hands out,
/// every recorded surface holds at least its exterior ring.
pub proof fn lemma_parsed_surfaces_have_exterior(evs: Seq<EventV>, flag: bool, d: DocV)
    requires
        sp_parse(evs, flag) == Ok::<DocV, ErrorV>(d),
    ensures
        forall|sid: Seq<char>|
            #[trigger] d.surfaces.contains_key(sid) ==> d.surfaces[sid].len() >= 1,
{
    assert(wf_state(sp_init())) by {
        assert forall|i: int| 0 <= i < sp_init().stack.len() implies wf_frame(
            #[trigger] sp_init().stack[i],
        ) by {
            assert(sp_init().stack[i] == FrameV::Root);
        }
    }
    lemma_run_wf(evs, 0, flag, sp_init());
}

/// Ring well-formedness end to end: resolving any surface of any parse's
/// tables never yields an empty ring list — the exterior ring is always
/// there.
pub proof fn lemma_resolved_surface_nonempty(
    evs: Seq<EventV>,
    flag: bool,
    d: DocV,
    sid: Seq<char>,
    out: Seq<Seq<crate::data::PointV>>,
)
    requires
        sp_parse(evs, flag) == Ok::<DocV, ErrorV>(d),
        crate::data::sp_resolve_surface(d, sid) == Ok::<
            Seq<Seq<crate::data::PointV>>,
            crate::data::ResolveErrV,
        >(out),
    ensures
        out.len() >= 1,
{
    lemma_parsed_surfaces_have_exterior(evs, flag, d);
    crate::data::lemma_resolution_keeps_ring_count(d, sid, out);
}

} // verus!
