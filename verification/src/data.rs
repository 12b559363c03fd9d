//! The per-document data model: points, segments, surfaces and parcel
//! records, each table keyed by a document-local string identifier, and the
//! topology resolver that follows those identifiers to build rings of
//! coordinates.
//!
//! Coordinates are kept as the numeric text found in the document, already
//! checked to parse as a floating-point literal; downstream consumers parse
//! the text when they need the number.

use vstd::prelude::*;

verus! {

/// A two-component coordinate, each component the validated numeric text of
/// one position element. `x` holds the first-axis component, `y` the second.
#[derive(Debug, Clone)]
pub struct Point {
    pub x: String,
    pub y: String,
}

/// Mathematical value of a [`Point`]: the two component texts.
#[verifier::ext_equal]
pub struct PointV {
    pub x: Seq<char>,
    pub y: Seq<char>,
}

impl View for Point {
    type V = PointV;

    open spec fn view(&self) -> PointV {
        PointV { x: self.x@, y: self.y@ }
    }
}

impl DeepView for Point {
    type V = PointV;

    open spec fn deep_view(&self) -> PointV {
        self.view()
    }
}

/// A curve endpoint: either an inline coordinate or a reference into the
/// point table, to be looked up at resolution time.
#[derive(Debug, Clone)]
pub enum PointRef {
    Indirect(String),
    Direct(Point),
}

/// Mathematical value of a [`PointRef`].
pub enum PointRefV {
    Indirect(Seq<char>),
    Direct(PointV),
}

impl View for PointRef {
    type V = PointRefV;

    open spec fn view(&self) -> PointRefV {
        match self {
            PointRef::Indirect(id) => PointRefV::Indirect(id@),
            PointRef::Direct(p) => PointRefV::Direct(p@),
        }
    }
}

impl DeepView for PointRef {
    type V = PointRefV;

    open spec fn deep_view(&self) -> PointRefV {
        self.view()
    }
}

/// A boundary edge: exactly two endpoints. Only the first endpoint
/// contributes a ring vertex at resolution time; the second is implied by the
/// following segment.
#[derive(Debug, Clone)]
pub struct Segment {
    pub start: PointRef,
    pub end: PointRef,
}

/// Mathematical value of a [`Segment`].
#[verifier::ext_equal]
pub struct SegmentV {
    pub start: PointRefV,
    pub end: PointRefV,
}

impl View for Segment {
    type V = SegmentV;

    open spec fn view(&self) -> SegmentV {
        SegmentV { start: self.start@, end: self.end@ }
    }
}

impl DeepView for Segment {
    type V = SegmentV;

    open spec fn deep_view(&self) -> SegmentV {
        self.view()
    }
}

/// The business attributes of one parcel record. Every field except the
/// identifier is optional text.
#[derive(Debug, Clone)]
pub struct FudeAttributes {
    pub id: String,
    pub oaza_code: Option<String>,
    pub chome_code: Option<String>,
    pub koaza_code: Option<String>,
    pub yobi_code: Option<String>,
    pub oaza: Option<String>,
    pub chome: Option<String>,
    pub koaza: Option<String>,
    pub yobi: Option<String>,
    pub chiban: Option<String>,
    pub hikkai_mitei: Option<String>,
    pub accuracy_class: Option<String>,
    pub coord_class: Option<String>,
}

/// Mathematical value of [`FudeAttributes`].
#[verifier::ext_equal]
pub struct FudeAttributesV {
    pub id: Seq<char>,
    pub oaza_code: Option<Seq<char>>,
    pub chome_code: Option<Seq<char>>,
    pub koaza_code: Option<Seq<char>>,
    pub yobi_code: Option<Seq<char>>,
    pub oaza: Option<Seq<char>>,
    pub chome: Option<Seq<char>>,
    pub koaza: Option<Seq<char>>,
    pub yobi: Option<Seq<char>>,
    pub chiban: Option<Seq<char>>,
    pub hikkai_mitei: Option<Seq<char>>,
    pub accuracy_class: Option<Seq<char>>,
    pub coord_class: Option<Seq<char>>,
}

impl FudeAttributesV {
    /// The value of a freshly started parcel record: no field seen yet.
    pub open spec fn empty() -> FudeAttributesV {
        FudeAttributesV {
            id: Seq::<char>::empty(),
            oaza_code: None,
            chome_code: None,
            koaza_code: None,
            yobi_code: None,
            oaza: None,
            chome: None,
            koaza: None,
            yobi: None,
            chiban: None,
            hikkai_mitei: None,
            accuracy_class: None,
            coord_class: None,
        }
    }
}

impl View for FudeAttributes {
    type V = FudeAttributesV;

    open spec fn view(&self) -> FudeAttributesV {
        FudeAttributesV {
            id: self.id@,
            oaza_code: self.oaza_code.deep_view(),
            chome_code: self.chome_code.deep_view(),
            koaza_code: self.koaza_code.deep_view(),
            yobi_code: self.yobi_code.deep_view(),
            oaza: self.oaza.deep_view(),
            chome: self.chome.deep_view(),
            koaza: self.koaza.deep_view(),
            yobi: self.yobi.deep_view(),
            chiban: self.chiban.deep_view(),
            hikkai_mitei: self.hikkai_mitei.deep_view(),
            accuracy_class: self.accuracy_class.deep_view(),
            coord_class: self.coord_class.deep_view(),
        }
    }
}

impl DeepView for FudeAttributes {
    type V = FudeAttributesV;

    open spec fn deep_view(&self) -> FudeAttributesV {
        self.view()
    }
}

impl Default for FudeAttributes {
    /// A record with every field absent and an empty identifier.
    fn default() -> (r: FudeAttributes)
        ensures
            r@ == FudeAttributesV::empty(),
    {
        let r = FudeAttributes {
            id: String::new(),
            oaza_code: None,
            chome_code: None,
            koaza_code: None,
            yobi_code: None,
            oaza: None,
            chome: None,
            koaza: None,
            yobi: None,
            chiban: None,
            hikkai_mitei: None,
            accuracy_class: None,
            coord_class: None,
        };
        proof {
            assert(r@ =~= FudeAttributesV::empty());
        }
        r
    }
}

/// One parcel: its attributes plus the identifier of its boundary surface.
#[derive(Debug, Clone)]
pub struct Fude {
    pub attributes: FudeAttributes,
    pub surface_id: String,
}

/// Mathematical value of a [`Fude`].
#[verifier::ext_equal]
pub struct FudeV {
    pub attributes: FudeAttributesV,
    pub surface_id: Seq<char>,
}

impl View for Fude {
    type V = FudeV;

    open spec fn view(&self) -> FudeV {
        FudeV { attributes: self.attributes@, surface_id: self.surface_id@ }
    }
}

impl DeepView for Fude {
    type V = FudeV;

    open spec fn deep_view(&self) -> FudeV {
        self.view()
    }
}


/// An empty point table value.
pub open spec fn empty_point_map() -> Map<Seq<char>, PointV> {
    Map::<Seq<char>, PointV>::empty()
}

/// An empty segment table value.
pub open spec fn empty_segment_map() -> Map<Seq<char>, SegmentV> {
    Map::<Seq<char>, SegmentV>::empty()
}

/// An empty surface table value.
pub open spec fn empty_surface_map() -> Map<Seq<char>, Seq<Seq<Seq<char>>>> {
    Map::<Seq<char>, Seq<Seq<Seq<char>>>>::empty()
}

/// An empty parcel table value.
pub open spec fn empty_fude_map() -> Map<Seq<char>, FudeV> {
    Map::<Seq<char>, FudeV>::empty()
}

/// The point table: point identifier to coordinate.
#[verifier::external_body]
pub struct PointTable {
    inner: hashbrown::HashMap<String, Point>,
}

/// What the point table holds: identifier to coordinate.
pub uninterp spec fn point_table_view(t: PointTable) -> Map<Seq<char>, PointV>;

impl View for PointTable {
    type V = Map<Seq<char>, PointV>;

    open spec fn view(&self) -> Map<Seq<char>, PointV> {
        point_table_view(*self)
    }
}

impl PointTable {
    /// Relies on hashbrown::HashMap::new: the fresh map is empty.
    #[verifier::external_body]
    fn new_raw() -> (t: PointTable)
        ensures
            point_table_view(t) == empty_point_map(),
    {
        PointTable { inner: hashbrown::HashMap::new() }
    }

    /// A fresh, empty table.
    pub fn new() -> (t: PointTable)
        ensures
            t@ == empty_point_map(),
    {
        PointTable::new_raw()
    }

    /// Relies on hashbrown::HashMap::insert: the entry for this key is set to
    /// this value and every other entry is unchanged.
    #[verifier::external_body]
    fn insert_raw(&mut self, k: String, v: Point)
        ensures
            point_table_view(*final(self)) == point_table_view(*old(self)).insert(k@, v@),
    {
        self.inner.insert(k, v);
    }

    /// Set the entry for this key to this value; every other entry stays.
    pub fn insert(&mut self, k: String, v: Point)
        ensures
            final(self)@ == old(self)@.insert(k@, v@),
    {
        self.insert_raw(k, v);
    }

    /// Relies on hashbrown::HashMap::get: the value stored for this key, or
    /// nothing when the key is absent.
    #[verifier::external_body]
    fn get_raw(&self, k: &str) -> (r: Option<&Point>)
        ensures
            match r {
                Some(p) => point_table_view(*self).contains_key(k@) && p@ == point_table_view(*self)[k@],
                None => !point_table_view(*self).contains_key(k@),
            },
    {
        self.inner.get(k)
    }

    /// The value stored for this key, or nothing when the key is absent.
    pub fn get(&self, k: &str) -> (r: Option<&Point>)
        ensures
            match r {
                Some(p) => self@.contains_key(k@) && p@ == self@[k@],
                None => !self@.contains_key(k@),
            },
    {
        self.get_raw(k)
    }
}

/// The segment table: curve identifier to its two endpoints.
#[verifier::external_body]
pub struct SegmentTable {
    inner: hashbrown::HashMap<String, Segment>,
}

/// What the segment table holds: identifier to segment.
pub uninterp spec fn segment_table_view(t: SegmentTable) -> Map<Seq<char>, SegmentV>;

impl View for SegmentTable {
    type V = Map<Seq<char>, SegmentV>;

    open spec fn view(&self) -> Map<Seq<char>, SegmentV> {
        segment_table_view(*self)
    }
}

impl SegmentTable {
    /// Relies on hashbrown::HashMap::new: the fresh map is empty.
    #[verifier::external_body]
    fn new_raw() -> (t: SegmentTable)
        ensures
            segment_table_view(t) == empty_segment_map(),
    {
        SegmentTable { inner: hashbrown::HashMap::new() }
    }

    /// A fresh, empty table.
    pub fn new() -> (t: SegmentTable)
        ensures
            t@ == empty_segment_map(),
    {
        SegmentTable::new_raw()
    }

    /// Relies on hashbrown::HashMap::insert: the entry for this key is set to
    /// this value and every other entry is unchanged.
    #[verifier::external_body]
    fn insert_raw(&mut self, k: String, v: Segment)
        ensures
            segment_table_view(*final(self)) == segment_table_view(*old(self)).insert(k@, v@),
    {
        self.inner.insert(k, v);
    }

    /// Set the entry for this key to this value; every other entry stays.
    pub fn insert(&mut self, k: String, v: Segment)
        ensures
            final(self)@ == old(self)@.insert(k@, v@),
    {
        self.insert_raw(k, v);
    }

    /// Relies on hashbrown::HashMap::get: the value stored for this key, or
    /// nothing when the key is absent.
    #[verifier::external_body]
    fn get_raw(&self, k: &str) -> (r: Option<&Segment>)
        ensures
            match r {
                Some(p) => segment_table_view(*self).contains_key(k@) && p@ == segment_table_view(*self)[k@],
                None => !segment_table_view(*self).contains_key(k@),
            },
    {
        self.inner.get(k)
    }

    /// The value stored for this key, or nothing when the key is absent.
    pub fn get(&self, k: &str) -> (r: Option<&Segment>)
        ensures
            match r {
                Some(p) => self@.contains_key(k@) && p@ == self@[k@],
                None => !self@.contains_key(k@),
            },
    {
        self.get_raw(k)
    }
}

/// The surface table: surface identifier to its rings, each ring an
/// ordered list of segment identifiers, the exterior ring first.
#[verifier::external_body]
pub struct SurfaceTable {
    inner: hashbrown::HashMap<String, Vec<Vec<String>>>,
}

/// What the surface table holds: identifier to rings of segment
/// identifiers.
pub uninterp spec fn surface_table_view(t: SurfaceTable) -> Map<Seq<char>, Seq<Seq<Seq<char>>>>;

impl View for SurfaceTable {
    type V = Map<Seq<char>, Seq<Seq<Seq<char>>>>;

    open spec fn view(&self) -> Map<Seq<char>, Seq<Seq<Seq<char>>>> {
        surface_table_view(*self)
    }
}

impl SurfaceTable {
    /// Relies on hashbrown::HashMap::new: the fresh map is empty.
    #[verifier::external_body]
    fn new_raw() -> (t: SurfaceTable)
        ensures
            surface_table_view(t) == empty_surface_map(),
    {
        SurfaceTable { inner: hashbrown::HashMap::new() }
    }

    /// A fresh, empty table.
    pub fn new() -> (t: SurfaceTable)
        ensures
            t@ == empty_surface_map(),
    {
        SurfaceTable::new_raw()
    }

    /// Relies on hashbrown::HashMap::insert: the entry for this key is set to
    /// this value and every other entry is unchanged.
    #[verifier::external_body]
    fn insert_raw(&mut self, k: String, v: Vec<Vec<String>>)
        ensures
            surface_table_view(*final(self)) == surface_table_view(*old(self)).insert(k@, v.deep_view()),
    {
        self.inner.insert(k, v);
    }

    /// Set the entry for this key to this value; every other entry stays.
    pub fn insert(&mut self, k: String, v: Vec<Vec<String>>)
        ensures
            final(self)@ == old(self)@.insert(k@, v.deep_view()),
    {
        self.insert_raw(k, v);
    }

    /// Relies on hashbrown::HashMap::get: the value stored for this key, or
    /// nothing when the key is absent.
    #[verifier::external_body]
    fn get_raw(&self, k: &str) -> (r: Option<&Vec<Vec<String>>>)
        ensures
            match r {
                Some(v) => surface_table_view(*self).contains_key(k@) && v.deep_view() == surface_table_view(*self)[k@],
                None => !surface_table_view(*self).contains_key(k@),
            },
    {
        self.inner.get(k)
    }

    /// The value stored for this key, or nothing when the key is absent.
    pub fn get(&self, k: &str) -> (r: Option<&Vec<Vec<String>>>)
        ensures
            match r {
                Some(v) => self@.contains_key(k@) && v.deep_view() == self@[k@],
                None => !self@.contains_key(k@),
            },
    {
        self.get_raw(k)
    }
}

/// The parcel table: parcel identifier to its record.
#[verifier::external_body]
pub struct FudeTable {
    inner: hashbrown::HashMap<String, Fude>,
}

/// What the parcel table holds: identifier to record.
pub uninterp spec fn fude_table_view(t: FudeTable) -> Map<Seq<char>, FudeV>;

impl View for FudeTable {
    type V = Map<Seq<char>, FudeV>;

    open spec fn view(&self) -> Map<Seq<char>, FudeV> {
        fude_table_view(*self)
    }
}

impl FudeTable {
    /// Relies on hashbrown::HashMap::new: the fresh map is empty.
    #[verifier::external_body]
    fn new_raw() -> (t: FudeTable)
        ensures
            fude_table_view(t) == empty_fude_map(),
    {
        FudeTable { inner: hashbrown::HashMap::new() }
    }

    /// A fresh, empty table.
    pub fn new() -> (t: FudeTable)
        ensures
            t@ == empty_fude_map(),
    {
        FudeTable::new_raw()
    }

    /// Relies on hashbrown::HashMap::insert: the entry for this key is set to
    /// this value and every other entry is unchanged.
    #[verifier::external_body]
    fn insert_raw(&mut self, k: String, v: Fude)
        ensures
            fude_table_view(*final(self)) == fude_table_view(*old(self)).insert(k@, v@),
    {
        self.inner.insert(k, v);
    }

    /// Set the entry for this key to this value; every other entry stays.
    pub fn insert(&mut self, k: String, v: Fude)
        ensures
            final(self)@ == old(self)@.insert(k@, v@),
    {
        self.insert_raw(k, v);
    }

    /// Relies on hashbrown::HashMap::get: the value stored for this key, or
    /// nothing when the key is absent.
    #[verifier::external_body]
    fn get_raw(&self, k: &str) -> (r: Option<&Fude>)
        ensures
            match r {
                Some(p) => fude_table_view(*self).contains_key(k@) && p@ == fude_table_view(*self)[k@],
                None => !fude_table_view(*self).contains_key(k@),
            },
    {
        self.inner.get(k)
    }

    /// The value stored for this key, or nothing when the key is absent.
    pub fn get(&self, k: &str) -> (r: Option<&Fude>)
        ensures
            match r {
                Some(p) => self@.contains_key(k@) && p@ == self@[k@],
                None => !self@.contains_key(k@),
            },
    {
        self.get_raw(k)
    }

    /// Relies on hashbrown::HashMap::len: the number of stored entries.
    #[verifier::external_body]
    fn len_raw(&self) -> (n: usize)
        ensures
            n == fude_table_view(*self).len(),
    {
        self.inner.len()
    }

    /// The number of stored records.
    pub fn len(&self) -> (n: usize)
        ensures
            n == self@.len(),
    {
        self.len_raw()
    }

    /// Relies on hashbrown::HashMap::iter: every stored entry is handed out
    /// exactly once, in no promised order.
    #[verifier::external_body]
    fn entries_raw(&self) -> (r: Vec<(String, Fude)>)
        ensures
            forall|i: int|
                0 <= i < r@.len() ==> #[trigger] fude_table_view(*self).contains_key(r@[i].0@)
                    && fude_table_view(*self)[r@[i].0@] == r@[i].1@,
            forall|k: Seq<char>|
                fude_table_view(*self).contains_key(k) ==> exists|i: int|
                    0 <= i < r@.len() && #[trigger] r@[i].0@ == k,
            forall|i: int, j: int| 0 <= i < j < r@.len() ==> r@[i].0@ != r@[j].0@,
    {
        self.inner.iter().map(|e| (e.0.clone(), e.1.clone())).collect()
    }

    /// Every stored record, each exactly once, in no promised order.
    pub fn entries(&self) -> (r: Vec<(String, Fude)>)
        ensures
            forall|i: int|
                0 <= i < r@.len() ==> #[trigger] self@.contains_key(r@[i].0@) && self@[r@[i].0@]
                    == r@[i].1@,
            forall|k: Seq<char>|
                self@.contains_key(k) ==> exists|i: int| 0 <= i < r@.len() && #[trigger] r@[i].0@
                    == k,
            forall|i: int, j: int| 0 <= i < j < r@.len() ==> r@[i].0@ != r@[j].0@,
    {
        let r = self.entries_raw();
        proof {
            assert forall|i: int| 0 <= i < r@.len() implies #[trigger] self@.contains_key(r@[i].0@)
                && self@[r@[i].0@] == r@[i].1@ by {
                assert(fude_table_view(*self).contains_key(r@[i].0@));
            }
        }
        r
    }
}

/// The four tables produced by one parse of one document.
pub struct ParsedData {
    pub points: PointTable,
    pub segments: SegmentTable,
    pub surfaces: SurfaceTable,
    pub fudes: FudeTable,
}

/// Mathematical value of [`ParsedData`]: the four identifier-keyed maps.
#[verifier::ext_equal]
pub struct DocV {
    pub points: Map<Seq<char>, PointV>,
    pub segments: Map<Seq<char>, SegmentV>,
    pub surfaces: Map<Seq<char>, Seq<Seq<Seq<char>>>>,
    pub fudes: Map<Seq<char>, FudeV>,
}

impl DocV {
    /// The value of the tables at parse start: all empty.
    pub open spec fn empty() -> DocV {
        DocV {
            points: Map::<Seq<char>, PointV>::empty(),
            segments: Map::<Seq<char>, SegmentV>::empty(),
            surfaces: Map::<Seq<char>, Seq<Seq<Seq<char>>>>::empty(),
            fudes: Map::<Seq<char>, FudeV>::empty(),
        }
    }
}

impl View for ParsedData {
    type V = DocV;

    open spec fn view(&self) -> DocV {
        DocV {
            points: point_table_view(self.points),
            segments: segment_table_view(self.segments),
            surfaces: surface_table_view(self.surfaces),
            fudes: fude_table_view(self.fudes),
        }
    }
}

impl ParsedData {
    /// Four empty tables.
    pub fn new() -> (d: ParsedData)
        ensures
            d@ == DocV::empty(),
    {
        let d = ParsedData {
            points: PointTable::new(),
            segments: SegmentTable::new(),
            surfaces: SurfaceTable::new(),
            fudes: FudeTable::new(),
        };
        proof {
            assert(d@ =~= DocV::empty());
        }
        d
    }
}

/// A failed identifier lookup during topology resolution, naming the missing
/// identifier.
#[derive(Debug, Clone)]
pub enum ResolveError {
    SurfaceNotFound(String),
    SegmentNotFound(String),
    PointNotFound(String),
}

/// Mathematical value of a [`ResolveError`].
pub enum ResolveErrV {
    SurfaceNotFound(Seq<char>),
    SegmentNotFound(Seq<char>),
    PointNotFound(Seq<char>),
}

impl View for ResolveError {
    type V = ResolveErrV;

    open spec fn view(&self) -> ResolveErrV {
        match self {
            ResolveError::SurfaceNotFound(id) => ResolveErrV::SurfaceNotFound(id@),
            ResolveError::SegmentNotFound(id) => ResolveErrV::SegmentNotFound(id@),
            ResolveError::PointNotFound(id) => ResolveErrV::PointNotFound(id@),
        }
    }
}

/// The coordinate a point reference stands for. An inline endpoint is passed
/// through unchanged; a point-table entry is stored in swapped axis order and
/// has its two components exchanged here. The asymmetry is how the two
/// sub-formats encode coordinates and is preserved deliberately.
pub open spec fn sp_resolve_ref(doc: DocV, pr: PointRefV) -> Result<PointV, ResolveErrV> {
    match pr {
        PointRefV::Direct(p) => Ok(p),
        PointRefV::Indirect(pid) => if doc.points.contains_key(pid) {
            Ok(PointV { x: doc.points[pid].y, y: doc.points[pid].x })
        } else {
            Err(ResolveErrV::PointNotFound(pid))
        },
    }
}

/// The coordinates of one ring, from position `k` on, appended to `acc`: for
/// each segment identifier in order, the resolved first endpoint of that
/// segment.
pub open spec fn sp_resolve_ring(
    doc: DocV,
    ring: Seq<Seq<char>>,
    k: int,
    acc: Seq<PointV>,
) -> Result<Seq<PointV>, ResolveErrV>
    decreases ring.len() - k,
{
    if k < 0 || k >= ring.len() {
        Ok(acc)
    } else {
        let sid = ring[k];
        if !doc.segments.contains_key(sid) {
            Err(ResolveErrV::SegmentNotFound(sid))
        } else {
            match sp_resolve_ref(doc, doc.segments[sid].start) {
                Ok(p) => sp_resolve_ring(doc, ring, k + 1, acc.push(p)),
                Err(e) => Err(e),
            }
        }
    }
}

/// The resolved rings of a surface, from ring `k` on, appended to `acc`.
pub open spec fn sp_resolve_rings(
    doc: DocV,
    rings: Seq<Seq<Seq<char>>>,
    k: int,
    acc: Seq<Seq<PointV>>,
) -> Result<Seq<Seq<PointV>>, ResolveErrV>
    decreases rings.len() - k,
{
    if k < 0 || k >= rings.len() {
        Ok(acc)
    } else {
        match sp_resolve_ring(doc, rings[k], 0, Seq::<PointV>::empty()) {
            Ok(ps) => sp_resolve_rings(doc, rings, k + 1, acc.push(ps)),
            Err(e) => Err(e),
        }
    }
}

/// What resolving a surface identifier yields: the surface's rings in stored
/// order (exterior first), each ring its segments' resolved first endpoints
/// in order; or the first failing lookup.
pub open spec fn sp_resolve_surface(doc: DocV, sid: Seq<char>) -> Result<
    Seq<Seq<PointV>>,
    ResolveErrV,
> {
    if doc.surfaces.contains_key(sid) {
        sp_resolve_rings(doc, doc.surfaces[sid], 0, Seq::<Seq<PointV>>::empty())
    } else {
        Err(ResolveErrV::SurfaceNotFound(sid))
    }
}

impl ParsedData {
    /// Resolve a surface identifier into rings of coordinates, exterior ring
    /// first, or fail naming the first missing identifier.
    pub fn resolve_surface(&self, surface_id: &str) -> (r: Result<Vec<Vec<Point>>, ResolveError>)
        ensures
            match r {
                Ok(rings) => sp_resolve_surface(self@, surface_id@) == Ok::<_, ResolveErrV>(
                    rings.deep_view(),
                ),
                Err(e) => sp_resolve_surface(self@, surface_id@) == Err::<Seq<Seq<PointV>>, _>(e@),
            },
    {
        let rings_opt = self.surfaces.get(surface_id);
        match rings_opt {
            None => Err(ResolveError::SurfaceNotFound(surface_id.to_owned())),
            Some(rings) => {
                let ghost ringsv: Seq<Seq<Seq<char>>> = rings.deep_view();
                let mut out: Vec<Vec<Point>> = Vec::new();
                proof {
                    assert(out.deep_view() =~= Seq::<Seq<PointV>>::empty());
                }
                let n = rings.len();
                for i in 0..n
                    invariant
                        n == rings@.len(),
                        ringsv == rings.deep_view(),
                        surface_table_view(self.surfaces).contains_key(surface_id@),
                        surface_table_view(self.surfaces)[surface_id@] == ringsv,
                        sp_resolve_rings(self@, ringsv, 0, Seq::<Seq<PointV>>::empty())
                            == sp_resolve_rings(self@, ringsv, i as int, out.deep_view()),
                {
                    let ghost outv: Seq<Seq<PointV>> = out.deep_view();
                    let ring = &rings[i];
                    proof {
                        assert(ring.deep_view() == ringsv[i as int]);
                    }
                    match self.resolve_ring(ring) {
                        Ok(ps) => {
                            let ghost psv: Seq<PointV> = ps.deep_view();
                            proof {
                                assert(sp_resolve_rings(self@, ringsv, i as int, outv)
                                    == sp_resolve_rings(self@, ringsv, i + 1, outv.push(psv)));
                            }
                            out.push(ps);
                            proof {
                                assert(out.deep_view() =~= outv.push(psv));
                            }
                        },
                        Err(e) => {
                            proof {
                                assert(sp_resolve_rings(self@, ringsv, i as int, outv) == Err::<
                                    Seq<Seq<PointV>>,
                                    ResolveErrV,
                                >(e@));
                            }
                            return Err(e);
                        },
                    }
                }
                Ok(out)
            },
        }
    }

    /// Resolve one ring: each segment identifier in order to the resolved
    /// first endpoint of that segment.
    fn resolve_ring(&self, ring: &Vec<String>) -> (r: Result<Vec<Point>, ResolveError>)
        ensures
            match r {
                Ok(ps) => sp_resolve_ring(self@, ring.deep_view(), 0, Seq::<PointV>::empty())
                    == Ok::<_, ResolveErrV>(ps.deep_view()),
                Err(e) => sp_resolve_ring(self@, ring.deep_view(), 0, Seq::<PointV>::empty())
                    == Err::<Seq<PointV>, _>(e@),
            },
    {
        let ghost ringv: Seq<Seq<char>> = ring.deep_view();
        let mut pts: Vec<Point> = Vec::new();
        proof {
            assert(pts.deep_view() =~= Seq::<PointV>::empty());
        }
        let n = ring.len();
        for j in 0..n
            invariant
                n == ring@.len(),
                ringv == ring.deep_view(),
                sp_resolve_ring(self@, ringv, 0, Seq::<PointV>::empty()) == sp_resolve_ring(
                    self@,
                    ringv,
                    j as int,
                    pts.deep_view(),
                ),
        {
            let ghost accv: Seq<PointV> = pts.deep_view();
            let sid = &ring[j];
            proof {
                assert(sid@ == ringv[j as int]);
            }
            match self.segments.get(sid.as_str()) {
                None => {
                    proof {
                        assert(sp_resolve_ring(self@, ringv, j as int, accv) == Err::<
                            Seq<PointV>,
                            ResolveErrV,
                        >(ResolveErrV::SegmentNotFound(sid@)));
                    }
                    return Err(ResolveError::SegmentNotFound(sid.clone()));
                },
                Some(seg) => {
                    let ghost segv: SegmentV = self@.segments[ringv[j as int]];
                    match &seg.start {
                        PointRef::Direct(p) => {
                            let q = Point { x: p.x.clone(), y: p.y.clone() };
                            let ghost qv: PointV = q@;
                            proof {
                                assert(qv =~= p@);
                                assert(sp_resolve_ref(self@, segv.start) == Ok::<
                                    PointV,
                                    ResolveErrV,
                                >(qv));
                                assert(sp_resolve_ring(self@, ringv, j as int, accv)
                                    == sp_resolve_ring(self@, ringv, j + 1, accv.push(qv)));
                            }
                            pts.push(q);
                            proof {
                                assert(pts.deep_view() =~= accv.push(qv));
                            }
                        },
                        PointRef::Indirect(pid) => {
                            match self.points.get(pid.as_str()) {
                                None => {
                                    proof {
                                        assert(sp_resolve_ref(self@, segv.start) == Err::<
                                            PointV,
                                            ResolveErrV,
                                        >(ResolveErrV::PointNotFound(pid@)));
                                        assert(sp_resolve_ring(self@, ringv, j as int, accv)
                                            == Err::<Seq<PointV>, ResolveErrV>(
                                            ResolveErrV::PointNotFound(pid@),
                                        ));
                                    }
                                    return Err(ResolveError::PointNotFound(pid.clone()));
                                },
                                Some(p) => {
                                    let q = Point { x: p.y.clone(), y: p.x.clone() };
                                    let ghost qv: PointV = q@;
                                    proof {
                                        assert(sp_resolve_ref(self@, segv.start) == Ok::<
                                            PointV,
                                            ResolveErrV,
                                        >(qv));
                                        assert(sp_resolve_ring(self@, ringv, j as int, accv)
                                            == sp_resolve_ring(self@, ringv, j + 1, accv.push(qv)));
                                    }
                                    pts.push(q);
                                    proof {
                                        assert(pts.deep_view() =~= accv.push(qv));
                                    }
                                },
                            }
                        },
                    }
                },
            }
        }
        Ok(pts)
    }
}

/// Round-trip of a stored point through an endpoint reference: an indirect
/// reference to a point recorded as `(x, y)` resolves to `(y, x)` — the
/// table's axis order is swapped on the way out — while a direct endpoint
/// with the same components passes through unchanged. The asymmetry is how
/// the two sub-formats encode coordinates and is preserved deliberately.
pub proof fn lemma_point_reference_round_trip(doc: DocV, pid: Seq<char>, p: PointV)
    requires
        doc.points.contains_key(pid),
        doc.points[pid] == p,
    ensures
        sp_resolve_ref(doc, PointRefV::Indirect(pid)) == Ok::<PointV, ResolveErrV>(
            PointV { x: p.y, y: p.x },
        ),
        sp_resolve_ref(doc, PointRefV::Direct(p)) == Ok::<PointV, ResolveErrV>(p),
{
}

/// Ring-count bookkeeping of the resolver, from ring `k` on.
proof fn lemma_resolve_rings_len(
    doc: DocV,
    rings: Seq<Seq<Seq<char>>>,
    k: int,
    acc: Seq<Seq<PointV>>,
)
    requires
        0 <= k <= rings.len(),
    ensures
        sp_resolve_rings(doc, rings, k, acc) matches Ok(out) ==> out.len() == acc.len()
            + rings.len() - k,
    decreases rings.len() - k,
{
    if k < rings.len() {
        match sp_resolve_ring(doc, rings[k], 0, Seq::<PointV>::empty()) {
            Ok(ps) => {
                lemma_resolve_rings_len(doc, rings, k + 1, acc.push(ps));
            },
            Err(_) => {},
        }
    }
}

/// Resolution keeps the ring structure: a successful resolution of a surface
/// yields exactly as many rings as the surface holds — in particular, a
/// surface with at least its exterior ring never resolves to an empty list.
pub proof fn lemma_resolution_keeps_ring_count(doc: DocV, sid: Seq<char>, out: Seq<Seq<PointV>>)
    requires
        sp_resolve_surface(doc, sid) == Ok::<Seq<Seq<PointV>>, ResolveErrV>(out),
    ensures
        doc.surfaces.contains_key(sid),
        out.len() == doc.surfaces[sid].len(),
{
    lemma_resolve_rings_len(doc, doc.surfaces[sid], 0, Seq::<Seq<PointV>>::empty());
}

} // verus!
