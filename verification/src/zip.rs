//! Traversal of the nested archive distribution: every top-level entry whose
//! name ends in the document extension is handed out as-is; an entry ending
//! in the nested-archive extension must hold exactly one document, which is
//! handed out instead; anything else is skipped silently. A failure on one
//! entry is an item of the stream, not a fatal abort.

use vstd::prelude::*;


verus! {

/// Declares the archive reader of the zip crate.
#[verifier::external_type_specification]
#[verifier::external_body]
#[verifier::reject_recursive_types(R)]
pub struct ExZipArchive<R>(zip::ZipArchive<R>);

/// What an open archive holds: for each entry in central-directory order,
/// its name and its decompressed payload, or no payload where the entry
/// cannot be read or decompressed.
pub uninterp spec fn zip_entries(a: zip::ZipArchive<std::io::Cursor<Vec<u8>>>) -> Seq<
    (Seq<char>, Option<Seq<u8>>),
>;

/// The same, as a function of the archive's raw bytes: what any archive
/// opened over these bytes holds.
pub uninterp spec fn zip_entries_of(data: Seq<u8>) -> Seq<(Seq<char>, Option<Seq<u8>>)>;

/// Whether these bytes open as an archive at all.
pub uninterp spec fn zip_valid(data: Seq<u8>) -> bool;

/// Relies on zip::ZipArchive::new over an in-memory cursor: opening parses
/// the central directory of the given bytes and nothing else, so success and
/// contents are functions of the bytes alone.
#[verifier::external_body]
fn archive_from_bytes(data: Vec<u8>) -> (r: Result<
    zip::ZipArchive<std::io::Cursor<Vec<u8>>>,
    String,
>)
    ensures
        r is Ok <==> zip_valid(data@),
        r matches Ok(a) ==> zip_entries(a) == zip_entries_of(data@),
{
    match zip::ZipArchive::new(std::io::Cursor::new(data)) {
        Ok(a) => Ok(a),
        Err(e) => Err(e.to_string()),
    }
}

/// Relies on zip::ZipArchive::len: the number of entries.
#[verifier::external_body]
fn archive_len(a: &zip::ZipArchive<std::io::Cursor<Vec<u8>>>) -> (n: usize)
    ensures
        n == zip_entries(*a).len(),
{
    a.len()
}

/// Relies on zip::ZipArchive::name_for_index: the stored name of an entry,
/// straight from the central directory, which an in-bounds index always has.
#[verifier::external_body]
fn archive_entry_name(a: &zip::ZipArchive<std::io::Cursor<Vec<u8>>>, i: usize) -> (r: String)
    requires
        i < zip_entries(*a).len(),
    ensures
        r@ == zip_entries(*a)[i as int].0,
{
    match a.name_for_index(i) {
        Some(n) => n.to_owned(),
        None => String::new(),
    }
}

/// Relies on zip::ZipArchive::by_index and std::io::Read::read_to_end: the
/// decompressed payload of one entry of an in-memory archive, a function of
/// the archive's bytes; it fails exactly on the entries that cannot be read.
#[verifier::external_body]
fn archive_entry(a: &mut zip::ZipArchive<std::io::Cursor<Vec<u8>>>, i: usize) -> (r: Result<
    Vec<u8>,
    String,
>)
    requires
        i < zip_entries(*old(a)).len(),
    ensures
        zip_entries(*final(a)) == zip_entries(*old(a)),
        r matches Ok(b) ==> zip_entries(*old(a))[i as int].1 == Some(b@),
        r is Err ==> zip_entries(*old(a))[i as int].1 is None,
{
    match a.by_index(i) {
        Err(e) => Err(e.to_string()),
        Ok(mut f) => {
            let mut buf: Vec<u8> = Vec::new();
            match std::io::Read::read_to_end(&mut f, &mut buf) {
                Ok(_) => Ok(buf),
                Err(e) => Err(e.to_string()),
            }
        },
    }
}

/// Whether `t` is a suffix of `s`.
pub open spec fn sp_ends_with(s: Seq<char>, t: Seq<char>) -> bool {
    t.len() <= s.len() && s.subrange(s.len() - t.len(), s.len() as int) == t
}

/// Executable counterpart of [`sp_ends_with`].
fn has_suffix(s: &str, suffix: &str) -> (r: bool)
    ensures
        r == sp_ends_with(s@, suffix@),
{
    let n = s.unicode_len();
    let m = suffix.unicode_len();
    if m > n {
        return false;
    }
    let off = n - m;
    for i in 0..m
        invariant
            m <= n,
            off == n - m,
            n == s@.len(),
            m == suffix@.len(),
            forall|k: int| 0 <= k < i ==> s@[off + k] == suffix@[k],
    {
        let a = s.get_char(off + i);
        let b = suffix.get_char(i);
        if a != b {
            proof {
                assert(s@.subrange(off as int, n as int)[i as int] == s@[off + i]);
            }
            return false;
        }
    }
    proof {
        assert(s@.subrange(off as int, n as int) =~= suffix@);
    }
    true
}

/// A failure on one archive entry. The carried text is the underlying
/// message and is diagnostic only.
#[derive(Debug, Clone)]
pub enum ZipError {
    /// An entry that could not be read or decompressed.
    Entry(String),
    /// A nested archive that does not open.
    Nested(String),
    /// A nested archive with more or fewer than one entry.
    NestedCount,
    /// A nested archive whose single entry is not a document.
    NestedNotDocument,
}

/// Mathematical value of a [`ZipError`].
pub enum ZipErrV {
    Entry,
    Nested,
    NestedCount,
    NestedNotDocument,
}

impl View for ZipError {
    type V = ZipErrV;

    open spec fn view(&self) -> ZipErrV {
        match self {
            ZipError::Entry(_) => ZipErrV::Entry,
            ZipError::Nested(_) => ZipErrV::Nested,
            ZipError::NestedCount => ZipErrV::NestedCount,
            ZipError::NestedNotDocument => ZipErrV::NestedNotDocument,
        }
    }
}

/// What one top-level entry contributes to the stream: nothing for an entry
/// with neither extension; the payload itself for a document; the nested
/// archive's single document for a nested archive; a per-entry error where
/// reading fails or the nested archive is not as required.
pub open spec fn sp_entry_item(e: (Seq<char>, Option<Seq<u8>>)) -> Option<
    Result<(Seq<char>, Seq<u8>), ZipErrV>,
> {
    if sp_ends_with(e.0, ".zip"@) {
        match e.1 {
            None => Some(Err(ZipErrV::Entry)),
            Some(data) => if !zip_valid(data) {
                Some(Err(ZipErrV::Nested))
            } else {
                let inner = zip_entries_of(data);
                if inner.len() != 1 {
                    Some(Err(ZipErrV::NestedCount))
                } else if !sp_ends_with(inner[0].0, ".xml"@) {
                    Some(Err(ZipErrV::NestedNotDocument))
                } else {
                    match inner[0].1 {
                        None => Some(Err(ZipErrV::Entry)),
                        Some(payload) => Some(Ok((inner[0].0, payload))),
                    }
                }
            },
        }
    } else if sp_ends_with(e.0, ".xml"@) {
        match e.1 {
            None => Some(Err(ZipErrV::Entry)),
            Some(d) => Some(Ok((e.0, d))),
        }
    } else {
        None
    }
}

/// The whole stream from entry `k` on, in entry order.
pub open spec fn sp_traverse(e: Seq<(Seq<char>, Option<Seq<u8>>)>, k: int) -> Seq<
    Result<(Seq<char>, Seq<u8>), ZipErrV>,
>
    decreases e.len() - k,
{
    if k < 0 || k >= e.len() {
        Seq::empty()
    } else {
        match sp_entry_item(e[k]) {
            None => sp_traverse(e, k + 1),
            Some(item) => seq![item] + sp_traverse(e, k + 1),
        }
    }
}

/// Mathematical value of one stream item.
pub open spec fn sp_item_view(r: Result<(String, Vec<u8>), ZipError>) -> Result<
    (Seq<char>, Seq<u8>),
    ZipErrV,
> {
    match r {
        Ok(p) => Ok((p.0@, p.1@)),
        Err(e) => Err(e@),
    }
}

/// The sequential traversal of one archive held in memory.
pub struct ZipPackageIter {
    archive: zip::ZipArchive<std::io::Cursor<Vec<u8>>>,
    index: usize,
}

impl ZipPackageIter {
    /// The entries of the archive being walked.
    pub closed spec fn entries(&self) -> Seq<(Seq<char>, Option<Seq<u8>>)> {
        zip_entries(self.archive)
    }

    /// How many entries have been dealt with.
    pub closed spec fn at(&self) -> int {
        self.index as int
    }

    /// Open a traversal over the raw bytes of an archive. Fails exactly when
    /// the bytes do not open as an archive; that failure is fatal, unlike a
    /// failure on a single entry.
    pub fn new(data: Vec<u8>) -> (r: Result<ZipPackageIter, String>)
        ensures
            r is Ok <==> zip_valid(data@),
            r matches Ok(it) ==> it.entries() == zip_entries_of(data@) && it.at() == 0,
    {
        match archive_from_bytes(data) {
            Err(m) => Err(m),
            Ok(archive) => Ok(ZipPackageIter { archive, index: 0 }),
        }
    }

    /// The next item of the stream: the first contribution of the remaining
    /// entries, or nothing when no entry remains that contributes one.
    pub fn next(&mut self) -> (r: Option<Result<(String, Vec<u8>), ZipError>>)
        ensures
            final(self).entries() == old(self).entries(),
            match r {
                None => sp_traverse(old(self).entries(), old(self).at()).len() == 0,
                Some(item) => ({
                    let items = sp_traverse(old(self).entries(), old(self).at());
                    items.len() > 0 && items[0] == sp_item_view(item) && sp_traverse(
                        old(self).entries(),
                        final(self).at(),
                    ) == items.skip(1)
                }),
            },
    {
        let ghost e: Seq<(Seq<char>, Option<Seq<u8>>)> = self.entries();
        loop
            invariant
                self.entries() == old(self).entries(),
                e == self.entries(),
                0 <= self.index,
                sp_traverse(e, old(self).at()) == sp_traverse(e, self.index as int),
            decreases e.len() - self.index,
        {
            let n = archive_len(&self.archive);
            if self.index >= n {
                return None;
            }
            let i = self.index;
            self.index = i + 1;
            let name = archive_entry_name(&self.archive, i);
            if has_suffix(name.as_str(), ".zip") {
                match archive_entry(&mut self.archive, i) {
                    Err(m) => {
                        return Some(Err(ZipError::Entry(m)));
                    },
                    Ok(data) => {
                        let ghost dv: Seq<u8> = data@;
                        match archive_from_bytes(data) {
                            Err(m) => {
                                return Some(Err(ZipError::Nested(m)));
                            },
                            Ok(mut inner) => {
                                let in_len = archive_len(&inner);
                                if in_len != 1 {
                                    return Some(Err(ZipError::NestedCount));
                                }
                                let iname = archive_entry_name(&inner, 0);
                                if !has_suffix(iname.as_str(), ".xml") {
                                    return Some(Err(ZipError::NestedNotDocument));
                                }
                                match archive_entry(&mut inner, 0) {
                                    Err(m) => {
                                        return Some(Err(ZipError::Entry(m)));
                                    },
                                    Ok(payload) => {
                                        return Some(Ok((iname, payload)));
                                    },
                                }
                            },
                        }
                    },
                }
            } else if has_suffix(name.as_str(), ".xml") {
                match archive_entry(&mut self.archive, i) {
                    Err(m) => {
                        return Some(Err(ZipError::Entry(m)));
                    },
                    Ok(data) => {
                        return Some(Ok((name, data)));
                    },
                }
            }
        }
    }
}

/// The traversal under its package name; the same walk as
/// [`ZipPackageIter`].
pub struct ZipPackage {
    inner: ZipPackageIter,
}

impl ZipPackage {
    /// The entries of the archive being walked.
    pub closed spec fn entries(&self) -> Seq<(Seq<char>, Option<Seq<u8>>)> {
        self.inner.entries()
    }

    /// How many entries have been dealt with.
    pub closed spec fn at(&self) -> int {
        self.inner.at()
    }

    /// Open a traversal over the raw bytes of an archive.
    pub fn new(data: Vec<u8>) -> (r: Result<ZipPackage, String>)
        ensures
            r is Ok <==> zip_valid(data@),
            r matches Ok(it) ==> it.entries() == zip_entries_of(data@) && it.at() == 0,
    {
        match ZipPackageIter::new(data) {
            Err(m) => Err(m),
            Ok(inner) => Ok(ZipPackage { inner }),
        }
    }

    /// The next item of the stream.
    pub fn next(&mut self) -> (r: Option<Result<(String, Vec<u8>), ZipError>>)
        ensures
            final(self).entries() == old(self).entries(),
            match r {
                None => sp_traverse(old(self).entries(), old(self).at()).len() == 0,
                Some(item) => ({
                    let items = sp_traverse(old(self).entries(), old(self).at());
                    items.len() > 0 && items[0] == sp_item_view(item) && sp_traverse(
                        old(self).entries(),
                        final(self).at(),
                    ) == items.skip(1)
                }),
            },
    {
        self.inner.next()
    }
}

/// The indices of the entries that contribute an item, from `k` on, in
/// order.
pub open spec fn sp_qual_indices(e: Seq<(Seq<char>, Option<Seq<u8>>)>, k: int) -> Seq<int>
    decreases e.len() - k,
{
    if k < 0 || k >= e.len() {
        Seq::empty()
    } else if sp_entry_item(e[k]) is Some {
        seq![k] + sp_qual_indices(e, k + 1)
    } else {
        sp_qual_indices(e, k + 1)
    }
}

/// Content of one traversal: every entry that contributes an item
/// contributes exactly one, in entry order — none is dropped and none is
/// duplicated. And since [`sp_traverse`] is a function of the entries alone,
/// two walks over the same archive yield the same items.
pub proof fn lemma_traversal_no_drop_no_dup(e: Seq<(Seq<char>, Option<Seq<u8>>)>, k: int)
    requires
        0 <= k,
    ensures
        sp_traverse(e, k).len() == sp_qual_indices(e, k).len(),
        forall|j: int|
            0 <= j < sp_qual_indices(e, k).len() ==> k <= #[trigger] sp_qual_indices(e, k)[j]
                < e.len() && sp_entry_item(e[sp_qual_indices(e, k)[j]]) == Some(
                sp_traverse(e, k)[j],
            ),
        forall|j: int|
            0 <= j < sp_qual_indices(e, k).len() - 1 ==> #[trigger] sp_qual_indices(e, k)[j]
                < sp_qual_indices(e, k)[j + 1],
        forall|i: int|
            k <= i < e.len() && sp_entry_item(#[trigger] e[i]) is Some ==> sp_qual_indices(
                e,
                k,
            ).contains(i),
    decreases e.len() - k,
{
    if k >= e.len() {
    } else {
        lemma_traversal_no_drop_no_dup(e, k + 1);
        let idxs = sp_qual_indices(e, k);
        let items = sp_traverse(e, k);
        let ridxs = sp_qual_indices(e, k + 1);
        let ritems = sp_traverse(e, k + 1);
        match sp_entry_item(e[k]) {
            Some(it) => {
                assert(idxs =~= seq![k] + ridxs);
                assert(items =~= seq![it] + ritems);
                assert forall|j: int| 0 <= j < idxs.len() implies k <= #[trigger] idxs[j] < e.len()
                    && sp_entry_item(e[idxs[j]]) == Some(items[j]) by {
                    if j == 0 {
                        assert(idxs[0] == k);
                        assert(items[0] == it);
                    } else {
                        assert(idxs[j] == ridxs[j - 1]);
                        assert(items[j] == ritems[j - 1]);
                    }
                }
                assert forall|i: int|
                    k <= i < e.len() && sp_entry_item(#[trigger] e[i]) is Some implies idxs.contains(
                    i,
                ) by {
                    if i == k {
                        assert(idxs[0] == i);
                    } else {
                        assert(ridxs.contains(i));
                        let j = choose|j: int| 0 <= j < ridxs.len() && ridxs[j] == i;
                        assert(idxs[j + 1] == i);
                    }
                }
            },
            None => {
                assert forall|i: int|
                    k <= i < e.len() && sp_entry_item(#[trigger] e[i]) is Some implies idxs.contains(
                    i,
                ) by {
                    assert(i != k);
                    assert(ridxs.contains(i));
                    let j = choose|j: int| 0 <= j < ridxs.len() && ridxs[j] == i;
                    assert(idxs[j] == i);
                }
            },
        }
    }
}

/// One send or one receive on the bounded queue between the traversal's
/// producers and its consumer.
pub enum QueueEvent {
    Send,
    Recv,
}

/// The number of completed-but-unconsumed payloads after one queue event: a
/// send onto a full queue blocks — the producer waits and the count stays —
/// and a receive from an empty queue finds nothing.
pub open spec fn sp_queue_next(n: int, ev: QueueEvent) -> int {
    match ev {
        QueueEvent::Send => if n < 32 {
            n + 1
        } else {
            n
        },
        QueueEvent::Recv => if n > 0 {
            n - 1
        } else {
            n
        },
    }
}

/// The count after a whole schedule of queue events, from position `k` on.
pub open spec fn sp_queue_run(evs: Seq<QueueEvent>, k: int, n: int) -> int
    decreases evs.len() - k,
{
    if k < 0 || k >= evs.len() {
        n
    } else {
        sp_queue_run(evs, k + 1, sp_queue_next(n, evs[k]))
    }
}

/// The backpressure bound: under every schedule of sends and receives, a
/// queue of capacity 32 never holds more than 32 completed-but-unconsumed
/// payloads.
pub proof fn lemma_backpressure_bound(evs: Seq<QueueEvent>, k: int, n: int)
    requires
        0 <= n <= 32,
    ensures
        0 <= sp_queue_run(evs, k, n) <= 32,
    decreases evs.len() - k,
{
    if k < 0 || k >= evs.len() {
    } else {
        lemma_backpressure_bound(evs, k + 1, sp_queue_next(n, evs[k]));
    }
}

/// The items contributed by the entries at the given indices, processed in
/// the given order. This is the parallel traversal's model: a pool of
/// workers walks the index space in whatever order scheduling yields.
pub open spec fn sp_items_in_order(e: Seq<(Seq<char>, Option<Seq<u8>>)>, ord: Seq<int>) -> Seq<
    Result<(Seq<char>, Seq<u8>), ZipErrV>,
>
    decreases ord.len(),
{
    if ord.len() == 0 {
        Seq::empty()
    } else {
        match sp_entry_item(e[ord[0]]) {
            None => sp_items_in_order(e, ord.drop_first()),
            Some(item) => seq![item] + sp_items_in_order(e, ord.drop_first()),
        }
    }
}

proof fn lemma_cons_multiset<A>(a: A, x: Seq<A>)
    ensures
        (seq![a] + x).to_multiset() == x.to_multiset().insert(a),
{
    broadcast use vstd::seq_lib::group_to_multiset_ensures;

    let s = seq![a] + x;
    assert(s.remove(0) =~= x);
    assert(s[0] == a);
    assert(s.contains(a));
    assert(s.to_multiset().count(a) > 0);
    assert(x.to_multiset() == s.to_multiset().remove(a));
    assert(s.to_multiset() =~= x.to_multiset().insert(a));
}

proof fn lemma_items_remove(e: Seq<(Seq<char>, Option<Seq<u8>>)>, ord: Seq<int>, j: int)
    requires
        0 <= j < ord.len(),
    ensures
        match sp_entry_item(e[ord[j]]) {
            None => sp_items_in_order(e, ord).to_multiset() == sp_items_in_order(
                e,
                ord.remove(j),
            ).to_multiset(),
            Some(it) => sp_items_in_order(e, ord).to_multiset() == sp_items_in_order(
                e,
                ord.remove(j),
            ).to_multiset().insert(it),
        },
    decreases j,
{
    if j == 0 {
        assert(ord.remove(0) =~= ord.drop_first());
        match sp_entry_item(e[ord[0]]) {
            None => {},
            Some(it) => {
                lemma_cons_multiset(it, sp_items_in_order(e, ord.drop_first()));
            },
        }
    } else {
        let rest = ord.drop_first();
        lemma_items_remove(e, rest, j - 1);
        assert(ord.remove(j).drop_first() =~= rest.remove(j - 1));
        assert(ord.remove(j)[0] == ord[0]);
        assert(rest[j - 1] == ord[j]);
        match sp_entry_item(e[ord[0]]) {
            None => {},
            Some(it0) => {
                lemma_cons_multiset(it0, sp_items_in_order(e, rest));
                lemma_cons_multiset(it0, sp_items_in_order(e, rest.remove(j - 1)));
                match sp_entry_item(e[ord[j]]) {
                    None => {},
                    Some(itj) => {
                        assert(sp_items_in_order(e, rest.remove(j - 1)).to_multiset().insert(
                            itj,
                        ).insert(it0) =~= sp_items_in_order(e, rest.remove(j - 1)).to_multiset()
                            .insert(it0).insert(itj));
                    },
                }
            },
        }
    }
}

/// Content determinism of the concurrent traversal: whichever order the
/// workers process the entries in, the multiset of emitted items is the
/// same — the emission order is unspecified, the content is not, and no
/// payload is duplicated or dropped whatever the schedule.
pub proof fn lemma_traversal_schedule_free(
    e: Seq<(Seq<char>, Option<Seq<u8>>)>,
    ord1: Seq<int>,
    ord2: Seq<int>,
)
    requires
        ord1.to_multiset() == ord2.to_multiset(),
    ensures
        sp_items_in_order(e, ord1).to_multiset() == sp_items_in_order(e, ord2).to_multiset(),
    decreases ord1.len(),
{
    broadcast use vstd::seq_lib::group_to_multiset_ensures;

    if ord1.len() == 0 {
        assert(ord2.to_multiset().len() == 0);
        assert(ord2.len() == 0);
    } else {
        let x = ord1[0];
        assert(ord1.contains(x));
        assert(ord2.to_multiset().count(x) > 0);
        assert(ord2.contains(x));
        let j = choose|j: int| 0 <= j < ord2.len() && ord2[j] == x;
        assert(ord1.remove(0) =~= ord1.drop_first());
        assert(ord1.remove(0).to_multiset() == ord1.to_multiset().remove(x));
        assert(ord2.remove(j).to_multiset() == ord2.to_multiset().remove(x));
        lemma_traversal_schedule_free(e, ord1.drop_first(), ord2.remove(j));
        lemma_items_remove(e, ord1, 0);
        lemma_items_remove(e, ord2, j);
    }
}

} // verus!
