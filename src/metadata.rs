//! Pixel dimensions of media files and the per-directory store that caches them.
use vstd::prelude::*;
use crate::paths::{join, join_spec, str_eq};

verus! {

/// Width, height and aspect ratio of a media file's first stream.
#[derive(Clone, Debug, PartialEq, Eq)]
pub struct Dimensions {
    pub width: i64,
    pub height: i64,
    pub aspect_ratio: String,
}

impl View for Dimensions {
    type V = (i64, i64, Seq<char>);

    open spec fn view(&self) -> (i64, i64, Seq<char>) {
        (self.width, self.height, self.aspect_ratio@)
    }
}

impl Dimensions {
    /// A copy with the same fields.
    pub fn duplicate(&self) -> (r: Dimensions)
        ensures
            r@ == self@,
    {
        Dimensions { width: self.width, height: self.height, aspect_ratio: self.aspect_ratio.clone() }
    }
}

/// The three fields that an inspection or a stored record may carry, each possibly absent.
pub struct StreamFields {
    pub width: Option<i64>,
    pub height: Option<i64>,
    pub aspect_ratio: Option<String>,
}

pub open spec fn dimensions_from_fields_spec(f: StreamFields) -> Option<(i64, i64, Seq<char>)> {
    match (f.width, f.height, f.aspect_ratio) {
        (Some(w), Some(h), Some(a)) => Some((w, h, a@)),
        _ => None,
    }
}

pub open spec fn opt_view(d: Option<Dimensions>) -> Option<(i64, i64, Seq<char>)> {
    match d {
        Some(d) => Some(d@),
        None => None,
    }
}

/// Dimensions exist only where all three fields are present.
pub fn dimensions_from_fields(f: StreamFields) -> (r: Option<Dimensions>)
    ensures
        opt_view(r) == dimensions_from_fields_spec(f),
{
    match (f.width, f.height, f.aspect_ratio) {
        (Some(w), Some(h), Some(a)) => Some(Dimensions { width: w, height: h, aspect_ratio: a }),
        _ => None,
    }
}

#[verifier::external_type_specification]
#[verifier::external_body]
pub struct ExJfsStore(jfs::Store);

/// Relies on `jfs::Store::new_with_cfg`: opens (creating where needed) the JSON
/// document at `path`. Whether that succeeds depends on the file system.
#[verifier::external_body]
fn open_json_store(path: &str, single: bool, indent: usize, pretty: bool) -> (r: Option<
    jfs::Store,
>) {
    jfs::Store::new_with_cfg(path, jfs::Config { single, indent, pretty }).ok()
}

/// Relies on `jfs::Store::all`: every record of the document, each read as a
/// JSON value whose dimension fields are taken where present. The contents
/// depend on the file on disk.
#[verifier::external_body]
fn read_json_records(store: &jfs::Store) -> (r: Vec<(String, StreamFields)>) {
    match store.all::<serde_json::Value>() {
        Ok(all) => all.into_iter().map(|(k, v)| (k, StreamFields {
            width: v.get("width").and_then(|x| x.as_i64()),
            height: v.get("height").and_then(|x| x.as_i64()),
            aspect_ratio: v.get("aspect_ratio").and_then(|x| x.as_str()).map(|s| s.to_string()),
        })).collect(),
        Err(_) => Vec::new(),
    }
}

/// Relies on `jfs::Store::save_with_id`: writes `d` under `key` and flushes the
/// document; reports whether the write succeeded.
#[verifier::external_body]
fn write_json_record(store: &jfs::Store, key: &str, d: &Dimensions) -> (r: bool) {
    let mut obj = serde_json::Map::new();
    obj.insert("width".to_string(), serde_json::Value::from(d.width));
    obj.insert("height".to_string(), serde_json::Value::from(d.height));
    obj.insert("aspect_ratio".to_string(), serde_json::Value::from(d.aspect_ratio.clone()));
    store.save_with_id(&serde_json::Value::Object(obj), key).is_ok()
}

/// Relies on `ffprobe::ffprobe`: runs the inspection tool on `path` and takes the
/// fields of the first stream it reports. The outcome depends on the file and
/// on the tool, so nothing is promised of it.
#[verifier::external_body]
fn inspect_first_stream(path: &str) -> (r: Option<StreamFields>) {
    ffprobe::ffprobe(path).ok().and_then(|p| p.streams.into_iter().next()).map(|s| StreamFields {
        width: s.width,
        height: s.height,
        aspect_ratio: s.display_aspect_ratio,
    })
}

/// The map that a list of records denotes: a later record for a key overrides an earlier one.
pub open spec fn records_map(s: Seq<(String, Dimensions)>) -> Map<Seq<char>, (i64, i64, Seq<char>)>
    decreases s.len(),
{
    if s.len() == 0 {
        Map::empty()
    } else {
        records_map(s.drop_last()).insert(s.last().0@, s.last().1@)
    }
}

/// Records after position `i` that do not mention `k` leave its entry as the prefix has it.
pub proof fn lemma_records_map_prefix(s: Seq<(String, Dimensions)>, k: Seq<char>, i: int)
    requires
        0 <= i <= s.len(),
        forall|j: int| i <= j < s.len() ==> (#[trigger] s[j]).0@ != k,
    ensures
        records_map(s).contains_key(k) == records_map(s.subrange(0, i)).contains_key(k),
        records_map(s).contains_key(k) ==> records_map(s)[k] == records_map(s.subrange(0, i))[k],
    decreases s.len(),
{
    if s.len() > i {
        assert(s.drop_last() =~= s.subrange(0, s.len() - 1));
        assert(s.subrange(0, i) =~= s.drop_last().subrange(0, i));
        assert forall|j: int| i <= j < s.drop_last().len() implies (#[trigger] s.drop_last()[j]).0@
            != k by {
            assert(s.drop_last()[j] == s[j]);
        }
        lemma_records_map_prefix(s.drop_last(), k, i);
    } else {
        assert(s.subrange(0, i) =~= s);
    }
}

/// The cache of probed dimensions for one base directory: the records read when
/// it was opened and those written since, and the document it writes through to.
pub struct MetadataStore {
    records: Vec<(String, Dimensions)>,
    backing: Option<jfs::Store>,
    document: String,
}

/// The name of the store's document inside its base directory.
pub const STORE_NAME: &'static str = "metadata";

/// What the store holds for `p`, if anything.
pub open spec fn cached_spec(m: Map<Seq<char>, (i64, i64, Seq<char>)>, p: Seq<char>) -> Option<
    (i64, i64, Seq<char>),
> {
    if m.contains_key(p) {
        Some(m[p])
    } else {
        None
    }
}

/// The map that records read from a document denote: those with all three
/// fields, a later one for a key overriding an earlier one.
pub open spec fn complete_records_map(s: Seq<(String, StreamFields)>) -> Map<
    Seq<char>,
    (i64, i64, Seq<char>),
>
    decreases s.len(),
{
    if s.len() == 0 {
        Map::empty()
    } else {
        match dimensions_from_fields_spec(s.last().1) {
            Some(d) => complete_records_map(s.drop_last()).insert(s.last().0@, d),
            None => complete_records_map(s.drop_last()),
        }
    }
}

/// What a store of a base directory may hold when it has just been opened.
pub open spec fn opened_contents(m: Map<Seq<char>, (i64, i64, Seq<char>)>) -> bool {
    exists|recs: Seq<(String, StreamFields)>| m == complete_records_map(recs)
}

impl View for MetadataStore {
    type V = Map<Seq<char>, (i64, i64, Seq<char>)>;

    closed spec fn view(&self) -> Map<Seq<char>, (i64, i64, Seq<char>)> {
        records_map(self.records@)
    }
}

impl MetadataStore {
    /// The path of the document the store was opened on (empty where there was none).
    pub closed spec fn document(&self) -> Seq<char> {
        self.document@
    }

    /// Whether writes go through to a document.
    pub closed spec fn attached(&self) -> bool {
        self.backing is Some
    }

    /// A store with no records and no document behind it.
    pub fn detached() -> (r: MetadataStore)
        ensures
            r@ == Map::<Seq<char>, (i64, i64, Seq<char>)>::empty(),
            !r.attached(),
            r.document() == Seq::<char>::empty(),
    {
        MetadataStore { records: Vec::new(), backing: None, document: String::new() }
    }

    /// The cached dimensions of `path`, if any.
    pub fn get(&self, path: &str) -> (r: Option<Dimensions>)
        ensures
            opt_view(r) == cached_spec(self@, path@),
    {
        let n = self.records.len();
        let mut i: usize = n;
        while i > 0
            invariant
                i <= n,
                n == self.records@.len(),
                forall|j: int| i <= j < n ==> (#[trigger] self.records@[j]).0@ != path@,
            decreases i,
        {
            if str_eq(self.records[i - 1].0.as_str(), path) {
                proof {
                    let s = self.records@;
                    lemma_records_map_prefix(s, path@, i as int);
                    assert(s.subrange(0, i as int).drop_last() =~= s.subrange(0, i - 1));
                }
                return Some(self.records[i - 1].1.duplicate());
            }
            i = i - 1;
        }
        proof {
            lemma_records_map_prefix(self.records@, path@, 0);
        }
        None
    }

    /// Records `d` for `path` and writes it through to the document, if there is one.
    pub fn put(&mut self, path: &str, d: &Dimensions)
        ensures
            final(self)@ == old(self)@.insert(path@, d@),
            final(self).document() == old(self).document(),
            final(self).attached() == old(self).attached(),
    {
        self.records.push((String::from_str(path), d.duplicate()));
        proof {
            assert(self.records@.drop_last() =~= old(self).records@);
        }
        match &self.backing {
            Some(b) => {
                let _ = write_json_record(b, path, d);
            },
            None => {},
        }
    }
}

/// The dimensions that a record's fields give, leaving the record as it is.
pub fn fields_to_dimensions(f: &StreamFields) -> (r: Option<Dimensions>)
    ensures
        opt_view(r) == dimensions_from_fields_spec(*f),
{
    match (f.width, f.height, &f.aspect_ratio) {
        (Some(w), Some(h), Some(a)) => Some(Dimensions { width: w, height: h, aspect_ratio: a.clone() }),
        _ => None,
    }
}

/// A store over the records read from the document at `document`: those with
/// all three fields become entries, and incomplete ones are dropped.
pub fn store_from_records(
    records: Vec<(String, StreamFields)>,
    document: String,
    backing: Option<jfs::Store>,
) -> (r: MetadataStore)
    ensures
        r@ == complete_records_map(records@),
        r.document() == document@,
        r.attached() == backing is Some,
{
    let mut entries: Vec<(String, Dimensions)> = Vec::new();
    let n = records.len();
    let mut i: usize = 0;
    while i < n
        invariant
            n == records@.len(),
            i <= n,
            records_map(entries@) == complete_records_map(records@.subrange(0, i as int)),
        decreases n - i,
    {
        proof {
            assert(records@.subrange(0, i + 1).drop_last() =~= records@.subrange(0, i as int));
        }
        match fields_to_dimensions(&records[i].1) {
            Some(d) => {
                let ghost before = entries@;
                entries.push((records[i].0.clone(), d));
                proof {
                    assert(entries@.drop_last() =~= before);
                }
            },
            None => {},
        }
        i = i + 1;
    }
    proof {
        assert(records@.subrange(0, n as int) =~= records@);
    }
    MetadataStore { records: entries, backing, document }
}

/// Opens the store of `base_dir`, whose document is `base_dir/metadata`, with
/// the complete records the document holds. Where the document cannot be opened
/// the store is detached and empty, and probing proceeds without a cache.
pub fn get_local_file_metadata_store(base_dir: &str) -> (r: MetadataStore)
    ensures
        r.document() == join_spec(base_dir@, "metadata"@),
        opened_contents(r@),
        !r.attached() ==> r@ == Map::<Seq<char>, (i64, i64, Seq<char>)>::empty(),
{
    let path = join(base_dir, STORE_NAME);
    let backing = open_json_store(path.as_str(), true, 2, false);
    let records = match &backing {
        Some(b) => read_json_records(b),
        None => Vec::new(),
    };
    let r = store_from_records(records, path, backing);
    assert(r@ == complete_records_map(records@));
    r
}

/// Turns the fields an inspection gave for `path` into dimensions and, where
/// all three were present, records them in the store.
pub fn record_probe(store: &mut MetadataStore, path: &str, fields: Option<StreamFields>) -> (r:
    Option<Dimensions>)
    ensures
        opt_view(r) == match fields {
            Some(f) => dimensions_from_fields_spec(f),
            None => None,
        },
        match r {
            Some(d) => final(store)@ == old(store)@.insert(path@, d@),
            None => final(store)@ == old(store)@,
        },
        final(store).document() == old(store).document(),
        final(store).attached() == old(store).attached(),
{
    let dims = match fields {
        Some(f) => dimensions_from_fields(f),
        None => None,
    };
    match &dims {
        Some(d) => store.put(path, d),
        None => {},
    }
    dims
}

/// The dimensions of `path`: from the store where it holds them, else from the
/// inspection tool, whose result is then recorded.
pub fn probe_dimensions(store: &mut MetadataStore, path: &str) -> (r: Option<Dimensions>)
    ensures
        exists|f: Option<StreamFields>|
            opt_view(r) == (#[trigger] probe_spec(old(store)@, path@, f)).0 && final(store)@
                == probe_spec(old(store)@, path@, f).1,
        final(store).document() == old(store).document(),
        final(store).attached() == old(store).attached(),
        old(store)@.contains_key(path@) ==> opt_view(r) == Some(old(store)@[path@])
            && final(store)@ == old(store)@,
        !old(store)@.contains_key(path@) ==> match r {
            Some(d) => final(store)@ == old(store)@.insert(path@, d@),
            None => final(store)@ == old(store)@,
        },
{
    match store.get(path) {
        Some(d) => {
            assert(opt_view(Some(d)) == probe_spec(old(store)@, path@, None).0);
            Some(d)
        },
        None => {
            let fields = inspect_first_stream(path);
            let ghost g = fields;
            let r = record_probe(store, path, fields);
            assert(opt_view(r) == probe_spec(old(store)@, path@, g).0);
            r
        },
    }
}

/// Probes `media_path` with the store of `base_dir`, opened for this call alone.
/// The result is what one probe gives against the store as opened: its
/// cached entry where it has one, else what the inspection reported.
pub fn get_media_dimensions_from_path(media_path: &str, base_dir: &str) -> (r: Option<Dimensions>)
    ensures
        exists|m: Map<Seq<char>, (i64, i64, Seq<char>)>, f: Option<StreamFields>|
            opened_contents(m) && opt_view(r) == (#[trigger] probe_spec(m, media_path@, f)).0,
{
    let mut store = get_local_file_metadata_store(base_dir);
    let ghost m = store@;
    let r = probe_dimensions(&mut store, media_path);
    let ghost f = choose|f: Option<StreamFields>|
        opt_view(r) == (#[trigger] probe_spec(m, media_path@, f)).0 && store@ == probe_spec(
            m,
            media_path@,
            f,
        ).1;
    assert(opened_contents(m) && opt_view(r) == probe_spec(m, media_path@, f).0);
    r
}

/// One probe of `p` against the cache `m`, where an inspection would report
/// `f`: the result, the cache afterwards, and whether the inspection ran.
pub open spec fn probe_spec(
    m: Map<Seq<char>, (i64, i64, Seq<char>)>,
    p: Seq<char>,
    f: Option<StreamFields>,
) -> (Option<(i64, i64, Seq<char>)>, Map<Seq<char>, (i64, i64, Seq<char>)>, bool) {
    if m.contains_key(p) {
        (Some(m[p]), m, false)
    } else {
        match f {
            Some(f) => match dimensions_from_fields_spec(f) {
                Some(d) => (Some(d), m.insert(p, d), true),
                None => (None, m, true),
            },
            None => (None, m, true),
        }
    }
}

/// The first probe of a path runs the inspection and stores what it found; a
/// second probe of the same path returns identical dimensions and leaves the
/// cache as it was, without running the inspection, whatever it would report.
pub proof fn lemma_cache_correctness(
    m: Map<Seq<char>, (i64, i64, Seq<char>)>,
    p: Seq<char>,
    first: Option<StreamFields>,
    second: Option<StreamFields>,
)
    requires
        !m.contains_key(p),
        probe_spec(m, p, first).0 is Some,
    ensures
        probe_spec(m, p, first).2,
        probe_spec(m, p, first).1.contains_key(p),
        probe_spec(probe_spec(m, p, first).1, p, second) == (
            probe_spec(m, p, first).0,
            probe_spec(m, p, first).1,
            false,
        ),
{
}

} // verus!
