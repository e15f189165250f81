//! Listing a base directory as `LocalFile` records.
use vstd::prelude::*;
use crate::classify::{classified, classify, classify_file, sniff_file, sniffed_view, MediaKind};
use vstd::string::StringExecFns;
use crate::metadata::{
    get_local_file_metadata_store, opened_contents, opt_view, probe_dimensions, probe_spec, Dimensions,
    MetadataStore, StreamFields,
};
use crate::paths::ends_with;

verus! {

/// One media item presented to the host.
pub struct LocalFile {
    pub name: String,
    pub lazy: bool,
    pub data: Option<String>,
    pub kind: MediaKind,
    pub dimensions: Option<Dimensions>,
    pub extension: String,
}

impl LocalFile {
    /// A lazily loaded record carries no payload.
    pub open spec fn wf(&self) -> bool {
        self.lazy ==> self.data is None
    }
}

/// Entries of this suffix belong to the metadata store, not to the listing.
pub open spec fn is_store_entry(p: Seq<char>) -> bool {
    p.len() >= 5 && p.subrange(p.len() - 5, p.len() as int) == ".json"@
}

/// The entries of a listing that are media: all but the store's own files, in order.
pub open spec fn media_paths(s: Seq<Seq<char>>) -> Seq<Seq<char>>
    decreases s.len(),
{
    if s.len() == 0 {
        Seq::empty()
    } else if is_store_entry(s.last()) {
        media_paths(s.drop_last())
    } else {
        media_paths(s.drop_last()).push(s.last())
    }
}

pub open spec fn names(s: Seq<String>) -> Seq<Seq<char>> {
    s.map_values(|p: String| p@)
}

pub open spec fn file_names(s: Seq<LocalFile>) -> Seq<Seq<char>> {
    s.map_values(|f: LocalFile| f.name@)
}

/// Whether `p` names a file of the metadata store.
pub fn is_store_file(p: &str) -> (r: bool)
    ensures
        r == is_store_entry(p@),
{
    proof {
        reveal_strlit(".json");
    }
    ends_with(p, ".json")
}

/// A lazy record for `path` with the given classification and dimensions.
pub fn build_local_file(
    path: String,
    kind: MediaKind,
    extension: String,
    dimensions: Option<Dimensions>,
) -> (r: LocalFile)
    ensures
        r.wf(),
        r.name == path,
        r.lazy,
        r.data is None,
        r.kind == kind,
        r.extension == extension,
        r.dimensions == dimensions,
{
    LocalFile { name: path, lazy: true, data: None, kind, dimensions, extension }
}

/// `files` were probed one after another against a store that held `m0` at
/// first: `ms[i]` is the store before the `i`-th probe and `fs[i]` what its
/// inspection would report.
pub open spec fn probed_in_order(
    m0: Map<Seq<char>, (i64, i64, Seq<char>)>,
    files: Seq<LocalFile>,
    ms: Seq<Map<Seq<char>, (i64, i64, Seq<char>)>>,
    fs: Seq<Option<StreamFields>>,
) -> bool {
    &&& ms.len() == files.len() + 1
    &&& fs.len() == files.len()
    &&& ms[0] == m0
    &&& forall|i: int|
        0 <= i < files.len() ==> opt_view((#[trigger] files[i]).dimensions) == probe_spec(
            ms[i],
            files[i].name@,
            fs[i],
        ).0 && ms[i + 1] == probe_spec(ms[i], files[i].name@, fs[i]).1
}

/// A lazy record of a listing: no payload, classified by its content or name.
pub open spec fn listed_record(f: LocalFile) -> bool {
    &&& f.wf()
    &&& f.lazy
    &&& f.data is None
    &&& exists|s: Option<(MediaKind, Seq<char>)>| classified(s, f.name@, f.kind, f.extension@)
}

/// `files` is the listing of a base directory (given or not) whose entries are `paths`.
pub open spec fn is_listing(base_dir_given: bool, paths: Seq<Seq<char>>, files: Seq<LocalFile>) -> bool {
    &&& !base_dir_given ==> files.len() == 0
    &&& base_dir_given ==> file_names(files) == media_paths(paths)
    &&& base_dir_given ==> exists|
        m0: Map<Seq<char>, (i64, i64, Seq<char>)>,
        ms: Seq<Map<Seq<char>, (i64, i64, Seq<char>)>>,
        fs: Seq<Option<StreamFields>>,
    | opened_contents(m0) && #[trigger] probed_in_order(m0, files, ms, fs)
    &&& forall|i: int| 0 <= i < files.len() ==> listed_record(#[trigger] files[i])
}

/// The lazy record of one entry: classified from its content, and with the
/// dimensions that one probe against `store` gives.
pub fn load_entry(store: &mut MetadataStore, path: &str) -> (r: LocalFile)
    ensures
        r.name@ == path@,
        listed_record(r),
        exists|f: Option<StreamFields>|
            opt_view(r.dimensions) == (#[trigger] probe_spec(old(store)@, path@, f)).0
                && final(store)@ == probe_spec(old(store)@, path@, f).1,
{
    let sniffed = sniff_file(path);
    let ghost sv = sniffed_view(sniffed);
    let (kind, extension) = classify(sniffed, path);
    let dims = probe_dimensions(store, path);
    let r = build_local_file(String::from_str(path), kind, extension, dims);
    assert(classified(sv, r.name@, r.kind, r.extension@));
    r
}

/// Lists the media of `base_dir`, whose entries (as enumerated, in order) are
/// `paths`: the store's own `.json` entries are skipped; every other entry is
/// classified and probed, in order, with the store of `base_dir` opened once,
/// and becomes a lazy record. Without a base directory the listing is empty.
pub fn load_local_files_from_base_dir(base_dir: Option<&str>, paths: Vec<String>) -> (r: Vec<
    LocalFile,
>)
    ensures
        is_listing(base_dir is Some, names(paths@), r@),
{
    let mut files: Vec<LocalFile> = Vec::new();
    match base_dir {
        None => files,
        Some(dir) => {
            let mut store = get_local_file_metadata_store(dir);
            let ghost m0 = store@;
            let ghost mut ms: Seq<Map<Seq<char>, (i64, i64, Seq<char>)>> = seq![m0];
            let ghost mut fs: Seq<Option<StreamFields>> = Seq::empty();
            let n = paths.len();
            let mut i: usize = 0;
            while i < n
                invariant
                    n == paths@.len(),
                    i <= n,
                    file_names(files@) == media_paths(names(paths@.subrange(0, i as int))),
                    forall|j: int| 0 <= j < files@.len() ==> listed_record(#[trigger] files@[j]),
                    probed_in_order(m0, files@, ms, fs),
                    ms.last() == store@,
                decreases n - i,
            {
                let path = &paths[i];
                proof {
                    let pre = names(paths@.subrange(0, i as int));
                    let post = names(paths@.subrange(0, i + 1));
                    assert(post.drop_last() =~= pre);
                    assert(post.last() == path@);
                }
                if !is_store_file(path.as_str()) {
                    let ghost before = files@;
                    let ghost m = store@;
                    let f = load_entry(&mut store, path.as_str());
                    let ghost fi = choose|fi: Option<StreamFields>|
                        opt_view(f.dimensions) == (#[trigger] probe_spec(m, path@, fi)).0
                            && store@ == probe_spec(m, path@, fi).1;
                    files.push(f);
                    proof {
                        assert(file_names(files@) =~= file_names(before).push(path@));
                        let ms0 = ms;
                        ms = ms.push(store@);
                        fs = fs.push(fi);
                        assert forall|j: int| 0 <= j < files@.len() implies opt_view(
                            (#[trigger] files@[j]).dimensions,
                        ) == probe_spec(ms[j], files@[j].name@, fs[j]).0 && ms[j + 1]
                            == probe_spec(ms[j], files@[j].name@, fs[j]).1 by {
                            if j < before.len() {
                                assert(files@[j] == before[j]);
                                assert(ms[j] == ms0[j]);
                                assert(ms[j + 1] == ms0[j + 1]);
                            } else {
                                assert(ms[j] == m);
                            }
                        }
                        assert forall|j: int| 0 <= j < files@.len() implies listed_record(
                            #[trigger] files@[j],
                        ) by {
                            if j < before.len() {
                                assert(files@[j] == before[j]);
                            }
                        }
                    }
                }
                i = i + 1;
            }
            proof {
                assert(paths@.subrange(0, n as int) =~= paths@);
                assert(opened_contents(m0) && probed_in_order(m0, files@, ms, fs));
            }
            files
        },
    }
}

/// The standard base64 encoding (with padding) of a byte string.
pub uninterp spec fn base64_of(b: Seq<u8>) -> Seq<char>;

/// The largest payload that is encoded inline (1 GiB); its encoding's length fits in `usize` on every target.
pub const MAX_PAYLOAD: usize = 0x3fff_ffff;

/// Relies on `base64::Engine::encode` of `general_purpose::STANDARD`, which
/// depends on the bytes alone and panics only where the encoded length overflows.
#[verifier::external_body]
fn encode_payload(bytes: &Vec<u8>) -> (r: String)
    requires
        bytes@.len() <= MAX_PAYLOAD,
    ensures
        r@ == base64_of(bytes@),
        r@.len() == 4 * ((bytes@.len() + 2) / 3),
{
    base64::Engine::encode(&base64::engine::general_purpose::STANDARD, bytes)
}

/// An eagerly loaded record: the file's contents travel inline, encoded.
pub fn eager_local_file(path: String, kind: MediaKind, extension: String, contents: &Vec<u8>) -> (r:
    LocalFile)
    requires
        contents@.len() <= MAX_PAYLOAD,
    ensures
        r.wf(),
        r.name == path,
        !r.lazy,
        r.data is Some && r.data->Some_0@ == base64_of(contents@),
        r.kind == kind,
        r.extension == extension,
        r.dimensions is None,
{
    LocalFile {
        name: path,
        lazy: false,
        data: Some(encode_payload(contents)),
        kind,
        dimensions: None,
        extension,
    }
}

/// An eager record of the file at `path` with contents `c`: the encoded
/// contents inline, no dimensions, classified by its content or name.
pub open spec fn eager_record(f: LocalFile, path: Seq<char>, c: Seq<u8>) -> bool {
    &&& f.name@ == path
    &&& !f.lazy
    &&& f.data is Some && f.data->Some_0@ == base64_of(c)
    &&& f.dimensions is None
    &&& exists|s: Option<(MediaKind, Seq<char>)>| classified(s, path, f.kind, f.extension@)
}

/// Loads the file at `path` eagerly, given its contents as read (`None` where it
/// is not a readable regular file): the record carries the encoded contents.
pub fn load_file(path: &str, contents: Option<Vec<u8>>) -> (r: Result<LocalFile, String>)
    requires
        contents matches Some(c) ==> c@.len() <= MAX_PAYLOAD,
    ensures
        contents is None ==> r is Err && r->Err_0@ == "file not found"@,
        contents is Some ==> r is Ok && r->Ok_0.name@ == path@ && !r->Ok_0.lazy
            && r->Ok_0.data is Some && r->Ok_0.data->Some_0@ == base64_of(contents->Some_0@)
            && r->Ok_0.dimensions is None && exists|s: Option<(MediaKind, Seq<char>)>|
            classified(s, path@, r->Ok_0.kind, r->Ok_0.extension@),
{
    match contents {
        None => Err(String::from_str("file not found")),
        Some(c) => {
            let (kind, extension) = classify_file(path);
            Ok(eager_local_file(String::from_str(path), kind, extension, &c))
        },
    }
}

/// Loads several files eagerly, in order; fails as a whole if any is missing.
pub fn load_file_batch(items: Vec<(String, Option<Vec<u8>>)>) -> (r: Result<Vec<LocalFile>, String>)
    requires
        forall|i: int|
            0 <= i < items@.len() ==> ((#[trigger] items@[i]).1 matches Some(c) ==> c@.len()
                <= MAX_PAYLOAD),
    ensures
        (exists|i: int| 0 <= i < items@.len() && (#[trigger] items@[i]).1 is None) ==> r is Err
            && r->Err_0@ == "file not found"@,
        (forall|i: int| 0 <= i < items@.len() ==> (#[trigger] items@[i]).1 is Some) ==> (r matches Ok(
            files,
        ) && files@.len() == items@.len() && forall|i: int|
            0 <= i < files@.len() ==> eager_record(#[trigger] files@[i], items@[i].0@, items@[i].1->Some_0@)),
{
    let n = items.len();
    let mut i: usize = 0;
    while i < n
        invariant
            n == items@.len(),
            i <= n,
            forall|j: int| 0 <= j < i ==> (#[trigger] items@[j]).1 is Some,
        decreases n - i,
    {
        if items[i].1.is_none() {
            return Err(String::from_str("file not found"));
        }
        i = i + 1;
    }
    let mut files: Vec<LocalFile> = Vec::new();
    let mut j: usize = 0;
    while j < n
        invariant
            n == items@.len(),
            j <= n,
            files@.len() == j,
            forall|k: int| 0 <= k < n ==> (#[trigger] items@[k]).1 is Some,
            forall|k: int|
                0 <= k < n ==> ((#[trigger] items@[k]).1 matches Some(c) ==> c@.len() <= MAX_PAYLOAD),
            forall|k: int|
                0 <= k < j ==> eager_record(#[trigger] files@[k], items@[k].0@, items@[k].1->Some_0@),
        decreases n - j,
    {
        let item = &items[j];
        match &item.1 {
            Some(c) => {
                let (kind, extension) = classify_file(item.0.as_str());
                files.push(eager_local_file(item.0.clone(), kind, extension, c));
            },
            None => {},
        }
        j = j + 1;
    }
    Ok(files)
}

/// Relies on `rand::seq::SliceRandom::shuffle` with the thread-local generator:
/// the elements are permuted in place.
#[verifier::external_body]
fn shuffle_files(files: &mut Vec<LocalFile>)
    ensures
        final(files)@.len() == old(files)@.len(),
        final(files)@.to_multiset() == old(files)@.to_multiset(),
{
    rand::seq::SliceRandom::shuffle(files.as_mut_slice(), &mut rand::thread_rng())
}

/// The listing of `load_local_files_from_base_dir`, uniformly shuffled: its
/// records in another order.
pub fn load_local_files_shuffled(base_dir: Option<&str>, paths: Vec<String>) -> (r: Vec<LocalFile>)
    ensures
        exists|l: Seq<LocalFile>|
            is_listing(base_dir is Some, names(paths@), l) && r@.len() == l.len()
                && r@.to_multiset() == (#[trigger] l.to_multiset()),
        base_dir is None ==> r@.len() == 0,
        base_dir is Some ==> file_names(r@).to_multiset() == media_paths(names(paths@)).to_multiset(),
        forall|i: int| 0 <= i < r@.len() ==> listed_record(#[trigger] r@[i]),
{
    let ghost given = base_dir is Some;
    let ghost ps = names(paths@);
    let mut files = load_local_files_from_base_dir(base_dir, paths);
    let ghost before = files@;
    shuffle_files(&mut files);
    proof {
        broadcast use vstd::seq_lib::to_multiset_contains;

        lemma_map_preserves_multiset(before, files@);
        assert forall|i: int| 0 <= i < files@.len() implies listed_record(#[trigger] files@[i]) by {
            let x = files@[i];
            assert(files@.contains(x));
            assert(files@.to_multiset().count(x) > 0);
            assert(before.to_multiset().count(x) > 0);
            assert(before.contains(x));
            let j = choose|j: int| 0 <= j < before.len() && before[j] == x;
            assert(listed_record(before[j]));
        }
        assert(is_listing(given, ps, before) && files@.len() == before.len()
            && files@.to_multiset() == before.to_multiset());
    }
    files
}

/// Permuting records permutes their names alike.
pub proof fn lemma_map_preserves_multiset(a: Seq<LocalFile>, b: Seq<LocalFile>)
    requires
        a.to_multiset() == b.to_multiset(),
    ensures
        file_names(a).to_multiset() == file_names(b).to_multiset(),
    decreases a.len(),
{
    broadcast use vstd::seq_lib::to_multiset_build, vstd::seq_lib::to_multiset_remove,
        vstd::seq_lib::to_multiset_insert, vstd::seq_lib::to_multiset_len,
        vstd::seq_lib::to_multiset_contains;

    if a.len() == 0 {
        assert(a.to_multiset().len() == a.len());
        assert(b.to_multiset().len() == b.len());
        assert(file_names(a) =~= file_names(b));
    } else {
        let x = a.last();
        let a0 = a.drop_last();
        assert(a =~= a0.push(x));
        assert(a[a.len() - 1] == x);
        assert(a.contains(x));
        assert(a.to_multiset().count(x) > 0);
        assert(b.to_multiset().count(x) > 0);
        assert(b.contains(x));
        let j = choose|j: int| 0 <= j < b.len() && b[j] == x;
        let b0 = b.remove(j);
        assert(a0.to_multiset() =~= a.to_multiset().remove(x));
        lemma_map_preserves_multiset(a0, b0);
        assert(file_names(a) =~= file_names(a0).push(x.name@));
        assert(file_names(b) =~= file_names(b0).insert(j, x.name@));
    }
}

} // verus!
