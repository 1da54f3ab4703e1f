//! In-place expansion of compressed archives.
//!
//! A zip archive is decoded from bytes behind a trusted boundary; turning its
//! entries into filesystem steps — where each entry lands, which directories
//! must exist — is verified here. The driver executes the steps.

use vstd::prelude::*;
use crate::paths::{ends_with, parent_spec, path_join, spec_join, str_ends_with};

verus! {

/// One step of expanding an archive in place, carried out by the driver
/// against the real filesystem.
#[derive(Debug, PartialEq, Eq)]
pub enum ExpandAction {
    /// Create the directory (and any missing parents).
    MakeDir { path: String },
    /// Create or overwrite the file with exactly these bytes.
    WriteFile { path: String, data: Vec<u8> },
    /// Hand the whole archive file to the 7z decompressor, extracting into
    /// `dest`.
    Decompress7z { archive: String, dest: String },
}

/// `ExpandAction`, over characters and bytes.
pub enum ExpandActionV {
    MakeDir { path: Seq<char> },
    WriteFile { path: Seq<char>, data: Seq<u8> },
    Decompress7z { archive: Seq<char>, dest: Seq<char> },
}

impl View for ExpandAction {
    type V = ExpandActionV;

    open spec fn view(&self) -> ExpandActionV {
        match *self {
            ExpandAction::MakeDir { path } => ExpandActionV::MakeDir { path: path@ },
            ExpandAction::WriteFile { path, data } => ExpandActionV::WriteFile {
                path: path@,
                data: data@,
            },
            ExpandAction::Decompress7z { archive, dest } => ExpandActionV::Decompress7z {
                archive: archive@,
                dest: dest@,
            },
        }
    }
}

/// The characters and bytes of each action in `s`.
pub open spec fn action_views(s: Seq<ExpandAction>) -> Seq<ExpandActionV> {
    s.map_values(|a: ExpandAction| a@)
}

/// One archive entry: its name (directory entries end in `/`) and its
/// decompressed bytes.
#[derive(Debug)]
pub struct ZipEntryData {
    pub name: String,
    pub data: Vec<u8>,
}

/// The name and bytes of each entry in `s`.
pub open spec fn zip_entry_views(s: Seq<ZipEntryData>) -> Seq<(Seq<char>, Seq<u8>)> {
    s.map_values(|e: ZipEntryData| (e.name@, e.data@))
}

#[verifier::external_type_specification]
#[verifier::external_body]
#[verifier::reject_recursive_types(R)]
pub struct ExZipArchive<R>(zip::ZipArchive<R>);

#[verifier::external_type_specification]
#[verifier::external_body]
#[verifier::reject_recursive_types(T)]
pub struct ExCursor<T>(std::io::Cursor<T>);

/// The entry list the zip reader yields for the given archive bytes, in
/// archive order, or `None` when the bytes do not open as a zip archive.
/// Each entry is its name paired with its decompressed bytes, `None` when
/// that entry cannot be decompressed (an unsupported method, encryption, or
/// corrupt data). The reader works on in-memory bytes, so all of this is a
/// function of the bytes alone.
pub uninterp spec fn zip_entries_of(data: Seq<u8>) -> Option<
    Seq<(Seq<char>, Option<Seq<u8>>)>,
>;

/// The entry list held by an open zip reader.
pub uninterp spec fn zip_contents(a: zip::ZipArchive<std::io::Cursor<Vec<u8>>>) -> Seq<
    (Seq<char>, Option<Seq<u8>>),
>;

/// Every entry of the archive can be decompressed.
pub open spec fn all_entries_decode(entries: Seq<(Seq<char>, Option<Seq<u8>>)>) -> bool {
    forall|i: int| 0 <= i < entries.len() ==> (#[trigger] entries[i]).1 is Some
}

/// The name of the first entry that cannot be decompressed, if any.
pub open spec fn first_undecodable(entries: Seq<(Seq<char>, Option<Seq<u8>>)>) -> Option<
    Seq<char>,
>
    decreases entries.len(),
{
    if entries.len() == 0 {
        Option::None
    } else if entries.first().1 is None {
        Option::Some(entries.first().0)
    } else {
        first_undecodable(entries.drop_first())
    }
}

/// The entries with their bytes unwrapped (meaningful when every entry
/// decodes).
pub open spec fn decoded_entries(entries: Seq<(Seq<char>, Option<Seq<u8>>)>) -> Seq<
    (Seq<char>, Seq<u8>),
> {
    entries.map_values(|e: (Seq<char>, Option<Seq<u8>>)| (e.0, e.1.unwrap()))
}

/// Relies on zip::ZipArchive::new over an in-memory cursor: whether the bytes
/// open as an archive, and which entries the archive holds, depend on the
/// bytes alone.
#[verifier::external_body]
fn zip_open(data: Vec<u8>) -> (r: Option<zip::ZipArchive<std::io::Cursor<Vec<u8>>>>)
    ensures
        r is Some <==> zip_entries_of(data@) is Some,
        r is Some ==> zip_contents(r.unwrap()) == zip_entries_of(data@).unwrap(),
{
    zip::ZipArchive::new(std::io::Cursor::new(data)).ok()
}

/// Relies on zip::ZipArchive::len: the number of entries.
#[verifier::external_body]
fn zip_len(a: &zip::ZipArchive<std::io::Cursor<Vec<u8>>>) -> (r: usize)
    ensures
        r == zip_contents(*a).len(),
{
    a.len()
}

/// Relies on zip::ZipArchive::name_for_index: entry `i`'s name, read from the
/// central directory, available whether or not the entry's data decodes.
/// `None` comes back only for an out-of-bounds index, which the precondition
/// rules out.
#[verifier::external_body]
fn zip_entry_name(a: &zip::ZipArchive<std::io::Cursor<Vec<u8>>>, i: usize) -> (r: String)
    requires
        i < zip_contents(*a).len(),
    ensures
        r@ == zip_contents(*a)[i as int].0,
{
    match a.name_for_index(i) {
        Some(n) => n.to_string(),
        None => String::new(),
    }
}

/// Relies on zip::ZipArchive::by_index and std::io::Read::read_to_end: entry
/// `i`'s decompressed bytes, or `None` exactly when the entry cannot be
/// decompressed — on an in-memory cursor that depends on the bytes alone.
/// Reading moves the underlying cursor but leaves the entry list as it was.
#[verifier::external_body]
fn zip_entry_data(a: &mut zip::ZipArchive<std::io::Cursor<Vec<u8>>>, i: usize) -> (r: Option<
    Vec<u8>,
>)
    requires
        i < zip_contents(*old(a)).len(),
    ensures
        zip_contents(*final(a)) == zip_contents(*old(a)),
        r is Some <==> zip_contents(*old(a))[i as int].1 is Some,
        r matches Some(d) ==> Some(d@) == zip_contents(*old(a))[i as int].1,
{
    let mut f = match a.by_index(i) {
        Ok(f) => f,
        Err(_) => return None,
    };
    let mut data: Vec<u8> = Vec::new();
    match std::io::Read::read_to_end(&mut f, &mut data) {
        Ok(_) => Some(data),
        Err(_) => None,
    }
}

/// Why a zip archive's entries could not be read.
pub(crate) enum ZipReadError {
    /// The bytes do not open as a zip archive at all.
    NotAnArchive,
    /// The named entry (the first such, in archive order) cannot be
    /// decompressed.
    Entry { name: String },
}

/// An entry that fails to decode refutes `all_entries_decode`.
pub(crate) proof fn lemma_first_undecodable_not_all(entries: Seq<(Seq<char>, Option<Seq<u8>>)>)
    requires
        first_undecodable(entries) is Some,
    ensures
        !all_entries_decode(entries),
    decreases entries.len(),
{
    if entries.len() > 0 {
        if entries.first().1 is None {
            assert(entries[0].1 is None);
        } else {
            lemma_first_undecodable_not_all(entries.drop_first());
            let k = choose|k: int|
                0 <= k < entries.drop_first().len() && !((#[trigger] entries.drop_first()[k]).1
                    is Some);
            assert(entries[k + 1].1 is None);
        }
    }
}

proof fn lemma_first_undecodable_skip(entries: Seq<(Seq<char>, Option<Seq<u8>>)>, i: int)
    requires
        0 <= i <= entries.len(),
        forall|k: int| 0 <= k < i ==> (#[trigger] entries[k]).1 is Some,
    ensures
        first_undecodable(entries) == first_undecodable(entries.skip(i)),
    decreases i,
{
    if i > 0 {
        lemma_first_undecodable_skip(entries.drop_first(), i - 1);
        assert(entries.drop_first().skip(i - 1) =~= entries.skip(i));
    } else {
        assert(entries.skip(0) =~= entries);
    }
}

/// Reads every entry of a zip archive held in memory, in archive order;
/// fails exactly when the bytes do not open as an archive or some entry
/// cannot be decompressed, and then names the first such entry.
pub(crate) fn read_zip_entries(data: Vec<u8>) -> (r: Result<Vec<ZipEntryData>, ZipReadError>)
    ensures
        match r {
            Ok(v) => (zip_entries_of(data@) matches Some(ents) && all_entries_decode(ents)
                && zip_entry_views(v@) == decoded_entries(ents)),
            Err(ZipReadError::NotAnArchive) => zip_entries_of(data@) is None,
            Err(ZipReadError::Entry { name }) => (zip_entries_of(data@) matches Some(ents)
                && first_undecodable(ents) == Some(name@)),
        },
{
    let ghost dv = data@;
    let mut a = match zip_open(data) {
        Option::Some(a) => a,
        Option::None => {
            return Err(ZipReadError::NotAnArchive);
        },
    };
    let n = zip_len(&a);
    let mut out: Vec<ZipEntryData> = Vec::new();
    let mut i: usize = 0;
    while i < n
        invariant
            dv == data@,
            zip_entries_of(dv) is Some,
            zip_contents(a) == zip_entries_of(dv).unwrap(),
            n == zip_contents(a).len(),
            0 <= i <= n,
            forall|k: int| 0 <= k < i ==> (#[trigger] zip_contents(a)[k]).1 is Some,
            zip_entry_views(out@) == decoded_entries(zip_contents(a).take(i as int)),
        decreases n - i,
    {
        let ghost pre = zip_contents(a);
        let name = zip_entry_name(&a, i);
        match zip_entry_data(&mut a, i) {
            Option::Some(d) => {
                let ghost ev = (name@, d@);
                let ghost old_out = out@;
                out.push(ZipEntryData { name, data: d });
                proof {
                    assert(zip_entry_views(out@) =~= zip_entry_views(old_out).push(ev));
                    assert(pre.take(i + 1) =~= pre.take(i as int).push(pre[i as int]));
                    assert(decoded_entries(pre.take(i + 1)) =~= decoded_entries(
                        pre.take(i as int),
                    ).push(ev));
                }
            },
            Option::None => {
                proof {
                    lemma_first_undecodable_skip(pre, i as int);
                    assert(pre.skip(i as int).len() > 0);
                    assert(pre.skip(i as int).first() == pre[i as int]);
                    assert(pre[i as int].1 is None);
                    assert(first_undecodable(pre) == Some(pre[i as int].0));
                }
                return Err(ZipReadError::Entry { name });
            },
        }
        i += 1;
    }
    proof {
        assert(zip_contents(a).take(n as int) =~= zip_contents(a));
    }
    Ok(out)
}

/// The expansion steps for one entry, relative to the archive's own parent
/// directory: a directory entry becomes a directory-create; a file entry has
/// its parent directory created, then its bytes written.
pub open spec fn entry_actions_spec(parent: Seq<char>, entry: (Seq<char>, Seq<u8>)) -> Seq<
    ExpandActionV,
> {
    let out = spec_join(parent, entry.0);
    if ends_with(entry.0, "/"@) {
        seq![ExpandActionV::MakeDir { path: out }]
    } else {
        seq![
            ExpandActionV::MakeDir { path: parent_spec(out) },
            ExpandActionV::WriteFile { path: out, data: entry.1 },
        ]
    }
}

/// The expansion steps for a whole entry list, in order.
pub open spec fn zip_plan_spec(parent: Seq<char>, entries: Seq<(Seq<char>, Seq<u8>)>) -> Seq<
    ExpandActionV,
>
    decreases entries.len(),
{
    if entries.len() == 0 {
        Seq::empty()
    } else {
        zip_plan_spec(parent, entries.drop_last()) + entry_actions_spec(parent, entries.last())
    }
}

/// Turns a zip archive's entries into in-place expansion steps under
/// `parent`, the archive's own directory.
pub(crate) fn zip_plan(parent: &str, entries: Vec<ZipEntryData>) -> (r: Vec<ExpandAction>)
    ensures
        action_views(r@) == zip_plan_spec(parent@, zip_entry_views(entries@)),
{
    let ghost ev = zip_entry_views(entries@);
    let n = entries.len();
    let mut out: Vec<ExpandAction> = Vec::new();
    let mut i: usize = 0;
    while i < n
        invariant
            n == entries@.len(),
            ev == zip_entry_views(entries@),
            0 <= i <= n,
            action_views(out@) == zip_plan_spec(parent@, ev.take(i as int)),
        decreases n - i,
    {
        proof {
            assert(ev.take(i + 1).drop_last() =~= ev.take(i as int));
            assert(ev.take(i + 1).last() == ev[i as int]);
        }
        let name = &entries[i].name;
        let out_path = path_join(parent, name.as_str());
        let ghost before = out@;
        if str_ends_with(name.as_str(), "/") {
            out.push(ExpandAction::MakeDir { path: out_path });
        } else {
            let dir = crate::paths::parent_dir(out_path.as_str());
            out.push(ExpandAction::MakeDir { path: dir });
            let data = entries[i].data.clone();
            out.push(ExpandAction::WriteFile { path: out_path, data });
        }
        proof {
            assert(action_views(out@) =~= action_views(before) + entry_actions_spec(
                parent@,
                ev[i as int],
            ));
        }
        i += 1;
    }
    proof {
        assert(ev.take(n as int) =~= ev);
    }
    out
}

} // verus!
