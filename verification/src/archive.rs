use vstd::prelude::*;
use vstd::string::*;

use std::io::{Cursor, Write};

use zip::result::ZipError;
use zip::write::SimpleFileOptions;
use zip::CompressionMethod;
use zip::ZipWriter;

use crate::envelope::ExecError;
use crate::staging::{check_path_within, path_within};

verus! {

/// One entry of an archive: a name inside the archive and, for a file, its
/// bytes; a directory entry carries no bytes.
#[derive(Debug, Clone, PartialEq, Eq)]
pub struct ZipEntry {
    pub name: String,
    pub content: Option<Vec<u8>>,
}

/// The bytes of the stored (uncompressed) zip archive holding the given named
/// entries in the given order. The result depends on the entries alone.
pub uninterp spec fn zip_bytes_of(entries: Seq<(Seq<char>, Option<Seq<u8>>)>) -> Seq<u8>;

/// An archive entry reduced to its text and bytes.
pub open spec fn spec_entry_view(e: ZipEntry) -> (Seq<char>, Option<Seq<u8>>) {
    (
        e.name@,
        match e.content {
            Some(d) => Some(d@),
            None => None,
        },
    )
}

/// A whole entry list reduced to text and bytes.
pub open spec fn spec_entries_view(es: Seq<ZipEntry>) -> Seq<(Seq<char>, Option<Seq<u8>>)> {
    es.map_values(|e: ZipEntry| spec_entry_view(e))
}

/// Whether the zip writer accepts the named entries. Every error the write
/// path can return depends on the entries alone — a name it refuses, a count
/// or size beyond the format — so acceptance is a function of the entries.
pub uninterp spec fn zip_accepts(entries: Seq<(Seq<char>, Option<Seq<u8>>)>) -> bool;

/// Relies on zip's `ZipWriter`: `start_file` and a full write for each file
/// entry, `add_directory` for each directory entry, then `finish`, with
/// stored (uncompressed) compression, unix permissions 0o644 and the format's
/// default timestamp throughout, writing to an in-memory buffer that never
/// fails: both the bytes and success depend on the entries alone.
#[verifier::external_body]
fn zip_write_entries(entries: &Vec<ZipEntry>) -> (r: Result<Vec<u8>, String>)
    ensures
        r matches Ok(b) ==> b@ == zip_bytes_of(spec_entries_view(entries@)),
        (r is Ok) <==> zip_accepts(spec_entries_view(entries@)),
{
    let opts = SimpleFileOptions::default().compression_method(CompressionMethod::Stored)
        .unix_permissions(0o644).last_modified_time(zip::DateTime::default());
    let mut w = ZipWriter::new(Cursor::new(Vec::new()));
    for e in entries {
        let res = match &e.content {
            Some(data) => w.start_file(e.name.clone(), opts).and_then(|_| {
                Write::write_all(&mut w, data).map_err(ZipError::from)
            }),
            None => w.add_directory(e.name.clone(), opts),
        };
        if let Err(err) = res { return Err(err.to_string()); }
    }
    w.finish().map(|c| c.into_inner()).map_err(|e| e.to_string())
}

fn clone_bytes(v: &Vec<u8>) -> (r: Vec<u8>)
    ensures
        r@ == v@,
{
    let mut out: Vec<u8> = Vec::new();
    let n = v.len();
    let mut i: usize = 0;
    while i < n
        invariant
            n == v@.len(),
            i <= n,
            out@ == v@.take(i as int),
        decreases n - i,
    {
        out.push(v[i]);
        proof {
            assert(out@ =~= v@.take(i + 1 as int));
        }
        i += 1;
    }
    proof {
        assert(v@.take(n as int) =~= v@);
    }
    out
}

/// One item of a directory walk: the walked path and, for a readable file,
/// its bytes; a directory carries no bytes.
#[derive(Debug, Clone, PartialEq, Eq)]
pub struct WalkItem {
    pub path: String,
    pub content: Option<Vec<u8>>,
}

/// The name a walked path gets inside the archive: its text after the base
/// directory and the separator.
pub open spec fn spec_rel_name(base: Seq<char>, p: Seq<char>) -> Seq<char> {
    p.subrange(base.len() + 1 as int, p.len() as int)
}

/// Whether a walked path gets an archive entry: it must lie inside the base
/// directory and its name inside the archive must not be empty.
pub open spec fn spec_item_included(base: Seq<char>, p: Seq<char>) -> bool {
    path_within(p, base) && p.len() > base.len() + 1
}

/// The entries a walk of `base` turns into: the included items in walk order,
/// each under its relative name.
pub open spec fn spec_zip_plan(base: Seq<char>, items: Seq<WalkItem>) -> Seq<
    (Seq<char>, Option<Seq<u8>>),
>
    decreases items.len(),
{
    if items.len() == 0 {
        Seq::empty()
    } else {
        let front = spec_zip_plan(base, items.drop_last());
        let it = items.last();
        if spec_item_included(base, it.path@) {
            front.push(
                (
                    spec_rel_name(base, it.path@),
                    match it.content {
                        Some(d) => Some(d@),
                        None => None,
                    },
                ),
            )
        } else {
            front
        }
    }
}

/// Archives a walked directory: every item inside `base` becomes a stored
/// entry under its relative name, in walk order; the base itself makes no
/// entry; an item outside `base` fails the walk. The archive is produced
/// exactly when every item lies inside `base` and the writer accepts the
/// planned entries.
pub fn zip_tree_bytes(base: &str, items: &Vec<WalkItem>) -> (r: Result<Vec<u8>, ExecError>)
    ensures
        r matches Ok(b) ==> b@ == zip_bytes_of(spec_zip_plan(base@, items@)),
        (r is Ok) <==> ((forall|j: int|
            0 <= j < items@.len() ==> path_within(#[trigger] items@[j].path@, base@))
            && zip_accepts(spec_zip_plan(base@, items@))),
        (exists|j: int| 0 <= j < items@.len() && !path_within(items@[j].path@, base@)) <==> (
        r matches Err(ExecError::PathEscape(_p))),
        r matches Err(e) ==> (e is PathEscape || e is ArchiveError),
{
    let mut entries: Vec<ZipEntry> = Vec::new();
    let n = items.len();
    let mut i: usize = 0;
    while i < n
        invariant
            n == items@.len(),
            i <= n,
            spec_entries_view(entries@) == spec_zip_plan(base@, items@.take(i as int)),
            forall|j: int| 0 <= j < i ==> path_within(#[trigger] items@[j].path@, base@),
        decreases n - i,
    {
        let item = &items[i];
        if !check_path_within(item.path.as_str(), base) {
            return Err(ExecError::PathEscape(item.path.clone()));
        }
        let base_len = base.unicode_len();
        let path_len = item.path.as_str().unicode_len();
        if path_len > base_len && path_len - base_len > 1 {
            let rel = item.path.as_str().substring_char(base_len + 1, path_len);
            let content = match &item.content {
                Some(d) => Some(clone_bytes(d)),
                None => None,
            };
            let entry = ZipEntry { name: String::from_str(rel), content };
            proof {
                assert(spec_entry_view(entry) == (
                    spec_rel_name(base@, items@[i as int].path@),
                    match items@[i as int].content {
                        Some(d) => Some(d@),
                        None => None,
                    },
                ));
            }
            entries.push(entry);
        }
        proof {
            assert(items@.take(i + 1 as int).drop_last() =~= items@.take(i as int));
            assert(items@.take(i + 1 as int).last() == items@[i as int]);
            assert(spec_entries_view(entries@) =~= spec_zip_plan(
                base@,
                items@.take(i + 1 as int),
            ));
        }
        i += 1;
    }
    proof {
        assert(items@.take(n as int) =~= items@);
    }
    match zip_write_entries(&entries) {
        Ok(b) => Ok(b),
        Err(m) => Err(ExecError::ArchiveError(m)),
    }
}

} // verus!
