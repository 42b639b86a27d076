//! Saving a complete record: the files it is stored in, the inventory row
//! that lists them, and the counts of files already stored.

use vstd::prelude::*;
use crate::text::{decimal, ends_with, has_suffix, push_decimal};
use crate::types::QueuedRecord;

verus! {

/// Each save stores one record.
pub const RECORDS_PER_SAVE: usize = 1;

/// The directory that holds the stored files and the inventory.
pub fn records_dir() -> (d: String)
    ensures
        d@ == "records"@,
{
    String::from_str("records")
}

/// The inventory of stored records, one CSV row per record.
pub fn inventory_path() -> (p: String)
    ensures
        p@ == "records/inventory.csv"@,
{
    String::from_str("records/inventory.csv")
}

/// The path of a stored file: `records/<stem>_<id><extension>`.
pub open spec fn record_file(stem: Seq<char>, id: usize, extension: Seq<char>) -> Seq<char> {
    "records/"@ + stem + "_"@ + decimal(id as nat) + extension
}

fn record_file_path(stem: &str, id: usize, extension: &str) -> (p: String)
    ensures
        p@ == record_file(stem@, id, extension@),
{
    let mut p = String::from_str("records/");
    p.append(stem);
    p.append("_");
    push_decimal(&mut p, id);
    p.append(extension);
    p
}

/// The files a record is stored in: one per item present.
pub struct RecordFiles {
    /// The vibration trace, as JSON.
    pub vib_path: Option<String>,
    /// The image of camera 0.
    pub cam0_path: Option<String>,
    /// The image of camera 1.
    pub cam1_path: Option<String>,
}

/// Where the items of `records` are stored under `id`: `records/vib_<id>.json`
/// for the trace, `records/cam0_<id>.jpg` and `records/cam1_<id>.jpg` for the
/// images, each only when the item is present.
pub fn record_files(records: &QueuedRecord, id: usize) -> (f: RecordFiles)
    ensures
        crate::types::text_view(f.vib_path) == if records.vib_data is Some {
            Some(record_file("vib"@, id, ".json"@))
        } else {
            None
        },
        crate::types::text_view(f.cam0_path) == if records.cam0_bytes is Some {
            Some(record_file("cam0"@, id, ".jpg"@))
        } else {
            None
        },
        crate::types::text_view(f.cam1_path) == if records.cam1_bytes is Some {
            Some(record_file("cam1"@, id, ".jpg"@))
        } else {
            None
        },
{
    RecordFiles {
        vib_path: if records.vib_data.is_some() {
            Some(record_file_path("vib", id, ".json"))
        } else {
            None
        },
        cam0_path: if records.cam0_bytes.is_some() {
            Some(record_file_path("cam0", id, ".jpg"))
        } else {
            None
        },
        cam1_path: if records.cam1_bytes.is_some() {
            Some(record_file_path("cam1", id, ".jpg"))
        } else {
            None
        },
    }
}

/// One row of the inventory.
pub struct InventoryRow {
    pub record_id: u32,
    pub vibration_path: String,
    pub cam0_path: String,
    pub cam1_path: String,
    pub label: i32,
}

/// A stored file's path, or the empty text where nothing was stored.
pub open spec fn path_or_empty(p: Option<String>) -> Seq<char> {
    match p {
        Some(s) => s@,
        None => Seq::empty(),
    }
}

fn take_path(p: Option<String>) -> (s: String)
    ensures
        s@ == path_or_empty(p),
{
    match p {
        Some(s) => s,
        None => String::new(),
    }
}

/// The inventory row of the record saved under `id`: the id cut to 32 bits,
/// the paths of the files that were stored (empty where none was), and the
/// label, 0 where none was queued.
pub fn inventory_row(
    id: usize,
    vib_path: Option<String>,
    cam0_path: Option<String>,
    cam1_path: Option<String>,
    label: Option<i32>,
) -> (row: InventoryRow)
    ensures
        row.record_id == id as u32,
        row.vibration_path@ == path_or_empty(vib_path),
        row.cam0_path@ == path_or_empty(cam0_path),
        row.cam1_path@ == path_or_empty(cam1_path),
        row.label == match label {
            Some(l) => l,
            None => 0i32,
        },
{
    InventoryRow {
        record_id: #[verifier::truncate] (id as u32),
        vibration_path: take_path(vib_path),
        cam0_path: take_path(cam0_path),
        cam1_path: take_path(cam1_path),
        label: match label {
            Some(l) => l,
            None => 0,
        },
    }
}

/// Whether the CSV header is written with a row: only when the inventory is
/// empty, or its length cannot be read.
pub fn needs_header(existing_len: Option<u64>) -> (h: bool)
    ensures
        h == match existing_len {
            Some(n) => n == 0,
            None => true,
        },
{
    match existing_len {
        Some(n) => n == 0,
        None => true,
    }
}

/// How many stored files are vibration traces (`.json`) and how many are
/// images (`.jpg`), among the first `n` names.
pub open spec fn file_counts(names: Seq<Seq<char>>, n: int) -> (nat, nat)
    decreases n,
{
    if n <= 0 {
        (0, 0)
    } else {
        let (vib, img) = file_counts(names, n - 1);
        let name = names[n - 1];
        if has_suffix(name, ".json"@) {
            (vib + 1, img)
        } else if has_suffix(name, ".jpg"@) {
            (vib, img + 1)
        } else {
            (vib, img)
        }
    }
}

proof fn lemma_file_counts_bounded(names: Seq<Seq<char>>, n: int)
    requires
        0 <= n,
    ensures
        file_counts(names, n).0 + file_counts(names, n).1 <= n,
    decreases n,
{
    if n > 0 {
        lemma_file_counts_bounded(names, n - 1);
    }
}

/// The numbers of vibration traces and images among the names of the files
/// in the records directory.
pub fn count_record_files(names: &Vec<String>) -> (counts: (usize, usize))
    ensures
        counts.0 == file_counts(names@.map_values(|s: String| s@), names@.len() as int).0,
        counts.1 == file_counts(names@.map_values(|s: String| s@), names@.len() as int).1,
{
    let ghost views = names@.map_values(|s: String| s@);
    let mut vib: usize = 0;
    let mut img: usize = 0;
    let mut i: usize = 0;
    while i < names.len()
        invariant
            i <= names@.len(),
            views == names@.map_values(|s: String| s@),
            vib == file_counts(views, i as int).0,
            img == file_counts(views, i as int).1,
        decreases names@.len() - i,
    {
        proof {
            lemma_file_counts_bounded(views, i as int);
        }
        let name = names[i].as_str();
        assert(views[i as int] == name@);
        if ends_with(name, ".json") {
            vib = vib + 1;
        } else if ends_with(name, ".jpg") {
            img = img + 1;
        }
        i = i + 1;
    }
    (vib, img)
}

} // verus!
