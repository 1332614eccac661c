//! Heuristics that tell a project root apart from other directories, and the
//! search for the nearest ancestor that matches them.
//!
//! The search works on listings of directories: `DirListing` holds the
//! entries of one directory, together with the entries of its `src` folder
//! where those are wanted. Reading them from a file system is left to the
//! caller, which hands the listings of a path's ancestors over nearest first.
//! A caller may stop reading a directory where `scan_step` stops, and a `src`
//! folder where `src_scan_ends` holds: the listing read so far then meets the
//! same heuristics as the whole directory (`lemma_scan_prefix`,
//! `lemma_src_folder_prefix`).

use crate::text::str_eq;
use vstd::prelude::*;

verus! {

/// The name of the typst manifest file.
pub const MANIFEST_FILE: &'static str = "typst.toml";

/// The name of a possible entrypoint for a document.
pub const MAIN_FILE: &'static str = "main.typ";

/// The name of a possible entrypoint for a package.
pub const LIB_FILE: &'static str = "lib.typ";

/// The name of the formatter's configuration file.
pub const TYPSTFMT_FILE: &'static str = "typstfmt.toml";

/// The name of the folder that may hold the entrypoint instead of the root.
pub const SRC_FOLDER: &'static str = "src";

/// A single heuristic, see [Heuristics] for a set of them.
#[derive(Debug, Clone, Copy, PartialEq, Eq, Structural, Hash)]
pub enum Heuristic {
    /// A main.typ file was found.
    MainFile { src: bool },
    /// A lib.typ file was found.
    LibFile { src: bool },
    /// A typst.toml manifest file was found.
    ManifestFile,
    /// A typstfmt.toml formatter configuration file was found. This marker is
    /// only looked for when its heuristic is asked for: it is in `all` but
    /// not in `recommended`.
    TypstfmtConfig,
}

/// A set of heuristics, one bit for each marker. The variants of `MainFile`
/// and `LibFile` inside a `src` folder add the bit of that folder, which is
/// the only bit that two heuristics share.
#[derive(Debug, Clone, Copy, PartialEq, Eq, Structural, Hash)]
pub struct Heuristics {
    pub bits: u32,
}

/// The bit looking for a main.typ source file.
pub const MAIN_FILE_BIT: u32 = 1;

/// The bit looking for a lib.typ source file.
pub const LIB_FILE_BIT: u32 = 8;

/// The bit looking for the entrypoint in a src folder instead of the root.
pub const SRC_FOLDER_BIT: u32 = 2;

/// The bit looking for typst.toml manifest files.
pub const MANIFEST_FILE_BIT: u32 = 4;

/// The bit looking for typstfmt.toml formatter configuration files.
pub const TYPSTFMT_CONFIG_BIT: u32 = 16;

/// Every bit that stands for a heuristic.
pub const ALL_BITS: u32 = 31;

/// The bits of the recommended heuristics.
pub const RECOMMENDED_BITS: u32 = 4;

/// The bits that a single heuristic stands for.
pub open spec fn heuristic_bits(h: Heuristic) -> u32 {
    match h {
        Heuristic::MainFile { src } => if src {
            MAIN_FILE_BIT | SRC_FOLDER_BIT
        } else {
            MAIN_FILE_BIT
        },
        Heuristic::LibFile { src } => if src {
            LIB_FILE_BIT | SRC_FOLDER_BIT
        } else {
            LIB_FILE_BIT
        },
        Heuristic::ManifestFile => MANIFEST_FILE_BIT,
        Heuristic::TypstfmtConfig => TYPSTFMT_CONFIG_BIT,
    }
}

impl Heuristic {
    /// The set of bits that this heuristic stands for.
    pub fn to_heuristics(self) -> (r: Heuristics)
        ensures
            r.bits == heuristic_bits(self),
    {
        let bits: u32 = match self {
            Heuristic::MainFile { src } => if src {
                MAIN_FILE_BIT | SRC_FOLDER_BIT
            } else {
                MAIN_FILE_BIT
            },
            Heuristic::LibFile { src } => if src {
                LIB_FILE_BIT | SRC_FOLDER_BIT
            } else {
                LIB_FILE_BIT
            },
            Heuristic::ManifestFile => MANIFEST_FILE_BIT,
            Heuristic::TypstfmtConfig => TYPSTFMT_CONFIG_BIT,
        };
        Heuristics { bits }
    }
}

/// Each heuristic stands for a non-empty set of bits of its own, so that a
/// matched set tells which markers were found.
pub proof fn lemma_heuristic_bits_distinct(a: Heuristic, b: Heuristic)
    ensures
        heuristic_bits(a) != 0,
        heuristic_bits(a) & ALL_BITS == heuristic_bits(a),
        a != b ==> heuristic_bits(a) != heuristic_bits(b),
{
    assert(1u32 | 2u32 == 3u32) by (bit_vector);
    assert(8u32 | 2u32 == 10u32) by (bit_vector);
    assert(1u32 & 31u32 == 1u32) by (bit_vector);
    assert(3u32 & 31u32 == 3u32) by (bit_vector);
    assert(4u32 & 31u32 == 4u32) by (bit_vector);
    assert(8u32 & 31u32 == 8u32) by (bit_vector);
    assert(10u32 & 31u32 == 10u32) by (bit_vector);
    assert(16u32 & 31u32 == 16u32) by (bit_vector);
}

impl From<Heuristic> for Heuristics {
    fn from(value: Heuristic) -> (r: Heuristics) {
        value.to_heuristics()
    }
}

impl vstd::std_specs::convert::FromSpecImpl<Heuristic> for Heuristics {
    open spec fn obeys_from_spec() -> bool {
        true
    }

    open spec fn from_spec(v: Heuristic) -> Heuristics {
        Heuristics { bits: heuristic_bits(v) }
    }
}

impl Heuristics {
    /// Whether every bit of `other` is set in `self`.
    pub open spec fn has(self, other: Heuristics) -> bool {
        self.bits & other.bits == other.bits
    }

    /// Whether no bit is set.
    pub open spec fn none(self) -> bool {
        self.bits == 0
    }

    /// The set with no heuristic.
    pub fn empty() -> (r: Heuristics)
        ensures
            r.bits == 0,
    {
        Heuristics { bits: 0 }
    }

    /// The set of every heuristic.
    pub fn all() -> (r: Heuristics)
        ensures
            r.bits == ALL_BITS,
    {
        Heuristics { bits: ALL_BITS }
    }

    /// The recommended heuristics: a manifest file.
    pub fn recommended() -> (r: Heuristics)
        ensures
            r.bits == RECOMMENDED_BITS,
    {
        Heuristics { bits: RECOMMENDED_BITS }
    }

    /// The heuristic that looks for a main.typ file.
    pub fn main_file() -> (r: Heuristics)
        ensures
            r.bits == MAIN_FILE_BIT,
    {
        Heuristics { bits: MAIN_FILE_BIT }
    }

    /// The heuristic that looks for a lib.typ file.
    pub fn lib_file() -> (r: Heuristics)
        ensures
            r.bits == LIB_FILE_BIT,
    {
        Heuristics { bits: LIB_FILE_BIT }
    }

    /// The heuristic that looks for the entrypoint in a src folder.
    pub fn src_folder() -> (r: Heuristics)
        ensures
            r.bits == SRC_FOLDER_BIT,
    {
        Heuristics { bits: SRC_FOLDER_BIT }
    }

    /// The heuristic that looks for a manifest file.
    pub fn manifest_file() -> (r: Heuristics)
        ensures
            r.bits == MANIFEST_FILE_BIT,
    {
        Heuristics { bits: MANIFEST_FILE_BIT }
    }

    /// The heuristic that looks for a formatter configuration file.
    pub fn typstfmt_config() -> (r: Heuristics)
        ensures
            r.bits == TYPSTFMT_CONFIG_BIT,
    {
        Heuristics { bits: TYPSTFMT_CONFIG_BIT }
    }

    /// The raw bits of the set.
    pub fn bits(self) -> (r: u32)
        ensures
            r == self.bits,
    {
        self.bits
    }

    /// Whether no heuristic is in the set.
    pub fn is_empty(self) -> (r: bool)
        ensures
            r == self.none(),
    {
        self.bits == 0
    }

    /// Whether every heuristic of `other` is in the set.
    pub fn contains(self, other: Heuristics) -> (r: bool)
        ensures
            r == self.has(other),
    {
        self.bits & other.bits == other.bits
    }

    /// The heuristics of both sets.
    pub fn union(self, other: Heuristics) -> (r: Heuristics)
        ensures
            r.bits == self.bits | other.bits,
    {
        Heuristics { bits: self.bits | other.bits }
    }

    /// Adds the heuristics of `other` to the set.
    pub fn insert(&mut self, other: Heuristics)
        ensures
            final(self).bits == old(self).bits | other.bits,
    {
        self.bits = self.bits | other.bits;
    }
}

/// What a directory entry is.
#[derive(Debug, Clone, Copy, PartialEq, Eq, Structural)]
pub enum EntryKind {
    /// A regular file.
    File,
    /// A directory.
    Dir,
    /// Anything else, such as a symbolic link.
    Other,
}

/// One entry of a directory: its file name and its kind.
#[derive(Debug, Clone)]
pub struct DirEntry {
    pub name: String,
    pub kind: EntryKind,
}

/// The entries of one directory. `src_entries` holds the entries of its
/// `src` folder where that folder was looked into, and is empty otherwise.
#[derive(Debug, Clone)]
pub struct DirListing {
    pub entries: Vec<DirEntry>,
    pub src_entries: Vec<DirEntry>,
}

/// The files that can mark a project root, in the order in which they are
/// tried.
pub open spec fn root_file_table() -> Seq<(Seq<char>, Heuristic)> {
    seq![
        (MAIN_FILE@, Heuristic::MainFile { src: false }),
        (LIB_FILE@, Heuristic::LibFile { src: false }),
        (MANIFEST_FILE@, Heuristic::ManifestFile),
        (TYPSTFMT_FILE@, Heuristic::TypstfmtConfig),
    ]
}

/// The first row of `table`, from row `i` on, that is wanted and names the
/// file `name`.
pub open spec fn table_lookup(
    table: Seq<(Seq<char>, Heuristic)>,
    name: Seq<char>,
    wanted: Heuristics,
    i: int,
) -> Option<Heuristic>
    decreases table.len() - i,
{
    if i < 0 || i >= table.len() {
        None
    } else if wanted.has(Heuristics { bits: heuristic_bits(table[i].1) }) && table[i].0 == name {
        Some(table[i].1)
    } else {
        table_lookup(table, name, wanted, i + 1)
    }
}

/// The heuristic that a file named `name` at the root of a directory meets.
pub open spec fn root_file_heuristic(name: Seq<char>, wanted: Heuristics) -> Option<Heuristic> {
    table_lookup(root_file_table(), name, wanted, 0)
}

/// The heuristic that the entries of a `src` folder meet, from entry `i` on:
/// the first main.typ or lib.typ, unless an entry that is not a file comes
/// first.
pub open spec fn src_folder_heuristic(entries: Seq<DirEntry>, i: int) -> Option<Heuristic>
    decreases entries.len() - i,
{
    if i < 0 || i >= entries.len() {
        None
    } else if !(entries[i].kind is File) {
        None
    } else if entries[i].name@ == MAIN_FILE@ {
        Some(Heuristic::MainFile { src: true })
    } else if entries[i].name@ == LIB_FILE@ {
        Some(Heuristic::LibFile { src: true })
    } else {
        src_folder_heuristic(entries, i + 1)
    }
}

/// The heuristic that one entry of a directory meets.
pub open spec fn entry_heuristic(
    entry: DirEntry,
    src_entries: Seq<DirEntry>,
    wanted: Heuristics,
) -> Option<Heuristic> {
    match entry.kind {
        EntryKind::Dir => if wanted.has(Heuristics { bits: SRC_FOLDER_BIT }) && entry.name@
            == SRC_FOLDER@ {
            src_folder_heuristic(src_entries, 0)
        } else {
            None
        },
        EntryKind::File => root_file_heuristic(entry.name@, wanted),
        EntryKind::Other => None,
    }
}

/// One step of the scan of a directory: the heuristics met once an entry
/// that meets `found` is added to `acc`, and whether the scan stops there. It
/// stops at the first match when `first` holds, and once every wanted
/// heuristic was met.
pub open spec fn scan_step_spec(
    acc: Heuristics,
    found: Option<Heuristic>,
    wanted: Heuristics,
    first: bool,
) -> (Heuristics, bool) {
    match found {
        Some(h) => {
            let next = Heuristics { bits: acc.bits | heuristic_bits(h) };
            (next, first || next == wanted)
        },
        None => (acc, false),
    }
}

/// The heuristics that the entries of a directory meet, from entry `i` on,
/// added to `acc`, scanning until a step stops.
pub open spec fn scan_entries(
    entries: Seq<DirEntry>,
    src_entries: Seq<DirEntry>,
    wanted: Heuristics,
    first: bool,
    i: int,
    acc: Heuristics,
) -> Heuristics
    decreases entries.len() - i,
{
    if i < 0 || i >= entries.len() {
        acc
    } else {
        let step = scan_step_spec(acc, entry_heuristic(entries[i], src_entries, wanted), wanted, first);
        if step.1 {
            step.0
        } else {
            scan_entries(entries, src_entries, wanted, first, i + 1, step.0)
        }
    }
}

/// Whether the scan from entry `i`, with `acc` met so far, stops at an entry
/// before entry `m`.
pub open spec fn scan_stops_before(
    entries: Seq<DirEntry>,
    src_entries: Seq<DirEntry>,
    wanted: Heuristics,
    first: bool,
    i: int,
    acc: Heuristics,
    m: int,
) -> bool
    decreases m - i,
{
    if i < 0 || i >= m || i >= entries.len() {
        false
    } else {
        let step = scan_step_spec(acc, entry_heuristic(entries[i], src_entries, wanted), wanted, first);
        step.1 || scan_stops_before(entries, src_entries, wanted, first, i + 1, step.0, m)
    }
}

/// A scan that stops before entry `m` meets the same heuristics on the first
/// `m` entries as on all of them: the entries after the stop need not be read.
pub proof fn lemma_scan_prefix(
    entries: Seq<DirEntry>,
    src_entries: Seq<DirEntry>,
    wanted: Heuristics,
    first: bool,
    i: int,
    acc: Heuristics,
    m: int,
)
    requires
        0 <= i <= m <= entries.len(),
        scan_stops_before(entries, src_entries, wanted, first, i, acc, m),
    ensures
        scan_entries(entries.take(m), src_entries, wanted, first, i, acc) == scan_entries(
            entries,
            src_entries,
            wanted,
            first,
            i,
            acc,
        ),
    decreases m - i,
{
    assert(entries.take(m)[i] == entries[i]);
    let step = scan_step_spec(acc, entry_heuristic(entries[i], src_entries, wanted), wanted, first);
    if !step.1 {
        lemma_scan_prefix(entries, src_entries, wanted, first, i + 1, step.0, m);
    }
}

/// Whether the scan of a `src` folder ends at this entry: it is no file, or
/// it is main.typ or lib.typ.
pub open spec fn src_scan_ends_at(e: DirEntry) -> bool {
    !(e.kind is File) || e.name@ == MAIN_FILE@ || e.name@ == LIB_FILE@
}

proof fn lemma_src_folder_prefix_from(entries: Seq<DirEntry>, k: int, i: int)
    requires
        0 <= i <= k < entries.len(),
        src_scan_ends_at(entries[k]),
    ensures
        src_folder_heuristic(entries.take(k + 1), i) == src_folder_heuristic(entries, i),
    decreases k - i,
{
    assert(entries.take(k + 1)[i] == entries[i]);
    if i < k {
        lemma_src_folder_prefix_from(entries, k, i + 1);
    }
}

/// The entries of a `src` folder up to one where its scan ends meet the same
/// heuristic as all of them: the entries after it need not be read.
pub proof fn lemma_src_folder_prefix(entries: Seq<DirEntry>, k: int)
    requires
        0 <= k < entries.len(),
        src_scan_ends_at(entries[k]),
    ensures
        src_folder_heuristic(entries.take(k + 1), 0) == src_folder_heuristic(entries, 0),
{
    lemma_src_folder_prefix_from(entries, k, 0);
}

/// The heuristics that a directory meets.
pub open spec fn directory_heuristics(
    listing: DirListing,
    wanted: Heuristics,
    first: bool,
) -> Heuristics {
    scan_entries(listing.entries@, listing.src_entries@, wanted, first, 0, Heuristics { bits: 0 })
}

/// The table of files that can mark a project root.
pub fn root_files() -> (r: Vec<(&'static str, Heuristic)>)
    ensures
        r@.len() == root_file_table().len(),
        forall|i: int|
            0 <= i < r@.len() ==> r@[i].0@ == root_file_table()[i].0 && r@[i].1
                == root_file_table()[i].1,
{
    vec![
        (MAIN_FILE, Heuristic::MainFile { src: false }),
        (LIB_FILE, Heuristic::LibFile { src: false }),
        (MANIFEST_FILE, Heuristic::ManifestFile),
        (TYPSTFMT_FILE, Heuristic::TypstfmtConfig),
    ]
}

/// The heuristic that the entries of a `src` folder meet.
fn src_folder_entry(entries: &Vec<DirEntry>) -> (r: Option<Heuristic>)
    ensures
        r == src_folder_heuristic(entries@, 0),
{
    let mut i: usize = 0;
    while i < entries.len()
        invariant
            i <= entries.len(),
            src_folder_heuristic(entries@, 0) == src_folder_heuristic(entries@, i as int),
        decreases entries.len() - i,
    {
        let entry = &entries[i];
        if entry.kind != EntryKind::File {
            return None;
        }
        if str_eq(entry.name.as_str(), MAIN_FILE) {
            return Some(Heuristic::MainFile { src: true });
        }
        if str_eq(entry.name.as_str(), LIB_FILE) {
            return Some(Heuristic::LibFile { src: true });
        }
        i = i + 1;
    }
    None
}

/// The heuristic that a file named `name` at the root of a directory meets:
/// the first row of the table that is wanted and names it.
fn root_file_entry(name: &str, heuristics: Heuristics) -> (r: Option<Heuristic>)
    ensures
        r == root_file_heuristic(name@, heuristics),
{
    let table = root_files();
    let mut i: usize = 0;
    while i < table.len()
        invariant
            i <= table.len(),
            table@.len() == root_file_table().len(),
            forall|j: int|
                0 <= j < table@.len() ==> table@[j].0@ == root_file_table()[j].0 && table@[j].1
                    == root_file_table()[j].1,
            root_file_heuristic(name@, heuristics) == table_lookup(
                root_file_table(),
                name@,
                heuristics,
                i as int,
            ),
        decreases table.len() - i,
    {
        let (file, h) = table[i];
        if heuristics.contains(h.to_heuristics()) && str_eq(name, file) {
            return Some(h);
        }
        i = i + 1;
    }
    None
}

/// The heuristic that one entry of a directory meets, if any. A directory
/// named `src` is looked into, through `src_entries`, when the src folder
/// heuristic is wanted.
pub fn potential_root_dir_entry(
    entry: &DirEntry,
    src_entries: &Vec<DirEntry>,
    heuristics: Heuristics,
) -> (r: Option<Heuristic>)
    ensures
        r == entry_heuristic(*entry, src_entries@, heuristics),
{
    match entry.kind {
        EntryKind::Dir => {
            if heuristics.contains(Heuristics { bits: SRC_FOLDER_BIT }) && str_eq(
                entry.name.as_str(),
                SRC_FOLDER,
            ) {
                src_folder_entry(src_entries)
            } else {
                None
            }
        },
        EntryKind::File => root_file_entry(entry.name.as_str(), heuristics),
        EntryKind::Other => None,
    }
}

/// One step of the scan of a directory: adds what an entry met to `acc`, and
/// tells whether the scan stops after that entry.
pub fn scan_step(acc: Heuristics, found: Option<Heuristic>, heuristics: Heuristics, first: bool) -> (r: (
    Heuristics,
    bool,
))
    ensures
        r == scan_step_spec(acc, found, heuristics, first),
{
    match found {
        Some(h) => {
            let next = acc.union(h.to_heuristics());
            (next, first || next == heuristics)
        },
        None => (acc, false),
    }
}

/// Whether the scan of a `src` folder ends at this entry.
pub fn src_scan_ends(entry: &DirEntry) -> (r: bool)
    ensures
        r == src_scan_ends_at(*entry),
{
    entry.kind != EntryKind::File || str_eq(entry.name.as_str(), MAIN_FILE) || str_eq(
        entry.name.as_str(),
        LIB_FILE,
    )
}

/// Whether this entry of a directory is a `src` folder that the scan looks
/// into, so that its entries are needed.
pub fn opens_src_folder(entry: &DirEntry, heuristics: Heuristics) -> (r: bool)
    ensures
        r == (entry.kind is Dir && heuristics.has(Heuristics { bits: SRC_FOLDER_BIT })
            && entry.name@ == SRC_FOLDER@),
{
    entry.kind == EntryKind::Dir && heuristics.contains(Heuristics { bits: SRC_FOLDER_BIT })
        && str_eq(entry.name.as_str(), SRC_FOLDER)
}

/// The heuristics that a directory meets. If `first` is `true`, the scan stops
/// at the first matched heuristic; otherwise it goes on until every wanted
/// heuristic was met or the entries run out.
pub fn project_root(listing: &DirListing, heuristics: Heuristics, first: bool) -> (r: Heuristics)
    ensures
        r == directory_heuristics(*listing, heuristics, first),
{
    let mut res = Heuristics::empty();
    let mut i: usize = 0;
    while i < listing.entries.len()
        invariant
            i <= listing.entries.len(),
            directory_heuristics(*listing, heuristics, first) == scan_entries(
                listing.entries@,
                listing.src_entries@,
                heuristics,
                first,
                i as int,
                res,
            ),
        decreases listing.entries.len() - i,
    {
        let found = potential_root_dir_entry(&listing.entries[i], &listing.src_entries, heuristics);
        let (next, stop) = scan_step(res, found, heuristics, first);
        res = next;
        if stop {
            return res;
        }
        i = i + 1;
    }
    res
}

/// Looks through the listings of a path's ancestors, nearest first, for the
/// first directory that matches any of the given heuristics, and returns its
/// index with the heuristics it matched. If `any` is `true`, each directory is
/// only scanned up to its first match.
pub fn try_find_project_root(
    ancestors: &Vec<DirListing>,
    heuristics: Heuristics,
    any: bool,
) -> (r: Option<(usize, Heuristics)>)
    ensures
        match r {
            Some((i, found)) => {
                &&& i < ancestors@.len()
                &&& found == directory_heuristics(ancestors@[i as int], heuristics, any)
                &&& !found.none()
                &&& forall|j: int|
                    0 <= j < i ==> directory_heuristics(ancestors@[j], heuristics, any).none()
            },
            None => forall|j: int|
                0 <= j < ancestors@.len() ==> directory_heuristics(
                    ancestors@[j],
                    heuristics,
                    any,
                ).none(),
        },
{
    let mut i: usize = 0;
    while i < ancestors.len()
        invariant
            i <= ancestors.len(),
            forall|j: int|
                0 <= j < i ==> directory_heuristics(ancestors@[j], heuristics, any).none(),
        decreases ancestors.len() - i,
    {
        let returned = project_root(&ancestors[i], heuristics, any);
        if !returned.is_empty() {
            return Some((i, returned));
        }
        i = i + 1;
    }
    None
}

/// Checks if a directory matches any of the given heuristics.
pub fn is_project_root(listing: &DirListing, heuristics: Heuristics) -> (r: bool)
    ensures
        r == !directory_heuristics(*listing, heuristics, true).none(),
{
    !project_root(listing, heuristics, true).is_empty()
}

} // verus!
