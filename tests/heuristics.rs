use typst_project::heuristics::{
    opens_src_folder, potential_root_dir_entry, scan_step, src_scan_ends, project_root, try_find_project_root,
    DirEntry, DirListing, EntryKind, Heuristic, Heuristics,
};

fn file(name: &str) -> DirEntry {
    DirEntry {
        name: name.to_string(),
        kind: EntryKind::File,
    }
}

fn dir(name: &str) -> DirEntry {
    DirEntry {
        name: name.to_string(),
        kind: EntryKind::Dir,
    }
}

fn listing(entries: Vec<DirEntry>) -> DirListing {
    DirListing {
        entries,
        src_entries: vec![],
    }
}

#[test]
fn root_is_found_above_the_start() {
    // proj/typst.toml and proj/sub/, resolved from proj/sub.
    let sub = listing(vec![]);
    let proj = listing(vec![file("typst.toml"), dir("sub")]);
    let found = try_find_project_root(&vec![sub, proj], Heuristics::manifest_file(), true);
    assert_eq!(found, Some((1, Heuristics::manifest_file())));
    assert_eq!(found.unwrap().1.bits(), 4);
}

#[test]
fn no_marker_means_no_root() {
    let a = listing(vec![file("README.md"), dir("docs"), file("main.rs")]);
    let b = listing(vec![]);
    assert_eq!(typst_project::try_find_project_root(&vec![a, b]), None);
    assert_eq!(
        try_find_project_root(&vec![], Heuristics::recommended(), true),
        None
    );
}

#[test]
fn nearest_match_wins() {
    let inner = listing(vec![file("main.typ")]);
    let outer = listing(vec![file("typst.toml")]);
    let found = try_find_project_root(&vec![inner, outer], Heuristics::all(), true);
    assert_eq!(found, Some((0, Heuristics::main_file())));
    // With the recommended heuristics only the manifest counts.
    let inner = listing(vec![file("main.typ")]);
    let outer = listing(vec![file("typst.toml")]);
    assert_eq!(
        typst_project::try_find_project_root(&vec![inner, outer]),
        Some(1)
    );
}

#[test]
fn scan_stops_at_first_or_when_complete() {
    let l = listing(vec![file("main.typ"), file("typst.toml"), file("lib.typ")]);
    assert_eq!(project_root(&l, Heuristics::all(), true).bits(), 1);
    assert_eq!(project_root(&l, Heuristics::all(), false).bits(), 13);
    let wanted = Heuristics::main_file().union(Heuristics::manifest_file());
    assert_eq!(project_root(&l, wanted, false), wanted);
    assert!(Heuristics::empty().is_empty());
    assert!(project_root(&l, Heuristics::empty(), false).is_empty());
}

#[test]
fn src_folder_is_looked_into() {
    let l = DirListing {
        entries: vec![dir("src"), file("README.md")],
        src_entries: vec![file("utils.typ"), file("lib.typ")],
    };
    assert!(opens_src_folder(&l.entries[0], Heuristics::all()));
    assert!(!opens_src_folder(&l.entries[0], Heuristics::manifest_file()));
    assert!(!opens_src_folder(&l.entries[1], Heuristics::all()));
    assert_eq!(project_root(&l, Heuristics::all(), true).bits(), 10);
    assert_eq!(
        potential_root_dir_entry(&l.entries[0], &l.src_entries, Heuristics::all()),
        Some(Heuristic::LibFile { src: true })
    );
    // Without the src folder heuristic the folder is ignored.
    assert!(project_root(&l, Heuristics::main_file(), true).is_empty());
    // A non-file entry in src ends the search there.
    let l = DirListing {
        entries: vec![dir("src")],
        src_entries: vec![dir("nested"), file("main.typ")],
    };
    assert!(project_root(&l, Heuristics::all(), false).is_empty());
}

#[test]
fn only_files_match_root_names() {
    let l = listing(vec![dir("typst.toml"), DirEntry {
        name: "main.typ".to_string(),
        kind: EntryKind::Other,
    }]);
    assert!(project_root(&l, Heuristics::all(), false).is_empty());
    assert!(!typst_project::is_project_root(&l));
    let l = listing(vec![file("typst.toml")]);
    assert!(typst_project::is_project_root(&l));
    assert!(typst_project::heuristics::is_project_root(&l, Heuristics::all()));
    assert!(!typst_project::heuristics::is_project_root(&l, Heuristics::main_file()));
}

#[test]
fn heuristic_bits() {
    assert_eq!(Heuristics::from(Heuristic::MainFile { src: false }).bits(), 1);
    assert_eq!(Heuristics::from(Heuristic::LibFile { src: true }).bits(), 10);
    assert_eq!(Heuristics::from(Heuristic::MainFile { src: true }).bits(), 3);
    assert_eq!(Heuristics::from(Heuristic::LibFile { src: false }).bits(), 8);
    assert_eq!(Heuristics::from(Heuristic::TypstfmtConfig).bits(), 16);
    assert_eq!(Heuristic::ManifestFile.to_heuristics(), Heuristics::manifest_file());
    assert_eq!(Heuristics::all().bits(), 31);
    assert_eq!(Heuristics::recommended(), Heuristics::manifest_file());
    assert!(Heuristics::all().contains(Heuristics::src_folder()));
    assert!(!Heuristics::lib_file().contains(Heuristics::all()));
}

#[test]
fn main_and_lib_are_told_apart() {
    let variants = [
        Heuristic::MainFile { src: false },
        Heuristic::MainFile { src: true },
        Heuristic::LibFile { src: false },
        Heuristic::LibFile { src: true },
        Heuristic::ManifestFile,
        Heuristic::TypstfmtConfig,
    ];
    for (i, a) in variants.iter().enumerate() {
        assert!(!Heuristics::from(*a).is_empty());
        for (j, b) in variants.iter().enumerate() {
            assert_eq!(i == j, Heuristics::from(*a) == Heuristics::from(*b));
        }
    }
    let main = listing(vec![file("main.typ")]);
    let lib = listing(vec![file("lib.typ")]);
    assert_eq!(project_root(&main, Heuristics::all(), true), Heuristics::main_file());
    assert_eq!(project_root(&lib, Heuristics::all(), true), Heuristics::lib_file());
    assert!(project_root(&lib, Heuristics::main_file(), true).is_empty());
}

#[test]
fn formatter_config_is_asked_for() {
    let l = listing(vec![file("typstfmt.toml")]);
    assert!(project_root(&l, Heuristics::recommended(), true).is_empty());
    assert!(!typst_project::is_project_root(&l));
    assert_eq!(
        project_root(&l, Heuristics::all(), true),
        Heuristics::typstfmt_config()
    );
    let wanted = Heuristics::recommended().union(Heuristics::typstfmt_config());
    assert_eq!(project_root(&l, wanted, true), Heuristics::typstfmt_config());
}

#[test]
fn scan_steps() {
    let wanted = Heuristics::main_file().union(Heuristics::manifest_file());
    assert_eq!(
        scan_step(Heuristics::empty(), None, wanted, true),
        (Heuristics::empty(), false)
    );
    assert_eq!(
        scan_step(Heuristics::empty(), Some(Heuristic::MainFile { src: false }), wanted, false),
        (Heuristics::main_file(), false)
    );
    assert_eq!(
        scan_step(Heuristics::main_file(), Some(Heuristic::ManifestFile), wanted, false),
        (wanted, true)
    );
    assert_eq!(
        scan_step(Heuristics::empty(), Some(Heuristic::ManifestFile), wanted, true),
        (Heuristics::manifest_file(), true)
    );
    assert!(src_scan_ends(&dir("nested")));
    assert!(src_scan_ends(&file("lib.typ")));
    assert!(!src_scan_ends(&file("utils.typ")));
    let mut h = Heuristics::empty();
    h.insert(Heuristics::lib_file());
    h.insert(Heuristics::src_folder());
    assert_eq!(h, Heuristics::from(Heuristic::LibFile { src: true }));
}
