use file_batch::discovery::{Entry, Listing};
use file_batch::error::ProcessError;
use file_batch::process::Process;

fn text(s: &str) -> String {
    String::from(s)
}

fn run(extension: &str) -> Process {
    Process::new(text("Test"), text("in"), text(extension), text("out"), text("default"), false)
}

fn listing(names: &[&str]) -> Listing {
    let mut entries = Vec::new();
    for name in names {
        entries.push(Entry::Readable(text(name)));
    }
    Listing::Directory(entries)
}

fn names(p: &Process) -> Vec<String> {
    p.items().iter().map(|it| it.name().clone()).collect()
}

#[test]
fn new_run_has_no_items() {
    let p = run("nc");
    assert!(p.items().is_empty());
    assert_eq!(p.unreadable_entries(), 0);
    assert_eq!(p.name(), "Test");
    assert_eq!(p.input_dir(), "in");
    assert_eq!(p.extension(), "nc");
    assert_eq!(p.output_dir(), "out");
    assert_eq!(p.output_extension(), "nc");
    assert_eq!(p.tmp_dir(), "default");
    assert!(!p.overwrite());
    assert!(!p.strict_validation());
}

#[test]
fn discovery_keeps_only_the_extension() {
    let mut p = run("nc");
    let n = p.discover_items(&listing(&["a.nc", "b.nc", "c.txt"]));
    assert_eq!(n, Ok(2));
    assert_eq!(names(&p), vec![text("a"), text("b")]);
}

#[test]
fn discovery_counts_n_of_n_plus_m() {
    let mut p = run("nc");
    let all = ["x1.nc", "notes.md", "x2.nc", "x3.nc", "readme", "x4.nc", "nc", ".nc", "x5.nc.bak"];
    assert_eq!(p.discover_items(&listing(&all)), Ok(4));
    assert_eq!(p.items().len(), 4);
    let found = names(&p);
    for i in 0..found.len() {
        for j in (i + 1)..found.len() {
            assert_ne!(found[i], found[j]);
        }
    }
}

#[test]
fn discovery_builds_both_paths() {
    let mut p = run("nc");
    assert_eq!(p.discover_items(&listing(&["a.nc"])), Ok(1));
    let item = &p.items()[0];
    assert_eq!(item.name(), "a");
    assert_eq!(item.input_path(), "in/a.nc");
    assert_eq!(item.output_path(), "out/a.nc");
}

#[test]
fn discovery_uses_the_output_extension() {
    let mut p = run("nc").with_output_extension(text("out"));
    assert_eq!(p.output_extension(), "out");
    assert_eq!(p.discover_items(&listing(&["b.nc"])), Ok(1));
    assert_eq!(p.items()[0].input_path(), "in/b.nc");
    assert_eq!(p.items()[0].output_path(), "out/b.out");
}

#[test]
fn discovery_keeps_listing_order() {
    let mut p = run("nc");
    assert_eq!(p.discover_items(&listing(&["z.nc", "m.nc", "skip.txt", "a.nc"])), Ok(3));
    assert_eq!(names(&p), vec![text("z"), text("m"), text("a")]);
}

#[test]
fn discovery_of_an_empty_directory() {
    let mut p = run("nc");
    assert_eq!(p.discover_items(&listing(&[])), Ok(0));
    assert!(p.items().is_empty());
}

#[test]
fn discovery_without_a_match() {
    let mut p = run("nc");
    assert_eq!(p.discover_items(&listing(&["a.txt", "b.NC", ".nc"])), Ok(0));
    assert!(p.items().is_empty());
}

#[test]
fn discovery_fails_for_a_missing_directory() {
    let mut p = run("nc");
    assert_eq!(p.discover_items(&Listing::NotFound), Err(ProcessError::NotFound(text("in"))));
    assert!(p.items().is_empty());
}

#[test]
fn discovery_fails_for_a_file() {
    let mut p = run("nc");
    assert_eq!(
        p.discover_items(&Listing::NotADirectory),
        Err(ProcessError::NotADirectory(text("in")))
    );
    assert!(p.items().is_empty());
}

#[test]
fn failed_discovery_keeps_the_items() {
    let mut p = run("nc");
    assert_eq!(p.discover_items(&listing(&["a.nc", "b.nc"])), Ok(2));
    assert!(p.discover_items(&Listing::NotFound).is_err());
    assert_eq!(names(&p), vec![text("a"), text("b")]);
}

#[test]
fn discovery_skips_unreadable_entries() {
    let mut p = run("nc");
    let entries = vec![
        Entry::Readable(text("a.nc")),
        Entry::Unreadable,
        Entry::Readable(text("b.nc")),
        Entry::Unreadable,
    ];
    assert_eq!(p.discover_items(&Listing::Directory(entries)), Ok(2));
    assert_eq!(names(&p), vec![text("a"), text("b")]);
    assert_eq!(p.unreadable_entries(), 2);
}

#[test]
fn discovery_replaces_earlier_items() {
    let mut p = run("nc");
    assert_eq!(p.discover_items(&listing(&["a.nc", "b.nc"])), Ok(2));
    assert_eq!(p.discover_items(&listing(&["c.nc"])), Ok(1));
    assert_eq!(names(&p), vec![text("c")]);
}

#[test]
fn discovery_keeps_inner_dots_in_the_name() {
    let mut p = run("nc");
    assert_eq!(p.discover_items(&listing(&["a.tar.nc"])), Ok(1));
    assert_eq!(p.items()[0].name(), "a.tar");
    assert_eq!(p.items()[0].output_path(), "out/a.tar.nc");
}

#[test]
fn discovery_under_a_directory_with_trailing_separator() {
    let mut p =
        Process::new(text("Test"), text("in/"), text("nc"), text("/out/"), text("default"), false);
    assert_eq!(p.discover_items(&listing(&["a.nc"])), Ok(1));
    assert_eq!(p.items()[0].input_path(), "in/a.nc");
    assert_eq!(p.items()[0].output_path(), "/out/a.nc");
}

#[test]
fn new_output_extension_drops_the_items() {
    let mut p = run("nc");
    assert_eq!(p.discover_items(&listing(&["a.nc", "b.nc"])), Ok(2));
    let mut p = p.with_output_extension(text("out"));
    assert!(p.items().is_empty());
    assert_eq!(p.unreadable_entries(), 0);
    assert_eq!(p.discover_items(&listing(&["a.nc", "b.nc"])), Ok(2));
    assert_eq!(p.items()[0].output_path(), "out/a.out");
    assert_eq!(p.items()[1].output_path(), "out/b.out");
}

#[test]
fn strictness_keeps_the_items() {
    let mut p = run("nc");
    assert_eq!(p.discover_items(&listing(&["a.nc", "b.nc"])), Ok(2));
    let p = p.with_strict_validation(true);
    assert_eq!(names(&p), vec![text("a"), text("b")]);
    let p = p.with_strict_validation(false);
    assert_eq!(names(&p), vec![text("a"), text("b")]);
}
