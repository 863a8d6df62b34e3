use file_batch::discovery::{Entry, Listing};
use file_batch::error::ProcessError;
use file_batch::process::Process;

fn text(s: &str) -> String {
    String::from(s)
}

fn discovered(names: &[&str]) -> Process {
    let mut p =
        Process::new(text("Test"), text("in"), text("nc"), text("out"), text("default"), false);
    let mut entries = Vec::new();
    for name in names {
        entries.push(Entry::Readable(text(name)));
    }
    assert!(p.discover_items(&Listing::Directory(entries)).is_ok());
    p
}

#[test]
fn validation_passes_when_every_input_is_there() {
    let p = discovered(&["a.nc", "b.nc", "c.nc"]);
    assert_eq!(p.validate_inputs(&vec![true, true, true]), Ok(true));
    assert!(p.missing_inputs(&vec![true, true, true]).is_empty());
}

#[test]
fn validation_of_no_items_passes() {
    let p = discovered(&["readme.txt"]);
    assert_eq!(p.validate_inputs(&vec![]), Ok(true));
    assert!(p.missing_inputs(&vec![]).is_empty());
}

#[test]
fn validation_reports_false_for_a_missing_input() {
    let p = discovered(&["a.nc", "b.nc"]);
    assert_eq!(p.validate_inputs(&vec![false, true]), Ok(false));
    assert_eq!(p.missing_inputs(&vec![false, true]), vec![0]);
}

#[test]
fn removing_one_input_flips_validation() {
    let p = discovered(&["a.nc", "b.nc", "c.nc", "d.nc"]);
    let all = vec![true, true, true, true];
    assert_eq!(p.validate_inputs(&all), Ok(true));
    for k in 0..all.len() {
        let mut found = all.clone();
        found[k] = false;
        assert_eq!(p.validate_inputs(&found), Ok(false));
        assert_eq!(p.missing_inputs(&found), vec![k]);
    }
}

#[test]
fn missing_inputs_lists_all_in_order() {
    let p = discovered(&["a.nc", "b.nc", "c.nc", "d.nc", "e.nc"]);
    assert_eq!(p.missing_inputs(&vec![false, true, false, true, false]), vec![0, 2, 4]);
}

#[test]
fn item_without_observation_counts_as_missing() {
    let p = discovered(&["a.nc", "b.nc", "c.nc"]);
    assert_eq!(p.missing_inputs(&vec![true]), vec![1, 2]);
    assert_eq!(p.validate_inputs(&vec![true]), Ok(false));
}

#[test]
fn observations_beyond_the_items_are_ignored() {
    let p = discovered(&["a.nc"]);
    assert_eq!(p.validate_inputs(&vec![true, false, false]), Ok(true));
    assert!(p.missing_inputs(&vec![true, false, false]).is_empty());
}

#[test]
fn strict_validation_fails_with_all_missing_paths() {
    let p = discovered(&["a.nc", "b.nc", "c.nc"]).with_strict_validation(true);
    assert!(p.strict_validation());
    assert_eq!(
        p.validate_inputs(&vec![false, true, false]),
        Err(ProcessError::ValidationFailed(vec![text("in/a.nc"), text("in/c.nc")]))
    );
}

#[test]
fn strict_validation_passes_when_every_input_is_there() {
    let p = discovered(&["a.nc", "b.nc"]).with_strict_validation(true);
    assert_eq!(p.validate_inputs(&vec![true, true]), Ok(true));
}

#[test]
fn strict_validation_of_no_items_passes() {
    let p = discovered(&[]).with_strict_validation(true);
    assert_eq!(p.validate_inputs(&vec![]), Ok(true));
}

#[test]
fn validation_failure_is_not_fatal_by_itself() {
    assert!(!ProcessError::ValidationFailed(vec![text("in/a.nc")]).is_fatal());
    assert!(!ProcessError::ItemProcessingError(text("a")).is_fatal());
    assert!(ProcessError::NotFound(text("in")).is_fatal());
    assert!(ProcessError::NotADirectory(text("in")).is_fatal());
    assert!(ProcessError::IoError(text("denied")).is_fatal());
}
