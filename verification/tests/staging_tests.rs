use file_batch::error::ProcessError;
use file_batch::process::Process;
use file_batch::staging::{staged, StagePlan};

fn text(s: &str) -> String {
    String::from(s)
}

fn run(tmp_dir: &str, overwrite: bool) -> Process {
    Process::new(text("Test"), text("in"), text("nc"), text("out"), text(tmp_dir), overwrite)
}

#[test]
fn default_tmp_dir_stages_nothing() {
    assert_eq!(run("default", false).stage_tmp(), StagePlan::Skip);
    assert_eq!(run("default", true).stage_tmp(), StagePlan::Skip);
}

#[test]
fn other_tmp_dir_is_created() {
    assert_eq!(run("/tmp/work", false).stage_tmp(), StagePlan::CreateDir(text("/tmp/work")));
    assert_eq!(run("scratch/a/b", false).stage_tmp(), StagePlan::CreateDir(text("scratch/a/b")));
}

#[test]
fn staging_does_not_depend_on_overwrite() {
    assert_eq!(run("/tmp/work", true).stage_tmp(), StagePlan::CreateDir(text("/tmp/work")));
    assert_eq!(run("/tmp/work", false).stage_tmp(), run("/tmp/work", true).stage_tmp());
}

#[test]
fn sentinel_is_compared_exactly() {
    assert_eq!(run("Default", false).stage_tmp(), StagePlan::CreateDir(text("Default")));
    assert_eq!(run("default/", false).stage_tmp(), StagePlan::CreateDir(text("default/")));
    assert_eq!(run("", false).stage_tmp(), StagePlan::CreateDir(text("")));
}

#[test]
fn staging_twice_gives_the_same_plan() {
    let p = run("/tmp/work", false);
    assert_eq!(p.stage_tmp(), p.stage_tmp());
}

#[test]
fn created_directory_lets_the_run_go_on() {
    assert_eq!(staged(Ok(())), Ok(()));
}

#[test]
fn refused_directory_is_an_io_error() {
    assert_eq!(
        staged(Err(text("permission denied"))),
        Err(ProcessError::IoError(text("permission denied")))
    );
}
