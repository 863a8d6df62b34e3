use file_batch::config::{parse_cli_input, Cli, MyConfig};
use file_batch::error::ProcessError;
use file_batch::process::Process;
use file_batch::staging::StagePlan;

fn text(s: &str) -> String {
    String::from(s)
}

fn cli(config: Option<&str>) -> Cli {
    Cli {
        input_path: Some(text("in")),
        input_extension: text("nc"),
        output_path: None,
        tmp_dir_path: text("default"),
        overwrite: false,
        config: config.map(text),
    }
}

fn open_settings() -> MyConfig {
    MyConfig {
        input_path: None,
        input_extension: None,
        output_path: None,
        tmp_dir_path: None,
        overwrite: None,
    }
}

#[test]
fn default_command_line() {
    let cli = Cli::default();
    assert_eq!(cli.input_path, None);
    assert_eq!(cli.input_extension, "nc");
    assert_eq!(cli.output_path, None);
    assert_eq!(cli.tmp_dir_path, "default");
    assert!(!cli.overwrite);
    assert_eq!(cli.config, None);
}

#[test]
fn default_command_line_stages_nothing() {
    let cli =
        Cli { input_path: Some(text("in")), output_path: Some(text("out")), ..Cli::default() };
    let cfg = parse_cli_input(&cli, None).unwrap();
    let p = Process::from_config(text("Test"), cfg).unwrap();
    assert_eq!(p.stage_tmp(), StagePlan::Skip);
    assert_eq!(p.extension(), "nc");
    assert!(!p.overwrite());
}

#[test]
fn default_settings_are_all_open() {
    assert_eq!(MyConfig::default(), open_settings());
}

#[test]
fn command_line_alone() {
    let cfg = parse_cli_input(&cli(None), None).unwrap();
    assert_eq!(
        cfg,
        MyConfig {
            input_path: Some(text("in")),
            input_extension: Some(text("nc")),
            output_path: None,
            tmp_dir_path: Some(text("default")),
            overwrite: Some(false),
        }
    );
}

#[test]
fn settings_file_fills_what_is_open() {
    let file = MyConfig { output_path: Some(text("out")), ..open_settings() };
    let cfg = parse_cli_input(&cli(Some("run.toml")), Some(Ok(file))).unwrap();
    assert_eq!(cfg.input_path, Some(text("in")));
    assert_eq!(cfg.output_path, Some(text("out")));
    assert_eq!(cfg.input_extension, Some(text("nc")));
    assert_eq!(cfg.tmp_dir_path, Some(text("default")));
    assert_eq!(cfg.overwrite, Some(false));
}

#[test]
fn settings_file_wins_over_the_command_line() {
    let file = MyConfig {
        input_path: Some(text("/data/in")),
        input_extension: Some(text("grib")),
        output_path: Some(text("/data/out")),
        tmp_dir_path: Some(text("/tmp/work")),
        overwrite: Some(true),
    };
    let cfg = parse_cli_input(&cli(Some("run.toml")), Some(Ok(file))).unwrap();
    assert_eq!(
        cfg,
        MyConfig {
            input_path: Some(text("/data/in")),
            input_extension: Some(text("grib")),
            output_path: Some(text("/data/out")),
            tmp_dir_path: Some(text("/tmp/work")),
            overwrite: Some(true),
        }
    );
}

#[test]
fn open_settings_file_changes_nothing() {
    let with_file = parse_cli_input(&cli(Some("run.toml")), Some(Ok(open_settings()))).unwrap();
    let without = parse_cli_input(&cli(None), None).unwrap();
    assert_eq!(with_file, without);
}

#[test]
fn settings_file_that_could_not_be_loaded() {
    let r = parse_cli_input(&cli(Some("run.toml")), Some(Err(text("no such file"))));
    assert_eq!(
        r,
        Err(ProcessError::IoError(text(" could not load config file run.toml: no such file")))
    );
}

#[test]
fn failed_load_names_the_file_in_its_message() {
    let r = parse_cli_input(&cli(Some("c.toml")), Some(Err(text("boom"))));
    assert_eq!(
        r.unwrap_err().message(),
        "file system error:  could not load config file c.toml: boom"
    );
}

#[test]
fn failed_load_with_empty_reason_and_path() {
    let r = parse_cli_input(&cli(Some("")), Some(Err(text(""))));
    assert_eq!(r, Err(ProcessError::IoError(text(" could not load config file : "))));
}

#[test]
fn settings_count_only_where_a_file_was_named() {
    let file = MyConfig { overwrite: Some(true), ..open_settings() };
    let cfg = parse_cli_input(&cli(None), Some(Ok(file))).unwrap();
    assert_eq!(cfg.overwrite, Some(false));
    let cfg = parse_cli_input(&cli(None), Some(Err(text("no such file")))).unwrap();
    assert_eq!(cfg.overwrite, Some(false));
}

#[test]
fn named_file_without_content_leaves_the_command_line() {
    let cfg = parse_cli_input(&cli(Some("run.toml")), None).unwrap();
    assert_eq!(cfg, parse_cli_input(&cli(None), None).unwrap());
}

#[test]
fn complete_settings_make_a_run() {
    let cfg = MyConfig {
        input_path: Some(text("in")),
        input_extension: Some(text("nc")),
        output_path: Some(text("out")),
        tmp_dir_path: Some(text("default")),
        overwrite: Some(true),
    };
    let p = Process::from_config(text("Test"), cfg).unwrap();
    assert_eq!(p.name(), "Test");
    assert_eq!(p.input_dir(), "in");
    assert_eq!(p.extension(), "nc");
    assert_eq!(p.output_dir(), "out");
    assert_eq!(p.output_extension(), "nc");
    assert_eq!(p.tmp_dir(), "default");
    assert!(p.overwrite());
    assert!(!p.strict_validation());
    assert!(p.items().is_empty());
}

#[test]
fn open_setting_makes_no_run() {
    let complete = || MyConfig {
        input_path: Some(text("in")),
        input_extension: Some(text("nc")),
        output_path: Some(text("out")),
        tmp_dir_path: Some(text("default")),
        overwrite: Some(false),
    };
    assert!(Process::from_config(text("Test"), complete()).is_some());
    assert!(Process::from_config(text("T"), MyConfig { input_path: None, ..complete() }).is_none());
    assert!(
        Process::from_config(text("T"), MyConfig { input_extension: None, ..complete() }).is_none()
    );
    assert!(
        Process::from_config(text("T"), MyConfig { output_path: None, ..complete() }).is_none()
    );
    assert!(
        Process::from_config(text("T"), MyConfig { tmp_dir_path: None, ..complete() }).is_none()
    );
    assert!(Process::from_config(text("T"), MyConfig { overwrite: None, ..complete() }).is_none());
}

#[test]
fn command_line_without_output_makes_no_run() {
    let cfg = parse_cli_input(&cli(None), None).unwrap();
    assert!(Process::from_config(text("Test"), cfg).is_none());
}
