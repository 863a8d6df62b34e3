//! The settings of a run: what the command line gives, what a settings file
//! adds, and the run that both resolve to.

use vstd::prelude::*;
use crate::error::{ProcessError, ProcessErrorView};
use crate::process::{Process, ProcessView};

verus! {

/// An optional string as text.
pub open spec fn text_of(s: Option<String>) -> Option<Seq<char>> {
    match s {
        Some(s) => Some(s@),
        None => None,
    }
}

/// A [`Cli`] as text.
pub struct CliView {
    pub input_path: Option<Seq<char>>,
    pub input_extension: Seq<char>,
    pub output_path: Option<Seq<char>>,
    pub tmp_dir_path: Seq<char>,
    pub overwrite: bool,
    pub config: Option<Seq<char>>,
}

/// What the command line gave.
#[derive(Debug, PartialEq, Eq)]
pub struct Cli {
    /// The path to the input files to read.
    pub input_path: Option<String>,
    /// The extension of the input files.
    pub input_extension: String,
    /// The path of the outputs.
    pub output_path: Option<String>,
    /// The path to the temporary directory.
    pub tmp_dir_path: String,
    /// Whether outputs are written over.
    pub overwrite: bool,
    /// The settings file, if one was named.
    pub config: Option<String>,
}

impl View for Cli {
    type V = CliView;

    open spec fn view(&self) -> CliView {
        CliView {
            input_path: text_of(self.input_path),
            input_extension: self.input_extension@,
            output_path: text_of(self.output_path),
            tmp_dir_path: self.tmp_dir_path@,
            overwrite: self.overwrite,
            config: text_of(self.config),
        }
    }
}

/// A [`MyConfig`] as text.
pub struct MyConfigView {
    pub input_path: Option<Seq<char>>,
    pub input_extension: Option<Seq<char>>,
    pub output_path: Option<Seq<char>>,
    pub tmp_dir_path: Option<Seq<char>>,
    pub overwrite: Option<bool>,
}

/// The settings of a run, each of which may still be open.
#[derive(Debug, PartialEq, Eq)]
pub struct MyConfig {
    pub input_path: Option<String>,
    pub input_extension: Option<String>,
    pub output_path: Option<String>,
    pub tmp_dir_path: Option<String>,
    pub overwrite: Option<bool>,
}

impl View for MyConfig {
    type V = MyConfigView;

    open spec fn view(&self) -> MyConfigView {
        MyConfigView {
            input_path: text_of(self.input_path),
            input_extension: text_of(self.input_extension),
            output_path: text_of(self.output_path),
            tmp_dir_path: text_of(self.tmp_dir_path),
            overwrite: self.overwrite,
        }
    }
}

impl Default for Cli {
    /// The command line on which nothing was given: inputs with the
    /// extension `nc`, no scratch directory, nothing written over.
    fn default() -> (cli: Cli)
        ensures
            cli@ == (CliView {
                input_path: None,
                input_extension: "nc"@,
                output_path: None,
                tmp_dir_path: "default"@,
                overwrite: false,
                config: None,
            }),
    {
        Cli {
            input_path: None,
            input_extension: String::from_str("nc"),
            output_path: None,
            tmp_dir_path: String::from_str("default"),
            overwrite: false,
            config: None,
        }
    }
}

impl Default for MyConfig {
    /// The settings with every one of them open.
    fn default() -> (cfg: MyConfig)
        ensures
            cfg@ == (MyConfigView {
                input_path: None,
                input_extension: None,
                output_path: None,
                tmp_dir_path: None,
                overwrite: None,
            }),
    {
        MyConfig {
            input_path: None,
            input_extension: None,
            output_path: None,
            tmp_dir_path: None,
            overwrite: None,
        }
    }
}

/// The settings that the command line alone gives: the two directories as
/// far as they were named, and the other three always.
pub open spec fn from_cli(cli: CliView) -> MyConfigView {
    MyConfigView {
        input_path: cli.input_path,
        input_extension: Some(cli.input_extension),
        output_path: cli.output_path,
        tmp_dir_path: Some(cli.tmp_dir_path),
        overwrite: Some(cli.overwrite),
    }
}

/// `over` where it is set, and `base` where it is not.
pub open spec fn or_base<T>(over: Option<T>, base: Option<T>) -> Option<T> {
    if over is Some {
        over
    } else {
        base
    }
}

/// The settings of `base` with each setting of `file` laid over them.
pub open spec fn merged(base: MyConfigView, file: MyConfigView) -> MyConfigView {
    MyConfigView {
        input_path: or_base(file.input_path, base.input_path),
        input_extension: or_base(file.input_extension, base.input_extension),
        output_path: or_base(file.output_path, base.output_path),
        tmp_dir_path: or_base(file.tmp_dir_path, base.tmp_dir_path),
        overwrite: or_base(file.overwrite, base.overwrite),
    }
}

/// A loaded settings file, or the reason why it could not be loaded, as
/// text.
pub open spec fn loaded_view(loaded: Option<Result<MyConfig, String>>) -> Option<
    Result<MyConfigView, Seq<char>>,
> {
    match loaded {
        Some(Ok(file)) => Some(Ok(file@)),
        Some(Err(reason)) => Some(Err(reason@)),
        None => None,
    }
}

/// The settings that a command line and the settings file it names resolve
/// to, where the file could be loaded. The file counts only where the
/// command line names one.
pub open spec fn resolved(cli: CliView, loaded: Option<Result<MyConfigView, Seq<char>>>)
    -> MyConfigView {
    match loaded {
        Some(Ok(file)) if cli.config is Some => merged(from_cli(cli), file),
        _ => from_cli(cli),
    }
}

/// The command line names a settings file, and that file could not be
/// loaded.
pub open spec fn fails_to_load(cli: CliView, loaded: Option<Result<MyConfigView, Seq<char>>>)
    -> bool {
    cli.config is Some && loaded matches Some(Err(_))
}

/// What the failure to load a settings file says: that the file at `path`
/// could not be loaded, a colon, and the reason.
pub open spec fn load_failure(path: Seq<char>, reason: Seq<char>) -> Seq<char> {
    " could not load config file "@ + path + ": "@ + reason
}

/// `over` where it is set, and `base` where it is not.
fn pick_text(over: Option<String>, base: Option<String>) -> (r: Option<String>)
    ensures
        text_of(r) == or_base(text_of(over), text_of(base)),
{
    match over {
        Some(s) => Some(s),
        None => base,
    }
}

/// A copy of an optional string.
fn copy_text(s: &Option<String>) -> (r: Option<String>)
    ensures
        text_of(r) == text_of(*s),
{
    match s {
        Some(s) => Some(s.clone()),
        None => None,
    }
}

/// Resolves the settings of a run from the command line and from the
/// settings file that it names.
///
/// `loaded` is what became of loading that file: the settings in it, or the
/// reason why it could not be read. Without a settings file the command
/// line decides alone. With one, each setting of the file takes the place of
/// the command line's. A file that was named and could not be loaded is an
/// error, which names the file and carries the reason.
pub fn parse_cli_input(cli: &Cli, loaded: Option<Result<MyConfig, String>>) -> (r: Result<
    MyConfig,
    ProcessError,
>)
    ensures
        fails_to_load(cli@, loaded_view(loaded)) ==> (r matches Err(e) && e@
            == ProcessErrorView::IoError(
            load_failure(cli@.config.unwrap(), loaded_view(loaded).unwrap()->Err_0),
        )),
        !fails_to_load(cli@, loaded_view(loaded)) ==> (r matches Ok(cfg) && cfg@ == resolved(
            cli@,
            loaded_view(loaded),
        )),
{
    let mut cfg = MyConfig::default();
    cfg.input_path = copy_text(&cli.input_path);
    cfg.output_path = copy_text(&cli.output_path);
    cfg.tmp_dir_path = Some(cli.tmp_dir_path.clone());
    cfg.input_extension = Some(cli.input_extension.clone());
    cfg.overwrite = Some(cli.overwrite);
    let path = match &cli.config {
        Some(path) => path,
        None => {
            return Ok(cfg);
        },
    };
    match loaded {
        None => Ok(cfg),
        Some(Err(reason)) => {
            let mut text = String::from_str(" could not load config file ");
            text.append(path.as_str());
            text.append(": ");
            text.append(reason.as_str());
            Err(ProcessError::IoError(text))
        },
        Some(Ok(file)) => {
            let overwrite = match file.overwrite {
                Some(b) => Some(b),
                None => cfg.overwrite,
            };
            Ok(
                MyConfig {
                    input_path: pick_text(file.input_path, cfg.input_path),
                    input_extension: pick_text(file.input_extension, cfg.input_extension),
                    output_path: pick_text(file.output_path, cfg.output_path),
                    tmp_dir_path: pick_text(file.tmp_dir_path, cfg.tmp_dir_path),
                    overwrite,
                },
            )
        },
    }
}

/// Every setting is there.
pub open spec fn complete(cfg: MyConfigView) -> bool {
    &&& cfg.input_path is Some
    &&& cfg.input_extension is Some
    &&& cfg.output_path is Some
    &&& cfg.tmp_dir_path is Some
    &&& cfg.overwrite is Some
}

impl Process {
    /// The run that complete settings describe, under the label `name`;
    /// `None` when a setting is still open.
    pub fn from_config(name: String, cfg: MyConfig) -> (r: Option<Process>)
        ensures
            r is Some <==> complete(cfg@),
            r matches Some(p) ==> p@ == (ProcessView {
                name: name@,
                input_dir: cfg@.input_path.unwrap(),
                extension: cfg@.input_extension.unwrap(),
                output_dir: cfg@.output_path.unwrap(),
                output_extension: cfg@.input_extension.unwrap(),
                tmp_dir: cfg@.tmp_dir_path.unwrap(),
                overwrite: cfg@.overwrite.unwrap(),
                strict: false,
                items: Seq::empty(),
                unreadable: 0,
                listing: None,
            }),
    {
        match (
            cfg.input_path,
            cfg.input_extension,
            cfg.output_path,
            cfg.tmp_dir_path,
            cfg.overwrite,
        ) {
            (
                Some(input_dir),
                Some(extension),
                Some(output_dir),
                Some(tmp_dir),
                Some(overwrite),
            ) => Some(Process::new(name, input_dir, extension, output_dir, tmp_dir, overwrite)),
            _ => None,
        }
    }
}

} // verus!
