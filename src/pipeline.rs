//! The decisions of the resolution pipeline: which configuration file to use,
//! where its backup goes, the documentation of a rewrite, and its errors.

use vstd::prelude::*;
use crate::store::{is_io_error, quoted};
use crate::text::joined;
use crate::types::{CmdLineAndConfigIntegration, Error, OgreRootConfig};

verus! {

/// Whether `existing` says that candidate `i` exists; entries it lacks do not.
pub open spec fn exists_at(existing: Seq<bool>, i: int) -> bool {
    i < existing.len() && existing[i]
}

/// The configuration file for a program named `program`: the one named on the
/// command line if any; else the first candidate (`.config.ron`, then
/// `.config.yaml`, after the program name) that exists; else the first candidate.
pub open spec fn chosen_config_path(
    cli_path: Option<Seq<char>>,
    program: Seq<char>,
    existing: Seq<bool>,
) -> Seq<char> {
    match cli_path {
        Some(p) => p,
        None => if !exists_at(existing, 0) && exists_at(existing, 1) {
            program + ".config.yaml"@
        } else {
            program + ".config.ron"@
        },
    }
}

/// The candidate configuration files of a program, in order of preference.
pub fn config_file_candidates(program_name: &str) -> (r: Vec<String>)
    ensures
        r@.len() == 2,
        r@[0]@ == program_name@ + ".config.ron"@,
        r@[1]@ == program_name@ + ".config.yaml"@,
{
    let mut r: Vec<String> = Vec::new();
    r.push(joined(program_name, ".config.ron"));
    r.push(joined(program_name, ".config.yaml"));
    r
}

/// The path of the configuration file to use, given the path named on the command
/// line, the program name, and whether each candidate of
/// [config_file_candidates] exists. The file at that path may not exist yet.
pub fn get_config_file_path(cli_path: Option<&str>, program_name: &str, existing: &Vec<bool>) -> (r: String)
    ensures
        r@ == chosen_config_path(
            match cli_path {
                Some(p) => Some(p@),
                None => None,
            },
            program_name@,
            existing@,
        ),
{
    match cli_path {
        Some(p) => String::from_str(p),
        None => {
            let ron_exists = existing.len() > 0 && existing[0];
            let yaml_exists = existing.len() > 1 && existing[1];
            if !ron_exists && yaml_exists {
                joined(program_name, ".config.yaml")
            } else {
                joined(program_name, ".config.ron")
            }
        },
    }
}

/// Where the previous configuration file goes when it is rewritten: its path with `~` after it.
pub fn backup_config_file_path(path: &str) -> (r: String)
    ensures
        r@ == path@ + "~"@,
{
    joined(path, "~")
}

/// The documentation of a configuration file rewritten at `date`, its previous
/// version moved to `backup`, from the command line options and the previous
/// configuration as their debug forms render them.
pub open spec fn rewrite_docs(
    date: Seq<char>,
    backup: Seq<char>,
    options: Seq<char>,
    previous: Seq<char>,
) -> Seq<char> {
    "\nRewriten from merging the previous configs & the command line options at "@ + date
        + "\n(previous configuration file backed up to "@ + quoted(backup)
        + ")\n\nCOMMAND LINE OPTIONS: "@ + options + "\n\nPREVIOUS CONFIG: "@ + previous
        + "\n\n"@
}

/// The documentation of a configuration file rewritten at `date`, the time as the
/// caller read it; see [rewrite_docs].
pub fn rewrite_documentation(date: &str, backup: &str, options: &str, previous: &str) -> (r: String)
    ensures
        r@ == rewrite_docs(date@, backup@, options@, previous@),
{
    let s = joined(
        "\nRewriten from merging the previous configs & the command line options at ",
        date,
    );
    let s = joined(s.as_str(), "\n(previous configuration file backed up to \"");
    let s = joined(s.as_str(), backup);
    let s = joined(s.as_str(), "\")\n\nCOMMAND LINE OPTIONS: ");
    let s = joined(s.as_str(), options);
    let s = joined(s.as_str(), "\n\nPREVIOUS CONFIG: ");
    let s = joined(s.as_str(), previous);
    let s = joined(s.as_str(), "\n\n");
    proof {
        reveal_strlit("\n(previous configuration file backed up to \"");
        reveal_strlit("\n(previous configuration file backed up to ");
        reveal_strlit("\")\n\nCOMMAND LINE OPTIONS: ");
        reveal_strlit(")\n\nCOMMAND LINE OPTIONS: ");
        reveal_strlit("\"");
    }
    assert(s@ =~= rewrite_docs(date@, backup@, options@, previous@));
    s
}

/// The error for a failed move of the configuration file at `path` to `backup`:
/// the rewrite stops there and the file stays as it was.
pub fn rename_failed(path: &str, backup: &str, failure: String) -> (r: Error)
    ensures
        r matches Error::SavingConfig { message, cause }
            && message@ == "Error rewriting the config file "@ + quoted(path@)
                + " with a new effective configuration: the file couldn't be renamed to "@
                + quoted(backup@)
            && is_io_error(*cause, failure@),
{
    let s = joined("Error rewriting the config file \"", path);
    let s = joined(
        s.as_str(),
        "\" with a new effective configuration: the file couldn't be renamed to \"",
    );
    let s = joined(s.as_str(), backup);
    let message = joined(s.as_str(), "\"");
    proof {
        reveal_strlit("Error rewriting the config file \"");
        reveal_strlit("Error rewriting the config file ");
        reveal_strlit("\" with a new effective configuration: the file couldn't be renamed to \"");
        reveal_strlit(" with a new effective configuration: the file couldn't be renamed to ");
        reveal_strlit("\"");
    }
    assert(message@ =~= "Error rewriting the config file "@ + quoted(path@)
        + " with a new effective configuration: the file couldn't be renamed to "@
        + quoted(backup@));
    let io_message = String::from_str("renaming the config file");
    Error::SavingConfig { message, cause: Box::new(Error::Io { message: io_message, cause: failure }) }
}

/// The error for a failed flush of the diagnostic stream after showing the
/// effective configuration.
pub fn dump_failed(failure: String) -> (r: Error)
    ensures
        r matches Error::LoadingConfig { message, cause }
            && message@ == "Error dumping the Effective Program Configuration to stderr"@
            && is_io_error(*cause, failure@),
{
    let message = String::from_str("Error dumping the Effective Program Configuration to stderr");
    let io_message = String::from_str("flushing stderr");
    Error::LoadingConfig { message, cause: Box::new(Error::Io { message: io_message, cause: failure }) }
}

/// What the pipeline does with the effective configuration, in order.
#[derive(Clone, Copy, Debug, PartialEq, Eq, Structural)]
pub enum PipelineStep {
    /// Show it on the diagnostic stream and flush that stream.
    ShowEffectiveConfig,
    /// Move the configuration file to its backup path.
    BackUpConfigFile,
    /// Write the effective configuration, with its new documentation, to the file.
    WriteEffectiveConfig,
}

/// The steps after the merge: showing first if asked, then, if a rewrite is asked,
/// the backup and the write. Each runs only once the one before it succeeded.
pub open spec fn pipeline_steps(show: bool, write: bool) -> Seq<PipelineStep> {
    (if show {
        seq![PipelineStep::ShowEffectiveConfig]
    } else {
        Seq::empty()
    }) + (if write {
        seq![PipelineStep::BackUpConfigFile, PipelineStep::WriteEffectiveConfig]
    } else {
        Seq::empty()
    })
}

/// The steps to run on the effective configuration; see [pipeline_steps].
pub fn steps_after_merge(show: bool, write: bool) -> (r: Vec<PipelineStep>)
    ensures
        r@ == pipeline_steps(show, write),
{
    let mut r: Vec<PipelineStep> = Vec::new();
    if show {
        r.push(PipelineStep::ShowEffectiveConfig);
    }
    if write {
        r.push(PipelineStep::BackUpConfigFile);
        r.push(PipelineStep::WriteEffectiveConfig);
    }
    assert(r@ =~= pipeline_steps(show, write));
    r
}

/// The configuration file is never overwritten before it is backed up: the write
/// comes right after the backup, both come only when a rewrite is asked, and each
/// step comes at most once.
pub proof fn lemma_write_follows_backup(show: bool, write: bool)
    ensures
        forall|i: int|
            0 <= i < pipeline_steps(show, write).len() && #[trigger] pipeline_steps(show, write)[i]
                == PipelineStep::WriteEffectiveConfig ==> i > 0 && pipeline_steps(show, write)[i - 1]
                == PipelineStep::BackUpConfigFile,
        pipeline_steps(show, write).contains(PipelineStep::WriteEffectiveConfig) <== write,
        !write ==> !pipeline_steps(show, write).contains(PipelineStep::BackUpConfigFile)
            && !pipeline_steps(show, write).contains(PipelineStep::WriteEffectiveConfig),
        pipeline_steps(show, write).len() == (if show { 1int } else { 0 }) + (if write { 2int } else { 0 }),
        pipeline_steps(show, write).no_duplicates(),
{
    let steps = pipeline_steps(show, write);
    if write {
        let k: int = if show { 1 } else { 0 };
        assert(steps[k + 1] == PipelineStep::WriteEffectiveConfig);
    }
    if !write {
        assert forall|i: int| 0 <= i < steps.len() implies steps[i] == PipelineStep::ShowEffectiveConfig by {}
    }
}

/// The effective configuration: `root_config` with the command line options applied.
pub fn merge_cmdline_args_with_configs<O: CmdLineAndConfigIntegration<C>, C: OgreRootConfig>(
    cmdline_options: O,
    root_config: C,
) -> (r: C)
    ensures
        r == cmdline_options.spec_merge(root_config),
{
    cmdline_options.merge_with_config(root_config)
}

} // verus!
