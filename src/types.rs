//! The error type and the traits that an application implements.

use vstd::prelude::*;

verus! {

/// Marker for the root configuration type of an application.
pub trait OgreRootConfig: Sized {}

/// What an application's command line options offer to the configuration pipeline.
pub trait CmdLineAndConfigIntegration<RootConfigType: OgreRootConfig>: Sized {
    /// The configuration file given on the command line, if any. When none is
    /// given, the file beside the executable is used, with the name of the
    /// executable followed by `.config.ron` or `.config.yaml`.
    fn config_file_path(&self) -> Option<&str>;

    /// Whether the configuration file is rewritten with the effective
    /// configuration. The previous file is kept, its name followed by `~`.
    fn should_write_effective_config(&self) -> bool;

    /// Whether the effective configuration is shown on the diagnostic stream.
    fn should_show_effective_config(&self) -> bool;

    /// The configuration `config` with the options of `self` applied to it, as
    /// the implementer defines it.
    spec fn spec_merge(self, config: RootConfigType) -> RootConfigType;

    /// The configuration `config` with the options of `self` applied to it.
    fn merge_with_config(self, config: RootConfigType) -> (r: RootConfigType)
        ensures
            r == self.spec_merge(config),
    ;
}

/// What can go wrong while finding, loading or saving a configuration.
/// Outside failures (of a codec or of the file system) carry their rendered text.
#[derive(Debug)]
pub enum Error {
    LoadingConfig { message: String, cause: Box<Error> },
    SavingConfig { message: String, cause: Box<Error> },
    UnsupportedConfigFileFormat { message: String },
    Ron { message: String, cause: String },
    Yaml { message: String, cause: String },
    Io { message: String, cause: String },
}

} // verus!
