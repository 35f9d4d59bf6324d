//! A small configuration schema, as an application would define one.

use vstd::prelude::*;
use crate::types::OgreRootConfig;

verus! {

/// Root configs which may contain other sub-configs.
#[derive(Clone, Debug, Default, PartialEq, Eq)]
pub struct AppRootConfig {
    pub log_sub_config: LogConfig,
}

impl OgreRootConfig for AppRootConfig {}

/// Specifies what the application should do with its log messages.
#[derive(Clone, Debug, Default, PartialEq, Eq)]
pub struct LogConfig {
    pub sink: Option<Dummy>,
}

/// Where log messages go.
#[derive(Clone, Copy, Debug, PartialEq, Eq, Structural)]
pub enum Dummy {
    Null,
    StdOut,
    StdError,
}

} // verus!
