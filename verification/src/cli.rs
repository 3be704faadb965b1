//! Command-line data model. These types carry the already-parsed invocation;
//! reading the actual command line is the orchestrator's concern.

use vstd::prelude::*;

verus! {

/// One parsed invocation: the setup-selection flags and the subcommand.
#[derive(Clone, Debug)]
pub struct Cli {
    pub system: Option<bool>,
    pub user: Option<bool>,
    pub local: Option<bool>,
    pub config: Option<String>,
    pub commands: Commands,
}

/// The subcommands.
#[derive(Clone, Debug)]
pub enum Commands {
    Clone { ty: String, target: String },
    Setup,
    Open { with: Option<String>, target: String },
    Config { edit: bool, with: Option<String> },
    Create { ty: String, hostname: String, target: String },
    List {
        filter_type: Option<String>,
        filter_hostname: Option<String>,
        filter_path: Option<String>,
        json: bool,
    },
    Debug { commands: DebugCommands },
}

/// Diagnostic subcommands.
#[derive(Clone, Debug)]
pub enum DebugCommands {
    Locale,
    LocaleText { key: String },
}

} // verus!
