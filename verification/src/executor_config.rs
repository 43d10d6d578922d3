//! How commands are to be executed: which backends exist and how they are
//! combined.

use vstd::prelude::*;

verus! {

/// Options of the local backend. There are none yet.
#[derive(Debug, Clone, Copy, PartialEq, Eq, Hash, Structural)]
pub struct LocalExecutorOptions {}

/// The use case under which the remote backend accounts a command.
#[derive(Debug, Clone, PartialEq, Eq, Hash)]
pub struct RemoteExecutorUseCase(String);

impl View for RemoteExecutorUseCase {
    type V = Seq<char>;

    closed spec fn view(&self) -> Seq<char> {
        self.0@
    }
}

impl RemoteExecutorUseCase {
    pub fn new(use_case: String) -> (created: RemoteExecutorUseCase)
        ensures
            created@ == use_case@,
    {
        RemoteExecutorUseCase(use_case)
    }

    pub fn as_str(&self) -> (text: &str)
        ensures
            text@ == self@,
    {
        self.0.as_str()
    }

    /// The "buck2-default" use case. This is meant to be used when no use
    /// case is configured. It is not meant as a convenience for places that
    /// need a use case and have none at hand.
    pub fn buck2_default() -> (created: RemoteExecutorUseCase)
        ensures
            created@ == "buck2-default"@,
    {
        RemoteExecutorUseCase::new("buck2-default".to_owned())
    }
}

/// Options of the remote backend.
#[derive(Debug, Clone, PartialEq, Eq, Hash)]
pub struct RemoteExecutorOptions {
    /// Platform properties, as pairs of a name and a value.
    pub re_properties: Vec<(String, String)>,
    pub re_action_key: Option<String>,
    /// The largest total size of input files that the backend accepts.
    pub re_max_input_files_bytes: Option<u64>,
    pub re_use_case: RemoteExecutorUseCase,
}

impl Default for RemoteExecutorOptions {
    fn default() -> (options: RemoteExecutorOptions)
        ensures
            options.re_properties@.len() == 0,
            options.re_action_key is None,
            options.re_max_input_files_bytes is None,
            options.re_use_case@ == "buck2-default"@,
    {
        RemoteExecutorOptions {
            re_properties: Vec::new(),
            re_action_key: None,
            re_max_input_files_bytes: None,
            re_use_case: RemoteExecutorUseCase::new("buck2-default".to_owned()),
        }
    }
}

/// Why no executor could be configured.
#[derive(Debug, Clone, Copy, PartialEq, Eq, Hash, Structural)]
pub enum ExecutorConfigError {
    MissingLocalAndRemote,
}

impl ExecutorConfigError {
    /// A sentence for whoever reads the failure.
    pub fn message(&self) -> (text: &'static str)
        ensures
            text@ == "Action executor config must have at least one of local or remote options"@,
    {
        "Action executor config must have at least one of local or remote options"
    }
}

/// How far the two backends of a hybrid executor are combined.
#[derive(Debug, Clone, Copy, PartialEq, Eq, Hash, Structural)]
pub enum HybridExecutionLevel {
    /// Expose both executors but only run a command on the preferred one.
    Limited,
    /// Expose both executors, and fall back to the other one if the
    /// preferred one gives no successful response. Infrastructure errors
    /// always fall back; a command that ran and failed does so only if
    /// `fallback_on_failure` is set.
    Fallback { fallback_on_failure: bool },
    /// Race both executors. With `low_pass_filter` a race has to be
    /// admitted by the filter before it starts.
    Full { fallback_on_failure: bool, low_pass_filter: bool },
}

/// The backends that a command executor is made of.
#[derive(Debug, Clone, PartialEq, Eq, Hash)]
pub enum CommandExecutorKind {
    Local(LocalExecutorOptions),
    Remote(RemoteExecutorOptions),
    Hybrid { local: LocalExecutorOptions, remote: RemoteExecutorOptions, level: HybridExecutionLevel },
}

impl CommandExecutorKind {
    /// The kind that `new` makes of the options that are there.
    pub open spec fn spec_new(
        local: Option<LocalExecutorOptions>,
        remote: Option<RemoteExecutorOptions>,
        hybrid_level: HybridExecutionLevel,
    ) -> Result<CommandExecutorKind, ExecutorConfigError> {
        match (local, remote) {
            (None, None) => Err(ExecutorConfigError::MissingLocalAndRemote),
            (None, Some(remote)) => Ok(CommandExecutorKind::Remote(remote)),
            (Some(local), None) => Ok(CommandExecutorKind::Local(local)),
            (Some(local), Some(remote)) => Ok(
                CommandExecutorKind::Hybrid { local, remote, level: hybrid_level },
            ),
        }
    }

    /// An executor over the backends whose options are given: hybrid where
    /// both are, an error where neither is.
    pub fn new(
        local: Option<LocalExecutorOptions>,
        remote: Option<RemoteExecutorOptions>,
        hybrid_level: HybridExecutionLevel,
    ) -> (kind: Result<CommandExecutorKind, ExecutorConfigError>)
        ensures
            kind == Self::spec_new(local, remote, hybrid_level),
    {
        match (local, remote) {
            (None, None) => Err(ExecutorConfigError::MissingLocalAndRemote),
            (None, Some(remote)) => Ok(CommandExecutorKind::Remote(remote)),
            (Some(local), None) => Ok(CommandExecutorKind::Local(local)),
            (Some(local), Some(remote)) => Ok(
                CommandExecutorKind::Hybrid { local, remote, level: hybrid_level },
            ),
        }
    }
}

/// Which character separates the components of a path.
#[derive(Debug, Clone, Copy, PartialEq, Eq, Hash, Structural)]
pub enum PathSeparatorKind {
    Unix,
    Windows,
}

/// `std::path::is_separator`. Whether a character separates path
/// components depends on the platform the program was built for, so
/// nothing is claimed of the answer.
#[verifier::external_body]
fn is_separator(c: char) -> bool {
    std::path::is_separator(c)
}

impl PathSeparatorKind {
    /// The kind of a platform on which the backslash does, or does not,
    /// separate path components.
    pub fn from_backslash_separates(backslash_separates: bool) -> (kind: PathSeparatorKind)
        ensures
            kind == if backslash_separates {
                PathSeparatorKind::Windows
            } else {
                PathSeparatorKind::Unix
            },
    {
        if backslash_separates {
            PathSeparatorKind::Windows
        } else {
            PathSeparatorKind::Unix
        }
    }

    /// The kind of the platform that this program runs on.
    pub fn system_default() -> PathSeparatorKind {
        Self::from_backslash_separates(is_separator('\\'))
    }
}

/// Whether the results of local executions are uploaded to the cache.
#[derive(Debug, Clone, Copy, PartialEq, Eq, Hash, Structural)]
pub enum CacheUploadBehavior {
    Enabled { max_bytes: Option<u64> },
    Disabled,
}

impl Default for CacheUploadBehavior {
    fn default() -> (behavior: CacheUploadBehavior)
        ensures
            behavior == CacheUploadBehavior::Disabled,
    {
        CacheUploadBehavior::Disabled
    }
}

/// Everything that configures a command executor.
#[derive(Debug, Clone, PartialEq, Eq, Hash)]
pub struct CommandExecutorConfig {
    pub executor_kind: CommandExecutorKind,
    pub path_separator: PathSeparatorKind,
    pub cache_upload_behavior: CacheUploadBehavior,
}

impl CommandExecutorConfig {
    /// A purely local configuration, for use in tests.
    pub fn testing_local() -> (config: CommandExecutorConfig)
        ensures
            config.executor_kind == CommandExecutorKind::Local(LocalExecutorOptions {  }),
            config.cache_upload_behavior == CacheUploadBehavior::Disabled,
    {
        CommandExecutorConfig {
            executor_kind: CommandExecutorKind::Local(LocalExecutorOptions {  }),
            path_separator: PathSeparatorKind::system_default(),
            cache_upload_behavior: CacheUploadBehavior::Disabled,
        }
    }
}

} // verus!
