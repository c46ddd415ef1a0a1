use vstd::prelude::*;

verus! {

/// Where the index API listens.
#[derive(Debug)]
pub struct GrpcConfig {
    pub endpoint: String,
}

/// Where the metrics are exposed.
#[derive(Debug)]
pub struct MetricsConfig {
    pub endpoint: String,
}

/// The settings of one server.
#[derive(Debug)]
pub struct ApplicationConfig {
    /// Directory of the indices and their configurations.
    pub data_path: String,
    /// Whether the server logs to its console and not to files.
    pub debug: bool,
    pub grpc: GrpcConfig,
    /// Directory of the log files.
    pub log_path: String,
    pub metrics: MetricsConfig,
}

/// Where the server's log goes.
#[derive(Debug)]
pub enum LoggingTarget {
    /// To the console.
    Console,
    /// To files in the directory of this path.
    File(String),
}

impl ApplicationConfig {
    /// A server in debug mode logs to the console, any other to files under
    /// its log path.
    pub fn logging_target(&self) -> (target: LoggingTarget)
        ensures
            target == if self.debug {
                LoggingTarget::Console
            } else {
                LoggingTarget::File(self.log_path)
            },
    {
        if self.debug {
            LoggingTarget::Console
        } else {
            LoggingTarget::File(self.log_path.clone())
        }
    }
}

/// Settings together with the file that they are kept in, if any.
#[derive(Debug)]
pub struct ApplicationConfigHolder {
    config: ApplicationConfig,
    config_filepath: Option<String>,
}

impl ApplicationConfigHolder {
    pub closed spec fn spec_config(&self) -> ApplicationConfig {
        self.config
    }

    pub closed spec fn spec_config_filepath(&self) -> Option<String> {
        self.config_filepath
    }

    /// Holds settings that live in memory only.
    pub fn from_config(config: ApplicationConfig) -> (holder: ApplicationConfigHolder)
        ensures
            holder.spec_config() == config,
            holder.spec_config_filepath() is None,
    {
        ApplicationConfigHolder { config, config_filepath: None }
    }

    /// Holds settings that were read from, or are to be written to, the
    /// file at `config_filepath`.
    pub fn with_filepath(config: ApplicationConfig, config_filepath: String) -> (holder:
        ApplicationConfigHolder)
        ensures
            holder.spec_config() == config,
            holder.spec_config_filepath() == Some(config_filepath),
    {
        ApplicationConfigHolder { config, config_filepath: Some(config_filepath) }
    }

    pub fn read(&self) -> (config: &ApplicationConfig)
        ensures
            *config == self.spec_config(),
    {
        &self.config
    }

    pub fn config_filepath(&self) -> (config_filepath: &Option<String>)
        ensures
            *config_filepath == self.spec_config_filepath(),
    {
        &self.config_filepath
    }
}

} // verus!
