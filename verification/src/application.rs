use vstd::prelude::*;
use crate::configs::{ApplicationConfig, ApplicationConfigHolder, LoggingTarget};

verus! {

/// One server, as its settings describe it.
#[derive(Debug)]
pub struct Application {
    config: ApplicationConfigHolder,
}

impl Application {
    pub closed spec fn spec_config(&self) -> ApplicationConfigHolder {
        self.config
    }

    pub fn from_config(config: ApplicationConfig) -> (application: Application)
        ensures
            application.spec_config().spec_config() == config,
            application.spec_config().spec_config_filepath() is None,
    {
        Application { config: ApplicationConfigHolder::from_config(config) }
    }

    pub fn from_application_config_holder(config: ApplicationConfigHolder) -> (application:
        Application)
        ensures
            application.spec_config() == config,
    {
        Application { config }
    }

    pub fn config(&self) -> (config: &ApplicationConfigHolder)
        ensures
            *config == self.spec_config(),
    {
        &self.config
    }

    /// Where this server's log goes.
    pub fn logging_target(&self) -> (target: LoggingTarget)
        ensures
            target == if self.spec_config().spec_config().debug {
                LoggingTarget::Console
            } else {
                LoggingTarget::File(self.spec_config().spec_config().log_path)
            },
    {
        self.config.read().logging_target()
    }
}

} // verus!
