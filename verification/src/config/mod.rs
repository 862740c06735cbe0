//! Where the access token comes from.

pub mod storage;

pub use storage::token_from_config;
pub use storage::token_from_env;
pub use storage::Config;
pub use storage::ConfigError;
pub use storage::APP_NAME;
pub use storage::CONFIG_NAME;
pub use storage::ENV_VAR_NAME;
