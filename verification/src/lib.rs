//! Resolution of the canonical filesystem locations an application should
//! use (cache, configuration, data, preferences, runtime, state), either
//! from explicit environment-variable overrides or from the operating
//! system's conventions, published as an immutable snapshot.

pub mod env;
pub mod formats;
pub mod provider;
pub mod resolve;

pub use env::Env;
pub use env::EnvReadings;
pub use env::EnvVarLookup;
pub use env::EnvVarNotUnicodeError;
pub use formats::Ini;
pub use formats::Json;
pub use formats::Json5;
pub use formats::Ron;
pub use formats::Toml;
pub use formats::Yaml;
pub use provider::AlreadyInitializedError;
pub use provider::LocationProvider;
pub use provider::MemoizedPath;
pub use resolve::EnvParity;
pub use resolve::HomeDirNotFoundError;
pub use resolve::InitializeError;
pub use resolve::PlatformDirs;
pub use resolve::ProjectDirsOrEnv;
