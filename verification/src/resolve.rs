//! The resolution core: classify an environment snapshot as complete or
//! not, consult the platform's conventions only when it is not, and merge
//! the two into the one snapshot that is ever published.

use vstd::prelude::*;
use crate::env::{Env, EnvReadings, EnvView, EnvVarNotUnicodeError, opt_path_view};
use vstd::string::StringExecFns;

verus! {

/// The mathematical image of a fully resolved snapshot: every mandatory
/// kind carries a path, the two optional kinds may be absent.
pub struct ResolvedView {
    pub cache_dir: Seq<char>,
    pub config_dir: Seq<char>,
    pub config_local_dir: Seq<char>,
    pub data_dir: Seq<char>,
    pub data_local_dir: Seq<char>,
    pub preference_dir: Seq<char>,
    pub project_path: Seq<char>,
    pub runtime_dir: Option<Seq<char>>,
    pub state_dir: Option<Seq<char>>,
}

impl EnvView {
    /// The environment alone settles every mandatory kind, so platform
    /// detection may be bypassed. The two optional kinds play no part.
    pub open spec fn is_complete(&self) -> bool {
        &&& self.cache_dir is Some
        &&& self.config_dir is Some
        &&& self.config_local_dir is Some
        &&& self.data_dir is Some
        &&& self.data_local_dir is Some
        &&& self.preference_dir is Some
        &&& self.project_path is Some
    }

    /// The resolved snapshot a complete environment turns into: all nine
    /// entries carried over verbatim, whatever the two optional ones hold.
    pub open spec fn completed(&self) -> ResolvedView {
        ResolvedView {
            cache_dir: self.cache_dir->Some_0,
            config_dir: self.config_dir->Some_0,
            config_local_dir: self.config_local_dir->Some_0,
            data_dir: self.data_dir->Some_0,
            data_local_dir: self.data_local_dir->Some_0,
            preference_dir: self.preference_dir->Some_0,
            project_path: self.project_path->Some_0,
            runtime_dir: self.runtime_dir,
            state_dir: self.state_dir,
        }
    }

    /// No entry is set at all.
    pub open spec fn is_empty(&self) -> bool {
        &&& self.cache_dir is None
        &&& self.config_dir is None
        &&& self.config_local_dir is None
        &&& self.data_dir is None
        &&& self.data_local_dir is None
        &&& self.preference_dir is None
        &&& self.project_path is None
        &&& self.runtime_dir is None
        &&& self.state_dir is None
    }
}

/// The mathematical image of the platform's conventional directories:
/// the seven mandatory kinds always present, the two optional kinds
/// present only where the operating system has such a convention.
pub struct PlatformView {
    pub cache_dir: Seq<char>,
    pub config_dir: Seq<char>,
    pub config_local_dir: Seq<char>,
    pub data_dir: Seq<char>,
    pub data_local_dir: Seq<char>,
    pub preference_dir: Seq<char>,
    pub project_path: Seq<char>,
    pub runtime_dir: Option<Seq<char>>,
    pub state_dir: Option<Seq<char>>,
}

/// The per-field merge of an (incomplete) environment snapshot with the
/// platform's directories: every mandatory kind prefers the environment
/// value and falls back to the platform's; every optional kind prefers the
/// environment value, then the platform's, and is otherwise absent.
pub open spec fn merged(env: EnvView, platform: PlatformView) -> ResolvedView {
    ResolvedView {
        cache_dir: match env.cache_dir {
            Some(p) => p,
            None => platform.cache_dir,
        },
        config_dir: match env.config_dir {
            Some(p) => p,
            None => platform.config_dir,
        },
        config_local_dir: match env.config_local_dir {
            Some(p) => p,
            None => platform.config_local_dir,
        },
        data_dir: match env.data_dir {
            Some(p) => p,
            None => platform.data_dir,
        },
        data_local_dir: match env.data_local_dir {
            Some(p) => p,
            None => platform.data_local_dir,
        },
        preference_dir: match env.preference_dir {
            Some(p) => p,
            None => platform.preference_dir,
        },
        project_path: match env.project_path {
            Some(p) => p,
            None => platform.project_path,
        },
        runtime_dir: match env.runtime_dir {
            Some(p) => Some(p),
            None => platform.runtime_dir,
        },
        state_dir: match env.state_dir {
            Some(p) => Some(p),
            None => platform.state_dir,
        },
    }
}

/// Every override the environment supplies appears verbatim in the
/// resolved snapshot.
pub open spec fn overrides_honored(env: EnvView, r: ResolvedView) -> bool {
    &&& (env.cache_dir matches Some(p) ==> r.cache_dir == p)
    &&& (env.config_dir matches Some(p) ==> r.config_dir == p)
    &&& (env.config_local_dir matches Some(p) ==> r.config_local_dir == p)
    &&& (env.data_dir matches Some(p) ==> r.data_dir == p)
    &&& (env.data_local_dir matches Some(p) ==> r.data_local_dir == p)
    &&& (env.preference_dir matches Some(p) ==> r.preference_dir == p)
    &&& (env.project_path matches Some(p) ==> r.project_path == p)
    &&& (env.runtime_dir matches Some(p) ==> r.runtime_dir == Some(p))
    &&& (env.state_dir matches Some(p) ==> r.state_dir == Some(p))
}

/// Law: whatever the platform reports, the merge honors every environment
/// override, mandatory or optional.
pub proof fn lemma_merge_honors_overrides(env: EnvView, platform: PlatformView)
    ensures
        overrides_honored(env, merged(env, platform)),
{
}

/// Law: with no environment overrides at all, the merge yields exactly the
/// platform's directories — every mandatory kind equals the platform
/// default and every optional kind equals the platform's optional entry.
pub proof fn lemma_empty_env_merges_to_platform(env: EnvView, platform: PlatformView)
    requires
        env.is_empty(),
    ensures
        merged(env, platform).cache_dir == platform.cache_dir,
        merged(env, platform).config_dir == platform.config_dir,
        merged(env, platform).config_local_dir == platform.config_local_dir,
        merged(env, platform).data_dir == platform.data_dir,
        merged(env, platform).data_local_dir == platform.data_local_dir,
        merged(env, platform).preference_dir == platform.preference_dir,
        merged(env, platform).project_path == platform.project_path,
        merged(env, platform).runtime_dir == platform.runtime_dir,
        merged(env, platform).state_dir == platform.state_dir,
{
}

/// An environment snapshot whose seven mandatory entries are all set: the
/// witness that platform detection may be skipped.
pub struct EnvParity {
    pub cache_dir: String,
    pub config_dir: String,
    pub config_local_dir: String,
    pub data_dir: String,
    pub data_local_dir: String,
    pub preference_dir: String,
    pub project_path: String,
    pub runtime_dir: Option<String>,
    pub state_dir: Option<String>,
}

impl View for EnvParity {
    type V = ResolvedView;

    open spec fn view(&self) -> ResolvedView {
        ResolvedView {
            cache_dir: self.cache_dir@,
            config_dir: self.config_dir@,
            config_local_dir: self.config_local_dir@,
            data_dir: self.data_dir@,
            data_local_dir: self.data_local_dir@,
            preference_dir: self.preference_dir@,
            project_path: self.project_path@,
            runtime_dir: opt_path_view(self.runtime_dir),
            state_dir: opt_path_view(self.state_dir),
        }
    }
}

impl Env {
    /// Classify this snapshot: if every mandatory entry is set, move all
    /// nine entries out into an `EnvParity` (leaving this snapshot empty);
    /// otherwise leave the snapshot untouched and yield nothing.
    pub fn _parity(&mut self) -> (r: Option<EnvParity>)
        ensures
            r is Some <==> old(self)@.is_complete(),
            r matches Some(p) ==> p@ == old(self)@.completed() && final(self)@.is_empty(),
            r is None ==> *final(self) == *old(self),
    {
        if self.cache_dir.is_none() || self.config_dir.is_none()
            || self.config_local_dir.is_none() || self.data_dir.is_none()
            || self.data_local_dir.is_none() || self.preference_dir.is_none()
            || self.project_path.is_none() {
            return None;
        }
        let cache_dir = self.cache_dir.take().unwrap();
        let config_dir = self.config_dir.take().unwrap();
        let config_local_dir = self.config_local_dir.take().unwrap();
        let data_dir = self.data_dir.take().unwrap();
        let data_local_dir = self.data_local_dir.take().unwrap();
        let preference_dir = self.preference_dir.take().unwrap();
        let project_path = self.project_path.take().unwrap();
        Some(
            EnvParity {
                cache_dir,
                config_dir,
                config_local_dir,
                data_dir,
                data_local_dir,
                preference_dir,
                project_path,
                runtime_dir: self.runtime_dir.take(),
                state_dir: self.state_dir.take(),
            },
        )
    }

    /// The classification as a consuming step: a complete snapshot becomes
    /// an `EnvParity`, an incomplete one is handed back unchanged for the
    /// hybrid merge.
    pub fn parity(self) -> (r: Result<EnvParity, Env>)
        ensures
            self@.is_complete() ==> (r matches Ok(p) && p@ == self@.completed()),
            !self@.is_complete() ==> (r matches Err(e) && e == self),
    {
        let mut env = self;
        match env._parity() {
            Some(parity) => Ok(parity),
            None => Err(env),
        }
    }
}

/// The platform's conventional directories for one application identity.
pub struct PlatformDirs {
    pub cache_dir: String,
    pub config_dir: String,
    pub config_local_dir: String,
    pub data_dir: String,
    pub data_local_dir: String,
    pub preference_dir: String,
    pub project_path: String,
    pub runtime_dir: Option<String>,
    pub state_dir: Option<String>,
}

impl View for PlatformDirs {
    type V = PlatformView;

    open spec fn view(&self) -> PlatformView {
        PlatformView {
            cache_dir: self.cache_dir@,
            config_dir: self.config_dir@,
            config_local_dir: self.config_local_dir@,
            data_dir: self.data_dir@,
            data_local_dir: self.data_local_dir@,
            preference_dir: self.preference_dir@,
            project_path: self.project_path@,
            runtime_dir: opt_path_view(self.runtime_dir),
            state_dir: opt_path_view(self.state_dir),
        }
    }
}

/// Relies on directories::ProjectDirs::from and its accessors: the result
/// is Some exactly when a home directory could be determined, and then
/// carries the operating system's conventional directories for this
/// application under the fixed organization. The paths depend on the
/// machine's state, so nothing is promised of their values.
#[verifier::external_body]
fn platform_dirs(app_name: &str) -> (r: Option<PlatformDirs>) {
    directories::ProjectDirs::from("", "ALinuxPerson", app_name).map(|d| PlatformDirs {
        cache_dir: d.cache_dir().to_string_lossy().into_owned(),
        config_dir: d.config_dir().to_string_lossy().into_owned(),
        config_local_dir: d.config_local_dir().to_string_lossy().into_owned(),
        data_dir: d.data_dir().to_string_lossy().into_owned(),
        data_local_dir: d.data_local_dir().to_string_lossy().into_owned(),
        preference_dir: d.preference_dir().to_string_lossy().into_owned(),
        project_path: d.project_path().to_string_lossy().into_owned(),
        runtime_dir: d.runtime_dir().map(|p| p.to_string_lossy().into_owned()),
        state_dir: d.state_dir().map(|p| p.to_string_lossy().into_owned()),
    })
}

/// The home directory could not be found, so platform conventions cannot
/// be resolved.
#[derive(Debug)]
#[non_exhaustive]
pub struct HomeDirNotFoundError;

impl HomeDirNotFoundError {
    /// The error rendered as text.
    pub fn message(&self) -> (r: String)
        ensures
            r@ == "the home directory could not be found"@,
    {
        String::from_str("the home directory could not be found")
    }
}

/// Why one initialization attempt failed: the platform resolver could not
/// establish a home directory, or a set environment variable failed
/// unicode decoding.
pub enum InitializeError {
    ProjectDirs(HomeDirNotFoundError),
    Env(EnvVarNotUnicodeError),
}

impl InitializeError {
    /// The error rendered as text.
    pub fn message(&self) -> (r: String)
        ensures
            self matches InitializeError::ProjectDirs(_) ==> r@
                == "project dirs provider failed to initialize"@,
            self matches InitializeError::Env(_) ==> r@
                == "env provider failed to initialize"@,
    {
        match self {
            InitializeError::ProjectDirs(_) => String::from_str(
                "project dirs provider failed to initialize",
            ),
            InitializeError::Env(_) => String::from_str("env provider failed to initialize"),
        }
    }
}

impl From<HomeDirNotFoundError> for InitializeError {
    fn from(value: HomeDirNotFoundError) -> Self {
        InitializeError::ProjectDirs(value)
    }
}

impl vstd::std_specs::convert::FromSpecImpl<HomeDirNotFoundError> for InitializeError {
    open spec fn obeys_from_spec() -> bool {
        true
    }

    open spec fn from_spec(t: HomeDirNotFoundError) -> Self {
        InitializeError::ProjectDirs(t)
    }
}

impl From<EnvVarNotUnicodeError> for InitializeError {
    fn from(value: EnvVarNotUnicodeError) -> Self {
        InitializeError::Env(value)
    }
}

impl vstd::std_specs::convert::FromSpecImpl<EnvVarNotUnicodeError> for InitializeError {
    open spec fn obeys_from_spec() -> bool {
        true
    }

    open spec fn from_spec(t: EnvVarNotUnicodeError) -> Self {
        InitializeError::Env(t)
    }
}

/// The one snapshot that is ever published: every mandatory directory kind
/// resolved to a path, the two optional kinds possibly absent.
pub struct ProjectDirsOrEnv {
    pub cache_dir: String,
    pub config_dir: String,
    pub config_local_dir: String,
    pub data_dir: String,
    pub data_local_dir: String,
    pub preference_dir: String,
    pub project_path: String,
    pub runtime_dir: Option<String>,
    pub state_dir: Option<String>,
}

impl View for ProjectDirsOrEnv {
    type V = ResolvedView;

    open spec fn view(&self) -> ResolvedView {
        ResolvedView {
            cache_dir: self.cache_dir@,
            config_dir: self.config_dir@,
            config_local_dir: self.config_local_dir@,
            data_dir: self.data_dir@,
            data_local_dir: self.data_local_dir@,
            preference_dir: self.preference_dir@,
            project_path: self.project_path@,
            runtime_dir: opt_path_view(self.runtime_dir),
            state_dir: opt_path_view(self.state_dir),
        }
    }
}

impl From<EnvParity> for ProjectDirsOrEnv {
    fn from(value: EnvParity) -> Self {
        ProjectDirsOrEnv {
            cache_dir: value.cache_dir,
            config_dir: value.config_dir,
            config_local_dir: value.config_local_dir,
            data_dir: value.data_dir,
            data_local_dir: value.data_local_dir,
            preference_dir: value.preference_dir,
            project_path: value.project_path,
            runtime_dir: value.runtime_dir,
            state_dir: value.state_dir,
        }
    }
}

impl vstd::std_specs::convert::FromSpecImpl<EnvParity> for ProjectDirsOrEnv {
    open spec fn obeys_from_spec() -> bool {
        true
    }

    open spec fn from_spec(t: EnvParity) -> Self {
        ProjectDirsOrEnv {
            cache_dir: t.cache_dir,
            config_dir: t.config_dir,
            config_local_dir: t.config_local_dir,
            data_dir: t.data_dir,
            data_local_dir: t.data_local_dir,
            preference_dir: t.preference_dir,
            project_path: t.project_path,
            runtime_dir: t.runtime_dir,
            state_dir: t.state_dir,
        }
    }
}

impl ProjectDirsOrEnv {
    /// The hybrid merge: combine an environment snapshot with the
    /// platform's directories, every kind preferring the environment value
    /// where it is set.
    pub fn from_parts(env: Env, platform: PlatformDirs) -> (r: Self)
        ensures
            r@ == merged(env@, platform@),
    {
        let r = ProjectDirsOrEnv {
            cache_dir: match env.cache_dir {
                Some(p) => p,
                None => platform.cache_dir,
            },
            config_dir: match env.config_dir {
                Some(p) => p,
                None => platform.config_dir,
            },
            config_local_dir: match env.config_local_dir {
                Some(p) => p,
                None => platform.config_local_dir,
            },
            data_dir: match env.data_dir {
                Some(p) => p,
                None => platform.data_dir,
            },
            data_local_dir: match env.data_local_dir {
                Some(p) => p,
                None => platform.data_local_dir,
            },
            preference_dir: match env.preference_dir {
                Some(p) => p,
                None => platform.preference_dir,
            },
            project_path: match env.project_path {
                Some(p) => p,
                None => platform.project_path,
            },
            runtime_dir: match env.runtime_dir {
                Some(p) => Some(p),
                None => platform.runtime_dir,
            },
            state_dir: match env.state_dir {
                Some(p) => Some(p),
                None => platform.state_dir,
            },
        };
        r
    }

    /// Resolve a snapshot for this application: decode the environment
    /// readings (failing fast on an undecodable variable), and either
    /// consume a complete environment verbatim — platform conventions are
    /// then never consulted — or merge the incomplete environment with the
    /// platform's directories, failing when no home directory exists.
    pub fn new(app_name: &str, env_prefix: &str, readings: EnvReadings) -> (r: Result<
        Self,
        InitializeError,
    >)
        ensures
            readings.has_invalid() ==> (r matches Err(e)
                && e matches InitializeError::Env(u)
                && u.name@ == env_prefix@ + readings.first_invalid_suffix()
                && u.value@ == readings.first_invalid_raw()),
            !readings.has_invalid() && readings.decoded().is_complete() ==> (r matches Ok(s)
                && s@ == readings.decoded().completed()),
            !readings.has_invalid() && !readings.decoded().is_complete() ==> match r {
                Ok(s) => exists|pd: PlatformView| s@ == merged(readings.decoded(), pd),
                Err(e) => e matches InitializeError::ProjectDirs(_),
            },
            r matches Ok(s) ==> overrides_honored(readings.decoded(), s@),
    {
        let env = match Env::new(env_prefix, readings) {
            Ok(env) => env,
            Err(e) => return Err(InitializeError::Env(e)),
        };
        match env.parity() {
            Ok(parity) => Ok(ProjectDirsOrEnv::from(parity)),
            Err(env) => match platform_dirs(app_name) {
                Some(platform) => {
                    let ghost pd = platform@;
                    let merged_dirs = ProjectDirsOrEnv::from_parts(env, platform);
                    proof {
                        assert(merged_dirs@ == merged(readings.decoded(), pd));
                    }
                    Ok(merged_dirs)
                },
                None => Err(InitializeError::ProjectDirs(HomeDirNotFoundError)),
            },
        }
    }

    /// The resolved cache directory.
    pub fn cache_dir(&self) -> (r: &str)
        ensures
            r@ == self@.cache_dir,
    {
        self.cache_dir.as_str()
    }

    /// The resolved configuration directory.
    pub fn config_dir(&self) -> (r: &str)
        ensures
            r@ == self@.config_dir,
    {
        self.config_dir.as_str()
    }

    /// The resolved machine-local configuration directory.
    pub fn config_local_dir(&self) -> (r: &str)
        ensures
            r@ == self@.config_local_dir,
    {
        self.config_local_dir.as_str()
    }

    /// The resolved data directory.
    pub fn data_dir(&self) -> (r: &str)
        ensures
            r@ == self@.data_dir,
    {
        self.data_dir.as_str()
    }

    /// The resolved machine-local data directory.
    pub fn data_local_dir(&self) -> (r: &str)
        ensures
            r@ == self@.data_local_dir,
    {
        self.data_local_dir.as_str()
    }

    /// The resolved preferences directory.
    pub fn preference_dir(&self) -> (r: &str)
        ensures
            r@ == self@.preference_dir,
    {
        self.preference_dir.as_str()
    }

    /// The resolved project path.
    pub fn project_path(&self) -> (r: &str)
        ensures
            r@ == self@.project_path,
    {
        self.project_path.as_str()
    }

    /// The resolved runtime directory, where one exists.
    pub fn runtime_dir(&self) -> (r: Option<&str>)
        ensures
            r is Some <==> self@.runtime_dir is Some,
            r matches Some(p) ==> Some(p@) == self@.runtime_dir,
    {
        match &self.runtime_dir {
            Some(p) => Some(p.as_str()),
            None => None,
        }
    }

    /// The resolved state directory, where one exists.
    pub fn state_dir(&self) -> (r: Option<&str>)
        ensures
            r is Some <==> self@.state_dir is Some,
            r matches Some(p) ==> Some(p@) == self@.state_dir,
    {
        match &self.state_dir {
            Some(p) => Some(p.as_str()),
            None => None,
        }
    }
}

} // verus!
