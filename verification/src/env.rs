//! The environment side of location resolution: one optional path per
//! directory kind, read from variables named `<PREFIX><SUFFIX>`.

use vstd::prelude::*;
use vstd::string::StringExecFns;

verus! {

/// What looking one environment variable up yielded: a value that decoded
/// into text, no value at all, or a value that is not valid unicode (kept
/// here only as its lossy rendering, for error reporting).
pub enum EnvVarLookup {
    Present(String),
    Absent,
    NotUnicode(String),
}

impl EnvVarLookup {
    /// The lookup found a value that cannot be decoded as unicode.
    pub open spec fn is_not_unicode(&self) -> bool {
        self matches EnvVarLookup::NotUnicode(_)
    }

    /// The decoded value, where the lookup found one.
    pub open spec fn ok_view(&self) -> Option<Seq<char>> {
        match self {
            EnvVarLookup::Present(s) => Some(s@),
            _ => None,
        }
    }

    /// The lossy rendering of an undecodable value; empty otherwise.
    pub open spec fn raw_view(&self) -> Seq<char> {
        match self {
            EnvVarLookup::NotUnicode(s) => s@,
            _ => Seq::empty(),
        }
    }
}

/// An environment variable is set but does not hold valid unicode data.
/// `name` is the full variable name; `value` is the lossy rendering of the
/// raw value.
pub struct EnvVarNotUnicodeError {
    pub name: String,
    pub value: String,
}

impl EnvVarNotUnicodeError {
    /// The error rendered as text.
    pub fn message(&self) -> (r: String)
        ensures
            r@ == "the environment variable '"@ + self.name@
                + "' does not contain valid unicode data"@,
    {
        String::from_str("the environment variable '")
            .concat(self.name.as_str())
            .concat("' does not contain valid unicode data")
    }
}

/// The raw outcome of looking up all nine location variables, in the order
/// the resolver inspects them.
pub struct EnvReadings {
    pub cache_dir: EnvVarLookup,
    pub config_dir: EnvVarLookup,
    pub config_local_dir: EnvVarLookup,
    pub data_dir: EnvVarLookup,
    pub data_local_dir: EnvVarLookup,
    pub preference_dir: EnvVarLookup,
    pub project_path: EnvVarLookup,
    pub runtime_dir: EnvVarLookup,
    pub state_dir: EnvVarLookup,
}

impl EnvReadings {
    /// Some set variable failed unicode decoding.
    pub open spec fn has_invalid(&self) -> bool {
        ||| self.cache_dir.is_not_unicode()
        ||| self.config_dir.is_not_unicode()
        ||| self.config_local_dir.is_not_unicode()
        ||| self.data_dir.is_not_unicode()
        ||| self.data_local_dir.is_not_unicode()
        ||| self.preference_dir.is_not_unicode()
        ||| self.project_path.is_not_unicode()
        ||| self.runtime_dir.is_not_unicode()
        ||| self.state_dir.is_not_unicode()
    }

    /// The name suffix of the first variable, in inspection order, whose
    /// value failed unicode decoding.
    pub open spec fn first_invalid_suffix(&self) -> Seq<char> {
        if self.cache_dir.is_not_unicode() {
            "_CACHE_DIR"@
        } else if self.config_dir.is_not_unicode() {
            "_CONFIG_DIR"@
        } else if self.config_local_dir.is_not_unicode() {
            "_CONFIG_LOCAL_DIR"@
        } else if self.data_dir.is_not_unicode() {
            "_DATA_DIR"@
        } else if self.data_local_dir.is_not_unicode() {
            "_DATA_LOCAL_DIR"@
        } else if self.preference_dir.is_not_unicode() {
            "_PREFERENCE_DIR"@
        } else if self.project_path.is_not_unicode() {
            "_PROJECT_PATH"@
        } else if self.runtime_dir.is_not_unicode() {
            "_RUNTIME_DIR"@
        } else {
            "_STATE_DIR"@
        }
    }

    /// The lossy raw value of that same first failing variable.
    pub open spec fn first_invalid_raw(&self) -> Seq<char> {
        if self.cache_dir.is_not_unicode() {
            self.cache_dir.raw_view()
        } else if self.config_dir.is_not_unicode() {
            self.config_dir.raw_view()
        } else if self.config_local_dir.is_not_unicode() {
            self.config_local_dir.raw_view()
        } else if self.data_dir.is_not_unicode() {
            self.data_dir.raw_view()
        } else if self.data_local_dir.is_not_unicode() {
            self.data_local_dir.raw_view()
        } else if self.preference_dir.is_not_unicode() {
            self.preference_dir.raw_view()
        } else if self.project_path.is_not_unicode() {
            self.project_path.raw_view()
        } else if self.runtime_dir.is_not_unicode() {
            self.runtime_dir.raw_view()
        } else {
            self.state_dir.raw_view()
        }
    }

    /// The snapshot the readings decode to when none of them is invalid.
    pub open spec fn decoded(&self) -> EnvView {
        EnvView {
            cache_dir: self.cache_dir.ok_view(),
            config_dir: self.config_dir.ok_view(),
            config_local_dir: self.config_local_dir.ok_view(),
            data_dir: self.data_dir.ok_view(),
            data_local_dir: self.data_local_dir.ok_view(),
            preference_dir: self.preference_dir.ok_view(),
            project_path: self.project_path.ok_view(),
            runtime_dir: self.runtime_dir.ok_view(),
            state_dir: self.state_dir.ok_view(),
        }
    }
}

/// The mathematical image of an environment snapshot: one optional
/// character sequence per directory kind.
pub struct EnvView {
    pub cache_dir: Option<Seq<char>>,
    pub config_dir: Option<Seq<char>>,
    pub config_local_dir: Option<Seq<char>>,
    pub data_dir: Option<Seq<char>>,
    pub data_local_dir: Option<Seq<char>>,
    pub preference_dir: Option<Seq<char>>,
    pub project_path: Option<Seq<char>>,
    pub runtime_dir: Option<Seq<char>>,
    pub state_dir: Option<Seq<char>>,
}

/// The view of one optional path.
pub open spec fn opt_path_view(o: Option<String>) -> Option<Seq<char>> {
    match o {
        Some(s) => Some(s@),
        None => None,
    }
}

/// The environment snapshot: for each directory kind, the override the
/// environment supplies, if any.
pub struct Env {
    pub cache_dir: Option<String>,
    pub config_dir: Option<String>,
    pub config_local_dir: Option<String>,
    pub data_dir: Option<String>,
    pub data_local_dir: Option<String>,
    pub preference_dir: Option<String>,
    pub project_path: Option<String>,
    pub runtime_dir: Option<String>,
    pub state_dir: Option<String>,
}

impl View for Env {
    type V = EnvView;

    open spec fn view(&self) -> EnvView {
        EnvView {
            cache_dir: opt_path_view(self.cache_dir),
            config_dir: opt_path_view(self.config_dir),
            config_local_dir: opt_path_view(self.config_local_dir),
            data_dir: opt_path_view(self.data_dir),
            data_local_dir: opt_path_view(self.data_local_dir),
            preference_dir: opt_path_view(self.preference_dir),
            project_path: opt_path_view(self.project_path),
            runtime_dir: opt_path_view(self.runtime_dir),
            state_dir: opt_path_view(self.state_dir),
        }
    }
}

/// Turn one lookup outcome into the snapshot entry for its kind, or fail
/// with the full variable name `prefix + suffix` on an undecodable value.
fn resolve_lookup(prefix: &str, suffix: &str, lookup: EnvVarLookup) -> (r: Result<
    Option<String>,
    EnvVarNotUnicodeError,
>)
    ensures
        lookup.is_not_unicode() <==> r is Err,
        r matches Ok(o) ==> opt_path_view(o) == lookup.ok_view(),
        r matches Err(e) ==> e.name@ == prefix@ + suffix@ && e.value@ == lookup.raw_view(),
{
    match lookup {
        EnvVarLookup::Present(s) => Ok(Some(s)),
        EnvVarLookup::Absent => Ok(None),
        EnvVarLookup::NotUnicode(raw) => Err(
            EnvVarNotUnicodeError { name: String::from_str(prefix).concat(suffix), value: raw },
        ),
    }
}

impl Env {
    /// Decode the nine lookups into an environment snapshot. An absent
    /// variable leaves its kind unset; a set, decodable variable fills it;
    /// the first undecodable variable, in inspection order, aborts the whole
    /// resolution with an error naming exactly that variable (fail fast —
    /// later variables are not inspected).
    pub fn new(env_prefix: &str, readings: EnvReadings) -> (r: Result<
        Self,
        EnvVarNotUnicodeError,
    >)
        ensures
            r is Ok <==> !readings.has_invalid(),
            r matches Ok(env) ==> env@ == readings.decoded(),
            r matches Err(e) ==> e.name@ == env_prefix@ + readings.first_invalid_suffix()
                && e.value@ == readings.first_invalid_raw(),
    {
        let cache_dir = match resolve_lookup(env_prefix, "_CACHE_DIR", readings.cache_dir) {
            Ok(v) => v,
            Err(e) => return Err(e),
        };
        let config_dir = match resolve_lookup(env_prefix, "_CONFIG_DIR", readings.config_dir) {
            Ok(v) => v,
            Err(e) => return Err(e),
        };
        let config_local_dir = match resolve_lookup(
            env_prefix,
            "_CONFIG_LOCAL_DIR",
            readings.config_local_dir,
        ) {
            Ok(v) => v,
            Err(e) => return Err(e),
        };
        let data_dir = match resolve_lookup(env_prefix, "_DATA_DIR", readings.data_dir) {
            Ok(v) => v,
            Err(e) => return Err(e),
        };
        let data_local_dir = match resolve_lookup(
            env_prefix,
            "_DATA_LOCAL_DIR",
            readings.data_local_dir,
        ) {
            Ok(v) => v,
            Err(e) => return Err(e),
        };
        let preference_dir = match resolve_lookup(
            env_prefix,
            "_PREFERENCE_DIR",
            readings.preference_dir,
        ) {
            Ok(v) => v,
            Err(e) => return Err(e),
        };
        let project_path = match resolve_lookup(env_prefix, "_PROJECT_PATH", readings.project_path) {
            Ok(v) => v,
            Err(e) => return Err(e),
        };
        let runtime_dir = match resolve_lookup(env_prefix, "_RUNTIME_DIR", readings.runtime_dir) {
            Ok(v) => v,
            Err(e) => return Err(e),
        };
        let state_dir = match resolve_lookup(env_prefix, "_STATE_DIR", readings.state_dir) {
            Ok(v) => v,
            Err(e) => return Err(e),
        };
        Ok(
            Env {
                cache_dir,
                config_dir,
                config_local_dir,
                data_dir,
                data_local_dir,
                preference_dir,
                project_path,
                runtime_dir,
                state_dir,
            },
        )
    }
}

} // verus!
