//! Build configuration: the four required parameters, their validation into
//! an invocation plan, and the fixed location of the bundled source tree.

use vstd::prelude::*;

use crate::paths::join_path;
use crate::paths::join_path_str;

verus! {

/// A builder holding the four parameters of one native build invocation.
/// All four must be populated, by [`Build::from_env`] or the setters,
/// before [`Build::plan`] yields a plan.
pub struct Build {
    host: Option<String>,
    target: Option<String>,
    out_dir: Option<String>,
    profile: Option<String>,
}

/// The mathematical value of a [`Build`]: its four optional fields.
pub struct BuildView {
    pub host: Option<Seq<char>>,
    pub target: Option<Seq<char>>,
    pub out_dir: Option<Seq<char>>,
    pub profile: Option<Seq<char>>,
}

impl View for Build {
    type V = BuildView;

    closed spec fn view(&self) -> BuildView {
        BuildView {
            host: self.host.deep_view(),
            target: self.target.deep_view(),
            out_dir: self.out_dir.deep_view(),
            profile: self.profile.deep_view(),
        }
    }
}

/// A fully validated set of build parameters, ready to drive one
/// invocation of the native build tool.
pub struct BuildPlan {
    pub host: String,
    pub target: String,
    pub out_dir: String,
    pub profile: String,
}

/// A configuration error: a required field left unset, or a produced
/// library file whose name carries no extension.
#[derive(Clone, Copy, Debug, PartialEq, Eq, Structural)]
pub enum BuildError {
    MissingHost,
    MissingTarget,
    MissingProfile,
    MissingOutDir,
    UnexpectedArtifactName,
}

/// The configuration with no field populated.
pub open spec fn empty_config() -> BuildView {
    BuildView { host: None, target: None, out_dir: None, profile: None }
}

/// The configuration obtained from one environment snapshot: each field is
/// taken as given, except the output directory, which gets the fixed build
/// subdirectory appended.
pub open spec fn config_from_env(
    host: Option<Seq<char>>,
    target: Option<Seq<char>>,
    out_dir: Option<Seq<char>>,
    profile: Option<Seq<char>>,
) -> BuildView {
    BuildView {
        host: host,
        target: target,
        out_dir: match out_dir {
            Some(base) => Some(join_path(base, "llvm-build"@)),
            None => None,
        },
        profile: profile,
    }
}

/// Whether all four required fields are populated.
pub open spec fn required_fields_set(c: BuildView) -> bool {
    c.host is Some && c.target is Some && c.profile is Some && c.out_dir is Some
}

/// The error reported for a configuration with an unset field, checking
/// host, target, profile and output directory in that order.
pub open spec fn missing_field_error(c: BuildView) -> BuildError {
    if c.host is None {
        BuildError::MissingHost
    } else if c.target is None {
        BuildError::MissingTarget
    } else if c.profile is None {
        BuildError::MissingProfile
    } else {
        BuildError::MissingOutDir
    }
}

impl Build {
    /// Creates an empty configuration; every field must then be set through
    /// the setters before [`Build::plan`] yields a plan.
    pub fn new() -> (r: Build)
        ensures
            r@ == empty_config(),
    {
        Build { host: None, target: None, out_dir: None, profile: None }
    }

    /// Creates a configuration from a snapshot of the `HOST`, `TARGET`,
    /// `OUT_DIR` and `PROFILE` environment variables, each independently
    /// optional. The output directory, when present, gets the fixed build
    /// subdirectory appended, exactly as [`Build::out_dir`] would.
    pub fn from_env(
        host: Option<String>,
        target: Option<String>,
        out_dir: Option<String>,
        profile: Option<String>,
    ) -> (r: Build)
        ensures
            r@ == config_from_env(
                host.deep_view(),
                target.deep_view(),
                out_dir.deep_view(),
                profile.deep_view(),
            ),
    {
        let out_dir = match out_dir {
            Some(base) => Some(join_path_str(base.as_str(), "llvm-build")),
            None => None,
        };
        Build { host, target, out_dir, profile }
    }

    /// Sets the host triple.
    pub fn host(&mut self, host: &str)
        ensures
            final(self)@ == (BuildView { host: Some(host@), ..old(self)@ }),
    {
        self.host = Some(host.to_owned());
    }

    /// Sets the target triple.
    pub fn target(&mut self, target: &str)
        ensures
            final(self)@ == (BuildView { target: Some(target@), ..old(self)@ }),
    {
        self.target = Some(target.to_owned());
    }

    /// Sets the build profile, e.g. "Release" or "Debug", as understood by
    /// the native build tool.
    pub fn profile(&mut self, profile: &str)
        ensures
            final(self)@ == (BuildView { profile: Some(profile@), ..old(self)@ }),
    {
        self.profile = Some(profile.to_owned());
    }

    /// Sets the output directory from a base path; the effective output
    /// directory is the base path with the fixed build subdirectory
    /// appended.
    pub fn out_dir(&mut self, out_dir: &str)
        ensures
            final(self)@ == (BuildView {
                out_dir: Some(join_path(out_dir@, "llvm-build"@)),
                ..old(self)@
            }),
    {
        self.out_dir = Some(join_path_str(out_dir, "llvm-build"));
    }

    /// Validates the configuration into an invocation plan. Succeeds exactly
    /// when all four required fields are populated; otherwise reports the
    /// first unset field, so that a caller can refuse to spawn the native
    /// build tool at all.
    pub fn plan(&self) -> (r: Result<BuildPlan, BuildError>)
        ensures
            match r {
                Ok(p) => required_fields_set(self@) && p.host@ == self@.host->Some_0
                    && p.target@ == self@.target->Some_0 && p.out_dir@ == self@.out_dir->Some_0
                    && p.profile@ == self@.profile->Some_0,
                Err(e) => !required_fields_set(self@) && e == missing_field_error(self@),
            },
    {
        let host = match &self.host {
            Some(h) => h.clone(),
            None => {
                return Err(BuildError::MissingHost);
            },
        };
        let target = match &self.target {
            Some(t) => t.clone(),
            None => {
                return Err(BuildError::MissingTarget);
            },
        };
        let profile = match &self.profile {
            Some(p) => p.clone(),
            None => {
                return Err(BuildError::MissingProfile);
            },
        };
        let out_dir = match &self.out_dir {
            Some(o) => o.clone(),
            None => {
                return Err(BuildError::MissingOutDir);
            },
        };
        Ok(BuildPlan { host, target, out_dir, profile })
    }
}

/// Two configurations built from the same environment snapshot are
/// identical, field for field.
pub proof fn lemma_config_from_env_deterministic(
    host: Option<Seq<char>>,
    target: Option<Seq<char>>,
    out_dir: Option<Seq<char>>,
    profile: Option<Seq<char>>,
    a: BuildView,
    b: BuildView,
)
    requires
        a == config_from_env(host, target, out_dir, profile),
        b == config_from_env(host, target, out_dir, profile),
    ensures
        a.host == b.host,
        a.target == b.target,
        a.out_dir == b.out_dir,
        a.profile == b.profile,
{
}

impl BuildError {
    /// The diagnostic message for this error, as the calling build script
    /// reports it before aborting.
    pub fn message(&self) -> (r: &'static str)
        ensures
            r@ == error_message(*self),
    {
        match *self {
            BuildError::MissingHost => "HOST not set",
            BuildError::MissingTarget => "TARGET not set",
            BuildError::MissingProfile => "PROFILE not set",
            BuildError::MissingOutDir => "OUT_DIR not set",
            BuildError::UnexpectedArtifactName => "library file name has no extension",
        }
    }
}

/// The diagnostic message belonging to each configuration error.
pub open spec fn error_message(e: BuildError) -> Seq<char> {
    match e {
        BuildError::MissingHost => "HOST not set"@,
        BuildError::MissingTarget => "TARGET not set"@,
        BuildError::MissingProfile => "PROFILE not set"@,
        BuildError::MissingOutDir => "OUT_DIR not set"@,
        BuildError::UnexpectedArtifactName => "library file name has no extension"@,
    }
}

/// The fixed source subtree handed to the native build tool, relative to
/// the directory holding this crate's manifest.
pub fn llvm_source_dir(manifest_dir: &str) -> (r: String)
    ensures
        r@ == join_path(manifest_dir@, "llvm-15.0.7/llvm"@),
{
    join_path_str(manifest_dir, "llvm-15.0.7/llvm")
}

} // verus!
