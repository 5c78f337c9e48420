use vstd::prelude::*;

use vstd::string::StringExecFns;

use crate::asset::{default_config_text, default_config_text_spec};

verus! {

/// Why no configuration file location could be computed.
#[derive(Debug, PartialEq, Eq)]
pub enum LocateError {
    /// The platform supplies no per-user configuration directory; callers
    /// treat this as "use the defaults".
    MissingConfigDir,
}

/// Where the user-editable configuration lives. Holding a value says
/// nothing about whether a file exists there yet.
#[derive(Debug)]
pub struct ConfigLocation {
    /// The application's own directory under the user configuration
    /// directory.
    pub dir_path: String,
    /// The configuration file inside `dir_path`.
    pub file_path: String,
}

pub open spec fn dir_path_spec(config_dir: Seq<char>) -> Seq<char> {
    config_dir + "/workstyle"@
}

pub open spec fn file_path_spec(config_dir: Seq<char>) -> Seq<char> {
    dir_path_spec(config_dir) + "/config.toml"@
}

pub open spec fn location_spec_holds(loc: ConfigLocation, config_dir: Seq<char>) -> bool {
    loc.dir_path@ == dir_path_spec(config_dir) && loc.file_path@ == file_path_spec(config_dir)
}

/// Computes the deterministic location of the user configuration file from
/// the platform's user configuration directory, handed in as `Some(path)`
/// when the platform supplies one.
pub fn config_file(config_dir: &Option<String>) -> (r: Result<ConfigLocation, LocateError>)
    ensures
        match *config_dir {
            Some(d) => r matches Ok(loc) && location_spec_holds(loc, d@),
            None => r == Err::<ConfigLocation, LocateError>(LocateError::MissingConfigDir),
        },
{
    match config_dir {
        Some(d) => {
            let dir_path = d.clone().concat("/workstyle");
            let file_path = dir_path.clone().concat("/config.toml");
            Ok(ConfigLocation { dir_path, file_path })
        },
        None => Err(LocateError::MissingConfigDir),
    }
}

/// What the locator asks its caller to do to the filesystem: the location,
/// whether the directory must be created first, and the text to seed the
/// file with when the file does not exist yet.
#[derive(Debug)]
pub struct SeedPlan {
    pub location: ConfigLocation,
    pub create_dir: bool,
    pub seed: Option<String>,
}

/// The plan touches the filesystem at all.
pub open spec fn plan_writes(p: SeedPlan) -> bool {
    p.create_dir || p.seed is Some
}

/// The locator's whole contract, as one predicate over the observed state.
pub open spec fn plan_spec_holds(
    p: SeedPlan,
    config_dir: Seq<char>,
    dir_exists: bool,
    file_exists: bool,
) -> bool {
    &&& location_spec_holds(p.location, config_dir)
    &&& p.create_dir == !dir_exists
    &&& (file_exists ==> p.seed is None)
    &&& (!file_exists ==> (p.seed matches Some(t) && t@ == default_config_text_spec()))
}

/// Decides the locator's one-time setup from the observed state: where the
/// file lives, whether its directory must be created, and — only when the
/// file does not exist yet — the default asset's text to seed it with. The
/// caller performs the filesystem actions and reports their failures as
/// its own I/O errors.
pub fn generate_config_file_if_absent(
    config_dir: &Option<String>,
    dir_exists: bool,
    file_exists: bool,
) -> (r: Result<SeedPlan, LocateError>)
    ensures
        match *config_dir {
            Some(d) => r matches Ok(p) && plan_spec_holds(p, d@, dir_exists, file_exists),
            None => r == Err::<SeedPlan, LocateError>(LocateError::MissingConfigDir),
        },
{
    match config_file(config_dir) {
        Ok(location) => {
            let seed = if file_exists {
                None
            } else {
                Some(default_config_text())
            };
            Ok(SeedPlan { location, create_dir: !dir_exists, seed })
        },
        Err(e) => Err(e),
    }
}

/// Law: locating when the file (and so its directory) already exists plans
/// no filesystem writes, and two successive locations name the same file.
pub proof fn lemma_locator_idempotent(d: Seq<char>, p1: SeedPlan, p2: SeedPlan)
    requires
        plan_spec_holds(p1, d, true, true),
        plan_spec_holds(p2, d, true, true),
    ensures
        !plan_writes(p1),
        !plan_writes(p2),
        p1.location.file_path@ == p2.location.file_path@,
{
}

} // verus!
