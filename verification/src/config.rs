//! The configuration surface and the launch plan. The caller reads the
//! raw settings from wherever it keeps them (its environment); validation
//! and the exact argument and environment lists the process is spawned
//! with are decided here.

use vstd::prelude::*;

verus! {

use crate::text::{dec_rep, u64_to_string};

/// The raw configuration as read by the caller: each setting present or
/// absent. The base URL is the one optional setting; it defaults to the
/// loopback address.
pub struct ConfigInput {
    pub rscript_path: Option<String>,
    pub r_home_dir: Option<String>,
    pub start_shiny_path: Option<String>,
    pub r_lib_path: Option<String>,
    pub shiny_app_path: Option<String>,
    pub shiny_url: Option<String>,
}

/// A required setting was absent. Raised before any attempt begins; never
/// retried.
#[derive(Clone, Copy, Debug, PartialEq, Eq, Structural)]
pub enum ConfigError {
    MissingRscriptPath,
    MissingRHomeDir,
    MissingStartShinyPath,
    MissingRLibPath,
    MissingShinyAppPath,
}

/// A validated configuration: every required setting present, the base
/// URL defaulted if it was absent.
pub struct ShinyConfig {
    pub rscript_path: String,
    pub r_home_dir: String,
    pub start_shiny_path: String,
    pub r_lib_path: String,
    pub shiny_app_path: String,
    pub shiny_url: String,
}

/// Checks the raw configuration: the first absent required setting, in
/// declaration order, is the error; with all five present the result
/// carries them through unchanged and fills in the default base URL.
pub fn validate_config(input: ConfigInput) -> (r: Result<ShinyConfig, ConfigError>)
    ensures
        r is Ok <==> input.rscript_path is Some && input.r_home_dir is Some
            && input.start_shiny_path is Some && input.r_lib_path is Some
            && input.shiny_app_path is Some,
        input.rscript_path is None ==> r == Err::<ShinyConfig, ConfigError>(
            ConfigError::MissingRscriptPath,
        ),
        input.rscript_path is Some && input.r_home_dir is None ==> r == Err::<
            ShinyConfig,
            ConfigError,
        >(ConfigError::MissingRHomeDir),
        input.rscript_path is Some && input.r_home_dir is Some && input.start_shiny_path is None
            ==> r == Err::<ShinyConfig, ConfigError>(ConfigError::MissingStartShinyPath),
        input.rscript_path is Some && input.r_home_dir is Some && input.start_shiny_path is Some
            && input.r_lib_path is None ==> r == Err::<ShinyConfig, ConfigError>(
            ConfigError::MissingRLibPath,
        ),
        input.rscript_path is Some && input.r_home_dir is Some && input.start_shiny_path is Some
            && input.r_lib_path is Some && input.shiny_app_path is None ==> r == Err::<
            ShinyConfig,
            ConfigError,
        >(ConfigError::MissingShinyAppPath),
        r matches Ok(c) ==> {
            &&& c.rscript_path == input.rscript_path->0
            &&& c.r_home_dir == input.r_home_dir->0
            &&& c.start_shiny_path == input.start_shiny_path->0
            &&& c.r_lib_path == input.r_lib_path->0
            &&& c.shiny_app_path == input.shiny_app_path->0
            &&& (input.shiny_url matches Some(u) ==> c.shiny_url == u)
            &&& (input.shiny_url is None ==> c.shiny_url@ == "http://127.0.0.1"@)
        },
{
    let ConfigInput { rscript_path, r_home_dir, start_shiny_path, r_lib_path, shiny_app_path, shiny_url } =
        input;
    let rscript_path = match rscript_path {
        Some(v) => v,
        None => {
            return Err(ConfigError::MissingRscriptPath);
        },
    };
    let r_home_dir = match r_home_dir {
        Some(v) => v,
        None => {
            return Err(ConfigError::MissingRHomeDir);
        },
    };
    let start_shiny_path = match start_shiny_path {
        Some(v) => v,
        None => {
            return Err(ConfigError::MissingStartShinyPath);
        },
    };
    let r_lib_path = match r_lib_path {
        Some(v) => v,
        None => {
            return Err(ConfigError::MissingRLibPath);
        },
    };
    let shiny_app_path = match shiny_app_path {
        Some(v) => v,
        None => {
            return Err(ConfigError::MissingShinyAppPath);
        },
    };
    let shiny_url = match shiny_url {
        Some(v) => v,
        None => String::from_str("http://127.0.0.1"),
    };
    Ok(
        ShinyConfig {
            rscript_path,
            r_home_dir,
            start_shiny_path,
            r_lib_path,
            shiny_app_path,
            shiny_url,
        },
    )
}

/// Everything a spawn needs: the program, its arguments in order, and the
/// environment variables to set, as plain name-value pairs.
pub struct LaunchPlan {
    pub program: String,
    pub args: Vec<String>,
    pub env: Vec<(String, String)>,
}

/// Builds the launch plan for one attempt: the runtime executable run on
/// the startup script, with the runtime home, the library search paths,
/// the target port, the application path and the bind-all-interfaces host
/// directive in its environment.
pub fn launch_plan(c: &ShinyConfig, port: u16) -> (r: LaunchPlan)
    ensures
        r.program == c.rscript_path,
        r.args@.len() == 3,
        r.args@[0]@ == "--vanilla"@,
        r.args@[1] == c.start_shiny_path,
        r.args@[2]@ == "--verbose"@,
        r.env@.len() == 9,
        r.env@[0].0@ == "RHOME"@ && r.env@[0].1 == c.r_home_dir,
        r.env@[1].0@ == "R_HOME_DIR"@ && r.env@[1].1 == c.r_home_dir,
        r.env@[2].0@ == "RE_SHINY_PORT"@ && r.env@[2].1@ == dec_rep(port as nat),
        r.env@[3].0@ == "RE_SHINY_PATH"@ && r.env@[3].1 == c.shiny_app_path,
        r.env@[4].0@ == "RE_SHINY_HOST"@ && r.env@[4].1@ == "0.0.0.0"@,
        r.env@[5].0@ == "R_LIBS"@ && r.env@[5].1 == c.r_lib_path,
        r.env@[6].0@ == "R_LIBS_USER"@ && r.env@[6].1 == c.r_lib_path,
        r.env@[7].0@ == "R_LIBS_SITE"@ && r.env@[7].1 == c.r_lib_path,
        r.env@[8].0@ == "R_LIB_PATHS"@ && r.env@[8].1 == c.r_lib_path,
{
    let mut args: Vec<String> = Vec::new();
    args.push(String::from_str("--vanilla"));
    args.push(c.start_shiny_path.clone());
    args.push(String::from_str("--verbose"));
    let mut env: Vec<(String, String)> = Vec::new();
    env.push((String::from_str("RHOME"), c.r_home_dir.clone()));
    env.push((String::from_str("R_HOME_DIR"), c.r_home_dir.clone()));
    env.push((String::from_str("RE_SHINY_PORT"), u64_to_string(port as u64)));
    env.push((String::from_str("RE_SHINY_PATH"), c.shiny_app_path.clone()));
    env.push((String::from_str("RE_SHINY_HOST"), String::from_str("0.0.0.0")));
    env.push((String::from_str("R_LIBS"), c.r_lib_path.clone()));
    env.push((String::from_str("R_LIBS_USER"), c.r_lib_path.clone()));
    env.push((String::from_str("R_LIBS_SITE"), c.r_lib_path.clone()));
    env.push((String::from_str("R_LIB_PATHS"), c.r_lib_path.clone()));
    LaunchPlan { program: c.rscript_path.clone(), args, env }
}

/// Builds the launch plan for the one-off diagnostic run: the runtime
/// executable run on the given script, with the runtime home and library
/// search paths in its environment but no service port or application.
pub fn diagnostic_plan(c: &ShinyConfig, script_path: &str) -> (r: LaunchPlan)
    ensures
        r.program == c.rscript_path,
        r.args@.len() == 2,
        r.args@[0]@ == "--vanilla"@,
        r.args@[1]@ == script_path@,
        r.env@.len() == 6,
        r.env@[0].0@ == "RHOME"@ && r.env@[0].1 == c.r_home_dir,
        r.env@[1].0@ == "R_HOME_DIR"@ && r.env@[1].1 == c.r_home_dir,
        r.env@[2].0@ == "R_LIBS"@ && r.env@[2].1 == c.r_lib_path,
        r.env@[3].0@ == "R_LIBS_USER"@ && r.env@[3].1 == c.r_lib_path,
        r.env@[4].0@ == "R_LIBS_SITE"@ && r.env@[4].1 == c.r_lib_path,
        r.env@[5].0@ == "R_LIB_PATHS"@ && r.env@[5].1 == c.r_lib_path,
{
    let mut args: Vec<String> = Vec::new();
    args.push(String::from_str("--vanilla"));
    args.push(String::from_str(script_path));
    let mut env: Vec<(String, String)> = Vec::new();
    env.push((String::from_str("RHOME"), c.r_home_dir.clone()));
    env.push((String::from_str("R_HOME_DIR"), c.r_home_dir.clone()));
    env.push((String::from_str("R_LIBS"), c.r_lib_path.clone()));
    env.push((String::from_str("R_LIBS_USER"), c.r_lib_path.clone()));
    env.push((String::from_str("R_LIBS_SITE"), c.r_lib_path.clone()));
    env.push((String::from_str("R_LIB_PATHS"), c.r_lib_path.clone()));
    LaunchPlan { program: c.rscript_path.clone(), args, env }
}

/// Why a diagnostic run failed.
#[derive(Debug, PartialEq)]
pub enum DiagnosticError {
    /// The runtime executable was not found where the configuration says.
    ExecutableNotFound,
    /// The diagnostic script could not be read.
    ScriptUnreadable,
    /// The run itself failed: its exit code, if any, and what it wrote to
    /// its error stream.
    Run { exit_code: Option<i32>, stderr: String },
}

/// Judges a finished diagnostic run: its captured output on success, its
/// exit code and error output otherwise.
pub fn diagnostic_outcome(
    succeeded: bool,
    exit_code: Option<i32>,
    stdout: String,
    stderr: String,
) -> (r: Result<String, DiagnosticError>)
    ensures
        succeeded ==> r == Ok::<String, DiagnosticError>(stdout),
        !succeeded ==> r == Err::<String, DiagnosticError>(
            DiagnosticError::Run { exit_code, stderr },
        ),
{
    if succeeded {
        Ok(stdout)
    } else {
        Err(DiagnosticError::Run { exit_code, stderr })
    }
}

} // verus!
