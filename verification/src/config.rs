//! User configuration: where it lives, and the resolvers that turn a bare
//! repository name into an origin.

use vstd::prelude::*;

use crate::error::{CubeError, CubeErrorView};
use crate::flow::{
    ask_config, ask_flag, ask_place, ask_text, follows, Action, ActionView, AnswerView, Content,
    ContentView, Flow, Stop, Tape,
};
use crate::paths::{path_join, spec_path_join};
use crate::split::{replace, spec_replace};
use crate::text::{cat, copy, spec_trim, trim};

verus! {

/// A rule that turns a bare repository name into a clone URL, and optionally a
/// command to clone it with.
#[derive(Debug, Clone, PartialEq, Eq)]
pub struct RepoResolver {
    /// Human label, shown in errors.
    pub name: String,
    /// Origin template: `{name}` stands for the repository name.
    pub origin_pattern: String,
    /// Clone command template, run in place of `jj git clone`.
    pub clone_command: Option<String>,
}

#[verifier::ext_equal]
pub ghost struct RepoResolverView {
    pub name: Seq<char>,
    pub origin_pattern: Seq<char>,
    pub clone_command: Option<Seq<char>>,
}

impl DeepView for RepoResolver {
    type V = RepoResolverView;

    open spec fn deep_view(&self) -> RepoResolverView {
        RepoResolverView {
            name: self.name@,
            origin_pattern: self.origin_pattern@,
            clone_command: self.clone_command.deep_view(),
        }
    }
}

/// The template with the repository name put in for `{name}`.
pub open spec fn fill(template: Seq<char>, name: Seq<char>) -> Seq<char> {
    spec_replace(template, "{name}"@, name)
}

impl RepoResolverView {
    pub open spec fn origin(self, name: Seq<char>) -> Option<Seq<char>> {
        let url = fill(self.origin_pattern, name);
        if spec_trim(url).len() == 0 {
            None
        } else {
            Some(url)
        }
    }

    pub open spec fn clone(self, name: Seq<char>) -> Option<Seq<char>> {
        match self.clone_command {
            Some(template) => Some(fill(template, name)),
            None => None,
        }
    }
}

fn filled(template: &str, name: &str) -> (r: String)
    ensures
        r@ == fill(template@, name@),
{
    proof {
        reveal_strlit("{name}");
    }
    replace(template, "{name}", name)
}

impl RepoResolver {
    /// The origin of the named repository, or `None` where the pattern yields
    /// nothing but whitespace.
    pub fn resolve_origin(&self, name: &str) -> (r: Option<String>)
        ensures
            r.deep_view() == self.deep_view().origin(name@),
    {
        let url: String = filled(self.origin_pattern.as_str(), name);
        let bare: String = trim(url.as_str());
        if bare.as_str().is_empty() {
            None
        } else {
            Some(url)
        }
    }

    /// The clone command for the named repository, where there is one.
    pub fn resolve_clone_command(&self, name: &str) -> (r: Option<String>)
        ensures
            r.deep_view() == self.deep_view().clone(name@),
    {
        match &self.clone_command {
            Some(template) => Some(filled(template.as_str(), name)),
            None => None,
        }
    }
}

/// When workspaces that are dirty or conflicted are cleaned up.
#[derive(Debug, Clone, Copy, PartialEq, Eq, Structural)]
pub struct UnhealthyGc {
    /// For how many days a workspace may stay so.
    pub max_age_days: u32,
}

impl UnhealthyGc {
    /// Five days.
    pub open spec fn usual() -> UnhealthyGc {
        UnhealthyGc { max_age_days: 5 }
    }

    /// The age in seconds.
    pub open spec fn spec_max_age_secs(self) -> i64 {
        (self.max_age_days * 86400) as i64
    }

    pub fn max_age_secs(&self) -> (r: i64)
        ensures
            r == self.spec_max_age_secs(),
            r == self.max_age_days * 86400,
    {
        self.max_age_days as i64 * 86400
    }
}

impl Default for UnhealthyGc {
    fn default() -> (r: UnhealthyGc)
        ensures
            r == UnhealthyGc::usual(),
    {
        UnhealthyGc { max_age_days: 5 }
    }
}

/// The user configuration.
#[derive(Debug, Clone, PartialEq, Eq)]
pub struct CubeConfig {
    /// The resolvers, in the order in which they are tried.
    pub repo_resolvers: Vec<RepoResolver>,
    /// When the pool-wide cleanup resets workspaces.
    pub unhealthy_gc: UnhealthyGc,
}

#[verifier::ext_equal]
pub ghost struct CubeConfigView {
    pub repo_resolvers: Seq<RepoResolverView>,
    pub unhealthy_gc: UnhealthyGc,
}

impl CubeConfigView {
    /// The configuration where none is given.
    pub open spec fn usual() -> CubeConfigView {
        CubeConfigView { repo_resolvers: Seq::empty(), unhealthy_gc: UnhealthyGc::usual() }
    }
}

impl DeepView for CubeConfig {
    type V = CubeConfigView;

    open spec fn deep_view(&self) -> CubeConfigView {
        CubeConfigView {
            repo_resolvers: self.repo_resolvers.deep_view(),
            unhealthy_gc: self.unhealthy_gc,
        }
    }
}

impl Default for CubeConfig {
    fn default() -> (r: CubeConfig)
        ensures
            r.deep_view() == CubeConfigView::usual(),
    {
        let r: CubeConfig = CubeConfig {
            repo_resolvers: Vec::new(),
            unhealthy_gc: UnhealthyGc { max_age_days: 5 },
        };
        assert(r.deep_view() =~= CubeConfigView::usual());
        r
    }
}

/// The directories that the environment offers for configuration, each where its
/// variable is set: `CUBE_CONFIG_DIR`, `XDG_CONFIG_HOME` and `HOME`.
#[derive(Debug, Clone, PartialEq, Eq)]
pub struct ConfigEnv {
    pub cube_config_dir: Option<String>,
    pub xdg_config_home: Option<String>,
    pub home: Option<String>,
}

/// The configuration directory: the one named outright, else `cube` under the XDG
/// configuration home, else `.config/cube` under the home directory.
pub open spec fn spec_config_dir(
    cube_config_dir: Option<Seq<char>>,
    xdg_config_home: Option<Seq<char>>,
    home: Option<Seq<char>>,
) -> Option<Seq<char>> {
    match (cube_config_dir, xdg_config_home, home) {
        (Some(dir), _, _) => Some(dir),
        (None, Some(dir), _) => Some(spec_path_join(dir, "cube"@)),
        (None, None, Some(dir)) => Some(
            spec_path_join(spec_path_join(dir, ".config"@), "cube"@),
        ),
        (None, None, None) => None,
    }
}

pub fn config_dir(env: &ConfigEnv) -> (r: Result<String, CubeError>)
    ensures
        match r {
            Ok(dir) => spec_config_dir(
                env.cube_config_dir.deep_view(),
                env.xdg_config_home.deep_view(),
                env.home.deep_view(),
            ) == Some(dir@),
            Err(e) => spec_config_dir(
                env.cube_config_dir.deep_view(),
                env.xdg_config_home.deep_view(),
                env.home.deep_view(),
            ) is None && e.deep_view() == CubeErrorView::Io("HOME is not set"@),
        },
{
    if let Some(dir) = &env.cube_config_dir {
        return Ok(copy(dir));
    }
    if let Some(dir) = &env.xdg_config_home {
        return Ok(path_join(dir.as_str(), "cube"));
    }
    match &env.home {
        Some(dir) => {
            let base: String = path_join(dir.as_str(), ".config");
            Ok(path_join(base.as_str(), "cube"))
        },
        None => Err(CubeError::Io("HOME is not set".to_string())),
    }
}

/// The configuration file: `cube.toml` in the configuration directory.
pub fn config_file_path(env: &ConfigEnv) -> (r: Result<String, CubeError>)
    ensures
        match r {
            Ok(path) => {
                let dir = spec_config_dir(
                    env.cube_config_dir.deep_view(),
                    env.xdg_config_home.deep_view(),
                    env.home.deep_view(),
                );
                dir is Some && path@ == spec_path_join(dir->0, "cube.toml"@)
            },
            Err(e) => spec_config_dir(
                env.cube_config_dir.deep_view(),
                env.xdg_config_home.deep_view(),
                env.home.deep_view(),
            ) is None && e.deep_view() == CubeErrorView::Io("HOME is not set"@),
        },
{
    match config_dir(env) {
        Ok(dir) => Ok(path_join(dir.as_str(), "cube.toml")),
        Err(e) => Err(e),
    }
}

/// The failure for a configuration file that does not parse.
pub open spec fn parse_error(path: Seq<char>, cause: CubeErrorView) -> CubeErrorView {
    CubeErrorView::InvalidArgument(
        "failed to parse cube config at "@ + path + ": "@ + cause.message(),
    )
}

/// Reads the configuration file at a path; without a file the configuration is the
/// usual one.
pub open spec fn flow_read_config(t: Seq<AnswerView>, path: Seq<char>) -> Flow<CubeConfigView> {
    ask_flag(t, ActionView::Exists(path)).and(
        |there: bool, t: Seq<AnswerView>|
            if !there {
                Flow::Done(CubeConfigView::usual(), t)
            } else {
                ask_text(t, ActionView::ReadFile(path)).and(
                    |content: ContentView, t: Seq<AnswerView>|
                        match content {
                            ContentView::Fault(f) => Flow::Failed(CubeErrorView::Io(f.text), t),
                            ContentView::Text(body) => ask_config(
                                t,
                                ActionView::ParseConfig(body),
                            ).blame(|e: CubeErrorView| parse_error(path, e)),
                        },
                )
            },
    )
}

/// Loads the user configuration; where there is no place for a file, it is the
/// usual one.
pub open spec fn flow_load_config(t: Seq<AnswerView>) -> Flow<CubeConfigView> {
    ask_place(t, ActionView::Variable("CUBE_CONFIG_DIR"@)).and(
        |cube: Option<Seq<char>>, t: Seq<AnswerView>|
            ask_place(t, ActionView::Variable("XDG_CONFIG_HOME"@)).and(
                |xdg: Option<Seq<char>>, t: Seq<AnswerView>|
                    ask_place(t, ActionView::Variable("HOME"@)).and(
                        |home: Option<Seq<char>>, t: Seq<AnswerView>|
                            match spec_config_dir(cube, xdg, home) {
                                None => Flow::Done(CubeConfigView::usual(), t),
                                Some(dir) => flow_read_config(
                                    t,
                                    spec_path_join(dir, "cube.toml"@),
                                ),
                            },
                    ),
            ),
    )
}

pub fn load_config(tape: &mut Tape) -> (r: Result<CubeConfig, Stop>)
    ensures
        follows(r, final(tape)@, flow_load_config(old(tape)@)),
{
    let cube: Option<String> = tape.ask_place(Action::Variable("CUBE_CONFIG_DIR".to_string()))?;
    let xdg: Option<String> = tape.ask_place(Action::Variable("XDG_CONFIG_HOME".to_string()))?;
    let home: Option<String> = tape.ask_place(Action::Variable("HOME".to_string()))?;
    let env: ConfigEnv = ConfigEnv { cube_config_dir: cube, xdg_config_home: xdg, home };
    let path: String = match config_file_path(&env) {
        Ok(path) => path,
        Err(_) => {
            return Ok(CubeConfig::default());
        },
    };
    let there: bool = tape.ask_flag(Action::Exists(copy(&path)))?;
    if !there {
        return Ok(CubeConfig::default());
    }
    let body: String = match tape.ask_text(Action::ReadFile(copy(&path)))? {
        Content::Fault(f) => {
            return Err(Stop::Fail(CubeError::Io(f.text)));
        },
        Content::Text(body) => body,
    };
    match tape.ask_config(Action::ParseConfig(body)) {
        Ok(config) => Ok(config),
        Err(Stop::Fail(e)) => Err(
            Stop::Fail(
                CubeError::InvalidArgument(
                    cat(
                        cat(
                            cat("failed to parse cube config at ".to_string(), path.as_str()),
                            ": ",
                        ),
                        e.message().as_str(),
                    ),
                ),
            ),
        ),
        Err(stop) => Err(stop),
    }
}

} // verus!
