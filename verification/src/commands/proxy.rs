//! `prist flutter`, `prist dart` and `prist pub`: run a tool of the active environment.

use vstd::prelude::*;

use crate::commands::activate::{Activation, UseStage, law_activation_names_one_env, use_env};
use crate::commands::failure::CommandFailure;
use crate::commands::tools::{ArgumentView, PathFacts, argument_views, arguments_of, bin_dir, bin_of, is_shim_entry, kept_entries, law_arguments_are_forwarded, law_path_drops_only_shims, law_tool_path_entries, places, resolve_tool, sdk_bin_dir, sdk_bin_of, separator, sets_variables, shim_dir, shim_directory, tool_arguments, tool_places};
use crate::engine::{EngineShare, EngineStage, ensure_engine, law_engine_is_shared_when_complete};
use crate::error::PristError;
use crate::paths::{EnvPlace, Location, LocationView, PristHome, default_link};
use crate::releases::Platform;
use crate::text::{same, split};
use crate::work::{Action, Outcome};

verus! {

/// Why a tool was not run.
#[derive(Debug)]
pub enum ProxyFailure {
    /// There is no environment at all.
    NoEnvs,
    /// No environment is active, and the user cannot be asked.
    NoActive,
    /// The environment has no such tool.
    NoTool(EnvPlace),
    /// The tool could not be started.
    NoLaunch(EnvPlace, usize, String),
    Command(CommandFailure),
}

impl ProxyFailure {
    /// It is reported as the error `r`, where `tool` was to be run in the environment at
    /// `env`, as `program`.
    pub open spec fn told_as(
        self,
        tool: Seq<char>,
        env: Seq<char>,
        program: Seq<char>,
        r: PristError,
    ) -> bool {
        match self {
            ProxyFailure::NoEnvs => r.told()
                == "No environments installed. Run `prist create <name> <version>`."@,
            ProxyFailure::NoActive => r.told() == "no active environment. Run `prist use <name>`."@,
            ProxyFailure::NoTool(_) => r.told() == tool + " not found in "@ + env
                + " (is the env fully created?)"@,
            ProxyFailure::NoLaunch(_, _, e) => r.told() == "failed to run "@ + program + ": "@ + e@,
            ProxyFailure::Command(f) => f.told_as(r),
        }
    }

    /// The error that is reported, where `tool` was to be run in the environment at
    /// `env`, as `program`.
    pub fn error(self, tool: &str, env: &str, program: &str) -> (r: PristError)
        ensures
            self.told_as(tool@, env@, program@, r),
    {
        match self {
            ProxyFailure::NoEnvs => PristError::msg(
                "No environments installed. Run `prist create <name> <version>`.".to_string(),
            ),
            ProxyFailure::NoActive => PristError::msg(
                "no active environment. Run `prist use <name>`.".to_string(),
            ),
            ProxyFailure::NoTool(_) => PristError::msg(
                tool.to_string().concat(" not found in ").concat(env).concat(
                    " (is the env fully created?)",
                ),
            ),
            ProxyFailure::NoLaunch(_, _, e) => PristError::msg(
                "failed to run ".to_string().concat(program).concat(": ").concat(e.as_str()),
            ),
            ProxyFailure::Command(f) => f.error(),
        }
    }
}

/// How far a call of a tool has come.
#[derive(Debug)]
pub enum ProxyStage {
    /// Which environment is active here?
    FindActive,
    /// Is there such an environment?
    Look(String),
    /// Where does the default link lead?
    ReadLink,
    /// Is there a directory at its end?
    LookLinked(String),
    /// Which environments are there?
    List,
    /// Can the user be asked?
    AskTerminal,
    /// The user has to choose.
    Choose,
    /// The environment is being made the global default.
    Activate(String, Activation),
    /// Which engine does the environment ask for?
    EngineVersion(EnvPlace),
    /// It is being linked to its engine.
    Engine(EnvPlace, EngineShare),
    /// Is the tool at the place of this number?
    Seek(EnvPlace, usize),
    /// What does the system say of the `PATH`? The tool is at the place of this number.
    Survey(EnvPlace, usize),
    /// The tool at the place of this number is to be run.
    Launch(EnvPlace, usize, PathFacts),
    /// The tool has ended with this code.
    Exited(i32),
    Failed(ProxyFailure),
}

/// A call of a tool.
#[derive(Debug)]
pub struct Proxy {
    pub tool: String,
    /// How many arguments the user gave.
    pub given: usize,
    pub stage: ProxyStage,
}

/// Run `tool` in the active environment, with the arguments of which the user gave
/// `given`. Where none is active it is the one that the
/// default link leads to, or the only one there is, or one that the user chooses; the
/// last two become the global default.
pub fn proxy(tool: String, given: usize) -> (r: Proxy)
    ensures
        r == (Proxy { tool, given, stage: ProxyStage::FindActive }),
{
    Proxy { tool, given, stage: ProxyStage::FindActive }
}

/// The names of the environments among those of some directories.
pub open spec fn installed(names: Seq<String>) -> Seq<String>
    decreases names.len(),
{
    if names.len() == 0 {
        seq![]
    } else if names.last()@ == "default"@ {
        installed(names.drop_last())
    } else {
        installed(names.drop_last()).push(names.last())
    }
}

/// The names of the environments among those of some directories: all but the default
/// link.
pub fn installed_envs(names: &Vec<String>) -> (r: Vec<String>)
    ensures
        r@ == installed(names@),
{
    let mut list: Vec<String> = Vec::new();
    let mut i: usize = 0;
    assert(names@.take(0) =~= seq![]);
    while i < names.len()
        invariant
            i <= names@.len(),
            list@ == installed(names@.take(i as int)),
        decreases names@.len() - i,
    {
        let ghost so_far = names@.take(i + 1);
        assert(so_far.drop_last() =~= names@.take(i as int));
        if !same(names[i].as_str(), "default") {
            list.push(names[i].clone());
        }
        i += 1;
    }
    assert(names@.take(i as int) =~= names@);
    list
}

/// How many places there are for a tool, in whatever environment.
pub open spec fn place_count(platform: Platform, tool: Seq<char>) -> nat {
    tool_places(platform, LocationView::at(seq![]), tool).len()
}

/// How many places there are for a tool.
pub fn count_places(platform: Platform, tool: &str) -> (r: usize)
    ensures
        r == place_count(platform, tool@),
{
    let (list, _) = resolve_tool(platform, &Location::at(""), tool);
    assert(places(list@).len() == list@.len());
    list.len()
}

impl Proxy {
    /// Nothing is pending.
    pub open spec fn ended(self) -> bool {
        self.stage is Exited || self.stage is Failed
    }

    /// What is under way is not over, and a tool is sought only at places that there
    /// are.
    pub open spec fn wf(self, platform: Platform) -> bool {
        match self.stage {
            ProxyStage::Activate(_, activation) => activation.wf() && !activation.ended(),
            ProxyStage::Engine(_, share) => !share.ended(),
            ProxyStage::Seek(_, i) => i < place_count(platform, self.tool@),
            ProxyStage::Survey(_, i) => i < place_count(platform, self.tool@),
            ProxyStage::Launch(_, i, _) => i < place_count(platform, self.tool@),
            _ => true,
        }
    }

    /// `f` happened.
    pub open spec fn failed(f: CommandFailure) -> ProxyStage {
        ProxyStage::Failed(ProxyFailure::Command(f))
    }

    /// The environment `name` is made the global default.
    pub open spec fn activating(name: String) -> ProxyStage {
        ProxyStage::Activate(name, Activation { global: true, stage: UseStage::Look(name) })
    }

    /// The stage after the outcome `o` of the pending action.
    pub open spec fn stage_after(self, platform: Platform, o: Outcome) -> ProxyStage {
        match self.stage {
            ProxyStage::FindActive => match o {
                Outcome::Active(Some(name)) => ProxyStage::Look(name),
                Outcome::Failed(e) => Self::failed(CommandFailure::System(e)),
                _ => ProxyStage::ReadLink,
            },
            ProxyStage::Look(name) => if o is Yes {
                ProxyStage::EngineVersion(EnvPlace::Named(name))
            } else {
                Self::failed(CommandFailure::NotFound(name))
            },
            ProxyStage::ReadLink => match o {
                Outcome::Text(path) => ProxyStage::LookLinked(path),
                Outcome::Failed(e) => Self::failed(CommandFailure::System(e)),
                _ => ProxyStage::List,
            },
            ProxyStage::LookLinked(path) => if o is Yes {
                ProxyStage::EngineVersion(EnvPlace::Linked(path))
            } else {
                ProxyStage::List
            },
            ProxyStage::List => match o {
                Outcome::Names(names) => {
                    let envs = installed(names@);
                    if envs.len() == 0 {
                        ProxyStage::Failed(ProxyFailure::NoEnvs)
                    } else if envs.len() == 1 {
                        Self::activating(envs[0])
                    } else {
                        ProxyStage::AskTerminal
                    }
                },
                _ => ProxyStage::Failed(ProxyFailure::NoEnvs),
            },
            ProxyStage::AskTerminal => if o is Yes {
                ProxyStage::Choose
            } else {
                ProxyStage::Failed(ProxyFailure::NoActive)
            },
            ProxyStage::Choose => match o {
                Outcome::Text(name) => Self::activating(name),
                Outcome::Failed(e) => Self::failed(CommandFailure::System(e)),
                _ => Self::failed(CommandFailure::Unanswered),
            },
            ProxyStage::Activate(name, activation) => if activation.after(o).ended() {
                ProxyStage::EngineVersion(EnvPlace::Named(name))
            } else {
                ProxyStage::Activate(name, activation.after(o))
            },
            ProxyStage::EngineVersion(env) => match o {
                Outcome::Text(hash) => ProxyStage::Engine(
                    env,
                    EngineShare { env, hash, download: true, stage: EngineStage::Look },
                ),
                _ => ProxyStage::Seek(env, 0),
            },
            ProxyStage::Engine(env, share) => if share.after(o).ended() {
                ProxyStage::Seek(env, 0)
            } else {
                ProxyStage::Engine(env, share.after(o))
            },
            ProxyStage::Seek(env, i) => if o is Yes {
                ProxyStage::Survey(env, i)
            } else if i + 1 < place_count(platform, self.tool@) {
                ProxyStage::Seek(env, (i + 1) as usize)
            } else {
                ProxyStage::Failed(ProxyFailure::NoTool(env))
            },
            ProxyStage::Survey(env, i) => match o {
                Outcome::Path(facts) => ProxyStage::Launch(env, i, facts),
                Outcome::Failed(e) => Self::failed(CommandFailure::System(e)),
                _ => Self::failed(CommandFailure::Unanswered),
            },
            ProxyStage::Launch(env, i, _) => match o {
                Outcome::Failed(e) => ProxyStage::Failed(ProxyFailure::NoLaunch(env, i, e)),
                _ => ProxyStage::Exited(
                    match o.code() {
                        Some(code) => code,
                        None => 1,
                    },
                ),
            },
            ProxyStage::Exited(_) | ProxyStage::Failed(_) => self.stage,
        }
    }

    /// What comes after the outcome `o` of the pending action.
    pub open spec fn after(self, platform: Platform, o: Outcome) -> Self {
        Proxy { stage: self.stage_after(platform, o), ..self }
    }

    /// Make the environment `name` the global default.
    fn activate(name: String) -> (r: ProxyStage)
        ensures
            r == Self::activating(name),
    {
        let activation = use_env(Some(name.clone()), true);
        ProxyStage::Activate(name, activation)
    }

    /// Take in the outcome of the pending action.
    pub fn next(self, platform: Platform, o: Outcome) -> (r: Self)
        ensures
            r == self.after(platform, o),
            self.wf(platform) ==> r.wf(platform),
    {
        let tool = self.tool;
        let given = self.given;
        let code = o.exit_code();
        let stage = match self.stage {
            ProxyStage::FindActive => match o {
                Outcome::Active(Some(name)) => ProxyStage::Look(name),
                Outcome::Failed(e) => ProxyStage::Failed(
                    ProxyFailure::Command(CommandFailure::System(e)),
                ),
                _ => ProxyStage::ReadLink,
            },
            ProxyStage::Look(name) => match o {
                Outcome::Yes => ProxyStage::EngineVersion(EnvPlace::Named(name)),
                _ => ProxyStage::Failed(ProxyFailure::Command(CommandFailure::NotFound(name))),
            },
            ProxyStage::ReadLink => match o {
                Outcome::Text(path) => ProxyStage::LookLinked(path),
                Outcome::Failed(e) => ProxyStage::Failed(
                    ProxyFailure::Command(CommandFailure::System(e)),
                ),
                _ => ProxyStage::List,
            },
            ProxyStage::LookLinked(path) => match o {
                Outcome::Yes => ProxyStage::EngineVersion(EnvPlace::Linked(path)),
                _ => ProxyStage::List,
            },
            ProxyStage::List => match o {
                Outcome::Names(names) => {
                    let envs = installed_envs(&names);
                    if envs.len() == 0 {
                        ProxyStage::Failed(ProxyFailure::NoEnvs)
                    } else if envs.len() == 1 {
                        Self::activate(envs[0].clone())
                    } else {
                        ProxyStage::AskTerminal
                    }
                },
                _ => ProxyStage::Failed(ProxyFailure::NoEnvs),
            },
            ProxyStage::AskTerminal => match o {
                Outcome::Yes => ProxyStage::Choose,
                _ => ProxyStage::Failed(ProxyFailure::NoActive),
            },
            ProxyStage::Choose => match o {
                Outcome::Text(name) => Self::activate(name),
                Outcome::Failed(e) => ProxyStage::Failed(
                    ProxyFailure::Command(CommandFailure::System(e)),
                ),
                _ => ProxyStage::Failed(ProxyFailure::Command(CommandFailure::Unanswered)),
            },
            ProxyStage::Activate(name, activation) => {
                let activation = activation.next(o);
                if activation.is_ended() {
                    ProxyStage::EngineVersion(EnvPlace::Named(name))
                } else {
                    ProxyStage::Activate(name, activation)
                }
            },
            ProxyStage::EngineVersion(env) => match o {
                Outcome::Text(hash) => {
                    let share = ensure_engine(env.clone(), hash);
                    ProxyStage::Engine(env, share)
                },
                _ => ProxyStage::Seek(env, 0),
            },
            ProxyStage::Engine(env, share) => {
                let share = share.next(o);
                if share.is_ended() {
                    ProxyStage::Seek(env, 0)
                } else {
                    ProxyStage::Engine(env, share)
                }
            },
            ProxyStage::Seek(env, i) => match o {
                Outcome::Yes => ProxyStage::Survey(env, i),
                _ => {
                    let n = count_places(platform, tool.as_str());
                    if i < n && i + 1 < n {
                        ProxyStage::Seek(env, i + 1)
                    } else {
                        ProxyStage::Failed(ProxyFailure::NoTool(env))
                    }
                },
            },
            ProxyStage::Survey(env, i) => match o {
                Outcome::Path(facts) => ProxyStage::Launch(env, i, facts),
                Outcome::Failed(e) => ProxyStage::Failed(
                    ProxyFailure::Command(CommandFailure::System(e)),
                ),
                _ => ProxyStage::Failed(ProxyFailure::Command(CommandFailure::Unanswered)),
            },
            ProxyStage::Launch(env, i, _) => match o {
                Outcome::Failed(e) => ProxyStage::Failed(ProxyFailure::NoLaunch(env, i, e)),
                _ => ProxyStage::Exited(
                    match code {
                        Some(code) => code,
                        None => 1,
                    },
                ),
            },
            ProxyStage::Exited(code) => ProxyStage::Exited(code),
            ProxyStage::Failed(f) => ProxyStage::Failed(f),
        };
        Proxy { tool, given, stage }
    }

    /// The place of number `i` where the tool may be in the environment, or the first
    /// where there is none of this number.
    pub open spec fn place(
        self,
        root: LocationView,
        platform: Platform,
        env: EnvPlace,
        i: usize,
    ) -> LocationView {
        let all = tool_places(platform, env.dir(root), self.tool@);
        if i < all.len() {
            all[i as int]
        } else {
            all[0]
        }
    }

    /// `r` is the pending action, for a home at `root`.
    pub open spec fn asks(self, root: LocationView, platform: Platform, r: Option<Action>) -> bool {
        match (self.stage, r) {
            (ProxyStage::FindActive, Some(Action::FindActive)) => true,
            (ProxyStage::Look(name), Some(Action::IsDirectory(l))) => l@ == EnvPlace::Named(
                name,
            ).dir(root),
            (ProxyStage::ReadLink, Some(Action::ReadLink(l))) => l@ == default_link(root),
            (ProxyStage::LookLinked(path), Some(Action::IsDirectory(l))) => l@ == EnvPlace::Linked(
                path,
            ).dir(root),
            (ProxyStage::List, Some(Action::ListEnvs)) => true,
            (ProxyStage::AskTerminal, Some(Action::IsTerminal)) => true,
            (ProxyStage::Choose, Some(Action::ChooseEnv { prompt })) => prompt@
                == "? No active environment. Select one to activate:"@,
            (ProxyStage::Activate(_, activation), _) => activation.asks(root, platform, r),
            (ProxyStage::EngineVersion(env), Some(Action::EngineVersion(l))) => l@ == env.dir(root),
            (ProxyStage::Engine(_, share), _) => share.asks(root, platform, r),
            (ProxyStage::Seek(env, i), Some(Action::Exists(l))) => l@ == self.place(
                root,
                platform,
                env,
                i,
            ),
            (
                ProxyStage::Survey(env, _),
                Some(Action::SurveyPath { env: l, bin, sdk_bin, shims }),
            ) => l@ == env.dir(root) && bin@ == bin_of(env.dir(root)) && sdk_bin@ == sdk_bin_of(
                env.dir(root),
            ) && shims@ == shim_dir(root),
            (
                ProxyStage::Launch(env, i, facts),
                Some(Action::Launch { program, arguments, variables }),
            ) => program@ == self.place(root, platform, env, i) && argument_views(arguments@)
                == arguments_of(self.tool@, self.given as nat) && sets_variables(
                variables@,
                facts.env@,
                facts.tool_path(platform),
            ),
            (ProxyStage::Exited(_), None) => true,
            (ProxyStage::Failed(_), None) => true,
            _ => false,
        }
    }

    /// The place of number `i` where the tool may be in the environment.
    fn place_of(&self, home: &PristHome, platform: Platform, env: &EnvPlace, i: usize) -> (r:
        Location)
        ensures
            r@ == self.place(home.root@, platform, *env, i),
    {
        let (list, _) = resolve_tool(platform, &env.location(home), self.tool.as_str());
        assert(places(list@).len() == list@.len());
        let k: usize = if i < list.len() {
            i
        } else {
            0
        };
        assert(places(list@)[k as int] == list@[k as int]@);
        list[k].clone()
    }

    /// The pending action, if there is one.
    pub fn action(&self, home: &PristHome, platform: Platform) -> (r: Option<Action>)
        ensures
            self.wf(platform) ==> (r is Some <==> !self.ended()),
            self.asks(home.root@, platform, r),
    {
        match &self.stage {
            ProxyStage::FindActive => Some(Action::FindActive),
            ProxyStage::Look(name) => Some(Action::IsDirectory(home.env(name.as_str()))),
            ProxyStage::ReadLink => Some(Action::ReadLink(home.default_env_link())),
            ProxyStage::LookLinked(path) => Some(Action::IsDirectory(Location::at(path.as_str()))),
            ProxyStage::List => Some(Action::ListEnvs),
            ProxyStage::AskTerminal => Some(Action::IsTerminal),
            ProxyStage::Choose => Some(
                Action::ChooseEnv { prompt: "? No active environment. Select one to activate:" },
            ),
            ProxyStage::Activate(_, activation) => activation.action(home, platform),
            ProxyStage::EngineVersion(env) => Some(Action::EngineVersion(env.location(home))),
            ProxyStage::Engine(_, share) => share.action(home, platform),
            ProxyStage::Seek(env, i) => Some(
                Action::Exists(self.place_of(home, platform, env, *i)),
            ),
            ProxyStage::Survey(env, _) => {
                let place = env.location(home);
                Some(
                    Action::SurveyPath {
                        bin: bin_dir(&place),
                        sdk_bin: sdk_bin_dir(&place),
                        shims: shim_directory(home),
                        env: place,
                    },
                )
            },
            ProxyStage::Launch(env, i, facts) => Some(
                Action::Launch {
                    program: self.place_of(home, platform, env, *i),
                    arguments: tool_arguments(self.tool.as_str(), self.given),
                    variables: facts.variables(platform),
                },
            ),
            ProxyStage::Exited(_) => None,
            ProxyStage::Failed(_) => None,
        }
    }

    /// How many outcomes are awaited at most.
    pub open spec fn steps_left(self, platform: Platform) -> nat {
        match self.stage {
            ProxyStage::FindActive => 60,
            ProxyStage::Look(_) => 59,
            ProxyStage::ReadLink => 59,
            ProxyStage::LookLinked(_) => 58,
            ProxyStage::List => 57,
            ProxyStage::AskTerminal => 56,
            ProxyStage::Choose => 55,
            ProxyStage::Activate(_, activation) => 20 + activation.steps_left(),
            ProxyStage::EngineVersion(_) => 19,
            ProxyStage::Engine(_, share) => 6 + share.steps_left(),
            ProxyStage::Seek(_, i) => (3 + place_count(platform, self.tool@) - i) as nat,
            ProxyStage::Survey(_, _) => 2,
            ProxyStage::Launch(_, _, _) => 1,
            ProxyStage::Exited(_) => 0,
            ProxyStage::Failed(_) => 0,
        }
    }

    /// The environment in question, once it is known.
    pub open spec fn env(self) -> Option<EnvPlace> {
        match self.stage {
            ProxyStage::Look(name) => Some(EnvPlace::Named(name)),
            ProxyStage::Activate(name, _) => Some(EnvPlace::Named(name)),
            ProxyStage::EngineVersion(env) => Some(env),
            ProxyStage::Engine(env, _) => Some(env),
            ProxyStage::Seek(env, _) => Some(env),
            ProxyStage::Survey(env, _) => Some(env),
            ProxyStage::Launch(env, _, _) => Some(env),
            _ => None,
        }
    }
}

/// A tool is run from the first of its places at which it is, in an environment that
/// stays the same once it is known. Each outcome brings the call closer to the end.
pub proof fn law_first_place_is_run(before: Proxy, platform: Platform, o: Outcome)
    requires
        before.wf(platform),
        !before.ended(),
    ensures
        before.after(platform, o).wf(platform),
        before.after(platform, o).steps_left(platform) < before.steps_left(platform),
        before.after(platform, o).tool == before.tool,
        match (before.env(), before.after(platform, o).env()) {
            (Some(a), Some(b)) => a == b,
            (Some(_), None) => before.after(platform, o).ended(),
            (None, _) => true,
        },
        before.after(platform, o).given == before.given,
        before.after(platform, o).stage matches ProxyStage::Launch(env, i, facts) ==> before.stage
            == ProxyStage::Survey(env, i) && o == Outcome::Path(facts),
        before.after(platform, o).stage matches ProxyStage::Survey(env, i) ==> o is Yes
            && before.stage == ProxyStage::Seek(env, i),
        before.after(platform, o).stage matches ProxyStage::Seek(env, i) ==> i > 0 ==> !(o is Yes)
            && before.stage == ProxyStage::Seek(env, (i - 1) as usize),
        before.after(platform, o).stage matches ProxyStage::Failed(ProxyFailure::NoTool(env)) ==> !(
        o is Yes) && before.stage == ProxyStage::Seek(
            env,
            (place_count(platform, before.tool@) - 1) as usize,
        ),
{
    match before.stage {
        ProxyStage::Activate(_, activation) => {
            law_activation_names_one_env(activation, o);
        },
        ProxyStage::Engine(_, share) => {
            law_engine_is_shared_when_complete(share, o);
        },
        _ => {},
    }
}

/// The environments among the directories are all but the default link, in order.
pub proof fn law_default_link_is_no_environment(names: Seq<String>, name: String)
    ensures
        installed(seq![]).len() == 0,
        name@ == "default"@ ==> installed(names.push(name)) == installed(names),
        name@ != "default"@ ==> installed(names.push(name)) == installed(names).push(name),
{
    assert(names.push(name).drop_last() =~= names);
}

/// Which environment a tool is run in: the active one, which has to be there; else the one
/// that the default link leads to, if there is a directory; else the only one there is; else
/// the one that the user chooses. The last two become the global default first.
pub proof fn law_environment_of_a_tool(
    p: Proxy,
    platform: Platform,
    name: String,
    names: Vec<String>,
)
    ensures
        p.stage is FindActive ==> p.after(platform, Outcome::Active(Some(name))).stage
            == ProxyStage::Look(name) && p.after(platform, Outcome::Active(None)).stage is ReadLink,
        p.stage == ProxyStage::Look(name) ==> p.after(platform, Outcome::Yes).stage
            == ProxyStage::EngineVersion(EnvPlace::Named(name)) && p.after(
            platform,
            Outcome::No,
        ).stage == ProxyStage::Failed(ProxyFailure::Command(CommandFailure::NotFound(name))),
        p.stage == ProxyStage::LookLinked(name) ==> p.after(platform, Outcome::Yes).stage
            == ProxyStage::EngineVersion(EnvPlace::Linked(name)) && p.after(
            platform,
            Outcome::No,
        ).stage is List,
        p.stage is List && installed(names@).len() == 1 ==> (p.after(
            platform,
            Outcome::Names(names),
        ).stage matches ProxyStage::Activate(n, a) && n == installed(names@)[0] && a.global
            && a.stage == UseStage::Look(n)),
        p.stage is List && installed(names@).len() == 0 ==> p.after(
            platform,
            Outcome::Names(names),
        ).stage == ProxyStage::Failed(ProxyFailure::NoEnvs),
        p.stage is List && installed(names@).len() > 1 ==> p.after(
            platform,
            Outcome::Names(names),
        ).stage is AskTerminal,
        p.stage is AskTerminal ==> p.after(platform, Outcome::No).stage == ProxyStage::Failed(
            ProxyFailure::NoActive,
        ) && p.after(platform, Outcome::Yes).stage is Choose,
        p.stage is Choose ==> (p.after(
            platform,
            Outcome::Text(name),
        ).stage matches ProxyStage::Activate(n, a) && n == name && a.global),
{
}

/// A tool is launched with all arguments of the user, in order, with the variables for its
/// environment, and its exit code is that of Prist.
pub proof fn law_tool_is_launched(
    p: Proxy,
    root: LocationView,
    platform: Platform,
    r: Option<Action>,
    code: i32,
    told: String,
    i: int,
)
    requires
        p.asks(root, platform, r),
        p.stage is Launch,
        0 <= i < p.given,
    ensures
        r matches Some(Action::Launch { program, arguments, variables }) && argument_views(
            arguments@,
        ).len() == p.given + if p.tool@ == "pub"@ {
            1int
        } else {
            0int
        } && argument_views(arguments@)[i + if p.tool@ == "pub"@ {
            1int
        } else {
            0int
        }] == ArgumentView::User(i) && variables@.len() == 4 && variables@[0].name@
            == "FLUTTER_ROOT"@ && variables@[0].value@ == p.stage->Launch_2.env@
            && variables@[2].name@ == "PATH"@ && variables@[1].name@ == "FLUTTER_GIT_URL"@
            && variables@[1].value@ == "https://github.com/flutter/flutter.git"@,
        p.after(platform, Outcome::Exit { code: Some(code), told }).stage == ProxyStage::Exited(code),
        p.after(platform, Outcome::Exit { code: None, told }).stage == ProxyStage::Exited(1),
{
    law_arguments_are_forwarded(p.tool@, p.given as nat, i);
}

/// The program that is sought and launched is the tool's place of that number, and its `PATH`
/// begins with the two directories of the environment and holds every entry that was there
/// before, but for the directory of the shims.
pub proof fn law_right_program_is_launched(
    p: Proxy,
    root: LocationView,
    platform: Platform,
    r: Option<Action>,
    k: int,
)
    requires
        p.asks(root, platform, r),
    ensures
        p.stage matches ProxyStage::Seek(env, i) ==> i < tool_places(
            platform,
            env.dir(root),
            p.tool@,
        ).len() ==> (r matches Some(Action::Exists(l)) && l@ == tool_places(
            platform,
            env.dir(root),
            p.tool@,
        )[i as int]),
        p.stage matches ProxyStage::Launch(env, i, facts) ==> i < tool_places(
            platform,
            env.dir(root),
            p.tool@,
        ).len() ==> (r matches Some(Action::Launch { program, arguments, variables }) && program@
            == tool_places(platform, env.dir(root), p.tool@)[i as int]),
        p.stage matches ProxyStage::Launch(env, i, facts) ==> ({
            let c = if platform is Windows {
                ';'
            } else {
                ':'
            };
            !facts.bin@.contains(c) && !facts.sdk_bin@.contains(c) && facts.facts@.len() == split(
                facts.path@,
                c,
            ).len() ==> (r matches Some(Action::Launch { program, arguments, variables }) && split(
                variables@[2].value@,
                c,
            ).len() >= 2 && split(variables@[2].value@, c)[0] == facts.bin@ && split(
                variables@[2].value@,
                c,
            )[1] == facts.sdk_bin@ && (0 <= k < split(facts.path@, c).len() && !is_shim_entry(
                platform,
                split(facts.path@, c)[k],
                facts.shims@,
                facts.facts@[k],
            ) ==> split(variables@[2].value@, c).skip(2).contains(split(facts.path@, c)[k])))
        }),
{
    if let ProxyStage::Launch(env, i, facts) = p.stage {
        let c = separator(platform);
        if !facts.bin@.contains(c) && !facts.sdk_bin@.contains(c) && facts.facts@.len() == split(
            facts.path@,
            c,
        ).len() {
            law_tool_path_entries(
                platform,
                facts.bin@,
                facts.sdk_bin@,
                facts.path@,
                facts.shims@,
                facts.facts@,
            );
            let entries = split(facts.path@, c);
            let n = entries.len() as int;
            let kept = kept_entries(platform, entries, facts.shims@, facts.facts@, n);
            let whole = split(facts.tool_path(platform), c);
            if 0 <= k < n && !is_shim_entry(platform, entries[k], facts.shims@, facts.facts@[k]) {
                law_path_drops_only_shims(
                    platform,
                    entries,
                    facts.shims@,
                    facts.facts@,
                    n,
                    entries[k],
                );
                assert(kept.contains(entries[k]));
                let j = choose|j: int| 0 <= j < kept.len() && kept[j] == entries[k];
                assert(whole.skip(2)[j] == kept[j]);
            }
        }
    }
}

/// A tool's environment is linked to the engine that it asks for, which is downloaded where it
/// is not there.
pub proof fn law_tool_gets_its_engine(p: Proxy, platform: Platform, hash: String)
    ensures
        p.stage matches ProxyStage::EngineVersion(env) ==> (p.after(
            platform,
            Outcome::Text(hash),
        ).stage matches ProxyStage::Engine(e, share) && e == env && share.env == env && share.hash
            == hash && share.download && share.stage is Look),
        p.stage matches ProxyStage::EngineVersion(env) ==> p.after(platform, Outcome::Missing).stage
            == ProxyStage::Seek(env, 0),
{
}

} // verus!
