//! `prist use`: make an environment the one of the current project, or the global
//! default.

use vstd::prelude::*;

use crate::commands::failure::CommandFailure;
use crate::config::{ActiveSource, EnvMeta, GlobalConfig, ProjectConfig, Resolution, pinned, resolution};
use crate::engine::{EngineShare, EngineStage, law_engine_is_shared_when_complete, try_link_engine};
use crate::paths::{EnvPlace, LocationView, PristHome, default_link, env_of, law_home_is_laid_out};
use crate::releases::Platform;
use crate::text::copied;
use crate::work::{Action, Outcome};

verus! {

/// How far an activation has come, and for which environment, once that is known.
#[derive(Debug)]
pub enum UseStage {
    /// Which environment is active here?
    FindActive,
    /// The user has to choose.
    Choose,
    /// Is there such an environment?
    Look(String),
    /// Which engine does it ask for?
    EngineVersion(String),
    /// It is being linked to its engine.
    Engine(String, EngineShare),
    /// The global configuration is to be read.
    LoadGlobal(String),
    /// The global configuration is to be written.
    SaveGlobal(String, GlobalConfig),
    /// The old default link is to be removed.
    Unlink(String),
    /// The default link is to be made.
    Link(String),
    /// The shims are to be written.
    InstallShims(String),
    /// The record of the environment is to be read.
    LoadMeta(String),
    /// The project file is to be written.
    SaveProject(String, ProjectConfig),
    /// Which is the current directory?
    WorkingDirectory(String),
    /// The editors are to be told.
    Integrate(String, String),
    /// The environment is active.
    Done(String),
    Failed(CommandFailure),
}

impl UseStage {
    /// The environment in question, once it is known.
    pub open spec fn target(self) -> Option<String> {
        match self {
            UseStage::FindActive => None,
            UseStage::Choose => None,
            UseStage::Look(name) => Some(name),
            UseStage::EngineVersion(name) => Some(name),
            UseStage::Engine(name, _) => Some(name),
            UseStage::LoadGlobal(name) => Some(name),
            UseStage::SaveGlobal(name, _) => Some(name),
            UseStage::Unlink(name) => Some(name),
            UseStage::Link(name) => Some(name),
            UseStage::InstallShims(name) => Some(name),
            UseStage::LoadMeta(name) => Some(name),
            UseStage::SaveProject(name, _) => Some(name),
            UseStage::WorkingDirectory(name) => Some(name),
            UseStage::Integrate(name, _) => Some(name),
            UseStage::Done(name) => Some(name),
            UseStage::Failed(_) => None,
        }
    }
}

/// An activation under way.
#[derive(Debug)]
pub struct Activation {
    /// Whether the environment becomes the global default.
    pub global: bool,
    pub stage: UseStage,
}

/// The Flutter version that a project file records: the version of the environment,
/// else its channel, else its commit.
pub open spec fn recorded_version(meta: EnvMeta) -> Option<String> {
    match (meta.version, meta.channel) {
        (Some(v), _) => Some(v),
        (None, Some(c)) => Some(c),
        (None, None) => meta.commit,
    }
}

/// Activate `env`, or where none is named the environment that is active here, or
/// where there is none one that the user chooses.
pub fn use_env(env: Option<String>, global: bool) -> (r: Activation)
    ensures
        r == (Activation {
            global,
            stage: match env {
                Some(name) => UseStage::Look(name),
                None => UseStage::FindActive,
            },
        }),
        r.wf(),
{
    let stage = match env {
        Some(name) => UseStage::Look(name),
        None => UseStage::FindActive,
    };
    Activation { global, stage }
}

/// What the activation is reported to have been for.
pub fn scope(global: bool) -> (r: &'static str)
    ensures
        r@ == if global {
            "global default"@
        } else {
            "project"@
        },
{
    if global {
        "global default"
    } else {
        "project"
    }
}

impl Activation {
    /// Nothing is pending.
    pub open spec fn ended(self) -> bool {
        self.stage is Done || self.stage is Failed
    }

    /// Whether nothing is pending.
    pub fn is_ended(&self) -> (r: bool)
        ensures
            r == self.ended(),
    {
        match self.stage {
            UseStage::Done(_) => true,
            UseStage::Failed(_) => true,
            _ => false,
        }
    }

    /// The stage belongs to the scope of the activation, what is to be written names
    /// the environment, and where it is being linked to its engine, that is not over.
    pub open spec fn wf(self) -> bool {
        match self.stage {
            UseStage::Engine(_, share) => !share.ended(),
            UseStage::LoadGlobal(_) => self.global,
            UseStage::SaveGlobal(name, c) => self.global && c.default_env == Some(name),
            UseStage::Unlink(_) => self.global,
            UseStage::Link(_) => self.global,
            UseStage::InstallShims(_) => self.global,
            UseStage::LoadMeta(_) => !self.global,
            UseStage::SaveProject(name, c) => !self.global && c.env == Some(name),
            _ => true,
        }
    }

    /// The environment is known, and whether it is linked to its engine is settled.
    pub open spec fn settled(self, name: String) -> UseStage {
        if self.global {
            UseStage::LoadGlobal(name)
        } else {
            UseStage::LoadMeta(name)
        }
    }

    /// `stage`, unless the system failed.
    pub open spec fn unless_failed(o: Outcome, stage: UseStage) -> UseStage {
        match o {
            Outcome::Failed(e) => UseStage::Failed(CommandFailure::System(e)),
            _ => stage,
        }
    }

    /// The stage after the outcome `o` of the pending action.
    pub open spec fn stage_after(self, o: Outcome) -> UseStage {
        match self.stage {
            UseStage::FindActive => match o {
                Outcome::Active(Some(name)) => UseStage::Look(name),
                _ => Self::unless_failed(o, UseStage::Choose),
            },
            UseStage::Choose => match o {
                Outcome::Text(name) => UseStage::Look(name),
                _ => Self::unless_failed(o, UseStage::Failed(CommandFailure::Unanswered)),
            },
            UseStage::Look(name) => if o is Yes {
                UseStage::EngineVersion(name)
            } else {
                UseStage::Failed(CommandFailure::NotFound(name))
            },
            UseStage::EngineVersion(name) => match o {
                Outcome::Text(hash) => UseStage::Engine(
                    name,
                    EngineShare {
                        env: EnvPlace::Named(name),
                        hash,
                        download: false,
                        stage: EngineStage::Look,
                    },
                ),
                _ => self.settled(name),
            },
            UseStage::Engine(name, share) => if share.after(o).ended() {
                self.settled(name)
            } else {
                UseStage::Engine(name, share.after(o))
            },
            UseStage::LoadGlobal(name) => match o {
                Outcome::Global(_) => UseStage::SaveGlobal(
                    name,
                    GlobalConfig { default_env: Some(name) },
                ),
                _ => Self::unless_failed(o, UseStage::Failed(CommandFailure::Unanswered)),
            },
            UseStage::SaveGlobal(name, _) => Self::unless_failed(o, UseStage::Unlink(name)),
            UseStage::Unlink(name) => UseStage::Link(name),
            UseStage::Link(name) => Self::unless_failed(o, UseStage::InstallShims(name)),
            UseStage::InstallShims(name) => UseStage::WorkingDirectory(name),
            UseStage::LoadMeta(name) => UseStage::SaveProject(
                name,
                ProjectConfig {
                    env: Some(name),
                    flutter: match o {
                        Outcome::Meta(meta) => recorded_version(meta),
                        _ => None,
                    },
                },
            ),
            UseStage::SaveProject(name, _) => Self::unless_failed(
                o,
                UseStage::WorkingDirectory(name),
            ),
            UseStage::WorkingDirectory(name) => match o {
                Outcome::Text(project) => UseStage::Integrate(name, project),
                Outcome::Failed(e) => UseStage::Failed(CommandFailure::NoDirectory(e)),
                _ => UseStage::Failed(CommandFailure::Unanswered),
            },
            UseStage::Integrate(name, _) => UseStage::Done(name),
            UseStage::Done(_) | UseStage::Failed(_) => self.stage,
        }
    }

    /// What comes after the outcome `o` of the pending action.
    pub open spec fn after(self, o: Outcome) -> Self {
        Activation { stage: self.stage_after(o), ..self }
    }

    /// `stage`, unless the system failed.
    fn on_success(o: Outcome, stage: UseStage) -> (r: UseStage)
        ensures
            r == Self::unless_failed(o, stage),
    {
        match o {
            Outcome::Failed(e) => UseStage::Failed(CommandFailure::System(e)),
            _ => stage,
        }
    }

    /// The environment is known, and whether it is linked to its engine is settled.
    fn on_settled(global: bool, name: String) -> (r: UseStage)
        ensures
            r == (if global {
                UseStage::LoadGlobal(name)
            } else {
                UseStage::LoadMeta(name)
            }),
    {
        if global {
            UseStage::LoadGlobal(name)
        } else {
            UseStage::LoadMeta(name)
        }
    }

    /// Take in the outcome of the pending action.
    pub fn next(self, o: Outcome) -> (r: Self)
        ensures
            r == self.after(o),
            self.wf() ==> r.wf(),
    {
        let global = self.global;
        let stage = match self.stage {
            UseStage::FindActive => match o {
                Outcome::Active(Some(name)) => UseStage::Look(name),
                _ => Self::on_success(o, UseStage::Choose),
            },
            UseStage::Choose => match o {
                Outcome::Text(name) => UseStage::Look(name),
                _ => Self::on_success(o, UseStage::Failed(CommandFailure::Unanswered)),
            },
            UseStage::Look(name) => match o {
                Outcome::Yes => UseStage::EngineVersion(name),
                _ => UseStage::Failed(CommandFailure::NotFound(name)),
            },
            UseStage::EngineVersion(name) => match o {
                Outcome::Text(hash) => {
                    let share = try_link_engine(EnvPlace::Named(name.clone()), hash);
                    UseStage::Engine(name, share)
                },
                _ => Self::on_settled(global, name),
            },
            UseStage::Engine(name, share) => {
                let share = share.next(o);
                if share.is_ended() {
                    Self::on_settled(global, name)
                } else {
                    UseStage::Engine(name, share)
                }
            },
            UseStage::LoadGlobal(name) => match o {
                Outcome::Global(_) => {
                    let config = GlobalConfig { default_env: Some(name.clone()) };
                    UseStage::SaveGlobal(name, config)
                },
                _ => Self::on_success(o, UseStage::Failed(CommandFailure::Unanswered)),
            },
            UseStage::SaveGlobal(name, _) => Self::on_success(o, UseStage::Unlink(name)),
            UseStage::Unlink(name) => UseStage::Link(name),
            UseStage::Link(name) => Self::on_success(o, UseStage::InstallShims(name)),
            UseStage::InstallShims(name) => UseStage::WorkingDirectory(name),
            UseStage::LoadMeta(name) => {
                let flutter = match o {
                    Outcome::Meta(meta) => if meta.version.is_some() {
                        meta.version
                    } else if meta.channel.is_some() {
                        meta.channel
                    } else {
                        meta.commit
                    },
                    _ => None,
                };
                let config = ProjectConfig { env: Some(name.clone()), flutter };
                UseStage::SaveProject(name, config)
            },
            UseStage::SaveProject(name, _) => Self::on_success(
                o,
                UseStage::WorkingDirectory(name),
            ),
            UseStage::WorkingDirectory(name) => match o {
                Outcome::Text(project) => UseStage::Integrate(name, project),
                Outcome::Failed(e) => UseStage::Failed(CommandFailure::NoDirectory(e)),
                _ => UseStage::Failed(CommandFailure::Unanswered),
            },
            UseStage::Integrate(name, _) => UseStage::Done(name),
            UseStage::Done(name) => UseStage::Done(name),
            UseStage::Failed(f) => UseStage::Failed(f),
        };
        Activation { global, stage }
    }

    /// How many outcomes are awaited at most.
    pub open spec fn steps_left(self) -> nat {
        match self.stage {
            UseStage::FindActive => 30,
            UseStage::Choose => 29,
            UseStage::Look(_) => 28,
            UseStage::EngineVersion(_) => 27,
            UseStage::Engine(_, share) => 10 + share.steps_left(),
            UseStage::LoadGlobal(_) => 9,
            UseStage::SaveGlobal(_, _) => 8,
            UseStage::Unlink(_) => 7,
            UseStage::Link(_) => 6,
            UseStage::InstallShims(_) => 5,
            UseStage::LoadMeta(_) => 9,
            UseStage::SaveProject(_, _) => 8,
            UseStage::WorkingDirectory(_) => 4,
            UseStage::Integrate(_, _) => 3,
            UseStage::Done(_) => 0,
            UseStage::Failed(_) => 0,
        }
    }

    /// `r` is the pending action, for a home at `root`.
    pub open spec fn asks(self, root: LocationView, platform: Platform, r: Option<Action>) -> bool {
        match (self.stage, r) {
            (UseStage::FindActive, Some(Action::FindActive)) => true,
            (UseStage::Choose, Some(Action::ChooseEnv { prompt })) => prompt@
                == "? Select environment:"@,
            (UseStage::Look(name), Some(Action::IsDirectory(l))) => l@ == env_of(
                root,
                name@,
            ),
            (UseStage::EngineVersion(name), Some(Action::EngineVersion(l))) => l@ == env_of(
                root,
                name@,
            ),
            (UseStage::Engine(_, share), _) => share.asks(root, platform, r),
            (UseStage::LoadGlobal(_), Some(Action::LoadGlobal)) => true,
            (UseStage::SaveGlobal(_, c), Some(Action::SaveGlobal(config))) => config == c,
            (UseStage::Unlink(_), Some(Action::Unlink(l))) => l@ == default_link(root),
            (UseStage::Link(name), Some(Action::Link { link, target })) => link@
                == default_link(root) && target@ == env_of(root, name@),
            (UseStage::InstallShims(_), Some(Action::InstallShims)) => true,
            (UseStage::LoadMeta(name), Some(Action::LoadMeta(l))) => l@ == env_of(
                root,
                name@,
            ),
            (UseStage::SaveProject(_, c), Some(Action::SaveProject(config))) => config == c,
            (UseStage::WorkingDirectory(_), Some(Action::WorkingDirectory)) => true,
            (
                UseStage::Integrate(name, p),
                Some(Action::IntegrateEditors { env, project }),
            ) => env@ == env_of(root, name@) && project == p,
            (UseStage::Done(_), None) => true,
            (UseStage::Failed(_), None) => true,
            _ => false,
        }
    }

    /// The pending action, if there is one.
    pub fn action(&self, home: &PristHome, platform: Platform) -> (r: Option<Action>)
        ensures
            self.wf() ==> (r is Some <==> !self.ended()),
            self.asks(home.root@, platform, r),
    {
        match &self.stage {
            UseStage::FindActive => Some(Action::FindActive),
            UseStage::Choose => Some(Action::ChooseEnv { prompt: "? Select environment:" }),
            UseStage::Look(name) => Some(Action::IsDirectory(home.env(name.as_str()))),
            UseStage::EngineVersion(name) => Some(Action::EngineVersion(home.env(name.as_str()))),
            UseStage::Engine(_, share) => share.action(home, platform),
            UseStage::LoadGlobal(_) => Some(Action::LoadGlobal),
            UseStage::SaveGlobal(_, config) => Some(
                Action::SaveGlobal(GlobalConfig { default_env: copied(&config.default_env) }),
            ),
            UseStage::Unlink(_) => Some(Action::Unlink(home.default_env_link())),
            UseStage::Link(name) => Some(
                Action::Link { link: home.default_env_link(), target: home.env(name.as_str()) },
            ),
            UseStage::InstallShims(_) => Some(Action::InstallShims),
            UseStage::LoadMeta(name) => Some(Action::LoadMeta(home.env(name.as_str()))),
            UseStage::SaveProject(_, config) => Some(
                Action::SaveProject(
                    ProjectConfig { env: copied(&config.env), flutter: copied(&config.flutter) },
                ),
            ),
            UseStage::WorkingDirectory(_) => Some(Action::WorkingDirectory),
            UseStage::Integrate(name, project) => Some(
                Action::IntegrateEditors {
                    env: home.env(name.as_str()),
                    project: project.clone(),
                },
            ),
            UseStage::Done(_) => None,
            UseStage::Failed(_) => None,
        }
    }
}

/// An activation makes only an environment active that is there, and one and the same
/// from then on. It is the global default only once the global configuration names it
/// and the default link leads to it, and the project's only once the project file
/// names it. Each outcome brings the activation closer to the end.
pub proof fn law_activation_names_one_env(before: Activation, o: Outcome)
    requires
        before.wf(),
        !before.ended(),
    ensures
        before.after(o).wf(),
        before.after(o).steps_left() < before.steps_left(),
        before.after(o).global == before.global,
        match (before.stage.target(), before.after(o).stage.target()) {
            (Some(a), Some(b)) => a == b,
            (Some(_), None) => before.after(o).stage is Failed,
            (None, _) => true,
        },
        before.after(o).stage is EngineVersion ==> before.stage is Look && o is Yes,
        before.after(o).stage is Unlink ==> before.stage is SaveGlobal && !(o is Failed),
        before.after(o).stage is InstallShims ==> before.stage is Link && !(o is Failed),
        before.after(o).stage is WorkingDirectory ==> if before.global {
            before.stage is InstallShims
        } else {
            before.stage is SaveProject && !(o is Failed)
        },
        before.after(o).stage is Done ==> before.stage is Integrate,
{
    if let UseStage::Engine(_, share) = before.stage {
        law_engine_is_shared_when_complete(share, o);
    }
}

/// What an activation writes is what is active afterwards: in the project whose file was
/// written, and for the global default wherever no project pins an environment.
pub proof fn law_activated_env_is_active(
    activation: Activation,
    path: String,
    project: Option<(String, ProjectConfig)>,
    global: Option<GlobalConfig>,
)
    requires
        activation.wf(),
    ensures
        match activation.stage {
            UseStage::SaveProject(name, config) => resolution(Some((path, config)), global)
                == Resolution::Active(Some(name), ActiveSource::Project(path)),
            UseStage::SaveGlobal(name, config) => pinned(project) is None ==> resolution(
                project,
                Some(config),
            ) == Resolution::Active(Some(name), ActiveSource::Global),
            _ => true,
        },
{
}

/// A project file records the version of the environment; else its channel; else its commit;
/// and nothing where there is no record.
pub proof fn law_most_exact_version_is_recorded(before: Activation, meta: EnvMeta, o: Outcome)
    requires
        before.stage is LoadMeta,
    ensures
        before.after(Outcome::Meta(meta)).stage matches UseStage::SaveProject(name, c) && name
            == before.stage->LoadMeta_0 && c.env == Some(name) && (meta.version is Some ==> c.flutter
            == meta.version) && (meta.version is None && meta.channel is Some ==> c.flutter
            == meta.channel) && (meta.version is None && meta.channel is None ==> c.flutter
            == meta.commit),
        !(o is Meta) ==> (before.after(o).stage matches UseStage::SaveProject(_, c)
            && c.flutter is None),
{
}

/// The default link of an activation leads to the directory of the environment.
pub proof fn law_default_link_leads_to_the_environment(
    activation: Activation,
    root: LocationView,
    platform: Platform,
    r: Option<Action>,
)
    requires
        activation.asks(root, platform, r),
    ensures
        activation.stage matches UseStage::Link(name) ==> (r matches Some(
            Action::Link { link, target },
        ) && link@ == (LocationView {
            base: root.base,
            parts: root.parts + seq!["envs"@, "default"@],
        }) && target@ == (LocationView {
            base: root.base,
            parts: root.parts + seq!["envs"@, name@],
        })),
        activation.stage matches UseStage::SaveGlobal(_, c) ==> r == Some(Action::SaveGlobal(c)),
        activation.stage matches UseStage::SaveProject(_, c) ==> r == Some(Action::SaveProject(c)),
{
    if let UseStage::Link(name) = activation.stage {
        law_home_is_laid_out(root, name@);
    }
}

/// An activation links the environment to the engine that it asks for, where that is there,
/// and downloads nothing.
pub proof fn law_activation_downloads_nothing(before: Activation, hash: String)
    ensures
        before.stage matches UseStage::EngineVersion(name) ==> (before.after(
            Outcome::Text(hash),
        ).stage matches UseStage::Engine(n, share) && n == name && share.env == EnvPlace::Named(name)
            && share.hash == hash && !share.download && share.stage is Look),
{
}

/// Which environment is activated: the one that is named; else the active one; else the one
/// that the user chooses. It has to be there.
pub proof fn law_activation_finds_its_environment(before: Activation, name: String, o: Outcome)
    ensures
        before.stage is FindActive ==> before.after(Outcome::Active(Some(name))).stage
            == UseStage::Look(name) && before.after(Outcome::Active(None)).stage is Choose,
        before.stage is Choose ==> before.after(Outcome::Text(name)).stage == UseStage::Look(name),
        before.stage == UseStage::Look(name) ==> before.after(Outcome::Yes).stage
            == UseStage::EngineVersion(name),
        before.stage == UseStage::Look(name) && !(o is Yes) ==> before.after(o).stage
            == UseStage::Failed(CommandFailure::NotFound(name)),
        (before.stage is FindActive || before.stage is Choose || before.stage is LoadGlobal
            || before.stage is SaveGlobal || before.stage is Link || before.stage is SaveProject)
            && o is Failed ==> before.after(o).stage == UseStage::Failed(
            CommandFailure::System(o->Failed_0),
        ),
{
}

} // verus!
