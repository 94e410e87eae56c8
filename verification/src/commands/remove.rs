//! `prist rm`: remove an environment. What is shared stays.

use vstd::prelude::*;

use crate::commands::failure::CommandFailure;
use crate::commands::names::{is_env_name, leads_to_env};
use crate::config::{ActiveSource, GlobalConfig, ProjectConfig, Resolution, pinned, resolution};
use crate::paths::{LocationView, PristHome, below, default_link, env_of, law_envs_stand_apart_from_shared, law_home_is_laid_out, shared_dir};
use crate::text::same;
use crate::work::{Action, Outcome};

verus! {

/// How far a removal has come, and of which environment, once that is known.
#[derive(Debug)]
pub enum RemoveStage {
    /// The user has to choose.
    Choose,
    /// Is there such an environment?
    Look(String),
    /// The user has to confirm.
    Confirm(String),
    /// The environment is to be removed.
    Remove(String),
    /// The global configuration is to be read.
    LoadGlobal(String),
    /// The global configuration is to be written, without a default.
    SaveGlobal(String),
    /// The default link is to be removed.
    Unlink(String),
    /// The environment is gone.
    Done(String),
    /// The user did not confirm.
    Aborted,
    Failed(CommandFailure),
}

/// A removal under way.
#[derive(Debug)]
pub struct Removal {
    /// Whether the user need not confirm.
    pub force: bool,
    pub stage: RemoveStage,
}

/// What comes once the user has named an environment: a name that leads anywhere else
/// is refused.
pub open spec fn entered(name: String) -> RemoveStage {
    if leads_to_env(name@) {
        RemoveStage::Look(name)
    } else {
        RemoveStage::Failed(CommandFailure::BadName(name))
    }
}

/// What comes once the user has named an environment.
fn enter(name: String) -> (r: RemoveStage)
    ensures
        r == entered(name),
{
    if is_env_name(name.as_str()) {
        RemoveStage::Look(name)
    } else {
        RemoveStage::Failed(CommandFailure::BadName(name))
    }
}

/// Remove the environment `env`, or where none is named one that the user chooses. A
/// name that leads anywhere but to an environment is refused.
pub fn rm(env: Option<String>, force: bool) -> (r: Removal)
    ensures
        r == (Removal {
            force,
            stage: match env {
                Some(name) => entered(name),
                None => RemoveStage::Choose,
            },
        }),
        r.wf(),
{
    let stage = match env {
        Some(name) => enter(name),
        None => RemoveStage::Choose,
    };
    Removal { force, stage }
}

/// The configuration names the environment as the default.
pub open spec fn names_default(config: GlobalConfig, name: Seq<char>) -> bool {
    config.default_env matches Some(d) && d@ == name
}

/// Whether the configuration names the environment as the default.
pub fn is_default(config: &GlobalConfig, name: &str) -> (r: bool)
    ensures
        r == names_default(*config, name@),
{
    match &config.default_env {
        Some(d) => same(d.as_str(), name),
        None => false,
    }
}

impl Removal {
    /// The environment in question, once it is known.
    pub open spec fn target(self) -> Option<String> {
        match self.stage {
            RemoveStage::Look(name) => Some(name),
            RemoveStage::Confirm(name) => Some(name),
            RemoveStage::Remove(name) => Some(name),
            RemoveStage::LoadGlobal(name) => Some(name),
            RemoveStage::SaveGlobal(name) => Some(name),
            RemoveStage::Unlink(name) => Some(name),
            RemoveStage::Done(name) => Some(name),
            _ => None,
        }
    }

    /// What is in question is an environment.
    pub open spec fn wf(self) -> bool {
        match self.target() {
            Some(name) => leads_to_env(name@),
            None => true,
        }
    }

    /// Nothing is pending.
    pub open spec fn ended(self) -> bool {
        self.stage is Done || self.stage is Aborted || self.stage is Failed
    }

    /// `stage`, unless the system failed.
    pub open spec fn unless_failed(o: Outcome, stage: RemoveStage) -> RemoveStage {
        match o {
            Outcome::Failed(e) => RemoveStage::Failed(CommandFailure::System(e)),
            _ => stage,
        }
    }

    /// The stage after the outcome `o` of the pending action.
    pub open spec fn stage_after(self, o: Outcome) -> RemoveStage {
        match self.stage {
            RemoveStage::Choose => match o {
                Outcome::Text(name) => entered(name),
                _ => Self::unless_failed(o, RemoveStage::Failed(CommandFailure::Unanswered)),
            },
            RemoveStage::Look(name) => if !(o is Yes) {
                RemoveStage::Failed(CommandFailure::NotFound(name))
            } else if self.force {
                RemoveStage::Remove(name)
            } else {
                RemoveStage::Confirm(name)
            },
            RemoveStage::Confirm(name) => if o is Yes {
                RemoveStage::Remove(name)
            } else {
                RemoveStage::Aborted
            },
            RemoveStage::Remove(name) => Self::unless_failed(o, RemoveStage::LoadGlobal(name)),
            RemoveStage::LoadGlobal(name) => match o {
                Outcome::Global(config) => if names_default(config, name@) {
                    RemoveStage::SaveGlobal(name)
                } else {
                    RemoveStage::Done(name)
                },
                _ => Self::unless_failed(o, RemoveStage::Failed(CommandFailure::Unanswered)),
            },
            RemoveStage::SaveGlobal(name) => Self::unless_failed(o, RemoveStage::Unlink(name)),
            RemoveStage::Unlink(name) => RemoveStage::Done(name),
            RemoveStage::Done(_) | RemoveStage::Aborted | RemoveStage::Failed(_) => self.stage,
        }
    }

    /// What comes after the outcome `o` of the pending action.
    pub open spec fn after(self, o: Outcome) -> Self {
        Removal { stage: self.stage_after(o), ..self }
    }

    /// `stage`, unless the system failed.
    fn on_success(o: Outcome, stage: RemoveStage) -> (r: RemoveStage)
        ensures
            r == Self::unless_failed(o, stage),
    {
        match o {
            Outcome::Failed(e) => RemoveStage::Failed(CommandFailure::System(e)),
            _ => stage,
        }
    }

    /// Take in the outcome of the pending action.
    pub fn next(self, o: Outcome) -> (r: Self)
        ensures
            r == self.after(o),
            self.wf() ==> r.wf(),
    {
        let force = self.force;
        let stage = match self.stage {
            RemoveStage::Choose => match o {
                Outcome::Text(name) => enter(name),
                _ => Self::on_success(o, RemoveStage::Failed(CommandFailure::Unanswered)),
            },
            RemoveStage::Look(name) => match o {
                Outcome::Yes => if force {
                    RemoveStage::Remove(name)
                } else {
                    RemoveStage::Confirm(name)
                },
                _ => RemoveStage::Failed(CommandFailure::NotFound(name)),
            },
            RemoveStage::Confirm(name) => match o {
                Outcome::Yes => RemoveStage::Remove(name),
                _ => RemoveStage::Aborted,
            },
            RemoveStage::Remove(name) => Self::on_success(o, RemoveStage::LoadGlobal(name)),
            RemoveStage::LoadGlobal(name) => match o {
                Outcome::Global(config) => if is_default(&config, name.as_str()) {
                    RemoveStage::SaveGlobal(name)
                } else {
                    RemoveStage::Done(name)
                },
                _ => Self::on_success(o, RemoveStage::Failed(CommandFailure::Unanswered)),
            },
            RemoveStage::SaveGlobal(name) => Self::on_success(o, RemoveStage::Unlink(name)),
            RemoveStage::Unlink(name) => RemoveStage::Done(name),
            RemoveStage::Done(name) => RemoveStage::Done(name),
            RemoveStage::Aborted => RemoveStage::Aborted,
            RemoveStage::Failed(f) => RemoveStage::Failed(f),
        };
        Removal { force, stage }
    }

    /// `r` is the pending action, for a home at `root`.
    pub open spec fn asks(self, root: LocationView, r: Option<Action>) -> bool {
        match (self.stage, r) {
            (RemoveStage::Choose, Some(Action::ChooseEnv { prompt })) => prompt@
                == "? Select an environment to remove:"@,
            (RemoveStage::Look(name), Some(Action::IsDirectory(l))) => l@ == env_of(root, name@),
            (RemoveStage::Confirm(name), Some(Action::ConfirmRemoval { name: n })) => n == name,
            (RemoveStage::Remove(name), Some(Action::RemoveTree(l))) => l@ == env_of(root, name@),
            (RemoveStage::LoadGlobal(_), Some(Action::LoadGlobal)) => true,
            (RemoveStage::SaveGlobal(_), Some(Action::SaveGlobal(config))) =>
                config.default_env is None,
            (RemoveStage::Unlink(_), Some(Action::Unlink(l))) => l@ == default_link(root),
            (RemoveStage::Done(_), None) => true,
            (RemoveStage::Aborted, None) => true,
            (RemoveStage::Failed(_), None) => true,
            _ => false,
        }
    }

    /// The pending action, if there is one.
    pub fn action(&self, home: &PristHome) -> (r: Option<Action>)
        ensures
            r is Some <==> !self.ended(),
            self.asks(home.root@, r),
    {
        match &self.stage {
            RemoveStage::Choose => Some(
                Action::ChooseEnv { prompt: "? Select an environment to remove:" },
            ),
            RemoveStage::Look(name) => Some(Action::IsDirectory(home.env(name.as_str()))),
            RemoveStage::Confirm(name) => Some(Action::ConfirmRemoval { name: name.clone() }),
            RemoveStage::Remove(name) => Some(Action::RemoveTree(home.env(name.as_str()))),
            RemoveStage::LoadGlobal(_) => Some(Action::LoadGlobal),
            RemoveStage::SaveGlobal(_) => Some(
                Action::SaveGlobal(GlobalConfig { default_env: None }),
            ),
            RemoveStage::Unlink(_) => Some(Action::Unlink(home.default_env_link())),
            RemoveStage::Done(_) => None,
            RemoveStage::Aborted => None,
            RemoveStage::Failed(_) => None,
        }
    }

    /// How many outcomes are awaited at most.
    pub open spec fn steps_left(self) -> nat {
        match self.stage {
            RemoveStage::Choose => 7,
            RemoveStage::Look(_) => 6,
            RemoveStage::Confirm(_) => 5,
            RemoveStage::Remove(_) => 4,
            RemoveStage::LoadGlobal(_) => 3,
            RemoveStage::SaveGlobal(_) => 2,
            RemoveStage::Unlink(_) => 1,
            _ => 0,
        }
    }
}

/// An environment is removed only if it is there and the user confirmed it or forced
/// it. The global default is taken away exactly where it was that environment. Each
/// outcome brings the removal closer to the end.
pub proof fn law_removal_is_confirmed(before: Removal, o: Outcome)
    requires
        !before.ended(),
    ensures
        before.after(o).steps_left() < before.steps_left(),
        before.after(o).force == before.force,
        before.wf() ==> before.after(o).wf(),
        match (before.target(), before.after(o).target()) {
            (Some(a), Some(b)) => a == b,
            _ => true,
        },
        before.after(o).stage matches RemoveStage::Remove(name) ==> o is Yes && (before.stage
            == RemoveStage::Confirm(name) || (before.force && before.stage == RemoveStage::Look(
            name,
        ))),
        before.after(o).stage matches RemoveStage::Confirm(name) ==> o is Yes && before.stage
            == RemoveStage::Look(name),
        before.stage matches RemoveStage::LoadGlobal(name) ==> {
            &&& before.after(o).stage is SaveGlobal <==> (o matches Outcome::Global(config)
                && names_default(config, name@))
            &&& before.after(o).stage is Done <==> (o matches Outcome::Global(config)
                && !names_default(config, name@))
        },
{
}

/// Each state comes after the one before it, by the outcome that stands between them.
pub open spec fn is_run(states: Seq<Removal>, outcomes: Seq<Outcome>) -> bool {
    &&& states.len() == outcomes.len() + 1
    &&& forall|i: int|
        0 <= i < outcomes.len() ==> #[trigger] states[i + 1] == states[i].after(outcomes[i])
}

/// What is in question in a run is an environment throughout.
proof fn lemma_run(states: Seq<Removal>, outcomes: Seq<Outcome>, k: int)
    requires
        is_run(states, outcomes),
        states[0].wf(),
        0 <= k < states.len(),
    ensures
        states[k].wf(),
    decreases k,
{
    if k > 0 {
        lemma_run(states, outcomes, k - 1);
        assert(states[k - 1 + 1] == states[k - 1].after(outcomes[k - 1]));
    }
}

/// A removal leaves what is shared untouched, whatever the user names: all that it ever
/// removes is one directory right below that of the environments, or the default link,
/// and nothing that lies below what it removes is shared.
pub proof fn law_removal_spares_what_is_shared(
    states: Seq<Removal>,
    outcomes: Seq<Outcome>,
    k: int,
    root: LocationView,
    r: Option<Action>,
    p: LocationView,
)
    requires
        is_run(states, outcomes),
        states[0].wf(),
        0 <= k < states.len(),
        states[k].asks(root, r),
    ensures
        r matches Some(Action::RemoveTree(l)) ==> exists|name: Seq<char>| #[trigger]
            leads_to_env(name) && l@ == env_of(root, name) && (below(p, l@) ==> !below(
                p,
                shared_dir(root),
            )),
        r matches Some(Action::Unlink(l)) ==> l@ == default_link(root) && (below(p, l@) ==> !below(
            p,
            shared_dir(root),
        )),
{
    lemma_run(states, outcomes, k);
    law_envs_stand_apart_from_shared(root, "default"@, p);
    if let RemoveStage::Remove(name) = states[k].stage {
        assert(leads_to_env(name@));
        law_envs_stand_apart_from_shared(root, name@, p);
    }
}

/// Where the removed environment was the global default, none is active afterwards
/// wherever no project pins an environment.
pub proof fn law_removed_default_is_inactive(
    before: Removal,
    root: LocationView,
    r: Option<Action>,
    project: Option<(String, ProjectConfig)>,
)
    requires
        before.stage is SaveGlobal,
        before.asks(root, r),
        pinned(project) is None,
    ensures
        r matches Some(Action::SaveGlobal(config)) && resolution(project, Some(config))
            == Resolution::Active(None, ActiveSource::Nowhere),
{
}

/// The default is taken away where the configuration names exactly the environment.
pub proof fn law_default_is_named_exactly(config: GlobalConfig, name: Seq<char>)
    ensures
        names_default(config, name) <==> (config.default_env matches Some(d) && d@ == name),
{
}

/// What a removal does at each stage: it looks at the environment that is named, asks the user
/// about that one, and removes that one.
pub proof fn law_removal_is_of_the_environment_named(
    removal: Removal,
    root: LocationView,
    r: Option<Action>,
)
    requires
        removal.asks(root, r),
    ensures
        removal.stage matches RemoveStage::Look(name) ==> (r matches Some(Action::IsDirectory(l))
            && l@ == (LocationView {
            base: root.base,
            parts: root.parts + seq!["envs"@, name@],
        })),
        removal.stage matches RemoveStage::Confirm(name) ==> r == Some(
            Action::ConfirmRemoval { name },
        ),
        removal.stage matches RemoveStage::Remove(name) ==> (r matches Some(Action::RemoveTree(l))
            && l@ == (LocationView {
            base: root.base,
            parts: root.parts + seq!["envs"@, name@],
        })),
        removal.stage is SaveGlobal ==> (r matches Some(Action::SaveGlobal(c))
            && c.default_env is None),
        removal.stage is Unlink ==> (r matches Some(Action::Unlink(l)) && l@ == (LocationView {
            base: root.base,
            parts: root.parts + seq!["envs"@, "default"@],
        })),
{
    if let RemoveStage::Look(name) = removal.stage {
        law_home_is_laid_out(root, name@);
    }
    if let RemoveStage::Remove(name) = removal.stage {
        law_home_is_laid_out(root, name@);
    }
    law_home_is_laid_out(root, seq![]);
}

} // verus!
