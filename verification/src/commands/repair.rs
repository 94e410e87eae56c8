//! `prist repair`: put in order what `prist doctor` finds fault with.

use vstd::prelude::*;

use crate::commands::doctor::{AlternateFacts, alternates_lead_somewhere};
use crate::commands::failure::CommandFailure;
use crate::error::PristError;
use crate::git_ops::{EnsureBare, FLUTTER_REPO_URL, GitFailure, alternates_dir, alternates_directory, alternates_file, alternates_path, ensure_bare, git_in, law_alternates_read_back, law_bare_is_ready_with_gc_off, repaired, repaired_config, shared_objects};
use crate::paths::{LocationView, PristHome, bare_repo, env_of};
use crate::text::{is_line, lines, same};
use crate::work::{Action, Args, ArgView, Outcome};

verus! {

/// A step of a repair.
#[derive(Debug)]
pub struct Step {
    pub action: Action,
    /// Whether the repair ends where the step fails.
    pub needed: bool,
}

/// A step of a repair, as the texts it holds.
pub enum StepView {
    /// Create a directory; the repair ends where that fails.
    MakeDirectory(LocationView),
    /// Write an alternates file; the repair ends where that fails.
    WriteAlternates(LocationView, LocationView),
    /// Run git; that it fails does not matter.
    Git(Seq<ArgView>),
}

impl Step {
    /// The step is `v`.
    pub open spec fn is_step(self, v: StepView) -> bool {
        does(self.action, v) && self.needed == !(v is Git)
    }
}

/// The action does the step `v`.
pub open spec fn does(action: Action, v: StepView) -> bool {
    match (action, v) {
        (Action::MakeDirectory(l), StepView::MakeDirectory(m)) => l@ == m,
        (Action::WriteAlternates { file, objects }, StepView::WriteAlternates(f, o)) => file@ == f
            && objects@ == o,
        (Action::Git { args, shown }, StepView::Git(a)) => !shown && args@ == a,
        _ => false,
    }
}

/// The steps are `views`.
pub open spec fn are_steps(steps: Seq<Step>, views: Seq<StepView>) -> bool {
    steps.len() == views.len() && forall|i: int|
        0 <= i < steps.len() ==> (#[trigger] steps[i]).is_step(views[i])
}

/// A list of words, as arguments.
pub open spec fn words(list: Seq<Seq<char>>) -> Seq<ArgView> {
    list.map_values(|w: Seq<char>| ArgView::Word(w))
}

/// Git working in `dir`, with some words as arguments.
pub open spec fn git_step(dir: LocationView, list: Seq<Seq<char>>) -> StepView {
    StepView::Git(seq![ArgView::Word("-C"@), ArgView::Place(dir)] + words(list))
}

/// Each of some answers is yes.
pub open spec fn all_yes(list: Seq<bool>) -> bool {
    forall|i: int| 0 <= i < list.len() ==> #[trigger] list[i]
}

/// The alternates file of an environment needs a repair: it cannot be read, or points
/// at something that is no directory.
pub open spec fn alternates_broken(directories: Option<Seq<bool>>) -> bool {
    match directories {
        Some(list) => !all_yes(list),
        None => true,
    }
}

/// What the file system says of an environment that is repaired.
#[derive(Debug)]
pub struct EnvState {
    pub name: String,
    /// Of each path that the alternates file points at, whether it is a directory, if
    /// the file can be read.
    pub alternates: Option<Vec<bool>>,
    /// Whether there is a `bin/flutter`.
    pub flutter: bool,
    /// Whether there is a `bin/flutter.bat`.
    pub flutter_bat: bool,
    /// The Flutter version that its files state.
    pub version: Option<String>,
}

impl EnvState {
    /// Whether the alternates file needs a repair.
    pub open spec fn broken(self) -> bool {
        alternates_broken(
            match self.alternates {
                Some(list) => Some(list@),
                None => None,
            },
        )
    }

    /// The reference that is checked out where the Flutter tool is missing.
    pub open spec fn wanted(self) -> Seq<char> {
        match self.version {
            Some(v) => v@,
            None => "stable"@,
        }
    }

    /// The steps that repair the alternates file.
    pub open spec fn alternates_steps(self, root: LocationView) -> Seq<StepView> {
        let env = env_of(root, self.name@);
        if self.broken() {
            seq![
                StepView::MakeDirectory(alternates_dir(env)),
                StepView::WriteAlternates(alternates_file(env), shared_objects(root)),
            ]
        } else {
            seq![]
        }
    }

    /// The step that brings back the files.
    pub open spec fn checkout_steps(self, root: LocationView) -> Seq<StepView> {
        if !self.flutter && !self.flutter_bat {
            seq![
                git_step(env_of(root, self.name@), seq!["checkout"@, "-f"@, self.wanted()]),
            ]
        } else {
            seq![]
        }
    }

    /// The steps that make the environment follow the upstream branch `stable`.
    pub open spec fn upstream_steps(self, root: LocationView) -> Seq<StepView> {
        let env = env_of(root, self.name@);
        seq![
            git_step(env, seq!["remote"@, "set-url"@, "origin"@, FLUTTER_REPO_URL@]),
            git_step(
                env,
                seq!["config"@, "remote.origin.fetch"@, "+refs/heads/*:refs/remotes/origin/*"@],
            ),
            git_step(env, seq!["update-ref"@, "refs/remotes/origin/stable"@, "HEAD"@]),
            git_step(env, seq!["checkout"@, "-B"@, "stable"@]),
            git_step(env, seq!["branch"@, "--set-upstream-to"@, "origin/stable"@]),
        ]
    }

    /// All steps that repair the environment.
    pub open spec fn repair_steps(self, root: LocationView) -> Seq<StepView> {
        if self.name@ == "default"@ {
            seq![]
        } else {
            self.alternates_steps(root) + self.checkout_steps(root) + self.upstream_steps(root)
        }
    }
}

/// Whether each of some paths is a directory.
fn all_directories(list: &Vec<bool>) -> (r: bool)
    ensures
        r == all_yes(list@),
{
    let mut i: usize = 0;
    while i < list.len()
        invariant
            i <= list@.len(),
            forall|j: int| 0 <= j < i ==> #[trigger] list@[j],
        decreases list@.len() - i,
    {
        if !list[i] {
            return false;
        }
        i += 1;
    }
    true
}

/// Add a call of git whose failure does not matter.
fn push_git(steps: &mut Vec<Step>, args: Args, Ghost(before): Ghost<Seq<StepView>>)
    requires
        are_steps(old(steps)@, before),
    ensures
        are_steps(final(steps)@, before.push(StepView::Git(args@))),
{
    steps.push(Step { action: Action::Git { args, shown: false }, needed: false });
}

/// The steps that repair an environment: its alternates file is written where it leads
/// nowhere, its files are brought back where its Flutter tool is missing, and it is made
/// to follow the upstream branch `stable`. The default link is left alone.
pub fn repair_env(home: &PristHome, env: &EnvState) -> (r: Vec<Step>)
    ensures
        are_steps(r@, env.repair_steps(home.root@)),
{
    let mut steps: Vec<Step> = Vec::new();
    if same(env.name.as_str(), "default") {
        return steps;
    }
    let place = home.env(env.name.as_str());
    let whole = match &env.alternates {
        Some(list) => all_directories(list),
        None => false,
    };
    if !whole {
        steps.push(
            Step { action: Action::MakeDirectory(alternates_directory(&place)), needed: true },
        );
        steps.push(
            Step {
                action: Action::WriteAlternates {
                    file: alternates_path(&place),
                    objects: home.git_bare().join("objects"),
                },
                needed: true,
            },
        );
    }
    let ghost mut views = env.alternates_steps(home.root@);
    assert(are_steps(steps@, views));
    let ghost e = place@;
    if !env.flutter && !env.flutter_bat {
        let wanted: &str = match &env.version {
            Some(v) => v.as_str(),
            None => "stable",
        };
        let args = git_in(place.clone()).word("checkout").word("-f").word(wanted);
        assert(StepView::Git(args@) == git_step(e, seq!["checkout"@, "-f"@, env.wanted()])) by {
            assert(args@ =~= seq![ArgView::Word("-C"@), ArgView::Place(e)] + words(
                seq!["checkout"@, "-f"@, env.wanted()],
            ));
        }
        push_git(&mut steps, args, Ghost(views));
        proof {
            views = views.push(
                git_step(e, seq!["checkout"@, "-f"@, env.wanted()]),
            );
        }
    }
    assert(views =~= env.alternates_steps(home.root@) + env.checkout_steps(home.root@));
    let ghost start = views;
    let ghost up = env.upstream_steps(home.root@);
    let args = git_in(place.clone()).word("remote").word("set-url").word("origin").word(
        FLUTTER_REPO_URL,
    );
    assert(args@ =~= up[0]->Git_0);
    push_git(&mut steps, args, Ghost(views));
    let args = git_in(place.clone()).word("config").word("remote.origin.fetch").word(
        "+refs/heads/*:refs/remotes/origin/*",
    );
    assert(args@ =~= up[1]->Git_0);
    push_git(&mut steps, args, Ghost(start.push(up[0])));
    let args = git_in(place.clone()).word("update-ref").word("refs/remotes/origin/stable").word(
        "HEAD",
    );
    assert(args@ =~= up[2]->Git_0);
    push_git(&mut steps, args, Ghost(start.push(up[0]).push(up[1])));
    let args = git_in(place.clone()).word("checkout").word("-B").word("stable");
    assert(args@ =~= up[3]->Git_0);
    push_git(&mut steps, args, Ghost(start.push(up[0]).push(up[1]).push(up[2])));
    let args = git_in(place).word("branch").word("--set-upstream-to").word("origin/stable");
    assert(args@ =~= up[4]->Git_0);
    push_git(&mut steps, args, Ghost(start.push(up[0]).push(up[1]).push(up[2]).push(up[3])));
    assert(start.push(up[0]).push(up[1]).push(up[2]).push(up[3]).push(up[4]) =~= start + up);
    steps
}

/// An alternates file that was written anew points at the shared objects alone. Where
/// these are there, the file is found in order from then on: a further repair leaves it
/// as it is, and so the environment passes that part of its check.
pub proof fn law_repaired_alternates_are_in_order(
    objects: Seq<char>,
    directories: Seq<bool>,
    facts: Seq<AlternateFacts>,
)
    requires
        is_line(objects),
        directories.len() == lines(objects + "\n"@).len(),
        facts.len() == lines(objects + "\n"@).len(),
        directories[0] && facts[0].directory,
    ensures
        lines(objects + "\n"@) == seq![objects],
        !alternates_broken(Some(directories)),
        alternates_lead_somewhere(facts),
{
    law_alternates_read_back(objects);
    assert(all_yes(directories));
}

// ---------------------------------------------------------------------------
// The repair as a whole
// ---------------------------------------------------------------------------

/// Why a repair ended badly.
#[derive(Debug)]
pub enum RepairFailure {
    /// The shared repository could not be had.
    Git(GitFailure),
    /// The alternates file of an environment could not be written.
    Alternates(String),
    Command(CommandFailure),
}

impl RepairFailure {
    /// It is reported as the error `r`.
    pub open spec fn told_as(self, r: PristError) -> bool {
        match self {
            RepairFailure::Git(f) => f.told_as(r),
            RepairFailure::Alternates(e) => r == PristError::Io(e),
            RepairFailure::Command(f) => f.told_as(r),
        }
    }

    /// The error that is reported.
    pub fn error(self) -> (r: PristError)
        ensures
            self.told_as(r),
    {
        match self {
            RepairFailure::Git(f) => f.error(),
            RepairFailure::Alternates(e) => PristError::Io(e),
            RepairFailure::Command(f) => f.error(),
        }
    }
}

/// How far a repair has come.
#[derive(Debug)]
pub enum Repair {
    /// Is the shared repository there?
    Look,
    /// It is being made ready.
    Bare(EnsureBare),
    /// Its configuration is to be read.
    ReadConfig,
    /// Its configuration, as far as it can be read, is to be written anew.
    WriteConfig(Option<String>),
    /// What stands among the environments?
    List,
    /// What does the file system say of the environment of this number?
    Survey(Vec<String>, usize),
    /// The step of the last number is to be done for the environment of the first.
    Mend(Vec<String>, usize, EnvState, usize),
    /// All is done, for all that stood among the environments.
    Done(Vec<String>),
    Failed(RepairFailure),
}

/// Put the shared repository in order, and then each environment.
pub fn repair() -> (r: Repair)
    ensures
        r is Look,
{
    Repair::Look
}

/// The number of the first environment from number `i` on; the default link is none.
pub open spec fn next_env(names: Seq<String>, i: int) -> int
    decreases names.len() - i,
{
    if i >= names.len() {
        names.len() as int
    } else if names[i]@ == "default"@ {
        next_env(names, i + 1)
    } else {
        i
    }
}

/// What is passed over is the default link.
proof fn lemma_next_env(names: Seq<String>, i: int)
    requires
        0 <= i <= names.len(),
    ensures
        i <= next_env(names, i) <= names.len(),
        next_env(names, i) < names.len() ==> names[next_env(names, i)]@ != "default"@,
        forall|n: int| i <= n < next_env(names, i) ==> (#[trigger] names[n])@ == "default"@,
    decreases names.len() - i,
{
    if i < names.len() && names[i]@ == "default"@ {
        lemma_next_env(names, i + 1);
    }
}

impl EnvState {
    /// How many steps repair the environment.
    pub open spec fn step_count(self) -> nat {
        self.repair_steps(LocationView::at(seq![])).len()
    }

    /// How many steps repair the environment.
    fn count_steps(&self) -> (r: usize)
        ensures
            r == self.step_count(),
    {
        if same(self.name.as_str(), "default") {
            return 0;
        }
        let alternates: usize = if self.is_broken() {
            2
        } else {
            0
        };
        let checkout: usize = if !self.flutter && !self.flutter_bat {
            1
        } else {
            0
        };
        alternates + checkout + 5
    }

    /// Whether the alternates file needs a repair.
    fn is_broken(&self) -> (r: bool)
        ensures
            r == self.broken(),
    {
        match &self.alternates {
            Some(list) => !all_directories(list),
            None => true,
        }
    }
}

impl Repair {
    /// Nothing is pending.
    pub open spec fn ended(self) -> bool {
        self is Done || self is Failed
    }

    /// What comes from the environment of number `i` on.
    pub open spec fn from(names: Vec<String>, i: int) -> Self {
        let j = next_env(names@, i);
        if j < names@.len() {
            Repair::Survey(names, j as usize)
        } else {
            Repair::Done(names)
        }
    }

    /// `f` happened.
    pub open spec fn failed(f: CommandFailure) -> Self {
        Repair::Failed(RepairFailure::Command(f))
    }

    /// What comes after the outcome `o` of the pending action.
    pub open spec fn after(self, o: Outcome) -> Self {
        match self {
            Repair::Look => if o is Yes {
                Repair::ReadConfig
            } else {
                Repair::Bare(EnsureBare::Parent(None))
            },
            Repair::Bare(bare) => match bare.after(o) {
                EnsureBare::Done => Repair::List,
                EnsureBare::Failed(f) => Repair::Failed(RepairFailure::Git(f)),
                next => Repair::Bare(next),
            },
            Repair::ReadConfig => match o {
                Outcome::Text(t) => Repair::WriteConfig(Some(t)),
                _ => Repair::WriteConfig(None),
            },
            Repair::WriteConfig(_) => match o {
                Outcome::Failed(e) => Self::failed(CommandFailure::System(e)),
                _ => Repair::List,
            },
            Repair::List => match o {
                Outcome::Names(names) => Self::from(names, 0),
                Outcome::Failed(e) => Self::failed(CommandFailure::System(e)),
                _ => Self::failed(CommandFailure::Unanswered),
            },
            Repair::Survey(names, i) => match o {
                Outcome::Env(state) if i < names@.len() => Repair::Mend(
                    names,
                    i,
                    EnvState { name: names@[i as int], ..state },
                    0,
                ),
                _ => Self::failed(CommandFailure::Unanswered),
            },
            Repair::Mend(names, i, state, k) => match o {
                Outcome::Failed(e) if k < 2 && state.broken() => Repair::Failed(
                    RepairFailure::Alternates(e),
                ),
                _ => if k + 1 < state.step_count() {
                    Repair::Mend(names, i, state, (k + 1) as usize)
                } else {
                    Self::from(names, i + 1)
                },
            },
            Repair::Done(_) | Repair::Failed(_) => self,
        }
    }

    /// What comes from the environment of number `i` on.
    fn go_on(names: Vec<String>, i: usize) -> (r: Self)
        ensures
            r == Self::from(names, i as int),
    {
        let mut j: usize = i;
        while j < names.len() && same(names[j].as_str(), "default")
            invariant
                i <= j,
                j <= names@.len() || j == i,
                next_env(names@, i as int) == next_env(names@, j as int),
            decreases names@.len() - j,
        {
            j += 1;
        }
        if j < names.len() {
            Repair::Survey(names, j)
        } else {
            Repair::Done(names)
        }
    }

    /// Take in the outcome of the pending action.
    pub fn next(self, o: Outcome) -> (r: Self)
        ensures
            r == self.after(o),
    {
        match self {
            Repair::Look => match o {
                Outcome::Yes => Repair::ReadConfig,
                _ => Repair::Bare(ensure_bare(None)),
            },
            Repair::Bare(bare) => match bare.next(o) {
                EnsureBare::Done => Repair::List,
                EnsureBare::Failed(f) => Repair::Failed(RepairFailure::Git(f)),
                bare => Repair::Bare(bare),
            },
            Repair::ReadConfig => match o {
                Outcome::Text(t) => Repair::WriteConfig(Some(t)),
                _ => Repair::WriteConfig(None),
            },
            Repair::WriteConfig(_) => match o {
                Outcome::Failed(e) => Repair::Failed(
                    RepairFailure::Command(CommandFailure::System(e)),
                ),
                _ => Repair::List,
            },
            Repair::List => match o {
                Outcome::Names(names) => Self::go_on(names, 0),
                Outcome::Failed(e) => Repair::Failed(
                    RepairFailure::Command(CommandFailure::System(e)),
                ),
                _ => Repair::Failed(RepairFailure::Command(CommandFailure::Unanswered)),
            },
            Repair::Survey(names, i) => match o {
                Outcome::Env(state) => {
                    if i >= names.len() {
                        return Repair::Failed(RepairFailure::Command(CommandFailure::Unanswered));
                    }
                    let state = EnvState {
                        name: names[i].clone(),
                        alternates: state.alternates,
                        flutter: state.flutter,
                        flutter_bat: state.flutter_bat,
                        version: state.version,
                    };
                    Repair::Mend(names, i, state, 0)
                },
                _ => Repair::Failed(RepairFailure::Command(CommandFailure::Unanswered)),
            },
            Repair::Mend(names, i, state, k) => {
                if k < 2 && state.is_broken() {
                    if let Outcome::Failed(e) = o {
                        return Repair::Failed(RepairFailure::Alternates(e));
                    }
                }
                let count = state.count_steps();
                if k < count && k + 1 < count {
                    Repair::Mend(names, i, state, k + 1)
                } else if i < names.len() {
                    Self::go_on(names, i + 1)
                } else {
                    Repair::Done(names)
                }
            },
            Repair::Done(names) => Repair::Done(names),
            Repair::Failed(f) => Repair::Failed(f),
        }
    }

    /// `r` is the pending action, for a home at `root`.
    pub open spec fn asks(self, root: LocationView, r: Option<Action>) -> bool {
        match (self, r) {
            (Repair::Look, Some(Action::IsBareRepository(l))) => l@ == bare_repo(root),
            (Repair::Bare(bare), _) => bare.asks(root, r),
            (Repair::ReadConfig, Some(Action::Read(l))) => l@ == bare_repo(root).join("config"@),
            (Repair::WriteConfig(config), Some(Action::Write { file, text })) => file@ == bare_repo(
                root,
            ).join("config"@) && text@ == repaired(
                match config {
                    Some(c) => c@,
                    None => ""@,
                },
            ),
            (Repair::List, Some(Action::ListEntries)) => true,
            (Repair::Survey(names, i), Some(Action::SurveyEnv(l))) => i < names@.len() && l@
                == env_of(root, names@[i as int]@),
            (Repair::Survey(names, i), None) => i >= names@.len(),
            (Repair::Mend(_, _, state, k), Some(action)) => k < state.step_count() && does(
                action,
                state.repair_steps(root)[k as int],
            ),
            (Repair::Mend(_, _, state, k), None) => k >= state.step_count(),
            (Repair::Done(_), None) => true,
            (Repair::Failed(_), None) => true,
            _ => false,
        }
    }

    /// The pending action, if there is one.
    pub fn action(&self, home: &PristHome) -> (r: Option<Action>)
        ensures
            self.asks(home.root@, r),
    {
        match self {
            Repair::Look => Some(Action::IsBareRepository(home.git_bare())),
            Repair::Bare(bare) => bare.action(home),
            Repair::ReadConfig => Some(Action::Read(home.git_bare().join("config"))),
            Repair::WriteConfig(config) => {
                let existing: &str = match config {
                    Some(c) => c.as_str(),
                    None => "",
                };
                Some(
                    Action::Write {
                        file: home.git_bare().join("config"),
                        text: repaired_config(existing),
                    },
                )
            },
            Repair::List => Some(Action::ListEntries),
            Repair::Survey(names, i) => if *i < names.len() {
                Some(Action::SurveyEnv(home.env(names[*i].as_str())))
            } else {
                None
            },
            Repair::Mend(_, _, state, k) => {
                let mut steps = repair_env(home, state);
                assert(steps@.len() == state.step_count());
                if *k < steps.len() {
                    assert(steps@[*k as int].is_step(state.repair_steps(home.root@)[*k as int]));
                    let step = steps.remove(*k);
                    Some(step.action)
                } else {
                    None
                }
            },
            Repair::Done(_) => None,
            Repair::Failed(_) => None,
        }
    }

    /// What is under way is not over, and a step that is to be done is one of those for
    /// the environment of its number.
    pub open spec fn wf(self) -> bool {
        match self {
            Repair::Bare(bare) => !bare.ended(),
            Repair::Survey(names, i) => i < names@.len() && names@[i as int]@ != "default"@,
            Repair::Mend(names, i, state, k) => i < names@.len() && names@[i as int]@ != "default"@
                && state.name == names@[i as int] && k < state.step_count(),
            _ => true,
        }
    }

    /// The part of the repair: each is done before the next.
    pub open spec fn part(self) -> nat {
        match self {
            Repair::Look => 6,
            Repair::Bare(_) => 5,
            Repair::ReadConfig => 4,
            Repair::WriteConfig(_) => 3,
            Repair::List => 2,
            Repair::Survey(_, _) => 1,
            Repair::Mend(_, _, _, _) => 1,
            Repair::Done(_) => 0,
            Repair::Failed(_) => 0,
        }
    }

    /// How many outcomes are awaited at most in this part.
    pub open spec fn left_in_part(self) -> int {
        match self {
            Repair::Bare(bare) => bare.steps_left() as int,
            Repair::Survey(names, i) => 10 * (names@.len() - i),
            Repair::Mend(names, i, _, k) => 10 * (names@.len() - i) - 1 - k,
            _ => 0,
        }
    }
}

/// Each outcome brings the repair to a later part or closer to the end of its part.
pub proof fn law_repair_goes_on(before: Repair, o: Outcome)
    requires
        before.wf(),
        !before.ended(),
    ensures
        before.after(o).wf(),
        before.after(o).part() < before.part() || (before.after(o).part() == before.part() && 0
            <= before.after(o).left_in_part() < before.left_in_part()),
{
    match before {
        Repair::Bare(bare) => {
            law_bare_is_ready_with_gc_off(bare, o);
        },
        Repair::List => {
            if let Outcome::Names(names) = o {
                lemma_next_env(names@, 0);
                assert(names.len() == names@.len());
            }
        },
        Repair::Mend(names, i, _, _) => {
            lemma_next_env(names@, i + 1);
            assert(names.len() == names@.len());
        },
        _ => {},
    }
}

/// Each state comes after the one before it, by the outcome that stands between them.
pub open spec fn is_run(states: Seq<Repair>, outcomes: Seq<Outcome>) -> bool {
    &&& states.len() == outcomes.len() + 1
    &&& forall|i: int|
        0 <= i < outcomes.len() ==> #[trigger] states[i + 1] == states[i].after(outcomes[i])
}

/// By the outcome of number `j` the shared repository was found or made ready.
pub open spec fn bare_in_order_at(states: Seq<Repair>, outcomes: Seq<Outcome>, j: int) -> bool {
    match states[j] {
        Repair::Look => outcomes[j] is Yes,
        Repair::Bare(bare) => bare.after(outcomes[j]) is Done,
        _ => false,
    }
}

/// By the outcome of number `j` the alternates file of the environment `name` was found
/// in order, or written anew.
pub open spec fn env_in_order_at(
    states: Seq<Repair>,
    outcomes: Seq<Outcome>,
    j: int,
    name: String,
) -> bool {
    match states[j] {
        Repair::Survey(names, i) => i < names@.len() && names@[i as int] == name
            && (outcomes[j] matches Outcome::Env(state) && !state.broken()),
        Repair::Mend(_, _, state, k) => state.name == name && state.broken() && k == 1 && !(
        outcomes[j] is Failed),
        _ => false,
    }
}

/// All environments among the first `n` names are in order by the outcomes before number
/// `k`.
pub open spec fn in_order_before(
    states: Seq<Repair>,
    outcomes: Seq<Outcome>,
    k: int,
    names: Seq<String>,
    n: int,
) -> bool {
    forall|i: int|
        0 <= i < n && (#[trigger] names[i])@ != "default"@ ==> exists|j: int|
            0 <= j < k && #[trigger] env_in_order_at(states, outcomes, j, names[i])
}

/// What was in order stays so noted.
proof fn lemma_in_order_later(
    states: Seq<Repair>,
    outcomes: Seq<Outcome>,
    k: int,
    names: Seq<String>,
    n: int,
)
    requires
        in_order_before(states, outcomes, k, names, n),
    ensures
        in_order_before(states, outcomes, k + 1, names, n),
{
    assert forall|i: int| 0 <= i < n && (#[trigger] names[i])@ != "default"@ implies exists|j: int|
        0 <= j < k + 1 && #[trigger] env_in_order_at(states, outcomes, j, names[i]) by {
        let j = choose|j: int|
            0 <= j < k && #[trigger] env_in_order_at(states, outcomes, j, names[i]);
        assert(env_in_order_at(states, outcomes, j, names[i]));
    }
}

/// How far a run has come after its first `k` outcomes.
proof fn lemma_run(states: Seq<Repair>, outcomes: Seq<Outcome>, k: int)
    requires
        is_run(states, outcomes),
        states[0] is Look,
        0 <= k < states.len(),
    ensures
        states[k].wf(),
        !(states[k] is Look || states[k] is Bare || states[k] is Failed) ==> exists|j: int|
            0 <= j < k && #[trigger] bare_in_order_at(states, outcomes, j),
        match states[k] {
            Repair::Survey(names, i) => in_order_before(states, outcomes, k, names@, i as int),
            Repair::Mend(names, i, state, m) => in_order_before(
                states,
                outcomes,
                k,
                names@,
                if m >= 2 || !state.broken() {
                    i + 1
                } else {
                    i as int
                },
            ),
            Repair::Done(names) => in_order_before(
                states,
                outcomes,
                k,
                names@,
                names@.len() as int,
            ),
            _ => true,
        },
    decreases k,
{
    if k > 0 {
        let p = k - 1;
        lemma_run(states, outcomes, p);
        let before = states[p];
        let o = outcomes[p];
        assert(states[p + 1] == before.after(o));
        if !before.ended() {
            law_repair_goes_on(before, o);
        }
        match before {
            Repair::Look => {
                if o is Yes {
                    assert(bare_in_order_at(states, outcomes, p));
                }
            },
            Repair::Bare(bare) => {
                if bare.after(o) is Done {
                    assert(bare_in_order_at(states, outcomes, p));
                }
            },
            Repair::List => {
                if let Outcome::Names(names) = o {
                    lemma_next_env(names@, 0);
                }
            },
            Repair::Survey(names, i) => {
                lemma_in_order_later(states, outcomes, p, names@, i as int);
                if let Outcome::Env(state) = o {
                    if !state.broken() {
                        assert(env_in_order_at(states, outcomes, p, names@[i as int]));
                    }
                }
            },
            Repair::Mend(names, i, state, m) => {
                let done = m >= 2 || !state.broken();
                lemma_in_order_later(
                    states,
                    outcomes,
                    p,
                    names@,
                    if done {
                        i + 1
                    } else {
                        i as int
                    },
                );
                if state.broken() && m == 1 && !(o is Failed) {
                    assert(env_in_order_at(states, outcomes, p, names@[i as int]));
                }
                lemma_next_env(names@, i + 1);
            },
            Repair::Done(names) => {
                lemma_in_order_later(states, outcomes, p, names@, names@.len() as int);
            },
            _ => {},
        }
    }
}

/// A repair that ends well leaves a shared repository that was found or made ready, and
/// every environment that stood there has an alternates file that was found in order or
/// was written anew, to point at the shared objects. One that was found in order is not
/// written.
pub proof fn law_repair_leaves_all_in_order(
    states: Seq<Repair>,
    outcomes: Seq<Outcome>,
    root: LocationView,
)
    requires
        is_run(states, outcomes),
        states[0] is Look,
    ensures
        states.last() matches Repair::Done(names) ==> {
            &&& exists|j: int|
                0 <= j < outcomes.len() && #[trigger] bare_in_order_at(states, outcomes, j)
            &&& in_order_before(
                states,
                outcomes,
                outcomes.len() as int,
                names@,
                names@.len() as int,
            )
        },
        forall|j: int, r: Option<Action>|
            0 <= j < states.len() && #[trigger] states[j].asks(root, r) ==> match (states[j], r) {
                (
                    Repair::Mend(_, _, state, k),
                    Some(Action::WriteAlternates { file, objects }),
                ) => state.broken() && k == 1 && file@ == alternates_file(
                    env_of(root, state.name@),
                ) && objects@ == shared_objects(root),
                (Repair::Mend(_, _, state, k), Some(_)) => state.broken() ==> k != 1,
                _ => true,
            },
{
    lemma_run(states, outcomes, outcomes.len() as int);
    assert forall|j: int, r: Option<Action>|
        0 <= j < states.len() && #[trigger] states[j].asks(root, r) implies match (states[j], r) {
        (Repair::Mend(_, _, state, k), Some(Action::WriteAlternates { file, objects })) =>
            state.broken() && k == 1 && file@ == alternates_file(env_of(root, state.name@))
                && objects@ == shared_objects(root),
        (Repair::Mend(_, _, state, k), Some(_)) => state.broken() ==> k != 1,
        _ => true,
    } by {
        lemma_run(states, outcomes, j);
    }
}

// ---------------------------------------------------------------------------
// What a repair does to an environment
// ---------------------------------------------------------------------------

/// Git working in the environment, with these words.
pub open spec fn git_for(env: LocationView, list: Seq<Seq<char>>) -> StepView {
    StepView::Git(
        seq![ArgView::Word("-C"@), ArgView::Place(env)] + Seq::new(
            list.len(),
            |i: int| ArgView::Word(list[i]),
        ),
    )
}

/// The steps that make an environment follow the upstream branch.
pub open spec fn upstream_of(env: LocationView) -> Seq<StepView> {
    seq![
        git_for(
            env,
            seq!["remote"@, "set-url"@, "origin"@, "https://github.com/flutter/flutter.git"@],
        ),
        git_for(
            env,
            seq!["config"@, "remote.origin.fetch"@, "+refs/heads/*:refs/remotes/origin/*"@],
        ),
        git_for(env, seq!["update-ref"@, "refs/remotes/origin/stable"@, "HEAD"@]),
        git_for(env, seq!["checkout"@, "-B"@, "stable"@]),
        git_for(env, seq!["branch"@, "--set-upstream-to"@, "origin/stable"@]),
    ]
}

/// All paths that the alternates file points at are directories, and it can be read.
pub open spec fn alternates_in_order(env: EnvState) -> bool {
    env.alternates matches Some(list) && forall|i: int|
        0 <= i < list@.len() ==> #[trigger] list@[i]
}

/// The directory of the environment.
pub open spec fn dir_of(env: EnvState, root: LocationView) -> LocationView {
    LocationView { base: root.base, parts: root.parts + seq!["envs"@, env.name@] }
}

/// An environment that has its Flutter tool, under either name, and whose alternates are in
/// order is only made to follow the upstream branch: nothing in it is written or checked
/// out by force. The default link is left alone altogether.
pub proof fn law_healthy_environment_is_left_as_it_is(env: EnvState, root: LocationView)
    ensures
        env.name@ == "default"@ ==> env.repair_steps(root).len() == 0,
        env.name@ != "default"@ && (env.flutter || env.flutter_bat) && alternates_in_order(env)
            ==> env.repair_steps(root) == upstream_of(dir_of(env, root)),
{
    lemma_repair_parts(env, root);
}

/// The steps that write an alternates file which is not in order.
pub open spec fn mending(env: EnvState, root: LocationView) -> Seq<StepView> {
    let dir = dir_of(env, root);
    if alternates_in_order(env) {
        Seq::empty()
    } else {
        seq![
            StepView::MakeDirectory(
                LocationView {
                    base: dir.base,
                    parts: dir.parts + seq![".git"@, "objects"@, "info"@],
                },
            ),
            StepView::WriteAlternates(
                LocationView {
                    base: dir.base,
                    parts: dir.parts + seq![".git"@, "objects"@, "info"@, "alternates"@],
                },
                LocationView {
                    base: root.base,
                    parts: root.parts + seq!["shared"@, "git_bare.git"@, "objects"@],
                },
            ),
        ]
    }
}

/// The words that bring back the files of an environment.
pub open spec fn forcing(env: EnvState) -> Seq<Seq<char>> {
    seq![
        "checkout"@,
        "-f"@,
        match env.version {
            Some(v) => v@,
            None => "stable"@,
        },
    ]
}

/// The step that brings back the files of an environment without its Flutter tool.
pub open spec fn bringing_back(env: EnvState, root: LocationView) -> Seq<StepView> {
    if env.flutter || env.flutter_bat {
        Seq::empty()
    } else {
        seq![git_for(dir_of(env, root), forcing(env))]
    }
}

/// The files of an environment are brought back by force exactly where neither Flutter tool
/// is there, at the version that the files state or else at `stable`. The alternates file is
/// written exactly where it is not in order, to point at the shared objects, and first. The
/// environment follows the upstream branch in any case.
pub proof fn law_repair_does_what_is_needed(env: EnvState, root: LocationView)
    requires
        env.name@ != "default"@,
    ensures
        env.repair_steps(root) == mending(env, root) + bringing_back(env, root) + upstream_of(
            dir_of(env, root),
        ),
{
    lemma_repair_parts(env, root);
    let dir = dir_of(env, root);
    assert(git_step(dir, forcing(env)) == git_for(dir, forcing(env)));
    assert(forcing(env) =~= seq!["checkout"@, "-f"@, env.wanted()]);
    assert(env.alternates_steps(root) =~= mending(env, root));
    assert(env.checkout_steps(root) =~= bringing_back(env, root));
}

/// A checkout by force is among the steps exactly where neither Flutter tool is there.
pub proof fn law_checkout_is_forced_only_without_the_tool(
    env: EnvState,
    root: LocationView,
    reference: Seq<char>,
)
    requires
        env.name@ != "default"@,
    ensures
        env.flutter || env.flutter_bat ==> !env.repair_steps(root).contains(
            git_for(dir_of(env, root), seq!["checkout"@, "-f"@, reference]),
        ),
        !env.flutter && !env.flutter_bat ==> env.repair_steps(root).contains(
            git_for(
                dir_of(env, root),
                seq![
                    "checkout"@,
                    "-f"@,
                    match env.version {
                        Some(v) => v@,
                        None => "stable"@,
                    },
                ],
            ),
        ),
{
    law_repair_does_what_is_needed(env, root);
    let dir = dir_of(env, root);
    let forced = seq!["checkout"@, "-f"@, reference];
    let steps = env.repair_steps(root);
    if env.flutter || env.flutter_bat {
        reveal_strlit("-f");
        reveal_strlit("-B");
        reveal_strlit("checkout");
        reveal_strlit("remote");
        reveal_strlit("config");
        reveal_strlit("update-ref");
        reveal_strlit("branch");
        assert("checkout"@.len() == 8 && "remote"@.len() == 6 && "config"@.len() == 6);
        assert("update-ref"@.len() == 10 && "branch"@.len() == 6);
        assert("-f"@[1] != "-B"@[1]);
        assert forall|i: int| 0 <= i < steps.len() implies steps[i] != git_for(dir, forced) by {
            if steps[i] == git_for(dir, forced) {
                let args = git_for(dir, forced)->Git_0;
                assert(args[2] == ArgView::Word("checkout"@));
                assert(args[3] == ArgView::Word("-f"@));
                let n = steps.len() - 5;
                assert(i >= n);
                assert(steps[i] == upstream_of(dir)[i - n]);
                let mine = upstream_of(dir)[i - n]->Git_0;
                assert(mine[2] == ArgView::Word("checkout"@));
                assert(mine[3] == ArgView::Word("-f"@));
            }
        }
    } else {
        assert(steps[steps.len() - 6] == git_for(
            dir,
            seq![
                "checkout"@,
                "-f"@,
                match env.version {
                    Some(v) => v@,
                    None => "stable"@,
                },
            ],
        ));
    }
}

/// The parts of a repair, written out.
proof fn lemma_repair_parts(env: EnvState, root: LocationView)
    ensures
        env.broken() == !alternates_in_order(env),
        env_of(root, env.name@) == dir_of(env, root),
        env.upstream_steps(root) == upstream_of(dir_of(env, root)),
        alternates_dir(dir_of(env, root)) == (LocationView {
            base: root.base,
            parts: dir_of(env, root).parts + seq![".git"@, "objects"@, "info"@],
        }),
        alternates_file(dir_of(env, root)) == (LocationView {
            base: root.base,
            parts: dir_of(env, root).parts + seq![".git"@, "objects"@, "info"@, "alternates"@],
        }),
        shared_objects(root) == (LocationView {
            base: root.base,
            parts: root.parts + seq!["shared"@, "git_bare.git"@, "objects"@],
        }),
        forall|list: Seq<Seq<char>>| #[trigger]
            git_step(dir_of(env, root), list) == git_for(dir_of(env, root), list),
        env.name@ != "default"@ && (env.flutter || env.flutter_bat) && alternates_in_order(env)
            ==> env.repair_steps(root) == upstream_of(dir_of(env, root)),
{
    let dir = dir_of(env, root);
    assert(env_of(root, env.name@) =~= dir);
    assert(alternates_dir(dir) =~= LocationView {
        base: root.base,
        parts: dir.parts + seq![".git"@, "objects"@, "info"@],
    });
    assert(alternates_file(dir) =~= LocationView {
        base: root.base,
        parts: dir.parts + seq![".git"@, "objects"@, "info"@, "alternates"@],
    });
    assert(shared_objects(root) =~= LocationView {
        base: root.base,
        parts: root.parts + seq!["shared"@, "git_bare.git"@, "objects"@],
    });
    assert forall|list: Seq<Seq<char>>| #[trigger] git_step(dir, list) == git_for(dir, list) by {
        assert(words(list) =~= Seq::new(list.len(), |i: int| ArgView::Word(list[i])));
    }
    assert(env.upstream_steps(root) =~= upstream_of(dir));
    if env.name@ != "default"@ && (env.flutter || env.flutter_bat) && alternates_in_order(env) {
        assert(env.repair_steps(root) =~= upstream_of(dir));
    }
}

/// An environment is checked out by force in a repair if and only if it is an environment
/// and has a Flutter tool under neither name; where it has one and its alternates are in
/// order, it gets five steps.
pub proof fn law_force_needs_a_missing_tool(env: EnvState, root: LocationView)
    ensures
        (exists|i: int|
            0 <= i < env.repair_steps(root).len() && (#[trigger] env.repair_steps(root)[i]) is Git
                && env.repair_steps(root)[i]->Git_0.len() > 3 && env.repair_steps(root)[i]->Git_0[2]
                == ArgView::Word("checkout"@) && env.repair_steps(root)[i]->Git_0[3]
                == ArgView::Word("-f"@)) <==> env.name@ != "default"@ && !env.flutter
            && !env.flutter_bat,
        env.name@ != "default"@ && (env.flutter || env.flutter_bat) && (
        env.alternates matches Some(list) && forall|i: int|
            0 <= i < list@.len() ==> #[trigger] list@[i]) ==> env.repair_steps(root).len() == 5,
        env.name@ != "default"@ && !(env.alternates matches Some(list) && forall|i: int|
            0 <= i < list@.len() ==> #[trigger] list@[i]) ==> env.repair_steps(root).len() >= 7
            && env.repair_steps(root)[1] is WriteAlternates,
{
    reveal_strlit("-f");
    reveal_strlit("-B");
    reveal_strlit("checkout");
    reveal_strlit("remote");
    reveal_strlit("config");
    reveal_strlit("update-ref");
    reveal_strlit("branch");
    assert("checkout"@.len() == 8 && "remote"@.len() == 6 && "config"@.len() == 6);
    assert("update-ref"@.len() == 10 && "branch"@.len() == 6);
    assert("-f"@[1] != "-B"@[1]);
    if env.name@ != "default"@ {
        law_repair_does_what_is_needed(env, root);
        let steps = env.repair_steps(root);
        let dir = dir_of(env, root);
        let n = steps.len() - 5;
        assert forall|i: int| n <= i < steps.len() implies steps[i] == upstream_of(dir)[i - n] by {}
        if !env.flutter && !env.flutter_bat {
            assert(steps[n - 1] == git_for(dir, forcing(env)));
        }
    }
}

} // verus!
