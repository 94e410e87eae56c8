//! The configuration of a project, of the user and of an environment.
//!
//! A project's `.pristrc` names the environment that the project is pinned to.
//! The global `config.json` names the environment used everywhere else. Each
//! environment carries a record of what it was made from.

use vstd::prelude::*;

use crate::error::{PristError, Result};
use crate::fs_util::Trouble;
use crate::members::{Field, Held, Member, held, lemma_with_pair, look_up, odd_at, pairs, push_field, text_at, with_pair, written};
use crate::paths::{Location, LocationView, PristHome, global_config};
use crate::text::{blank, is_blank, opt_text};
use crate::work::{Action, Outcome};

verus! {

/// What came of reading a file.
#[derive(Debug)]
pub enum FileRead {
    /// The file holds this text.
    Text(String),
    /// There is no such file.
    Missing,
    /// The file could not be read, for this reason.
    Failed(String),
}

/// What a configuration file comes to.
#[derive(Debug)]
pub enum Loaded<T> {
    /// The configuration is known.
    Ready(T),
    /// The text is a JSON document that holds the configuration; where it is
    /// not, that is to be reported as having gone wrong while doing this.
    Parse { text: String, doing: String },
    /// The file could not be read, for this reason, while doing this.
    Failed { cause: String, doing: String },
}

/// `what` at `path`, as it is reported.
fn doing(what: &str, path: &str) -> (r: String)
    ensures
        r@ == what@ + path@,
{
    what.to_string().concat(path)
}

/// What pins a project (`.pristrc`).
#[derive(Debug)]
pub struct ProjectConfig {
    /// Name of the environment that the project is pinned to.
    pub env: Option<String>,
    /// The Flutter version that the project was pinned to, kept for the record.
    pub flutter: Option<String>,
}

impl Default for ProjectConfig {
    fn default() -> (r: Self)
        ensures
            r.env is None,
            r.flutter is None,
    {
        ProjectConfig { env: None, flutter: None }
    }
}

impl ProjectConfig {
    /// The configuration in the file at `path`. A file that is missing or blank
    /// pins nothing.
    pub fn load(read: FileRead, path: &str) -> (r: Loaded<Self>)
        ensures
            match read {
                FileRead::Missing => r matches Loaded::Ready(c) && c.env is None && c.flutter is None,
                FileRead::Text(t) if is_blank(t@) => r matches Loaded::Ready(c) && c.env is None
                    && c.flutter is None,
                FileRead::Text(t) => r matches Loaded::Parse { text, doing } && text == t && doing@
                    == "parsing project config at "@ + path@,
                FileRead::Failed(e) => r matches Loaded::Failed { cause, doing } && cause == e
                    && doing@ == "reading project config at "@ + path@,
            },
    {
        match read {
            FileRead::Missing => Loaded::Ready(ProjectConfig::default()),
            FileRead::Text(t) => if blank(t.as_str()) {
                Loaded::Ready(ProjectConfig::default())
            } else {
                Loaded::Parse { text: t, doing: doing("parsing project config at ", path) }
            },
            FileRead::Failed(e) => Loaded::Failed {
                cause: e,
                doing: doing("reading project config at ", path),
            },
        }
    }
}

/// The global configuration.
#[derive(Debug)]
pub struct GlobalConfig {
    /// Name of the environment that is the global default.
    pub default_env: Option<String>,
}

impl Default for GlobalConfig {
    fn default() -> (r: Self)
        ensures
            r.default_env is None,
    {
        GlobalConfig { default_env: None }
    }
}

impl GlobalConfig {
    /// The configuration in the file at `path`. A file that is missing or blank
    /// names no default.
    pub fn load(read: FileRead, path: &str) -> (r: Loaded<Self>)
        ensures
            match read {
                FileRead::Missing => r matches Loaded::Ready(c) && c.default_env is None,
                FileRead::Text(t) if is_blank(t@) => r matches Loaded::Ready(c)
                    && c.default_env is None,
                FileRead::Text(t) => r matches Loaded::Parse { text, doing } && text == t && doing@
                    == "parsing global config at "@ + path@,
                FileRead::Failed(e) => r matches Loaded::Failed { cause, doing } && cause == e
                    && doing@ == "reading global config at "@ + path@,
            },
    {
        match read {
            FileRead::Missing => Loaded::Ready(GlobalConfig::default()),
            FileRead::Text(t) => if blank(t.as_str()) {
                Loaded::Ready(GlobalConfig::default())
            } else {
                Loaded::Parse { text: t, doing: doing("parsing global config at ", path) }
            },
            FileRead::Failed(e) => Loaded::Failed {
                cause: e,
                doing: doing("reading global config at ", path),
            },
        }
    }
}

/// Where the name of the active environment comes from.
#[derive(Debug)]
pub enum ActiveSource {
    /// From the project file at this path.
    Project(String),
    /// From the global configuration.
    Global,
    /// From nowhere: no environment is pinned.
    Nowhere,
}

/// How far the question for the active environment has come.
#[derive(Debug)]
pub enum Resolution {
    /// It is answered.
    Active(Option<String>, ActiveSource),
    /// The project pins nothing: the global configuration has to be read.
    NeedGlobal,
}

/// The environment that a project file names, if there is one and it does.
pub open spec fn pinned(project: Option<(String, ProjectConfig)>) -> Option<String> {
    match project {
        Some((_, c)) => c.env,
        None => None,
    }
}

/// How far the question for the active environment has come, by what is known of the
/// project and of the global configuration.
pub open spec fn resolution(
    project: Option<(String, ProjectConfig)>,
    global: Option<GlobalConfig>,
) -> Resolution {
    match (pinned(project), global) {
        (Some(name), _) => Resolution::Active(
            Some(name),
            ActiveSource::Project((project->0).0),
        ),
        (None, None) => Resolution::NeedGlobal,
        (None, Some(g)) => match g.default_env {
            Some(name) => Resolution::Active(Some(name), ActiveSource::Global),
            None => Resolution::Active(None, ActiveSource::Nowhere),
        },
    }
}

/// The active environment: the one that the nearest project file names; else the
/// global default; else none. The global configuration is asked for only where
/// the project does not answer.
pub fn resolve_active(
    project: Option<(String, ProjectConfig)>,
    global: Option<GlobalConfig>,
) -> (r: Resolution)
    ensures
        r == resolution(project, global),
{
    if let Some((path, config)) = project {
        if let Some(name) = config.env {
            return Resolution::Active(Some(name), ActiveSource::Project(path));
        }
    }
    match global {
        None => Resolution::NeedGlobal,
        Some(g) => match g.default_env {
            Some(name) => Resolution::Active(Some(name), ActiveSource::Global),
            None => Resolution::Active(None, ActiveSource::Nowhere),
        },
    }
}

/// Why the active environment could not be found.
#[derive(Debug)]
pub enum SearchFailure {
    /// The project file at this path could not be read.
    ProjectUnread(String, String),
    /// The project file at this path could not be understood.
    ProjectUnparsed(String, String),
    /// The global configuration could not be read.
    GlobalUnread(String),
    /// The global configuration could not be understood.
    GlobalUnparsed(String),
    /// The system gave no answer.
    Unanswered,
}

impl SearchFailure {
    /// What went wrong; `global` is the path of the global configuration.
    pub fn trouble(self, global: &str) -> (r: Trouble)
        ensures
            match self {
                SearchFailure::ProjectUnread(p, e) => r.doing@ == "reading project config at "@ + p@
                    && r.cause == Some(e),
                SearchFailure::ProjectUnparsed(p, e) => r.doing@ == "parsing project config at "@
                    + p@ && r.cause == Some(e),
                SearchFailure::GlobalUnread(e) => r.doing@ == "reading global config at "@ + global@
                    && r.cause == Some(e),
                SearchFailure::GlobalUnparsed(e) => r.doing@ == "parsing global config at "@
                    + global@ && r.cause == Some(e),
                SearchFailure::Unanswered => r.doing@ == "no answer"@ && r.cause is None,
            },
    {
        match self {
            SearchFailure::ProjectUnread(p, e) => Trouble {
                doing: doing("reading project config at ", p.as_str()),
                cause: Some(e),
            },
            SearchFailure::ProjectUnparsed(p, e) => Trouble {
                doing: doing("parsing project config at ", p.as_str()),
                cause: Some(e),
            },
            SearchFailure::GlobalUnread(e) => Trouble {
                doing: doing("reading global config at ", global),
                cause: Some(e),
            },
            SearchFailure::GlobalUnparsed(e) => Trouble {
                doing: doing("parsing global config at ", global),
                cause: Some(e),
            },
            SearchFailure::Unanswered => Trouble { doing: "no answer".to_string(), cause: None },
        }
    }
}

/// How far the search for the active environment has come.
#[derive(Debug)]
pub enum ActiveSearch {
    /// Which project file is nearest?
    Locate,
    /// The project file at this path is to be read.
    ReadProject(String),
    /// The text of the project file at this path is to be understood.
    ParseProject(String, String),
    /// The global configuration is to be read.
    ReadGlobal,
    /// The text of the global configuration is to be understood.
    ParseGlobal(String),
    /// The environment that is active, if any, and where its name comes from.
    Done(Option<String>, ActiveSource),
    Failed(SearchFailure),
}

/// Search for the active environment.
pub fn find_active() -> (r: ActiveSearch)
    ensures
        r is Locate,
{
    ActiveSearch::Locate
}

impl ActiveSearch {
    /// Nothing is pending.
    pub open spec fn ended(self) -> bool {
        self is Done || self is Failed
    }

    /// What comes once it is known what the configurations say.
    pub open spec fn resolved(r: Resolution) -> Self {
        match r {
            Resolution::Active(name, source) => ActiveSearch::Done(name, source),
            Resolution::NeedGlobal => ActiveSearch::ReadGlobal,
        }
    }

    /// What comes after the outcome `o` of the pending action. A file that is missing or
    /// blank says nothing; one that cannot be read or understood ends the search.
    pub open spec fn after(self, o: Outcome) -> Self {
        match self {
            ActiveSearch::Locate => match o {
                Outcome::Text(path) => ActiveSearch::ReadProject(path),
                _ => ActiveSearch::ReadGlobal,
            },
            ActiveSearch::ReadProject(path) => match o {
                Outcome::Failed(e) => ActiveSearch::Failed(SearchFailure::ProjectUnread(path, e)),
                Outcome::Text(t) if !is_blank(t@) => ActiveSearch::ParseProject(path, t),
                _ => ActiveSearch::ReadGlobal,
            },
            ActiveSearch::ParseProject(path, _) => match o {
                Outcome::Project(config) => Self::resolved(resolution(Some((path, config)), None)),
                Outcome::Failed(e) => ActiveSearch::Failed(SearchFailure::ProjectUnparsed(path, e)),
                _ => ActiveSearch::Failed(SearchFailure::Unanswered),
            },
            ActiveSearch::ReadGlobal => match o {
                Outcome::Failed(e) => ActiveSearch::Failed(SearchFailure::GlobalUnread(e)),
                Outcome::Text(t) if !is_blank(t@) => ActiveSearch::ParseGlobal(t),
                _ => Self::resolved(resolution(None, Some(GlobalConfig { default_env: None }))),
            },
            ActiveSearch::ParseGlobal(_) => match o {
                Outcome::Global(config) => Self::resolved(resolution(None, Some(config))),
                Outcome::Failed(e) => ActiveSearch::Failed(SearchFailure::GlobalUnparsed(e)),
                _ => ActiveSearch::Failed(SearchFailure::Unanswered),
            },
            ActiveSearch::Done(_, _) | ActiveSearch::Failed(_) => self,
        }
    }

    /// What comes once it is known what the configurations say.
    fn on_resolved(r: Resolution) -> (s: Self)
        ensures
            s == Self::resolved(r),
    {
        match r {
            Resolution::Active(name, source) => ActiveSearch::Done(name, source),
            Resolution::NeedGlobal => ActiveSearch::ReadGlobal,
        }
    }

    /// What reading a file came to.
    fn read(o: Outcome) -> (r: FileRead)
        ensures
            match o {
                Outcome::Text(t) => r == FileRead::Text(t),
                Outcome::Failed(e) => r == FileRead::Failed(e),
                _ => r is Missing,
            },
    {
        match o {
            Outcome::Text(t) => FileRead::Text(t),
            Outcome::Failed(e) => FileRead::Failed(e),
            _ => FileRead::Missing,
        }
    }

    /// Take in the outcome of the pending action.
    pub fn next(self, o: Outcome) -> (r: Self)
        ensures
            r == self.after(o),
    {
        match self {
            ActiveSearch::Locate => match o {
                Outcome::Text(path) => ActiveSearch::ReadProject(path),
                _ => ActiveSearch::ReadGlobal,
            },
            ActiveSearch::ReadProject(path) => match ProjectConfig::load(
                Self::read(o),
                path.as_str(),
            ) {
                Loaded::Ready(_) => ActiveSearch::ReadGlobal,
                Loaded::Parse { text, .. } => ActiveSearch::ParseProject(path, text),
                Loaded::Failed { cause, .. } => ActiveSearch::Failed(
                    SearchFailure::ProjectUnread(path, cause),
                ),
            },
            ActiveSearch::ParseProject(path, _) => match o {
                Outcome::Project(config) => Self::on_resolved(
                    resolve_active(Some((path, config)), None),
                ),
                Outcome::Failed(e) => ActiveSearch::Failed(SearchFailure::ProjectUnparsed(path, e)),
                _ => ActiveSearch::Failed(SearchFailure::Unanswered),
            },
            ActiveSearch::ReadGlobal => match GlobalConfig::load(Self::read(o), "") {
                Loaded::Ready(config) => Self::on_resolved(resolve_active(None, Some(config))),
                Loaded::Parse { text, .. } => ActiveSearch::ParseGlobal(text),
                Loaded::Failed { cause, .. } => ActiveSearch::Failed(
                    SearchFailure::GlobalUnread(cause),
                ),
            },
            ActiveSearch::ParseGlobal(_) => match o {
                Outcome::Global(config) => Self::on_resolved(resolve_active(None, Some(config))),
                Outcome::Failed(e) => ActiveSearch::Failed(SearchFailure::GlobalUnparsed(e)),
                _ => ActiveSearch::Failed(SearchFailure::Unanswered),
            },
            ActiveSearch::Done(name, source) => ActiveSearch::Done(name, source),
            ActiveSearch::Failed(f) => ActiveSearch::Failed(f),
        }
    }

    /// `r` is the pending action, for a home at `root`.
    pub open spec fn asks(self, root: LocationView, r: Option<Action>) -> bool {
        match (self, r) {
            (ActiveSearch::Locate, Some(Action::FindProjectFile)) => true,
            (ActiveSearch::ReadProject(path), Some(Action::ReadConfig(l))) => l@
                == LocationView::at(path@),
            (ActiveSearch::ParseProject(_, t), Some(Action::ParseProject { text })) => text == t,
            (ActiveSearch::ReadGlobal, Some(Action::ReadConfig(l))) => l@ == global_config(root),
            (ActiveSearch::ParseGlobal(t), Some(Action::ParseGlobal { text })) => text == t,
            (ActiveSearch::Done(_, _), None) => true,
            (ActiveSearch::Failed(_), None) => true,
            _ => false,
        }
    }

    /// The pending action, if there is one.
    pub fn action(&self, home: &PristHome) -> (r: Option<Action>)
        ensures
            r is Some <==> !self.ended(),
            self.asks(home.root@, r),
    {
        match self {
            ActiveSearch::Locate => Some(Action::FindProjectFile),
            ActiveSearch::ReadProject(path) => Some(
                Action::ReadConfig(Location::at(path.as_str())),
            ),
            ActiveSearch::ParseProject(_, t) => Some(Action::ParseProject { text: t.clone() }),
            ActiveSearch::ReadGlobal => Some(Action::ReadConfig(home.config_file())),
            ActiveSearch::ParseGlobal(t) => Some(Action::ParseGlobal { text: t.clone() }),
            ActiveSearch::Done(_, _) => None,
            ActiveSearch::Failed(_) => None,
        }
    }

    /// How many outcomes are awaited at most.
    pub open spec fn steps_left(self) -> nat {
        match self {
            ActiveSearch::Locate => 5,
            ActiveSearch::ReadProject(_) => 4,
            ActiveSearch::ParseProject(_, _) => 3,
            ActiveSearch::ReadGlobal => 2,
            ActiveSearch::ParseGlobal(_) => 1,
            ActiveSearch::Done(_, _) => 0,
            ActiveSearch::Failed(_) => 0,
        }
    }
}

/// What the nearest project file comes to.
pub enum ProjectAnswer {
    /// There is none, or it says nothing.
    Silent,
    /// It cannot be read.
    Unread(String),
    /// It cannot be understood.
    Unparsed(String),
    /// It holds this configuration.
    Holds(ProjectConfig),
}

/// What the global configuration comes to.
pub enum GlobalAnswer {
    /// There is none, or it says nothing.
    Silent,
    /// It cannot be read.
    Unread(String),
    /// It cannot be understood.
    Unparsed(String),
    /// It holds this configuration.
    Holds(GlobalConfig),
}

/// Where the search ends from the reading of the global configuration on.
pub open spec fn ends_with_global(s: ActiveSearch, text: String, global: GlobalAnswer) -> ActiveSearch {
    match global {
        GlobalAnswer::Silent => s.after(Outcome::Missing),
        GlobalAnswer::Unread(e) => s.after(Outcome::Failed(e)),
        GlobalAnswer::Unparsed(e) => s.after(Outcome::Text(text)).after(Outcome::Failed(e)),
        GlobalAnswer::Holds(c) => s.after(Outcome::Text(text)).after(Outcome::Global(c)),
    }
}

/// Where the search ends, where the nearest project file is at `path`; `text` is any
/// text that is not blank.
pub open spec fn search_end(
    path: String,
    text: String,
    project: ProjectAnswer,
    global: GlobalAnswer,
) -> ActiveSearch {
    let read = ActiveSearch::Locate.after(Outcome::Text(path));
    let s = match project {
        ProjectAnswer::Silent => read.after(Outcome::Missing),
        ProjectAnswer::Unread(e) => read.after(Outcome::Failed(e)),
        ProjectAnswer::Unparsed(e) => read.after(Outcome::Text(text)).after(Outcome::Failed(e)),
        ProjectAnswer::Holds(c) => read.after(Outcome::Text(text)).after(Outcome::Project(c)),
    };
    if s is ReadGlobal {
        ends_with_global(s, text, global)
    } else {
        s
    }
}

/// The project's environment is the active one whatever the global configuration is;
/// where the project names none, it is the global default; a configuration that cannot
/// be read or understood ends the search in an error, and nothing is put in its place.
pub proof fn law_search_does_not_fall_back(
    path: String,
    text: String,
    project: ProjectAnswer,
    global: GlobalAnswer,
)
    requires
        !is_blank(text@),
    ensures
        ActiveSearch::Locate.after(Outcome::Missing) is ReadGlobal,
        match project {
            ProjectAnswer::Unread(_) => search_end(path, text, project, global) is Failed,
            ProjectAnswer::Unparsed(_) => search_end(path, text, project, global) is Failed,
            ProjectAnswer::Holds(c) if c.env is Some => search_end(path, text, project, global)
                == ActiveSearch::Done(c.env, ActiveSource::Project(path)),
            _ => {
                &&& search_end(path, text, project, global) == ends_with_global(
                    ActiveSearch::ReadGlobal,
                    text,
                    global,
                )
                &&& match global {
                    GlobalAnswer::Unread(_) => search_end(path, text, project, global) is Failed,
                    GlobalAnswer::Unparsed(_) => search_end(path, text, project, global) is Failed,
                    GlobalAnswer::Silent => search_end(path, text, project, global)
                        == ActiveSearch::Done(None, ActiveSource::Nowhere),
                    GlobalAnswer::Holds(c) => search_end(path, text, project, global)
                        == ActiveSearch::Done(
                        c.default_env,
                        if c.default_env is Some {
                            ActiveSource::Global
                        } else {
                            ActiveSource::Nowhere
                        },
                    ),
                }
            },
        },
{
}

/// Each outcome brings the search closer to its end, and an end is final.
pub proof fn law_search_ends(s: ActiveSearch, o: Outcome)
    ensures
        s.ended() ==> s.after(o) == s,
        !s.ended() ==> s.after(o).steps_left() < s.steps_left(),
{
}

/// What an environment was made from, kept beside it as `.prist-meta.json`. Its
/// name is the user's choice and says nothing of the version.
#[derive(Debug)]
pub struct EnvMeta {
    pub name: String,
    /// The reference as the user gave it.
    pub reference: Option<String>,
    pub channel: Option<String>,
    pub version: Option<String>,
    /// The Flutter commit that is checked out.
    pub commit: Option<String>,
    /// The engine revision.
    pub engine_hash: Option<String>,
    pub created_at: Option<String>,
}

/// The record of the environment at `env`.
pub open spec fn meta_file(env: LocationView) -> LocationView {
    env.join(".prist-meta.json"@)
}

impl EnvMeta {
    /// The record of the environment at `env_path`.
    pub fn path(env_path: &Location) -> (r: Location)
        ensures
            r@ == meta_file(env_path@),
    {
        env_path.join(".prist-meta.json")
    }

    /// The record that a file holds. A file that is missing or blank holds none.
    pub fn load(read: FileRead) -> (r: Loaded<Option<Self>>)
        ensures
            match read {
                FileRead::Missing => r == Loaded::Ready(None::<Self>),
                FileRead::Text(t) if is_blank(t@) => r == Loaded::Ready(None::<Self>),
                FileRead::Text(t) => r matches Loaded::Parse { text, doing } && text == t && doing@
                    == ""@,
                FileRead::Failed(e) => r matches Loaded::Failed { cause, doing } && cause == e
                    && doing@ == ""@,
            },
    {
        match read {
            FileRead::Missing => Loaded::Ready(None),
            FileRead::Text(t) => if blank(t.as_str()) {
                Loaded::Ready(None)
            } else {
                Loaded::Parse { text: t, doing: "".to_string() }
            },
            FileRead::Failed(e) => Loaded::Failed { cause: e, doing: "".to_string() },
        }
    }
}

/// A project that pins an environment has it active whatever the global default is, and
/// the global configuration need not be read.
pub proof fn law_project_comes_first(
    path: String,
    project: ProjectConfig,
    a: Option<GlobalConfig>,
    b: Option<GlobalConfig>,
)
    requires
        project.env is Some,
    ensures
        resolution(Some((path, project)), a) == resolution(Some((path, project)), b),
        resolution(Some((path, project)), a) == Resolution::Active(
            project.env,
            ActiveSource::Project(path),
        ),
{
}

/// Once the global configuration is known, the question for the active environment is
/// answered.
pub proof fn law_resolution_ends(project: Option<(String, ProjectConfig)>, global: GlobalConfig)
    ensures
        resolution(project, Some(global)) is Active,
        resolution(project, None) is NeedGlobal ==> resolution(project, Some(global))
            == resolution(None, Some(global)),
{
}

// ---------------------------------------------------------------------------
// The record as a document
// ---------------------------------------------------------------------------

/// A record as the texts it holds.
#[verifier::ext_equal]
pub struct MetaView {
    pub name: Seq<char>,
    pub reference: Option<Seq<char>>,
    pub channel: Option<Seq<char>>,
    pub version: Option<Seq<char>>,
    pub commit: Option<Seq<char>>,
    pub engine_hash: Option<Seq<char>>,
    pub created_at: Option<Seq<char>>,
}

impl View for EnvMeta {
    type V = MetaView;

    open spec fn view(&self) -> MetaView {
        MetaView {
            name: self.name@,
            reference: opt_text(self.reference),
            channel: opt_text(self.channel),
            version: opt_text(self.version),
            commit: opt_text(self.commit),
            engine_hash: opt_text(self.engine_hash),
            created_at: opt_text(self.created_at),
        }
    }
}

/// The members of the object that a record is kept as, in order: what is not known of
/// the environment is left out.
pub open spec fn meta_pairs(v: MetaView) -> Seq<(Seq<char>, Seq<char>)> {
    let m = seq![("name"@, v.name)];
    let m = with_pair(m, "reference"@, v.reference);
    let m = with_pair(m, "channel"@, v.channel);
    let m = with_pair(m, "version"@, v.version);
    let m = with_pair(m, "commit"@, v.commit);
    let m = with_pair(m, "engine_hash"@, v.engine_hash);
    with_pair(m, "created_at"@, v.created_at)
}

/// Why an object holds no record.
pub enum NoRecord {
    /// The environment has no name.
    Nameless,
    /// A member is no text.
    Odd,
}

/// A member of a record is no text.
pub open spec fn odd_record(m: Map<Seq<char>, Held>) -> bool {
    ||| odd_at(m, "name"@)
    ||| odd_at(m, "reference"@)
    ||| odd_at(m, "channel"@)
    ||| odd_at(m, "version"@)
    ||| odd_at(m, "commit"@)
    ||| odd_at(m, "engine_hash"@)
    ||| odd_at(m, "created_at"@)
}

/// The record that an object holds. Members that are not known are ignored.
pub open spec fn record_in(m: Map<Seq<char>, Held>) -> std::result::Result<MetaView, NoRecord> {
    if odd_record(m) {
        Err(NoRecord::Odd)
    } else {
        match text_at(m, "name"@) {
            None => Err(NoRecord::Nameless),
            Some(name) => Ok(
                MetaView {
                    name,
                    reference: text_at(m, "reference"@),
                    channel: text_at(m, "channel"@),
                    version: text_at(m, "version"@),
                    commit: text_at(m, "commit"@),
                    engine_hash: text_at(m, "engine_hash"@),
                    created_at: text_at(m, "created_at"@),
                },
            ),
        }
    }
}

impl EnvMeta {
    /// The members of the object that the record is kept as, in order.
    pub fn fields(&self) -> (r: Vec<Field>)
        ensures
            pairs(r@) == meta_pairs(self@),
    {
        let mut list: Vec<Field> = Vec::new();
        list.push(Field { key: "name", value: self.name.clone() });
        assert(pairs(list@) =~= seq![("name"@, self.name@)]);
        push_field(&mut list, "reference", &self.reference);
        push_field(&mut list, "channel", &self.channel);
        push_field(&mut list, "version", &self.version);
        push_field(&mut list, "commit", &self.commit);
        push_field(&mut list, "engine_hash", &self.engine_hash);
        push_field(&mut list, "created_at", &self.created_at);
        list
    }

    /// The record that an object with these members holds; one without a name, or in
    /// which a member of a record is no text, is refused.
    pub fn from_members(list: &Vec<Member>) -> (r: Result<Self>)
        ensures
            match r {
                Ok(m) => record_in(held(list@)) == Ok::<MetaView, NoRecord>(m@),
                Err(PristError::Json(e)) => match record_in(held(list@)) {
                    Ok(_) => false,
                    Err(NoRecord::Odd) => e@ == "invalid type, expected a string"@,
                    Err(NoRecord::Nameless) => e@ == "missing field `name`"@,
                },
                Err(_) => false,
            },
    {
        let (name, odd_name) = look_up(list, "name");
        let (reference, odd_reference) = look_up(list, "reference");
        let (channel, odd_channel) = look_up(list, "channel");
        let (version, odd_version) = look_up(list, "version");
        let (commit, odd_commit) = look_up(list, "commit");
        let (engine_hash, odd_engine) = look_up(list, "engine_hash");
        let (created_at, odd_time) = look_up(list, "created_at");
        if odd_name || odd_reference || odd_channel || odd_version || odd_commit || odd_engine
            || odd_time {
            return Err(PristError::Json("invalid type, expected a string".to_string()));
        }
        match name {
            Some(name) => Ok(
                EnvMeta { name, reference, channel, version, commit, engine_hash, created_at },
            ),
            None => Err(PristError::Json("missing field `name`".to_string())),
        }
    }
}

/// What is saved of an environment is loaded again, member by member: what was not
/// known stays unknown.
pub proof fn law_record_is_read_back(v: MetaView)
    ensures
        record_in(written(meta_pairs(v))) == Ok::<MetaView, NoRecord>(v),
{
    reveal_strlit("name");
    reveal_strlit("reference");
    reveal_strlit("channel");
    reveal_strlit("version");
    reveal_strlit("commit");
    reveal_strlit("engine_hash");
    reveal_strlit("created_at");
    assert("name"@.len() == 4);
    assert("reference"@.len() == 9);
    assert("channel"@.len() == 7);
    assert("version"@.len() == 7);
    assert("commit"@.len() == 6);
    assert("engine_hash"@.len() == 11);
    assert("created_at"@.len() == 10);
    assert("channel"@[0] != "version"@[0]);
    let m0 = seq![("name"@, v.name)];
    assert(m0.drop_last() =~= Seq::<(Seq<char>, Seq<char>)>::empty());
    assert(written(m0.drop_last()) == Map::<Seq<char>, Held>::empty());
    assert(written(m0) == Map::<Seq<char>, Held>::empty().insert("name"@, Held::Text(v.name)));
    let m1 = with_pair(m0, "reference"@, v.reference);
    let m2 = with_pair(m1, "channel"@, v.channel);
    let m3 = with_pair(m2, "version"@, v.version);
    let m4 = with_pair(m3, "commit"@, v.commit);
    let m5 = with_pair(m4, "engine_hash"@, v.engine_hash);
    lemma_with_pair(m0, "reference"@, v.reference);
    lemma_with_pair(m1, "channel"@, v.channel);
    lemma_with_pair(m2, "version"@, v.version);
    lemma_with_pair(m3, "commit"@, v.commit);
    lemma_with_pair(m4, "engine_hash"@, v.engine_hash);
    lemma_with_pair(m5, "created_at"@, v.created_at);
    let m = written(meta_pairs(v));
    assert(!odd_record(m));
    assert(record_in(m)->Ok_0 =~= v);
}

/// The keys under which a record is kept, each with what the record states.
pub proof fn law_record_is_kept_under_its_keys(meta: EnvMeta)
    ensures
        ({
            let m = written(meta_pairs(meta@));
            &&& text_at(m, "name"@) == Some(meta.name@)
            &&& text_at(m, "reference"@) == opt_text(meta.reference)
            &&& text_at(m, "channel"@) == opt_text(meta.channel)
            &&& text_at(m, "version"@) == opt_text(meta.version)
            &&& text_at(m, "commit"@) == opt_text(meta.commit)
            &&& text_at(m, "engine_hash"@) == opt_text(meta.engine_hash)
            &&& text_at(m, "created_at"@) == opt_text(meta.created_at)
        }),
        meta_pairs(meta@)[0] == ("name"@, meta.name@),
        forall|i: int|
            0 <= i < meta_pairs(meta@).len() ==> (#[trigger] meta_pairs(meta@)[i]).0 == "name"@
                || meta_pairs(meta@)[i].0 == "reference"@ || meta_pairs(meta@)[i].0 == "channel"@
                || meta_pairs(meta@)[i].0 == "version"@ || meta_pairs(meta@)[i].0 == "commit"@
                || meta_pairs(meta@)[i].0 == "engine_hash"@ || meta_pairs(meta@)[i].0
                == "created_at"@,
{
    law_record_is_read_back(meta@);
}

/// A record is read from an object by its keys: what stands there as a text is what it
/// states, and null or nothing there is nothing. An object without a name, or with anything
/// else under a key of a record, holds none.
pub proof fn law_record_is_read_by_its_keys(m: Map<Seq<char>, Held>)
    ensures
        match record_in(m) {
            Ok(v) => {
                &&& m.contains_key("name"@) && m["name"@] == Held::Text(v.name)
                &&& v.reference is Some <==> m.contains_key("reference"@) && m["reference"@] is Text
                &&& v.version matches Some(t) ==> m.contains_key("version"@) && m["version"@]
                    == Held::Text(t)
                &&& v.channel matches Some(t) ==> m.contains_key("channel"@) && m["channel"@]
                    == Held::Text(t)
                &&& v.commit matches Some(t) ==> m.contains_key("commit"@) && m["commit"@]
                    == Held::Text(t)
                &&& m.contains_key("version"@) ==> (m["version"@] is Text ==> v.version is Some)
                    && !(m["version"@] is Other)
                &&& m.contains_key("engine_hash"@) ==> !(m["engine_hash"@] is Other)
                &&& m.contains_key("created_at"@) ==> !(m["created_at"@] is Other)
            },
            Err(NoRecord::Nameless) => !m.contains_key("name"@) || m["name"@] is Null,
            Err(NoRecord::Odd) => exists|k: Seq<char>| #[trigger]
                m.contains_key(k) && m[k] is Other,
        },
{
    if odd_record(m) {
        assert(m.contains_key("name"@) && m["name"@] is Other || m.contains_key("reference"@)
            && m["reference"@] is Other || m.contains_key("channel"@) && m["channel"@] is Other
            || m.contains_key("version"@) && m["version"@] is Other || m.contains_key("commit"@)
            && m["commit"@] is Other || m.contains_key("engine_hash"@) && m["engine_hash"@] is Other
            || m.contains_key("created_at"@) && m["created_at"@] is Other);
    }
}

/// The record of an environment stands in its directory.
pub proof fn law_record_stands_in_its_environment(env: LocationView)
    ensures
        meta_file(env) == (LocationView {
            base: env.base,
            parts: env.parts + seq![".prist-meta.json"@],
        }),
{
    assert(meta_file(env).parts =~= env.parts + seq![".prist-meta.json"@]);
}

} // verus!
