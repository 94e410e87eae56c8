//! What Prist asks of the system, and what the system answers.
//!
//! The operations of this library decide; they touch neither files nor
//! processes. An operation that needs the system names an [`Action`]; whoever
//! drives the operation performs it and hands back the [`Outcome`].

use vstd::prelude::*;

use crate::commands::repair::EnvState;
use crate::commands::tools::{Argument, PathFacts, Variable};
use crate::config::{EnvMeta, GlobalConfig, ProjectConfig};
use crate::paths::{Location, LocationView};
use crate::releases::ReleaseFeed;
use crate::text::{decimal, signed_decimal, signed_decimal_of};

verus! {

/// An argument of a program.
#[derive(Debug)]
pub enum Arg {
    Word(String),
    Place(Location),
}

/// An argument of a program, as the texts it holds.
pub enum ArgView {
    Word(Seq<char>),
    Place(LocationView),
}

impl View for Arg {
    type V = ArgView;

    open spec fn view(&self) -> ArgView {
        match self {
            Arg::Word(s) => ArgView::Word(s@),
            Arg::Place(l) => ArgView::Place(l@),
        }
    }
}

/// The arguments of a program, in order.
#[derive(Debug)]
pub struct Args {
    pub list: Vec<Arg>,
}

impl View for Args {
    type V = Seq<ArgView>;

    open spec fn view(&self) -> Seq<ArgView> {
        self.list@.map_values(|a: Arg| a@)
    }
}

impl Args {
    /// No arguments.
    pub fn new() -> (r: Self)
        ensures
            r@ == Seq::<ArgView>::empty(),
    {
        let r = Args { list: Vec::new() };
        assert(r@ =~= Seq::<ArgView>::empty());
        r
    }

    /// These arguments, then the word `s`.
    pub fn word(self, s: &str) -> (r: Self)
        ensures
            r@ == self@.push(ArgView::Word(s@)),
    {
        let mut list = self.list;
        list.push(Arg::Word(s.to_string()));
        let r = Args { list };
        assert(r@ =~= self@.push(ArgView::Word(s@)));
        r
    }

    /// These arguments, then the path of `place`.
    pub fn place(self, place: Location) -> (r: Self)
        ensures
            r@ == self@.push(ArgView::Place(place@)),
    {
        let mut list = self.list;
        list.push(Arg::Place(place));
        let r = Args { list };
        assert(r@ =~= self@.push(ArgView::Place(place@)));
        r
    }
}

/// Something that is asked of the system.
#[derive(Debug)]
pub enum Action {
    /// Is there anything at this place?
    Exists(Location),
    /// Is there a directory at this place?
    IsDirectory(Location),
    /// Is there a bare repository at this place?
    IsBareRepository(Location),
    /// Does the repository hold the object of this name?
    HasObject { repository: Location, name: String },
    /// Read the text of a file.
    Read(Location),
    /// Read the engine revision that an environment asks for.
    EngineVersion(Location),
    /// Read the Flutter version that an environment holds.
    FlutterVersion(Location),
    /// Read where a link to a directory leads.
    ReadLink(Location),
    /// Create a directory and those above it.
    MakeDirectory(Location),
    /// Create the directory that holds this place and those above it.
    MakeParent(Location),
    /// Write the text of a file.
    Write { file: Location, text: String },
    /// Write the text of a file such that it is never seen half written.
    WriteAtomically { file: Location, text: String },
    /// Write an alternates file that points at these objects.
    WriteAlternates { file: Location, objects: Location },
    /// Remove a file or directory with all that is in it, if it is there.
    RemoveTree(Location),
    /// Remove a link.
    Unlink(Location),
    /// Make a link to a directory.
    Link { link: Location, target: Location },
    /// Move all that stands in a directory into another.
    MoveContents { from: Location, to: Location },
    /// Run git; where `shown`, the user sees what it prints.
    Git { args: Args, shown: bool },
    /// Tell the user `notice`, then run git; the user sees what it prints.
    GitAfterNotice { notice: &'static str, args: Args },
    /// Run a program in a directory; the user sees what it prints.
    Run { program: Location, args: Args, directory: Location },
    /// Get the release feed; where that fails, the reason is what the server or the
    /// network gives.
    FetchFeed,
    /// Which project file is nearest to the current directory?
    FindProjectFile,
    /// Read a configuration file; that it is missing is told apart from a failure.
    ReadConfig(Location),
    /// Understand a text as the JSON document of a project.
    ParseProject { text: String },
    /// Understand a text as the JSON document of the global configuration.
    ParseGlobal { text: String },
    /// Find the environment that is active here.
    FindActive,
    /// Let the user choose an environment.
    ChooseEnv { prompt: &'static str },
    /// Let the user confirm that the environment is to be removed.
    ConfirmRemoval { name: String },
    /// Which directories stand among the environments?
    ListEnvs,
    /// What stands among the environments?
    ListEntries,
    /// What does the file system say of an environment?
    SurveyEnv(Location),
    /// Can the user be asked?
    IsTerminal,
    /// Read the global configuration.
    LoadGlobal,
    /// Write the global configuration.
    SaveGlobal(GlobalConfig),
    /// Write the project file of the current directory.
    SaveProject(ProjectConfig),
    /// Read the record of an environment.
    LoadMeta(Location),
    /// Write the record of an environment.
    SaveMeta { env: Location, meta: EnvMeta },
    /// What time is it, in seconds since 1970?
    Now,
    /// Write the shims.
    InstallShims,
    /// Which is the current directory?
    WorkingDirectory,
    /// Tell the editors of the project of the environment.
    IntegrateEditors { env: Location, project: String },
    /// What does the system say of the `PATH`, and of these places?
    SurveyPath { env: Location, bin: Location, sdk_bin: Location, shims: Location },
    /// Run a tool in place of Prist, with these arguments and variables.
    Launch { program: Location, arguments: Vec<Argument>, variables: Vec<Variable> },
}

/// What the system answers.
#[derive(Debug)]
pub enum Outcome {
    /// It is done.
    Done,
    /// It could not be done, for this reason.
    Failed(String),
    Yes,
    No,
    /// The text that was read, or what the user chose.
    Text(String),
    /// There is nothing to be read.
    Missing,
    /// A program ended with this code, or with none; the system tells it so.
    Exit { code: Option<i32>, told: String },
    Names(Vec<String>),
    Feed(ReleaseFeed),
    /// The active environment, if there is one.
    Active(Option<String>),
    Global(GlobalConfig),
    Project(ProjectConfig),
    Meta(EnvMeta),
    Seconds(u64),
    Path(PathFacts),
    Env(EnvState),
}

impl Outcome {
    /// A program ended well.
    pub open spec fn ended_well(self) -> bool {
        self.code() == Some(0i32)
    }

    /// The code with which a program ended.
    pub open spec fn code(self) -> Option<i32> {
        match self {
            Outcome::Exit { code, .. } => code,
            _ => None,
        }
    }

    /// Whether a program ended well.
    pub fn well(&self) -> (r: bool)
        ensures
            r == self.ended_well(),
    {
        match self {
            Outcome::Exit { code: Some(code), .. } => *code == 0,
            _ => false,
        }
    }

    /// The code with which a program ended, if it did with one.
    pub fn exit_code(&self) -> (r: Option<i32>)
        ensures
            r == self.code(),
    {
        match self {
            Outcome::Exit { code, .. } => *code,
            _ => None,
        }
    }
}

/// An exit code as it is told.
pub open spec fn told_code(code: Option<i32>) -> Seq<char> {
    match code {
        Some(n) => "Some("@ + signed_decimal(n as int) + ")"@,
        None => "None"@,
    }
}

/// An exit code as it is told.
pub fn tell_code(code: Option<i32>) -> (r: String)
    ensures
        r@ == told_code(code),
{
    match code {
        Some(n) => "Some(".to_string().concat(
            signed_decimal_of(n).as_str(),
        ).concat(")"),
        None => "None".to_string(),
    }
}

/// A program ended well exactly where it ended with the code 0; a code is told with its
/// number.
pub proof fn law_codes_are_told(o: Outcome, n: i32)
    ensures
        o.ended_well() <==> (o matches Outcome::Exit { code, .. } && code == Some(0i32)),
        told_code(None) == "None"@,
        n >= 0 ==> told_code(Some(n)) == "Some("@ + decimal(n as nat) + ")"@,
        n < 0 ==> told_code(Some(n)) == "Some("@ + (seq!['-'] + decimal((-n) as nat)) + ")"@,
{
}

} // verus!
