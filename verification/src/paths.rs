//! Where Prist keeps things: its home, and the project file that pins an
//! environment.
//!
//! ```text
//! <home>/
//!   shared/
//!     git_bare.git/        the repository that all environments draw on
//!     engines/<revision>/  engine artifacts, one directory per revision
//!   envs/
//!     <name>/              an environment
//!     default              a link to the global default environment
//!   config.json            the global configuration
//! ```

use vstd::prelude::*;

use crate::error::{PristError, Result};
use crate::releases::Platform;
use crate::text::{opt_text, texts};

verus! {

/// A place in the file system: a base path, and the parts that are joined to it
/// one after the other. How a part is joined is left to the platform.
#[derive(Debug)]
pub struct Location {
    pub base: String,
    pub parts: Vec<String>,
}

/// A location as the texts it holds.
#[verifier::ext_equal]
pub struct LocationView {
    pub base: Seq<char>,
    pub parts: Seq<Seq<char>>,
}

impl View for Location {
    type V = LocationView;

    open spec fn view(&self) -> LocationView {
        LocationView { base: self.base@, parts: texts(self.parts@) }
    }
}

impl LocationView {
    /// The base path itself.
    pub open spec fn at(base: Seq<char>) -> Self {
        LocationView { base, parts: seq![] }
    }

    /// The location that joining `part` leads to.
    pub open spec fn join(self, part: Seq<char>) -> Self {
        LocationView { base: self.base, parts: self.parts.push(part) }
    }
}

impl Clone for Location {
    fn clone(&self) -> (r: Self)
        ensures
            r@ == self@,
    {
        let mut parts: Vec<String> = Vec::new();
        let mut i: usize = 0;
        while i < self.parts.len()
            invariant
                i <= self.parts@.len(),
                parts@ == self.parts@.take(i as int),
            decreases self.parts@.len() - i,
        {
            parts.push(self.parts[i].clone());
            i += 1;
        }
        assert(parts@ =~= self.parts@);
        Location { base: self.base.clone(), parts }
    }
}

impl Location {
    /// The base path itself.
    pub fn at(base: &str) -> (r: Self)
        ensures
            r@ == LocationView::at(base@),
    {
        let r = Location { base: base.to_string(), parts: Vec::new() };
        assert(r@.parts =~= seq![]);
        r
    }

    /// The location that joining `part` leads to.
    pub fn join(&self, part: &str) -> (r: Self)
        ensures
            r@ == self@.join(part@),
    {
        let mut r = self.clone();
        let ghost before = texts(r.parts@);
        r.parts.push(part.to_string());
        assert(texts(r.parts@) =~= before.push(part@));
        r
    }
}

/// The home directory of Prist.
#[derive(Debug)]
pub struct PristHome {
    pub root: Location,
}

/// The layout of a home, as locations below its root.
pub open spec fn shared_dir(root: LocationView) -> LocationView {
    root.join("shared"@)
}

/// The repository that all environments draw on.
pub open spec fn bare_repo(root: LocationView) -> LocationView {
    shared_dir(root).join("git_bare.git"@)
}

/// The engine artifacts of every revision.
pub open spec fn engines_dir(root: LocationView) -> LocationView {
    shared_dir(root).join("engines"@)
}

/// The engine artifacts of one revision.
pub open spec fn engine_of(root: LocationView, hash: Seq<char>) -> LocationView {
    engines_dir(root).join(hash)
}

/// The environments.
pub open spec fn envs_dir(root: LocationView) -> LocationView {
    root.join("envs"@)
}

/// One environment.
pub open spec fn env_of(root: LocationView, name: Seq<char>) -> LocationView {
    envs_dir(root).join(name)
}

/// The link to the global default environment.
pub open spec fn default_link(root: LocationView) -> LocationView {
    env_of(root, "default"@)
}

/// The global configuration.
pub open spec fn global_config(root: LocationView) -> LocationView {
    root.join("config.json"@)
}

/// Where an environment is found.
#[derive(Debug)]
pub enum EnvPlace {
    /// Among the environments of the home, under this name.
    Named(String),
    /// At this path, to which the default link leads.
    Linked(String),
}

impl Clone for EnvPlace {
    fn clone(&self) -> (r: Self)
        ensures
            r == *self,
    {
        match self {
            EnvPlace::Named(name) => EnvPlace::Named(name.clone()),
            EnvPlace::Linked(path) => EnvPlace::Linked(path.clone()),
        }
    }
}

impl EnvPlace {
    /// The directory of the environment, for a home at `root`.
    pub open spec fn dir(self, root: LocationView) -> LocationView {
        match self {
            EnvPlace::Named(name) => env_of(root, name@),
            EnvPlace::Linked(path) => LocationView::at(path@),
        }
    }

    /// The directory of the environment.
    pub fn location(&self, home: &PristHome) -> (r: Location)
        ensures
            r@ == self.dir(home.root@),
    {
        match self {
            EnvPlace::Named(name) => home.env(name.as_str()),
            EnvPlace::Linked(path) => Location::at(path.as_str()),
        }
    }
}

/// A directory of the skeleton, and what is being done when it is created.
#[derive(Debug)]
pub struct SkeletonDir {
    pub dir: Location,
    pub doing: &'static str,
}

impl PristHome {
    /// The home: what `PRIST_HOME` says; else on Windows `prist` below what
    /// `LOCALAPPDATA` says; else `.prist` below the user's home directory.
    pub fn find(
        platform: Platform,
        prist_home: Option<String>,
        local_app_data: Option<String>,
        home_dir: Option<String>,
    ) -> (r: Result<Self>)
        ensures
            match r {
                Ok(h) => Self::found(
                    platform,
                    opt_text(prist_home),
                    opt_text(local_app_data),
                    opt_text(home_dir),
                ) == Some(h.root@),
                Err(PristError::Other(m)) => Self::found(
                    platform,
                    opt_text(prist_home),
                    opt_text(local_app_data),
                    opt_text(home_dir),
                ) is None && m@ == "could not determine the user home directory"@,
                Err(_) => false,
            },
    {
        if let Some(custom) = prist_home {
            return Ok(PristHome { root: Location::at(custom.as_str()) });
        }
        if let Some(local) = local_app_data {
            if let Platform::Windows = platform {
                return Ok(PristHome { root: Location::at(local.as_str()).join("prist") });
            }
        }
        match home_dir {
            Some(home) => Ok(PristHome { root: Location::at(home.as_str()).join(".prist") }),
            None => Err(
                PristError::msg("could not determine the user home directory".to_string()),
            ),
        }
    }

    /// The root that the three sources lead to.
    pub open spec fn found(
        platform: Platform,
        prist_home: Option<Seq<char>>,
        local_app_data: Option<Seq<char>>,
        home_dir: Option<Seq<char>>,
    ) -> Option<LocationView> {
        match (prist_home, local_app_data, home_dir) {
            (Some(custom), _, _) => Some(LocationView::at(custom)),
            (None, Some(local), _) if platform is Windows => Some(
                LocationView::at(local).join("prist"@),
            ),
            (None, _, Some(home)) => Some(LocationView::at(home).join(".prist"@)),
            (None, _, None) => None,
        }
    }

    /// The home directory itself.
    pub fn root(&self) -> (r: &Location)
        ensures
            r@ == self.root@,
    {
        &self.root
    }

    /// What is shared between the environments.
    pub fn shared(&self) -> (r: Location)
        ensures
            r@ == shared_dir(self.root@),
    {
        self.root.join("shared")
    }

    /// The repository that all environments draw on.
    pub fn git_bare(&self) -> (r: Location)
        ensures
            r@ == bare_repo(self.root@),
    {
        self.shared().join("git_bare.git")
    }

    /// The engine artifacts, one directory per revision.
    pub fn engines(&self) -> (r: Location)
        ensures
            r@ == engines_dir(self.root@),
    {
        self.shared().join("engines")
    }

    /// The engine artifacts of the revision `hash`.
    pub fn engine(&self, hash: &str) -> (r: Location)
        ensures
            r@ == engine_of(self.root@, hash@),
    {
        self.engines().join(hash)
    }

    /// The environments, one directory per name.
    pub fn envs(&self) -> (r: Location)
        ensures
            r@ == envs_dir(self.root@),
    {
        self.root.join("envs")
    }

    /// The environment `name`.
    pub fn env(&self, name: &str) -> (r: Location)
        ensures
            r@ == env_of(self.root@, name@),
    {
        self.envs().join(name)
    }

    /// The link to the global default environment.
    pub fn default_env_link(&self) -> (r: Location)
        ensures
            r@ == default_link(self.root@),
    {
        self.envs().join("default")
    }

    /// The global configuration.
    pub fn config_file(&self) -> (r: Location)
        ensures
            r@ == global_config(self.root@),
    {
        self.root.join("config.json")
    }

    /// The directories of the skeleton, in the order in which they are created, each
    /// with those above it.
    pub fn ensure(&self) -> (r: Vec<SkeletonDir>)
        ensures
            r@.len() == 4,
            r@[0].dir@ == self.root@ && r@[0].doing@ == "creating prist home at"@,
            r@[1].dir@ == bare_repo(self.root@) && r@[1].doing@ == "creating bare repo dir at"@,
            r@[2].dir@ == engines_dir(self.root@) && r@[2].doing@ == "creating engines dir at"@,
            r@[3].dir@ == envs_dir(self.root@) && r@[3].doing@ == "creating envs dir at"@,
    {
        let mut dirs: Vec<SkeletonDir> = Vec::new();
        dirs.push(SkeletonDir { dir: self.root.clone(), doing: "creating prist home at" });
        dirs.push(SkeletonDir { dir: self.git_bare(), doing: "creating bare repo dir at" });
        dirs.push(SkeletonDir { dir: self.engines(), doing: "creating engines dir at" });
        dirs.push(SkeletonDir { dir: self.envs(), doing: "creating envs dir at" });
        dirs
    }
}

/// Name of the file that pins a project to an environment.
pub const PROJECT_CONFIG_NAME: &'static str = ".pristrc";

/// The nearest directory that holds a project file: `present` says, for a
/// directory, its parent and so on up to the root of the file system, whether
/// the file stands there.
pub fn find_project_config(present: &Vec<bool>) -> (r: Option<usize>)
    ensures
        match r {
            Some(i) => i < present@.len() && present@[i as int] && forall|j: int|
                0 <= j < i ==> !#[trigger] present@[j],
            None => forall|j: int| 0 <= j < present@.len() ==> !#[trigger] present@[j],
        },
{
    let mut i: usize = 0;
    while i < present.len()
        invariant
            i <= present@.len(),
            forall|j: int| 0 <= j < i ==> !#[trigger] present@[j],
        decreases present@.len() - i,
    {
        if present[i] {
            return Some(i);
        }
        i += 1;
    }
    None
}

/// Two environments share a directory only if they share a name, and an
/// environment stands where the default link stands only if it is called
/// `default`.
pub proof fn law_env_dirs_are_distinct(root: LocationView, a: Seq<char>, b: Seq<char>)
    ensures
        env_of(root, a) == env_of(root, b) ==> a == b,
        env_of(root, a) == default_link(root) ==> a == "default"@,
{
    assert(env_of(root, a).parts.last() == a);
    assert(env_of(root, b).parts.last() == b);
    assert(default_link(root).parts.last() == "default"@);
}

/// Two engine revisions share a directory only if they are the same.
pub proof fn law_engine_dirs_are_distinct(root: LocationView, a: Seq<char>, b: Seq<char>)
    ensures
        engine_of(root, a) == engine_of(root, b) ==> a == b,
{
    assert(engine_of(root, a).parts.last() == a);
    assert(engine_of(root, b).parts.last() == b);
}

/// `inner` is reached from `outer` by joining further parts.
pub open spec fn below(inner: LocationView, outer: LocationView) -> bool {
    &&& inner.base == outer.base
    &&& outer.parts.len() <= inner.parts.len()
    &&& inner.parts.take(outer.parts.len() as int) == outer.parts
}

/// Nothing that is reached from an environment's directory is reached from what
/// is shared, and the other way round.
pub proof fn law_envs_stand_apart_from_shared(root: LocationView, name: Seq<char>, p: LocationView)
    ensures
        below(p, env_of(root, name)) ==> !below(p, shared_dir(root)),
        below(env_of(root, name), root),
        below(bare_repo(root), shared_dir(root)),
        below(engines_dir(root), shared_dir(root)),
{
    reveal_strlit("envs");
    reveal_strlit("shared");
    let n = root.parts.len() as int;
    if below(p, env_of(root, name)) && below(p, shared_dir(root)) {
        assert(p.parts.take(n + 2)[n] == env_of(root, name).parts[n]);
        assert(p.parts.take(n + 1)[n] == shared_dir(root).parts[n]);
        assert("envs"@.len() != "shared"@.len());
    }
    assert(env_of(root, name).parts.take(n) =~= root.parts);
    assert(bare_repo(root).parts.take(n + 1) =~= shared_dir(root).parts);
    assert(engines_dir(root).parts.take(n + 1) =~= shared_dir(root).parts);
}

/// Where everything is below the home.
pub proof fn law_home_is_laid_out(root: LocationView, name: Seq<char>)
    ensures
        bare_repo(root) == (LocationView {
            base: root.base,
            parts: root.parts + seq!["shared"@, "git_bare.git"@],
        }),
        engine_of(root, name) == (LocationView {
            base: root.base,
            parts: root.parts + seq!["shared"@, "engines"@, name],
        }),
        env_of(root, name) == (LocationView {
            base: root.base,
            parts: root.parts + seq!["envs"@, name],
        }),
        engines_dir(root) == (LocationView {
            base: root.base,
            parts: root.parts + seq!["shared"@, "engines"@],
        }),
        envs_dir(root) == (LocationView { base: root.base, parts: root.parts + seq!["envs"@] }),
        default_link(root) == (LocationView {
            base: root.base,
            parts: root.parts + seq!["envs"@, "default"@],
        }),
        global_config(root) == (LocationView {
            base: root.base,
            parts: root.parts + seq!["config.json"@],
        }),
{
    assert(bare_repo(root).parts =~= root.parts + seq!["shared"@, "git_bare.git"@]);
    assert(engine_of(root, name).parts =~= root.parts + seq!["shared"@, "engines"@, name]);
    assert(env_of(root, name).parts =~= root.parts + seq!["envs"@, name]);
    assert(engines_dir(root).parts =~= root.parts + seq!["shared"@, "engines"@]);
    assert(envs_dir(root).parts =~= root.parts + seq!["envs"@]);
    assert(default_link(root).parts =~= root.parts + seq!["envs"@, "default"@]);
    assert(global_config(root).parts =~= root.parts + seq!["config.json"@]);
}

/// The home is where the user says; else on Windows below the local data, where these are
/// known; else below the user's own directory.
pub proof fn law_home_is_found(
    platform: Platform,
    said: Option<Seq<char>>,
    local: Option<Seq<char>>,
    own: Option<Seq<char>>,
)
    ensures
        said matches Some(p) ==> PristHome::found(platform, said, local, own) == Some(
            LocationView { base: p, parts: seq![] },
        ),
        said is None && platform is Windows ==> (local matches Some(l) ==> PristHome::found(
            platform,
            said,
            local,
            own,
        ) == Some(LocationView { base: l, parts: seq!["prist"@] })),
        said is None && (!(platform is Windows) || local is None) ==> (own matches Some(h)
            ==> PristHome::found(platform, said, local, own) == Some(
            LocationView { base: h, parts: seq![".prist"@] },
        )),
        said is None && (!(platform is Windows) || local is None) && own is None
            ==> PristHome::found(platform, said, local, own) is None,
{
    if let Some(l) = local {
        assert(LocationView::at(l).join("prist"@).parts =~= seq!["prist"@]);
    }
    if let Some(h) = own {
        assert(LocationView::at(h).join(".prist"@).parts =~= seq![".prist"@]);
    }
}

} // verus!
