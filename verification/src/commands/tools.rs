//! The tools of an environment: where they are, what they find on their `PATH`, and
//! the shims through which they are called.

use vstd::prelude::*;

use crate::engine::{flutter_file, flutter_name};
use crate::git_ops::FLUTTER_REPO_URL;
use crate::paths::{Location, LocationView, PristHome};
use crate::releases::Platform;
use crate::text::{join, joined, law_join_undoes_split, law_split_undoes_join, lemma_join_front, lower, lowered, opt_str, pieces_of, same, split, texts};

verus! {

/// The directory of an environment's tools.
pub open spec fn bin_of(env: LocationView) -> LocationView {
    env.join("bin"@)
}

/// The directory of the Dart SDK's tools in an environment.
pub open spec fn sdk_bin_of(env: LocationView) -> LocationView {
    bin_of(env).join("cache"@).join("dart-sdk"@).join("bin"@)
}

/// The directory of an environment's tools.
pub fn bin_dir(env: &Location) -> (r: Location)
    ensures
        r@ == bin_of(env@),
{
    env.join("bin")
}

/// The directory of the Dart SDK's tools in an environment.
pub fn sdk_bin_dir(env: &Location) -> (r: Location)
    ensures
        r@ == sdk_bin_of(env@),
{
    bin_dir(env).join("cache").join("dart-sdk").join("bin")
}

/// The Flutter tool of an environment.
pub fn flutter_bin(platform: Platform, env: &Location) -> (r: Location)
    ensures
        r@ == bin_of(env@).join(flutter_file(platform)),
{
    bin_dir(env).join(flutter_name(platform))
}

/// Where the Dart tool of an environment may be; the first place that is there counts.
pub open spec fn dart_places(platform: Platform, env: LocationView) -> Seq<LocationView> {
    if platform is Windows {
        seq![
            bin_of(env).join("dart.exe"@),
            bin_of(env).join("dart.bat"@),
            sdk_bin_of(env).join("dart.exe"@),
        ]
    } else {
        seq![bin_of(env).join("dart"@), sdk_bin_of(env).join("dart"@)]
    }
}

/// The places of a list.
pub open spec fn places(list: Seq<Location>) -> Seq<LocationView> {
    list.map_values(|l: Location| l@)
}

/// Where the Dart tool of an environment may be; the first place that is there counts.
pub fn dart_bin(platform: Platform, env: &Location) -> (r: Vec<Location>)
    ensures
        places(r@) == dart_places(platform, env@),
{
    let mut list: Vec<Location> = Vec::new();
    match platform {
        Platform::Windows => {
            list.push(bin_dir(env).join("dart.exe"));
            list.push(bin_dir(env).join("dart.bat"));
            list.push(sdk_bin_dir(env).join("dart.exe"));
        },
        _ => {
            list.push(bin_dir(env).join("dart"));
            list.push(sdk_bin_dir(env).join("dart"));
        },
    }
    assert(places(list@) =~= dart_places(platform, env@));
    list
}

/// Where a tool of an environment may be; the first place that is there counts.
pub open spec fn tool_places(platform: Platform, env: LocationView, tool: Seq<char>) -> Seq<
    LocationView,
> {
    if tool == "flutter"@ {
        seq![bin_of(env).join(flutter_file(platform))]
    } else if tool == "dart"@ || tool == "pub"@ {
        dart_places(platform, env)
    } else {
        seq![bin_of(env).join(tool)]
    }
}

/// The argument that comes before those of the user: `pub` is a part of the Dart tool.
pub open spec fn leading_argument(tool: Seq<char>) -> Option<Seq<char>> {
    if tool == "pub"@ {
        Some("pub"@)
    } else {
        None
    }
}

/// Where a tool of an environment may be, and the argument that comes before those of
/// the user.
pub fn resolve_tool(platform: Platform, env: &Location, tool: &str) -> (r: (
    Vec<Location>,
    Option<&'static str>,
))
    ensures
        places(r.0@) == tool_places(platform, env@, tool@),
        r.0@.len() > 0,
        opt_str(r.1) == leading_argument(tool@),
{
    proof {
        reveal_strlit("flutter");
        reveal_strlit("dart");
        reveal_strlit("pub");
        assert("flutter"@.len() != "pub"@.len() && "dart"@.len() != "pub"@.len());
    }
    if same(tool, "flutter") {
        let mut list: Vec<Location> = Vec::new();
        list.push(flutter_bin(platform, env));
        assert(places(list@) =~= tool_places(platform, env@, tool@));
        (list, None)
    } else if same(tool, "dart") {
        let list = dart_bin(platform, env);
        assert(places(list@).len() == list@.len());
        (list, None)
    } else if same(tool, "pub") {
        let list = dart_bin(platform, env);
        assert(places(list@).len() == list@.len());
        (list, Some("pub"))
    } else {
        let mut list: Vec<Location> = Vec::new();
        list.push(bin_dir(env).join(tool));
        assert(places(list@) =~= tool_places(platform, env@, tool@));
        (list, None)
    }
}

// ---------------------------------------------------------------------------
// The path
// ---------------------------------------------------------------------------

/// What stands between two entries of a `PATH`.
pub open spec fn separator(platform: Platform) -> char {
    if platform is Windows {
        ';'
    } else {
        ':'
    }
}

/// What stands between two entries of a `PATH`.
pub fn path_separator(platform: Platform) -> (r: char)
    ensures
        r == separator(platform),
{
    match platform {
        Platform::Windows => ';',
        _ => ':',
    }
}

/// What the file system says of an entry of a `PATH`, compared with the directory of
/// the shims.
#[derive(Debug)]
pub struct EntryFacts {
    /// Whether both lead to the same place, if both lead anywhere.
    pub resolved_same: Option<bool>,
    /// Whether both are the same path.
    pub same_path: bool,
}

/// The entry is the directory of the shims at `shims`.
pub open spec fn is_shim_entry(
    platform: Platform,
    entry: Seq<char>,
    shims: Seq<char>,
    facts: EntryFacts,
) -> bool {
    match facts.resolved_same {
        Some(b) => b,
        None => if platform is Windows {
            lower(entry) == lower(shims)
        } else {
            facts.same_path
        },
    }
}

/// Whether the entry is the directory of the shims at `shims`: both lead to the same
/// place, or where that cannot be told they are the same path, on Windows up to the
/// case of letters.
pub fn shim_entry(platform: Platform, entry: &str, shims: &str, facts: &EntryFacts) -> (r: bool)
    ensures
        r == is_shim_entry(platform, entry@, shims@, *facts),
{
    match facts.resolved_same {
        Some(b) => b,
        None => match platform {
            Platform::Windows => same(lowered(entry).as_str(), lowered(shims).as_str()),
            _ => facts.same_path,
        },
    }
}

/// The entries of a `PATH`.
pub fn path_entries(platform: Platform, path: &str) -> (r: Vec<String>)
    ensures
        texts(r@) == split(path@, separator(platform)),
{
    pieces_of(path, path_separator(platform))
}

/// The first `n` entries without those of which it is known that they are the directory
/// of the shims.
pub open spec fn kept_entries(
    platform: Platform,
    entries: Seq<Seq<char>>,
    shims: Seq<char>,
    facts: Seq<EntryFacts>,
    n: int,
) -> Seq<Seq<char>>
    decreases n,
{
    if n <= 0 {
        seq![]
    } else {
        let before = kept_entries(platform, entries, shims, facts, n - 1);
        if n <= facts.len() && is_shim_entry(platform, entries[n - 1], shims, facts[n - 1]) {
            before
        } else {
            before.push(entries[n - 1])
        }
    }
}

/// The `PATH` of a tool: the environment's tools come first, then those of its Dart
/// SDK, then what was there before without the shims.
pub open spec fn tool_path_text(
    platform: Platform,
    bin: Seq<char>,
    sdk_bin: Seq<char>,
    entries: Seq<Seq<char>>,
    shims: Seq<char>,
    facts: Seq<EntryFacts>,
) -> Seq<char> {
    let sep = seq![separator(platform)];
    bin + sep + sdk_bin + sep + join(
        kept_entries(platform, entries, shims, facts, entries.len() as int),
        sep,
    )
}

/// The `PATH` of a tool, for the directories `bin` and `sdk_bin` of an environment and
/// the directory `shims`; `entries` are those of the present `PATH`, with what the file
/// system says of each. An entry of which it says nothing is taken over.
pub fn tool_path(
    platform: Platform,
    bin: &str,
    sdk_bin: &str,
    entries: &Vec<String>,
    shims: &str,
    facts: &Vec<EntryFacts>,
) -> (r: String)
    ensures
        r@ == tool_path_text(platform, bin@, sdk_bin@, texts(entries@), shims@, facts@),
{
    let mut kept: Vec<String> = Vec::new();
    let mut i: usize = 0;
    assert(texts(kept@) =~= seq![]);
    while i < entries.len()
        invariant
            i <= entries@.len(),
            texts(kept@) == kept_entries(platform, texts(entries@), shims@, facts@, i as int),
        decreases entries@.len() - i,
    {
        assert(texts(entries@)[i as int] == entries@[i as int]@);
        if i >= facts.len() || !shim_entry(platform, entries[i].as_str(), shims, &facts[i]) {
            let ghost before = texts(kept@);
            kept.push(entries[i].clone());
            assert(texts(kept@) =~= before.push(entries@[i as int]@));
        }
        i += 1;
    }
    proof {
        reveal_strlit(";");
        reveal_strlit(":");
        assert(";"@ =~= seq![';']);
        assert(":"@ =~= seq![':']);
    }
    let sep: &str = match platform {
        Platform::Windows => ";",
        _ => ":",
    };
    bin.to_string().concat(sep).concat(sdk_bin).concat(sep).concat(joined(&kept, sep).as_str())
}

/// The entries that a tool's `PATH` takes over are exactly those that are not the
/// directory of the shims.
pub proof fn law_path_drops_only_shims(
    platform: Platform,
    entries: Seq<Seq<char>>,
    shims: Seq<char>,
    facts: Seq<EntryFacts>,
    n: int,
    x: Seq<char>,
)
    requires
        0 <= n <= entries.len(),
        facts.len() == entries.len(),
    ensures
        kept_entries(platform, entries, shims, facts, n).contains(x) <==> exists|i: int|
            0 <= i < n && #[trigger] entries[i] == x && !is_shim_entry(
                platform,
                x,
                shims,
                facts[i],
            ),
        kept_entries(platform, entries, shims, facts, n).len() <= n,
    decreases n,
{
    if n > 0 {
        law_path_drops_only_shims(platform, entries, shims, facts, n - 1, x);
        let before = kept_entries(platform, entries, shims, facts, n - 1);
        let e = entries[n - 1];
        if !is_shim_entry(platform, e, shims, facts[n - 1]) {
            let all = before.push(e);
            if all.contains(x) {
                let j = choose|j: int| 0 <= j < all.len() && all[j] == x;
                if j < before.len() {
                    assert(before[j] == x);
                    assert(before.contains(x));
                }
            }
            if before.contains(x) {
                let j = choose|j: int| 0 <= j < before.len() && before[j] == x;
                assert(all[j] == x);
            }
            if e == x {
                assert(all[all.len() - 1] == x);
            }
        }
    }
}

/// A tool finds on its `PATH` the environment's tools first, then those of its Dart
/// SDK, then what was there before without the shims; where nothing is left of that,
/// one empty entry.
pub proof fn law_tool_path_entries(
    platform: Platform,
    bin: Seq<char>,
    sdk_bin: Seq<char>,
    path: Seq<char>,
    shims: Seq<char>,
    facts: Seq<EntryFacts>,
)
    requires
        !bin.contains(separator(platform)),
        !sdk_bin.contains(separator(platform)),
        facts.len() == split(path, separator(platform)).len(),
    ensures
        ({
            let entries = split(path, separator(platform));
            let kept = kept_entries(platform, entries, shims, facts, entries.len() as int);
            split(
                tool_path_text(platform, bin, sdk_bin, entries, shims, facts),
                separator(platform),
            ) == seq![bin, sdk_bin] + if kept.len() == 0 {
                seq![Seq::<char>::empty()]
            } else {
                kept
            }
        }),
{
    let c = separator(platform);
    let entries = split(path, c);
    let n = entries.len() as int;
    let kept = kept_entries(platform, entries, shims, facts, n);
    let tail = if kept.len() == 0 {
        seq![Seq::<char>::empty()]
    } else {
        kept
    };
    law_join_undoes_split(path, c);
    assert forall|i: int| 0 <= i < tail.len() implies !(#[trigger] tail[i]).contains(c) by {
        if kept.len() > 0 {
            law_path_drops_only_shims(platform, entries, shims, facts, n, kept[i]);
            assert(kept.contains(kept[i]));
            let j = choose|j: int| 0 <= j < n && #[trigger] entries[j] == kept[i];
            assert(!entries[j].contains(c));
        }
    }
    let all = seq![bin, sdk_bin] + tail;
    assert forall|i: int| 0 <= i < all.len() implies !(#[trigger] all[i]).contains(c) by {
        if i >= 2 {
            assert(all[i] == tail[i - 2]);
        }
    }
    law_split_undoes_join(all, c);
    let sep = seq![c];
    assert(all =~= seq![bin] + (seq![sdk_bin] + tail));
    lemma_join_front(bin, seq![sdk_bin] + tail, sep);
    lemma_join_front(sdk_bin, tail, sep);
    assert(join(tail, sep) == join(kept, sep));
    assert(bin + sep + (sdk_bin + sep + join(kept, sep)) =~= bin + sep + sdk_bin + sep + join(
        kept,
        sep,
    ));
}

/// A variable that is set for a tool.
#[derive(Debug)]
pub struct Variable {
    pub name: &'static str,
    pub value: String,
}

/// The variables are those that are set for a tool of the environment at `env`, whose
/// `PATH` is `path`.
pub open spec fn sets_variables(list: Seq<Variable>, env: Seq<char>, path: Seq<char>) -> bool {
    &&& list.len() == 4
    &&& list[0].name@ == "FLUTTER_ROOT"@ && list[0].value@ == env
    &&& list[1].name@ == "FLUTTER_GIT_URL"@ && list[1].value@ == FLUTTER_REPO_URL@
    &&& list[2].name@ == "PATH"@ && list[2].value@ == path
    &&& list[3].name@ == "FLUTTER_ALREADY_WAITED"@ && list[3].value@ == "true"@
}

/// The variables that are set for a tool of the environment at `env`, whose `PATH` is
/// `path`. Flutter is told where it is, where it comes from and that it need not wait
/// for another run.
pub fn tool_variables(env: &str, path: &str) -> (r: Vec<Variable>)
    ensures
        sets_variables(r@, env@, path@),
{
    let mut list: Vec<Variable> = Vec::new();
    list.push(Variable { name: "FLUTTER_ROOT", value: env.to_string() });
    list.push(Variable { name: "FLUTTER_GIT_URL", value: FLUTTER_REPO_URL.to_string() });
    list.push(Variable { name: "PATH", value: path.to_string() });
    list.push(Variable { name: "FLUTTER_ALREADY_WAITED", value: "true".to_string() });
    list
}

/// What the system says of the present `PATH` and of the places that concern a tool.
#[derive(Debug)]
pub struct PathFacts {
    /// The present `PATH`.
    pub path: String,
    /// What the file system says of each of its entries.
    pub facts: Vec<EntryFacts>,
    /// The path of the directory of the shims.
    pub shims: String,
    /// The path of the environment.
    pub env: String,
    /// The path of the directory of its tools.
    pub bin: String,
    /// The path of the directory of its Dart SDK's tools.
    pub sdk_bin: String,
}

impl PathFacts {
    /// The `PATH` of the tool.
    pub open spec fn tool_path(self, platform: Platform) -> Seq<char> {
        tool_path_text(
            platform,
            self.bin@,
            self.sdk_bin@,
            split(self.path@, separator(platform)),
            self.shims@,
            self.facts@,
        )
    }

    /// The variables that are set for the tool.
    pub fn variables(&self, platform: Platform) -> (r: Vec<Variable>)
        ensures
            sets_variables(r@, self.env@, self.tool_path(platform)),
    {
        let entries = path_entries(platform, self.path.as_str());
        let path = tool_path(
            platform,
            self.bin.as_str(),
            self.sdk_bin.as_str(),
            &entries,
            self.shims.as_str(),
            &self.facts,
        );
        tool_variables(self.env.as_str(), path.as_str())
    }
}

/// An argument of a tool.
#[derive(Debug)]
pub enum Argument {
    /// A word that Prist puts first.
    Word(&'static str),
    /// The argument of this number that the user gave.
    User(usize),
}

/// An argument of a tool, as the text it holds.
pub enum ArgumentView {
    Word(Seq<char>),
    User(int),
}

impl View for Argument {
    type V = ArgumentView;

    open spec fn view(&self) -> ArgumentView {
        match self {
            Argument::Word(w) => ArgumentView::Word(w@),
            Argument::User(i) => ArgumentView::User(*i as int),
        }
    }
}

/// A list of arguments, as the texts they hold.
pub open spec fn argument_views(list: Seq<Argument>) -> Seq<ArgumentView> {
    list.map_values(|a: Argument| a@)
}

/// The arguments of a tool, of which the user gave `given`: these in order, behind the
/// one that comes before them.
pub open spec fn arguments_of(tool: Seq<char>, given: nat) -> Seq<ArgumentView> {
    (match leading_argument(tool) {
        Some(w) => seq![ArgumentView::Word(w)],
        None => seq![],
    }) + Seq::new(given, |i: int| ArgumentView::User(i))
}

/// The arguments of a tool, of which the user gave `given`.
pub fn tool_arguments(tool: &str, given: usize) -> (r: Vec<Argument>)
    ensures
        argument_views(r@) == arguments_of(tool@, given as nat),
        r@.len() == given + if tool@ == "pub"@ {
            1int
        } else {
            0int
        },
        tool@ == "pub"@ ==> (r@[0] matches Argument::Word(w) && w@ == "pub"@),
        tool@ != "pub"@ ==> forall|i: int|
            0 <= i < given ==> #[trigger] r@[i] == Argument::User(i as usize),
        tool@ == "pub"@ ==> forall|i: int|
            1 <= i <= given ==> #[trigger] r@[i] == Argument::User((i - 1) as usize),
{
    let mut list: Vec<Argument> = Vec::new();
    if same(tool, "pub") {
        list.push(Argument::Word("pub"));
    }
    assert(argument_views(list@) =~= arguments_of(tool@, 0));
    let mut i: usize = 0;
    while i < given
        invariant
            i <= given,
            argument_views(list@) == arguments_of(tool@, i as nat),
        decreases given - i,
    {
        let ghost before = argument_views(list@);
        list.push(Argument::User(i));
        assert(argument_views(list@) =~= before.push(ArgumentView::User(i as int)));
        assert(argument_views(list@) =~= arguments_of(tool@, (i + 1) as nat));
        i += 1;
    }
    proof {
        let lead = if tool@ == "pub"@ {
            1int
        } else {
            0int
        };
        let views = argument_views(list@);
        assert(views.len() == list@.len());
        assert forall|j: int| lead <= j < given + lead implies #[trigger] list@[j]
            == Argument::User((j - lead) as usize) by {
            assert(views[j] == ArgumentView::User(j - lead));
            assert(views[j] == list@[j]@);
        }
        if lead == 1 {
            assert(views[0] == list@[0]@);
        }
    }
    list
}

// ---------------------------------------------------------------------------
// Shims
// ---------------------------------------------------------------------------

/// The directory of the shims.
pub open spec fn shim_dir(root: LocationView) -> LocationView {
    root.join("bin"@)
}

/// The directory of the shims.
pub fn shim_directory(home: &PristHome) -> (r: Location)
    ensures
        r@ == shim_dir(home.root@),
{
    home.root.join("bin")
}

/// A script that calls a tool through Prist.
#[derive(Debug)]
pub struct Shim {
    pub file: String,
    pub text: String,
    /// Whether the file has to be marked as executable.
    pub executable: bool,
}

/// `shim` calls `tool`.
pub open spec fn shim_for(platform: Platform, tool: Seq<char>, shim: Shim) -> bool {
    if platform is Windows {
        &&& shim.file@ == tool + ".bat"@
        &&& shim.text@ == "@echo off\r\nprist "@ + tool + " %*\r\n"@
        &&& !shim.executable
    } else {
        &&& shim.file@ == tool
        &&& shim.text@ == "#!/bin/sh\nexec prist "@ + tool + " \"$@\"\n"@
        &&& shim.executable
    }
}

/// A script that calls `tool` through Prist.
fn shim(platform: Platform, tool: &str) -> (r: Shim)
    ensures
        shim_for(platform, tool@, r),
{
    match platform {
        Platform::Windows => Shim {
            file: tool.to_string().concat(".bat"),
            text: "@echo off\r\nprist ".to_string().concat(tool).concat(" %*\r\n"),
            executable: false,
        },
        _ => Shim {
            file: tool.to_string(),
            text: "#!/bin/sh\nexec prist ".to_string().concat(tool).concat(" \"$@\"\n"),
            executable: true,
        },
    }
}

/// The scripts through which `flutter`, `dart` and `pub` are called from any terminal.
pub fn install_shims(platform: Platform) -> (r: Vec<Shim>)
    ensures
        r@.len() == 3,
        shim_for(platform, "flutter"@, r@[0]),
        shim_for(platform, "dart"@, r@[1]),
        shim_for(platform, "pub"@, r@[2]),
{
    let mut list: Vec<Shim> = Vec::new();
    list.push(shim(platform, "flutter"));
    list.push(shim(platform, "dart"));
    list.push(shim(platform, "pub"));
    list
}

/// How a link is removed: as a file first and as a directory if that fails, or on
/// Windows, where it is a junction, the other way round.
pub fn unlinks_as_file_first(platform: Platform) -> (r: bool)
    ensures
        r == !(platform is Windows),
{
    match platform {
        Platform::Windows => false,
        _ => true,
    }
}

// ---------------------------------------------------------------------------
// What a tool is given
// ---------------------------------------------------------------------------

/// The user's arguments reach the tool all, in the order in which they were given, and
/// nothing comes between or behind them. Before them stands `pub` for that tool, and
/// nothing for any other.
pub proof fn law_arguments_are_forwarded(tool: Seq<char>, given: nat, i: int)
    requires
        0 <= i < given,
    ensures
        tool == "pub"@ ==> arguments_of(tool, given).len() == given + 1 && arguments_of(
            tool,
            given,
        )[0] == ArgumentView::Word("pub"@) && arguments_of(tool, given)[i + 1]
            == ArgumentView::User(i),
        tool != "pub"@ ==> arguments_of(tool, given).len() == given && arguments_of(tool, given)[i]
            == ArgumentView::User(i),
        argument_views(seq![Argument::User(i as usize)]) == seq![
            ArgumentView::User(i as usize as int),
        ],
{
    assert(argument_views(seq![Argument::User(i as usize)]) =~= seq![
        ArgumentView::User(i as usize as int),
    ]);
}

/// One argument more changes nothing of those before it.
pub proof fn law_further_argument_comes_last(tool: Seq<char>, given: nat)
    ensures
        arguments_of(tool, given + 1) == arguments_of(tool, given).push(
            ArgumentView::User(given as int),
        ),
{
    assert(arguments_of(tool, given + 1) =~= arguments_of(tool, given).push(
        ArgumentView::User(given as int),
    ));
}

/// A place below the directory at `env`.
pub open spec fn at(env: LocationView, parts: Seq<Seq<char>>) -> LocationView {
    LocationView { base: env.base, parts: env.parts + parts }
}

/// Where the tools are, on each platform: Flutter in `bin`; Dart, of which `pub` is a part,
/// in `bin` or else in the Dart SDK below `bin/cache`; any other tool in `bin`.
pub proof fn law_tools_are_found_in_the_environment(env: LocationView, tool: Seq<char>)
    ensures
        tool_places(Platform::Linux, env, tool) == tool_places(Platform::Macos, env, tool),
        tool_places(Platform::Linux, env, "flutter"@) == seq![at(env, seq!["bin"@, "flutter"@])],
        tool_places(Platform::Windows, env, "flutter"@) == seq![
            at(env, seq!["bin"@, "flutter.bat"@]),
        ],
        tool_places(Platform::Linux, env, "dart"@) == seq![
            at(env, seq!["bin"@, "dart"@]),
            at(env, seq!["bin"@, "cache"@, "dart-sdk"@, "bin"@, "dart"@]),
        ],
        tool_places(Platform::Windows, env, "dart"@) == seq![
            at(env, seq!["bin"@, "dart.exe"@]),
            at(env, seq!["bin"@, "dart.bat"@]),
            at(env, seq!["bin"@, "cache"@, "dart-sdk"@, "bin"@, "dart.exe"@]),
        ],
        tool_places(Platform::Linux, env, "pub"@) == tool_places(Platform::Linux, env, "dart"@),
        tool_places(Platform::Windows, env, "pub"@) == tool_places(Platform::Windows, env, "dart"@),
        tool != "flutter"@ && tool != "dart"@ && tool != "pub"@ ==> tool_places(
            Platform::Linux,
            env,
            tool,
        ) == seq![at(env, seq!["bin"@, tool])] && tool_places(Platform::Windows, env, tool) == seq![
            at(env, seq!["bin"@, tool]),
        ],
{
    reveal_strlit("flutter");
    reveal_strlit("dart");
    reveal_strlit("pub");
    assert("flutter"@.len() == 7 && "dart"@.len() == 4 && "pub"@.len() == 3);
    assert(bin_of(env).join("flutter"@) =~= at(env, seq!["bin"@, "flutter"@]));
    assert(bin_of(env).join("flutter.bat"@) =~= at(env, seq!["bin"@, "flutter.bat"@]));
    assert(bin_of(env).join("dart"@) =~= at(env, seq!["bin"@, "dart"@]));
    assert(bin_of(env).join("dart.exe"@) =~= at(env, seq!["bin"@, "dart.exe"@]));
    assert(bin_of(env).join("dart.bat"@) =~= at(env, seq!["bin"@, "dart.bat"@]));
    assert(sdk_bin_of(env).join("dart"@) =~= at(
        env,
        seq!["bin"@, "cache"@, "dart-sdk"@, "bin"@, "dart"@],
    ));
    assert(sdk_bin_of(env).join("dart.exe"@) =~= at(
        env,
        seq!["bin"@, "cache"@, "dart-sdk"@, "bin"@, "dart.exe"@],
    ));
    assert(bin_of(env).join(tool) =~= at(env, seq!["bin"@, tool]));
    assert(tool_places(Platform::Linux, env, "dart"@) =~= seq![
        at(env, seq!["bin"@, "dart"@]),
        at(env, seq!["bin"@, "cache"@, "dart-sdk"@, "bin"@, "dart"@]),
    ]);
    assert(tool_places(Platform::Windows, env, "dart"@) =~= seq![
        at(env, seq!["bin"@, "dart.exe"@]),
        at(env, seq!["bin"@, "dart.bat"@]),
        at(env, seq!["bin"@, "cache"@, "dart-sdk"@, "bin"@, "dart.exe"@]),
    ]);
}

/// Two texts are the same up to the case of the letters A to Z.
pub open spec fn same_letters(a: Seq<char>, b: Seq<char>) -> bool {
    &&& a.len() == b.len()
    &&& forall|i: int|
        0 <= i < a.len() ==> #[trigger] a[i] == b[i] || ('A' <= a[i] && a[i] <= 'Z' && b[i] as u32
            == a[i] as u32 + 32) || ('A' <= b[i] && b[i] <= 'Z' && a[i] as u32 == b[i] as u32 + 32)
}

/// An entry of the `PATH` is the directory of the shims where both lead to the same place;
/// where that cannot be told, where they are the same path, or on Windows the same up to
/// the case of letters.
pub proof fn law_shims_are_recognised(
    platform: Platform,
    entry: Seq<char>,
    shims: Seq<char>,
    facts: EntryFacts,
)
    ensures
        facts.resolved_same == Some(true) ==> is_shim_entry(platform, entry, shims, facts),
        facts.resolved_same == Some(false) ==> !is_shim_entry(platform, entry, shims, facts),
        facts.resolved_same is None && !(platform is Windows) ==> is_shim_entry(
            platform,
            entry,
            shims,
            facts,
        ) == facts.same_path,
        facts.resolved_same is None && platform is Windows ==> is_shim_entry(
            platform,
            entry,
            shims,
            facts,
        ) == same_letters(entry, shims),
{
    crate::text::law_lower_is_of_letters(entry, shims);
}

/// The entries that are taken over keep their order: each stands behind exactly those
/// taken over before it.
pub proof fn law_path_keeps_its_order(
    platform: Platform,
    entries: Seq<Seq<char>>,
    shims: Seq<char>,
    facts: Seq<EntryFacts>,
    i: int,
    n: int,
)
    requires
        0 <= i < n <= entries.len(),
        facts.len() == entries.len(),
    ensures
        kept_entries(platform, entries, shims, facts, 0).len() == 0,
        is_shim_entry(platform, entries[i], shims, facts[i]) ==> kept_entries(
            platform,
            entries,
            shims,
            facts,
            i + 1,
        ).len() == kept_entries(platform, entries, shims, facts, i).len(),
        !is_shim_entry(platform, entries[i], shims, facts[i]) ==> {
            let before = kept_entries(platform, entries, shims, facts, i).len();
            &&& kept_entries(platform, entries, shims, facts, i + 1).len() == before + 1
            &&& before < kept_entries(platform, entries, shims, facts, n).len()
            &&& kept_entries(platform, entries, shims, facts, n)[before as int] == entries[i]
        },
    decreases n - i,
{
    if i + 1 < n {
        lemma_kept_grows(platform, entries, shims, facts, i + 1, n);
    }
}

/// What was taken over stays where it is.
proof fn lemma_kept_grows(
    platform: Platform,
    entries: Seq<Seq<char>>,
    shims: Seq<char>,
    facts: Seq<EntryFacts>,
    i: int,
    n: int,
)
    requires
        0 <= i <= n <= entries.len(),
    ensures
        kept_entries(platform, entries, shims, facts, i).len() <= kept_entries(
            platform,
            entries,
            shims,
            facts,
            n,
        ).len(),
        forall|k: int|
            0 <= k < kept_entries(platform, entries, shims, facts, i).len() ==> #[trigger] kept_entries(
                platform,
                entries,
                shims,
                facts,
                n,
            )[k] == kept_entries(platform, entries, shims, facts, i)[k],
    decreases n - i,
{
    if i < n {
        lemma_kept_grows(platform, entries, shims, facts, i, n - 1);
    }
}

/// A shim hands its tool and all arguments to Prist, whatever the tool.
pub proof fn law_shims_call_their_tool(tool: Seq<char>, unix: Shim, windows: Shim)
    requires
        shim_for(Platform::Linux, tool, unix),
        shim_for(Platform::Windows, tool, windows),
    ensures
        shim_for(Platform::Macos, tool, unix),
        unix.file@ == tool && unix.executable,
        unix.text@ == "#!/bin/sh\n"@ + "exec prist "@ + tool + " \"$@\"\n"@,
        windows.file@ == tool + ".bat"@ && !windows.executable,
        windows.text@ == "@echo off\r\n"@ + "prist "@ + tool + " %*\r\n"@,
{
    reveal_strlit("#!/bin/sh\n");
    reveal_strlit("exec prist ");
    reveal_strlit("#!/bin/sh\nexec prist ");
    reveal_strlit("@echo off\r\n");
    reveal_strlit("prist ");
    reveal_strlit("@echo off\r\nprist ");
    assert("#!/bin/sh\nexec prist "@ =~= "#!/bin/sh\n"@ + "exec prist "@);
    assert("@echo off\r\nprist "@ =~= "@echo off\r\n"@ + "prist "@);
}

} // verus!
