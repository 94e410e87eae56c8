//! Rules for working with files: writing them so that they are never seen half
//! written, and links to directories.
//!
//! A file is written under another name beside its destination and then renamed.
//! A link to a directory is a symbolic link on Unix and a directory junction on
//! Windows, where a symbolic link would ask for privileges.

use vstd::prelude::*;

use crate::config::FileRead;
use crate::paths::{Location, LocationView};
use crate::releases::Platform;
use crate::text::{decimal, decimal_of, opt_str, opt_text};
use crate::work::Outcome;

verus! {

/// What was being done when something went wrong, and what went wrong, where that
/// is told apart.
#[derive(Debug)]
pub struct Trouble {
    pub doing: String,
    pub cause: Option<String>,
}

// ---------------------------------------------------------------------------
// Atomic writes
// ---------------------------------------------------------------------------

/// The name under which a file is written at first.
pub open spec fn temporary_name(name: Seq<char>, process: u32) -> Seq<char> {
    "."@ + name + ".tmp."@ + decimal(process as nat)
}

/// The place where a file is written at first: beside its destination.
pub open spec fn sibling(
    parent: Option<Seq<char>>,
    name: Seq<char>,
    process: u32,
) -> LocationView {
    LocationView::at(
        match parent {
            Some(p) => p,
            None => "."@,
        },
    ).join(temporary_name(name, process))
}

/// The place where a file is written at first, for a destination called `name` in
/// the directory `parent`.
pub fn tmp_sibling(parent: Option<&str>, name: &str, process: u32) -> (r: Location)
    ensures
        r@ == sibling(opt_str(parent), name@, process),
{
    let base: &str = match parent {
        Some(p) => p,
        None => ".",
    };
    let temporary = ".".to_string().concat(name).concat(".tmp.").concat(
        decimal_of(process as u64).as_str(),
    );
    Location::at(base).join(temporary.as_str())
}

/// Something to be done on the way to a file that is written atomically.
#[derive(Debug)]
pub enum WriteAction {
    /// Create the directory of the destination and those above it.
    MakeDirectory(Location),
    /// Write the contents to this place.
    WriteTemporary(Location),
    /// Give what stands at `from` the name `to`, in place of what stands there.
    Rename { from: Location, to: Location },
}

/// How far an atomic write has come.
#[derive(Debug)]
pub enum WriteStage {
    MakeDirectory,
    WriteTemporary,
    Rename,
    Done,
    /// The directory could not be created.
    NoDirectory(String),
    /// The destination has no name.
    NoName,
    /// The contents could not be written.
    NoTemporary(String),
    /// The file could not be renamed.
    NoRename(String),
}

/// A file that is written atomically.
#[derive(Debug)]
pub struct AtomicWrite {
    /// The destination.
    pub dest: String,
    /// The directory of the destination, if it has one.
    pub parent: Option<String>,
    /// The name of the destination in it, if it has one.
    pub name: Option<String>,
    /// The number of this process.
    pub process: u32,
    pub stage: WriteStage,
}

/// Write the file `dest` atomically, which is called `name` in the directory
/// `parent`.
pub fn atomic_write(
    dest: String,
    parent: Option<String>,
    name: Option<String>,
    process: u32,
) -> (r: AtomicWrite)
    ensures
        r == (AtomicWrite {
            dest,
            parent,
            name,
            process,
            stage: if parent is Some {
                WriteStage::MakeDirectory
            } else {
                AtomicWrite::at_name(name)
            },
        }),
{
    let stage = if parent.is_some() {
        WriteStage::MakeDirectory
    } else if name.is_some() {
        WriteStage::WriteTemporary
    } else {
        WriteStage::NoName
    };
    AtomicWrite { dest, parent, name, process, stage }
}

/// The bytes that are written as the contents of a text.
pub fn atomic_write_str(contents: &str) -> (r: &[u8])
    ensures
        r@ == vstd::utf8::encode_utf8(contents@),
{
    contents.as_bytes()
}

impl AtomicWrite {
    /// What comes once the directory is there.
    pub open spec fn at_name(name: Option<String>) -> WriteStage {
        if name is Some {
            WriteStage::WriteTemporary
        } else {
            WriteStage::NoName
        }
    }

    /// Nothing is pending.
    pub open spec fn ended(self) -> bool {
        match self.stage {
            WriteStage::MakeDirectory => false,
            WriteStage::WriteTemporary => false,
            WriteStage::Rename => false,
            _ => true,
        }
    }

    /// How many outcomes are awaited at most.
    pub open spec fn steps_left(self) -> nat {
        match self.stage {
            WriteStage::MakeDirectory => 3,
            WriteStage::WriteTemporary => 2,
            WriteStage::Rename => 1,
            _ => 0,
        }
    }

    /// The stage after the outcome `o` of the pending action.
    pub open spec fn stage_after(self, o: Outcome) -> WriteStage {
        match (self.stage, o) {
            (WriteStage::MakeDirectory, Outcome::Failed(e)) => WriteStage::NoDirectory(e),
            (WriteStage::MakeDirectory, _) => Self::at_name(self.name),
            (WriteStage::WriteTemporary, Outcome::Failed(e)) => WriteStage::NoTemporary(e),
            (WriteStage::WriteTemporary, _) => WriteStage::Rename,
            (WriteStage::Rename, Outcome::Failed(e)) => WriteStage::NoRename(e),
            (WriteStage::Rename, _) => WriteStage::Done,
            (stage, _) => stage,
        }
    }

    /// What comes after the outcome `o` of the pending action.
    pub open spec fn after(self, o: Outcome) -> Self {
        AtomicWrite { stage: self.stage_after(o), ..self }
    }

    /// Take in the outcome of the pending action.
    pub fn next(self, o: Outcome) -> (r: Self)
        ensures
            r == self.after(o),
    {
        let stage = match (self.stage, o) {
            (WriteStage::MakeDirectory, Outcome::Failed(e)) => WriteStage::NoDirectory(e),
            (WriteStage::MakeDirectory, _) => if self.name.is_some() {
                WriteStage::WriteTemporary
            } else {
                WriteStage::NoName
            },
            (WriteStage::WriteTemporary, Outcome::Failed(e)) => WriteStage::NoTemporary(e),
            (WriteStage::WriteTemporary, _) => WriteStage::Rename,
            (WriteStage::Rename, Outcome::Failed(e)) => WriteStage::NoRename(e),
            (WriteStage::Rename, _) => WriteStage::Done,
            (stage, _) => stage,
        };
        AtomicWrite {
            dest: self.dest,
            parent: self.parent,
            name: self.name,
            process: self.process,
            stage,
        }
    }

    /// The place where the contents are written at first.
    pub open spec fn temporary(self) -> LocationView {
        sibling(
            opt_text(self.parent),
            match self.name {
                Some(n) => n@,
                None => seq![],
            },
            self.process,
        )
    }

    /// The place where the contents are written at first.
    pub fn temporary_place(&self) -> (r: Location)
        ensures
            r@ == self.temporary(),
    {
        let parent: Option<&str> = match &self.parent {
            Some(p) => Some(p.as_str()),
            None => None,
        };
        proof {
            reveal_strlit("");
            assert(""@ =~= seq![]);
        }
        let name: &str = match &self.name {
            Some(n) => n.as_str(),
            None => "",
        };
        tmp_sibling(parent, name, self.process)
    }

    /// `r` is the pending action.
    pub open spec fn asks(self, r: Option<WriteAction>) -> bool {
        match (self.stage, r) {
            (WriteStage::MakeDirectory, Some(WriteAction::MakeDirectory(l))) => l@
                == LocationView::at(
                match self.parent {
                    Some(p) => p@,
                    None => "."@,
                },
            ),
            (WriteStage::WriteTemporary, Some(WriteAction::WriteTemporary(l))) => l@
                == self.temporary(),
            (WriteStage::Rename, Some(WriteAction::Rename { from, to })) => from@
                == self.temporary() && to@ == LocationView::at(self.dest@),
            (_, Some(_)) => false,
            (_, None) => self.ended(),
        }
    }

    /// The pending action, if there is one.
    pub fn action(&self) -> (r: Option<WriteAction>)
        ensures
            r is Some <==> !self.ended(),
            self.asks(r),
    {
        match self.stage {
            WriteStage::MakeDirectory => Some(
                WriteAction::MakeDirectory(
                    match &self.parent {
                        Some(p) => Location::at(p.as_str()),
                        None => Location::at("."),
                    },
                ),
            ),
            WriteStage::WriteTemporary => Some(
                WriteAction::WriteTemporary(self.temporary_place()),
            ),
            WriteStage::Rename => Some(
                WriteAction::Rename {
                    from: self.temporary_place(),
                    to: Location::at(self.dest.as_str()),
                },
            ),
            _ => None,
        }
    }

    /// What went wrong, if the write ended badly; `temporary` is the path of the
    /// temporary place.
    pub fn trouble(self, temporary: &str) -> (r: Option<Trouble>)
        ensures
            match (self.stage, r) {
                (WriteStage::NoDirectory(e), Some(t)) => t.doing@ == "creating parent dirs for "@
                    + self.dest@ && t.cause == Some(e),
                (WriteStage::NoName, Some(t)) => t.doing@ == "invalid destination path "@
                    + self.dest@ && t.cause is None,
                (WriteStage::NoTemporary(e), Some(t)) => t.doing@ == "writing temp file "@
                    + temporary@ && t.cause == Some(e),
                (WriteStage::NoRename(e), Some(t)) => t.doing@ == "renaming "@ + temporary@
                    + " -> "@ + self.dest@ && t.cause == Some(e),
                (WriteStage::NoDirectory(_), None) => false,
                (WriteStage::NoName, None) => false,
                (WriteStage::NoTemporary(_), None) => false,
                (WriteStage::NoRename(_), None) => false,
                (_, Some(_)) => false,
                (_, None) => true,
            },
    {
        match self.stage {
            WriteStage::NoDirectory(e) => Some(
                Trouble {
                    doing: "creating parent dirs for ".to_string().concat(self.dest.as_str()),
                    cause: Some(e),
                },
            ),
            WriteStage::NoName => Some(
                Trouble {
                    doing: "invalid destination path ".to_string().concat(self.dest.as_str()),
                    cause: None,
                },
            ),
            WriteStage::NoTemporary(e) => Some(
                Trouble {
                    doing: "writing temp file ".to_string().concat(temporary),
                    cause: Some(e),
                },
            ),
            WriteStage::NoRename(e) => Some(
                Trouble {
                    doing: "renaming ".to_string().concat(temporary).concat(" -> ").concat(
                        self.dest.as_str(),
                    ),
                    cause: Some(e),
                },
            ),
            _ => None,
        }
    }
}

/// The contents are renamed only once they stand complete beside the destination, and
/// the write succeeds only by giving them its name. Each outcome brings the write
/// closer to the end.
pub proof fn law_destination_is_touched_last(before: AtomicWrite, o: Outcome)
    requires
        !before.ended(),
    ensures
        before.after(o).steps_left() < before.steps_left(),
        before.after(o).dest == before.dest && before.after(o).temporary() == before.temporary(),
        before.after(o).stage is Rename ==> before.stage is WriteTemporary && !(o is Failed),
        before.after(o).stage is Done ==> before.stage is Rename && !(o is Failed),
{
}

/// What an action that succeeds makes of what stands at the place `at`, by its contents:
/// the temporary file gets `contents`, and a renaming puts what it has in place of what
/// stands at the other name. One that fails leaves all as it was, but for the temporary
/// file, which may be written in part.
pub open spec fn on_disk_after(
    disk: Map<LocationView, Seq<u8>>,
    action: WriteAction,
    o: Outcome,
    contents: Seq<u8>,
    partial: Seq<u8>,
) -> Map<LocationView, Seq<u8>> {
    match action {
        WriteAction::MakeDirectory(_) => disk,
        WriteAction::WriteTemporary(l) => disk.insert(
            l@,
            if o is Failed {
                partial
            } else {
                contents
            },
        ),
        WriteAction::Rename { from, to } => if o is Failed {
            disk
        } else {
            disk.remove(from@).insert(to@, disk[from@])
        },
    }
}

/// A write of `contents` under way: each state comes after the one before it, each action
/// is the one that is asked for, and each disk is what that makes of the one before.
pub open spec fn is_write(
    states: Seq<AtomicWrite>,
    actions: Seq<WriteAction>,
    outcomes: Seq<Outcome>,
    disks: Seq<Map<LocationView, Seq<u8>>>,
    partials: Seq<Seq<u8>>,
    contents: Seq<u8>,
) -> bool {
    &&& states.len() == outcomes.len() + 1
    &&& actions.len() == outcomes.len()
    &&& partials.len() == outcomes.len()
    &&& disks.len() == states.len()
    &&& states[0].stage is MakeDirectory || states[0].stage is WriteTemporary
        || states[0].stage is NoName
    &&& forall|i: int|
        0 <= i < outcomes.len() ==> {
            &&& #[trigger] states[i + 1] == states[i].after(outcomes[i])
            &&& states[i].asks(Some(actions[i]))
            &&& disks[i + 1] == on_disk_after(
                disks[i],
                actions[i],
                outcomes[i],
                contents,
                partials[i],
            )
        }
}

/// How far a write has come after its first `k` outcomes.
proof fn lemma_write(
    states: Seq<AtomicWrite>,
    actions: Seq<WriteAction>,
    outcomes: Seq<Outcome>,
    disks: Seq<Map<LocationView, Seq<u8>>>,
    partials: Seq<Seq<u8>>,
    contents: Seq<u8>,
    k: int,
)
    requires
        is_write(states, actions, outcomes, disks, partials, contents),
        0 <= k < states.len(),
    ensures
        ({
            let dest = LocationView::at(states[0].dest@);
            let temporary = states[0].temporary();
            &&& states[k].dest == states[0].dest
            &&& states[k].temporary() == temporary
            &&& !(states[k].stage is Done) ==> (disks[k].contains_key(dest)
                == disks[0].contains_key(dest) && disks[k][dest] == disks[0][dest])
            &&& states[k].stage is Rename ==> disks[k].contains_key(temporary)
                && disks[k][temporary] == contents
            &&& states[k].stage is Done ==> disks[k].contains_key(dest) && disks[k][dest]
                == contents && !disks[k].contains_key(temporary)
        }),
    decreases k,
{
    assert(states[0].temporary().parts.len() == 1);
    assert(LocationView::at(states[0].dest@).parts.len() == 0);
    if k > 0 {
        lemma_write(states, actions, outcomes, disks, partials, contents, k - 1);
        assert(states[k - 1 + 1] == states[k - 1].after(outcomes[k - 1]));
    }
}

/// A write that fails leaves what stands at the destination as it was, or nothing where
/// there was nothing; one that succeeds leaves there exactly the contents, and no
/// temporary file. At no time is the destination missing that was there before, or holds
/// anything but what it held or the contents.
pub proof fn law_write_is_atomic(
    states: Seq<AtomicWrite>,
    actions: Seq<WriteAction>,
    outcomes: Seq<Outcome>,
    disks: Seq<Map<LocationView, Seq<u8>>>,
    partials: Seq<Seq<u8>>,
    contents: Seq<u8>,
    k: int,
)
    requires
        is_write(states, actions, outcomes, disks, partials, contents),
        0 <= k < states.len(),
    ensures
        ({
            let dest = LocationView::at(states[0].dest@);
            if states[k].stage is Done {
                &&& disks[k].contains_key(dest) && disks[k][dest] == contents
                &&& !disks[k].contains_key(states[0].temporary())
            } else {
                &&& disks[k].contains_key(dest) == disks[0].contains_key(dest)
                &&& disks[k][dest] == disks[0][dest]
            }
        }),
{
    lemma_write(states, actions, outcomes, disks, partials, contents, k);
}

/// Two files of one directory never share a temporary place, and none is its own.
pub proof fn law_temporary_places_are_distinct(
    parent: Option<Seq<char>>,
    a: Seq<char>,
    b: Seq<char>,
    process: u32,
)
    ensures
        sibling(parent, a, process) == sibling(parent, b, process) ==> a == b,
        temporary_name(a, process) != a,
{
    reveal_strlit(".");
    reveal_strlit(".tmp.");
    let x = temporary_name(a, process);
    let y = temporary_name(b, process);
    assert(sibling(parent, a, process).parts.last() == x);
    assert(sibling(parent, b, process).parts.last() == y);
    if x == y {
        assert(x.len() == y.len());
        assert(x.subrange(1, (1 + a.len()) as int) =~= a);
        assert(y.subrange(1, (1 + b.len()) as int) =~= b);
    }
}

// ---------------------------------------------------------------------------
// Reading, removing and linking
// ---------------------------------------------------------------------------

/// The text of the file at `path`; none where there is no such file.
pub fn read_if_exists(read: FileRead, path: &str) -> (r: std::result::Result<Option<String>, Trouble>)
    ensures
        match (read, r) {
            (FileRead::Text(t), Ok(found)) => found == Some(t),
            (FileRead::Missing, Ok(found)) => found is None,
            (FileRead::Failed(e), Err(t)) => t.doing@ == "reading "@ + path@ && t.cause == Some(e),
            _ => false,
        },
{
    match read {
        FileRead::Text(t) => Ok(Some(t)),
        FileRead::Missing => Ok(None),
        FileRead::Failed(e) => Err(
            Trouble { doing: "reading ".to_string().concat(path), cause: Some(e) },
        ),
    }
}

/// Whether the directory at `path` is gone, after its removal was tried: that it was
/// not there is fine.
pub fn remove_dir_all(removed: Outcome, path: &str) -> (r: std::result::Result<(), Trouble>)
    ensures
        match (removed, r) {
            (Outcome::Failed(e), Err(t)) => t.doing@ == "removing "@ + path@ && t.cause == Some(e),
            (Outcome::Failed(_), Ok(_)) => false,
            (_, Err(_)) => false,
            (_, Ok(_)) => true,
        },
{
    match removed {
        Outcome::Failed(e) => Err(
            Trouble { doing: "removing ".to_string().concat(path), cause: Some(e) },
        ),
        _ => Ok(()),
    }
}

/// Whether the link at `link` to the directory `target` was made.
pub fn make_dir_link(platform: Platform, link: &str, target: &str, made: Outcome) -> (r:
    std::result::Result<(), Trouble>)
    ensures
        match (made, r) {
            (Outcome::Failed(e), Err(t)) => if platform is Windows {
                t.doing@ == "creating junction "@ + link@ + " -> "@ + target@ + ": "@ + e@
                    && t.cause is None
            } else {
                t.doing@ == "creating symlink "@ + link@ + " -> "@ + target@ && t.cause == Some(e)
            },
            (Outcome::Failed(_), Ok(_)) => false,
            (_, Err(_)) => false,
            (_, Ok(_)) => true,
        },
{
    match made {
        Outcome::Failed(e) => match platform {
            Platform::Windows => Err(
                Trouble {
                    doing: "creating junction ".to_string().concat(link).concat(" -> ").concat(
                        target,
                    ).concat(": ").concat(e.as_str()),
                    cause: None,
                },
            ),
            _ => Err(
                Trouble {
                    doing: "creating symlink ".to_string().concat(link).concat(" -> ").concat(
                        target,
                    ),
                    cause: Some(e),
                },
            ),
        },
        _ => Ok(()),
    }
}

/// What came of asking whether a path is a directory junction.
#[derive(Debug)]
pub enum JunctionProbe {
    Junction,
    Other,
    Missing,
    Failed(String),
}

/// What came of reading a link.
#[derive(Debug)]
pub enum LinkRead {
    Target(String),
    Missing,
    Failed(String),
}

/// What is said of a junction that cannot be read.
pub open spec fn unread_junction(link: Seq<char>, e: Seq<char>) -> Seq<char> {
    "reading junction "@ + link + ": "@ + e
}

/// Where the link at `link` leads; nowhere where there is none. On Windows `probe`
/// says whether it is a junction, and only then counts what was read.
pub fn read_dir_link(link: &str, probe: Option<JunctionProbe>, read: LinkRead) -> (r:
    std::result::Result<Option<String>, String>)
    ensures
        match (probe, read, r) {
            (None | Some(JunctionProbe::Junction), LinkRead::Target(t), Ok(found)) => found == Some(
                t,
            ),
            (None | Some(JunctionProbe::Junction), LinkRead::Missing, Ok(found)) => found is None,
            (None, LinkRead::Failed(e), Err(m)) => m == e,
            (Some(JunctionProbe::Junction), LinkRead::Failed(e), Err(m)) => m@ == unread_junction(
                link@,
                e@,
            ),
            (Some(JunctionProbe::Other | JunctionProbe::Missing), _, Ok(found)) => found is None,
            (Some(JunctionProbe::Failed(e)), _, Err(m)) => m@ == unread_junction(link@, e@),
            _ => false,
        },
{
    let junction = match probe {
        None => false,
        Some(JunctionProbe::Junction) => true,
        Some(JunctionProbe::Other) => {
            return Ok(None);
        },
        Some(JunctionProbe::Missing) => {
            return Ok(None);
        },
        Some(JunctionProbe::Failed(e)) => {
            return Err(
                "reading junction ".to_string().concat(link).concat(": ").concat(e.as_str()),
            );
        },
    };
    match read {
        LinkRead::Target(t) => Ok(Some(t)),
        LinkRead::Missing => Ok(None),
        LinkRead::Failed(e) => if junction {
            Err("reading junction ".to_string().concat(link).concat(": ").concat(e.as_str()))
        } else {
            Err(e)
        },
    }
}

/// A file is written at first beside its destination, under its name with a dot before it and
/// the number of the process behind it.
pub proof fn law_temporary_place_is_beside(write: AtomicWrite, name: String)
    requires
        write.name == Some(name),
    ensures
        write.temporary() == (LocationView {
            base: match write.parent {
                Some(p) => p@,
                None => "."@,
            },
            parts: seq!["."@ + name@ + ".tmp."@ + decimal(write.process as nat)],
        }),
{
    assert(write.temporary().parts =~= seq![
        "."@ + name@ + ".tmp."@ + decimal(write.process as nat),
    ]);
}

} // verus!
