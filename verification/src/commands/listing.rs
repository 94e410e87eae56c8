//! `prist ls` and `prist releases`: tables of environments and releases, and the
//! choice of an environment.

use vstd::prelude::*;

use crate::commands::names::{describable, describe_meta, description};
use crate::commands::remove::{is_default, names_default};
use crate::config::{ActiveSource, EnvMeta, GlobalConfig};
use crate::error::{PristError, Result};
use crate::releases::{Release, ReleaseFeed, ReleaseView};
use crate::text::{byte_cut, byte_len, byte_length, copied, cut_bytes, contains, law_cut_is_a_front_part, law_cut_is_found, law_cut_is_the_only_one, occurs_at, opt_str, opt_text, pad_right, padded, same};

verus! {

/// An entry of the directory of environments.
#[derive(Debug)]
pub struct EnvEntry {
    pub name: String,
    /// Whether it is a directory.
    pub directory: bool,
    /// The record beside it, as far as it can be read.
    pub meta: Option<EnvMeta>,
    /// The Flutter version that its files state.
    pub version: Option<String>,
}

impl EnvEntry {
    /// How the environment is described.
    pub open spec fn description(self) -> Seq<char> {
        description(self.meta, opt_text(self.version))
    }

    /// The entry is an environment, and not the link to the default one.
    pub open spec fn listed(self) -> bool {
        self.name@ != "default"@
    }

    /// How the environment is described.
    pub fn describe(&self) -> (r: String)
        requires
            describable(self.meta),
        ensures
            r@ == self.description(),
            describes(r@, self.meta, self.version),
    {
        proof {
            law_record_describes_first(self.meta, self.version);
        }
        describe_meta(&self.meta, copied(&self.version))
    }
}

/// All entries that are listed can be described.
pub open spec fn all_describable(entries: Seq<EnvEntry>) -> bool {
    forall|i: int|
        0 <= i < entries.len() && (#[trigger] entries[i]).listed() ==> describable(entries[i].meta)
}

/// All entries that are offered can be described.
pub open spec fn offered_describable(entries: Seq<EnvEntry>) -> bool {
    forall|i: int|
        0 <= i < entries.len() && (#[trigger] entries[i]).listed() && entries[i].directory
            ==> describable(entries[i].meta)
}

/// A row of the list of environments.
#[derive(Debug)]
pub struct Row {
    pub name: String,
    pub description: String,
    /// Whether it is active here.
    pub active: bool,
    /// Whether it is the global default.
    pub global: bool,
}

/// A row, as the texts it holds.
#[verifier::ext_equal]
pub struct RowView {
    pub name: Seq<char>,
    pub description: Seq<char>,
    pub active: bool,
    pub global: bool,
}

impl View for Row {
    type V = RowView;

    open spec fn view(&self) -> RowView {
        RowView {
            name: self.name@,
            description: self.description@,
            active: self.active,
            global: self.global,
        }
    }
}

/// The environment `name` is active here.
pub open spec fn active_here(
    name: Seq<char>,
    active: Option<String>,
    source: ActiveSource,
) -> bool {
    opt_text(active) == Some(name) && !(source is Nowhere)
}

/// Whether the environment `name` is active here.
pub fn is_active(name: &str, active: &Option<String>, source: &ActiveSource) -> (r: bool)
    ensures
        r == active_here(name@, *active, *source),
{
    let named = match active {
        Some(a) => same(a.as_str(), name),
        None => false,
    };
    match source {
        ActiveSource::Nowhere => false,
        _ => named,
    }
}

/// The rows for some entries: one for each environment, in order.
pub open spec fn rows_of(
    entries: Seq<EnvEntry>,
    global: GlobalConfig,
    active: Option<String>,
    source: ActiveSource,
) -> Seq<RowView>
    decreases entries.len(),
{
    if entries.len() == 0 {
        seq![]
    } else {
        let before = rows_of(entries.drop_last(), global, active, source);
        let e = entries.last();
        if e.listed() {
            before.push(
                RowView {
                    name: e.name@,
                    description: e.description(),
                    active: active_here(e.name@, active, source),
                    global: names_default(global, e.name@),
                },
            )
        } else {
            before
        }
    }
}

/// The views of some rows.
pub open spec fn row_views(rows: Seq<Row>) -> Seq<RowView> {
    rows.map_values(|r: Row| r@)
}

/// The rows of the list of environments: one for each entry but the default link.
pub fn rows(
    entries: &Vec<EnvEntry>,
    global: &GlobalConfig,
    active: &Option<String>,
    source: &ActiveSource,
) -> (r: Vec<Row>)
    requires
        all_describable(entries@),
    ensures
        row_views(r@) == rows_of(entries@, *global, *active, *source),
        forall|i: int|
            0 <= i < entries@.len() && (#[trigger] entries@[i]).name@ != "default"@ ==> exists|k: int|
                0 <= k < r@.len() && tells_of(#[trigger] r@[k], entries@[i], *global, *active, *source),
        forall|i: int|
            0 <= i < entries@.len() && (#[trigger] entries@[i]).name@ != "default"@ ==> (
            entries@[i].meta matches Some(m) ==> (m.version matches Some(v) ==> exists|k: int|
                0 <= k < r@.len() && (#[trigger] r@[k]).name@ == entries@[i].name@
                    && r@[k].description@ == v@)),
        forall|k: int|
            0 <= k < r@.len() ==> tells_of_one(
                #[trigger] r@[k],
                entries@,
                *global,
                *active,
                *source,
            ),
{
    let mut list: Vec<Row> = Vec::new();
    let mut i: usize = 0;
    assert(row_views(list@) =~= seq![]);
    assert(entries@.take(0) =~= seq![]);
    while i < entries.len()
        invariant
            i <= entries@.len(),
            all_describable(entries@),
            row_views(list@) == rows_of(entries@.take(i as int), *global, *active, *source),
        decreases entries@.len() - i,
    {
        let e = &entries[i];
        let ghost so_far = entries@.take(i + 1);
        assert(so_far.drop_last() =~= entries@.take(i as int));
        assert(so_far.last() == *e);
        if !same(e.name.as_str(), "default") {
            let row = Row {
                name: e.name.clone(),
                description: e.describe(),
                active: is_active(e.name.as_str(), active, source),
                global: is_default(global, e.name.as_str()),
            };
            let ghost before = row_views(list@);
            let ghost v = row@;
            list.push(row);
            assert(row_views(list@) =~= before.push(v));
        }
        i += 1;
    }
    assert(entries@.take(i as int) =~= entries@);
    proof {
        let n = entries@.len() as int;
        let views = rows_of(entries@, *global, *active, *source);
        assert forall|j: int|
            0 <= j < n && (#[trigger] entries@[j]).name@ != "default"@ implies exists|k: int|
            0 <= k < list@.len() && tells_of(
                #[trigger] list@[k],
                entries@[j],
                *global,
                *active,
                *source,
            ) by {
            law_rows_are_of_the_entries(entries@, *global, *active, *source, j);
            let k = rows_of(entries@.take(j), *global, *active, *source).len() as int;
            assert(views[k] == list@[k]@);
            law_record_describes_first(entries@[j].meta, entries@[j].version);
            assert(tells_of(list@[k], entries@[j], *global, *active, *source));
        }
        assert forall|k: int| 0 <= k < list@.len() implies tells_of_one(
            #[trigger] list@[k],
            entries@,
            *global,
            *active,
            *source,
        ) by {
            let j = lemma_row_has_entry(entries@, *global, *active, *source, k);
            law_rows_are_of_the_entries(entries@, *global, *active, *source, j);
            assert(views[k] == list@[k]@);
            law_record_describes_first(entries@[j].meta, entries@[j].version);
            assert(entries@[j].name@ != "default"@);
            assert(tells_of(list@[k], entries@[j], *global, *active, *source));
        }
    }
    list
}

/// How a row is marked: as active, as the global default, as both or not at all.
pub open spec fn label(active: bool, global: bool) -> Option<Seq<char>> {
    if active && global {
        Some("(active, global)"@)
    } else if active {
        Some("(active)"@)
    } else if global {
        Some("(global)"@)
    } else {
        None
    }
}

/// How a row is marked.
pub fn mark(row: &Row) -> (r: Option<&'static str>)
    ensures
        opt_str(r) == label(row.active, row.global),
{
    if row.active && row.global {
        Some("(active, global)")
    } else if row.active {
        Some("(active)")
    } else if row.global {
        Some("(global)")
    } else {
        None
    }
}

/// The greatest of `least` and the lengths in bytes of some texts.
pub open spec fn column_width(cells: Seq<Seq<char>>, least: nat) -> nat
    decreases cells.len(),
{
    if cells.len() == 0 {
        least
    } else {
        let before = column_width(cells.drop_last(), least);
        let own = byte_len(cells.last());
        if own > before {
            own
        } else {
            before
        }
    }
}

/// The names in some rows.
pub open spec fn names_in(rows: Seq<RowView>) -> Seq<Seq<char>> {
    rows.map_values(|r: RowView| r.name)
}

/// The descriptions in some rows.
pub open spec fn descriptions_in(rows: Seq<RowView>) -> Seq<Seq<char>> {
    rows.map_values(|r: RowView| r.description)
}

/// The rows with their cells filled up to the width of the columns.
pub open spec fn aligned(rows: Seq<RowView>) -> Seq<RowView> {
    let name_width = column_width(names_in(rows), 4);
    let description_width = column_width(descriptions_in(rows), 7);
    rows.map_values(
        |r: RowView|
            RowView {
                name: pad_right(r.name, name_width),
                description: pad_right(r.description, description_width),
                active: r.active,
                global: r.global,
            },
    )
}

/// The rows with their cells filled up to the width of the columns. A column is as wide
/// as its longest text in bytes, the first at least 4 and the second at least 7.
pub fn table(rows: &Vec<Row>) -> (r: Vec<Row>)
    ensures
        row_views(r@) == aligned(row_views(rows@)),
{
    let ghost views = row_views(rows@);
    let mut name_width: usize = 4;
    let mut description_width: usize = 7;
    let mut i: usize = 0;
    while i < rows.len()
        invariant
            i <= rows@.len(),
            views == row_views(rows@),
            name_width == column_width(names_in(views).take(i as int), 4),
            description_width == column_width(descriptions_in(views).take(i as int), 7),
        decreases rows@.len() - i,
    {
        proof {
            let a = names_in(views).take(i + 1);
            let b = descriptions_in(views).take(i + 1);
            assert(a.drop_last() =~= names_in(views).take(i as int));
            assert(b.drop_last() =~= descriptions_in(views).take(i as int));
            assert(views[i as int] == rows@[i as int]@);
            assert(a.last() == rows@[i as int].name@);
            assert(b.last() == rows@[i as int].description@);
        }
        let n: usize = byte_length(rows[i].name.as_str());
        if n > name_width {
            name_width = n;
        }
        let d: usize = byte_length(rows[i].description.as_str());
        if d > description_width {
            description_width = d;
        }
        i += 1;
    }
    assert(names_in(views).take(i as int) =~= names_in(views));
    assert(descriptions_in(views).take(i as int) =~= descriptions_in(views));
    let mut list: Vec<Row> = Vec::new();
    let mut k: usize = 0;
    while k < rows.len()
        invariant
            k <= rows@.len(),
            views == row_views(rows@),
            name_width == column_width(names_in(views), 4),
            description_width == column_width(descriptions_in(views), 7),
            row_views(list@) =~= aligned(views).take(k as int),
        decreases rows@.len() - k,
    {
        let row = Row {
            name: padded(rows[k].name.as_str(), name_width),
            description: padded(rows[k].description.as_str(), description_width),
            active: rows[k].active,
            global: rows[k].global,
        };
        let ghost before = row_views(list@);
        let ghost v = row@;
        list.push(row);
        assert(row_views(list@) =~= before.push(v));
        assert(views[k as int] == rows@[k as int]@);
        assert(aligned(views).take(k + 1) =~= before.push(v));
        k += 1;
    }
    assert(aligned(views).take(k as int) =~= aligned(views));
    list
}

/// A column is at least as wide as each of its texts in characters.
proof fn lemma_column_holds(cells: Seq<Seq<char>>, least: nat, i: int)
    requires
        0 <= i < cells.len(),
    ensures
        cells[i].len() <= column_width(cells, least),
    decreases cells.len(),
{
    if i == cells.len() - 1 {
        lemma_bytes_cover(cells[i]);
    } else {
        assert(cells.drop_last()[i] == cells[i]);
        lemma_column_holds(cells.drop_last(), least, i);
    }
}

/// A text takes at least one byte for each character.
proof fn lemma_bytes_cover(s: Seq<char>)
    ensures
        s.len() <= byte_len(s),
    decreases s.len(),
{
    if s.len() > 0 {
        lemma_bytes_cover(s.drop_first());
    }
}

/// The cells of a column are all of one length, and each begins with its text.
pub proof fn law_columns_align(rows: Seq<RowView>, i: int)
    requires
        0 <= i < rows.len(),
    ensures
        aligned(rows).len() == rows.len(),
        aligned(rows)[i].active == rows[i].active,
        aligned(rows)[i].global == rows[i].global,
        aligned(rows)[i].name.len() == column_width(names_in(rows), 4),
        aligned(rows)[i].name.take(rows[i].name.len() as int) == rows[i].name,
        aligned(rows)[i].description.len() == column_width(descriptions_in(rows), 7),
        aligned(rows)[i].description.take(rows[i].description.len() as int) == rows[i].description,
{
    lemma_column_holds(names_in(rows), 4, i);
    lemma_column_holds(descriptions_in(rows), 7, i);
    assert(aligned(rows)[i].name.take(rows[i].name.len() as int) =~= rows[i].name);
    assert(aligned(rows)[i].description.take(rows[i].description.len() as int)
        =~= rows[i].description);
}

// ---------------------------------------------------------------------------
// The choice of an environment
// ---------------------------------------------------------------------------

/// The environments that the user can choose from.
pub open spec fn offered(entries: Seq<EnvEntry>) -> Seq<EnvEntry>
    decreases entries.len(),
{
    if entries.len() == 0 {
        seq![]
    } else {
        let e = entries.last();
        if e.listed() && e.directory {
            offered(entries.drop_last()).push(e)
        } else {
            offered(entries.drop_last())
        }
    }
}

/// An environment that the user can choose.
#[derive(Debug)]
pub struct Choice {
    pub name: String,
    /// The name, filled up to the width of its column.
    pub cell: String,
    pub description: String,
}

/// `choice` offers the environment `e`.
pub open spec fn offers(choice: Choice, e: EnvEntry) -> bool {
    &&& choice.name == e.name
    &&& choice.cell@ == pad_right(e.name@, 16)
    &&& choice.description@ == e.description()
}

/// The environments that the user can choose from: there has to be one, and the user
/// has to be at a terminal.
pub fn select_env_interactively(entries: &Vec<EnvEntry>, terminal: bool) -> (r: Result<Vec<Choice>>)
    requires
        offered_describable(entries@),
    ensures
        match r {
            Ok(list) => terminal && list@.len() > 0 && list@.len() == offered(entries@).len()
                && forall|i: int|
                0 <= i < list@.len() ==> offers(#[trigger] list@[i], offered(entries@)[i]),
            Err(PristError::Other(m)) => if offered(entries@).len() == 0 {
                m@ == "No environments installed yet. Run `prist create <name> <version>`."@
            } else {
                !terminal && m@
                    == "Interactive selection requires a terminal. Please specify the environment name explicitly."@
            },
            Err(_) => false,
        },
{
    let mut list: Vec<Choice> = Vec::new();
    let mut i: usize = 0;
    assert(entries@.take(0) =~= seq![]);
    while i < entries.len()
        invariant
            i <= entries@.len(),
            offered_describable(entries@),
            list@.len() == offered(entries@.take(i as int)).len(),
            forall|j: int|
                0 <= j < list@.len() ==> offers(
                    #[trigger] list@[j],
                    offered(entries@.take(i as int))[j],
                ),
        decreases entries@.len() - i,
    {
        let e = &entries[i];
        let ghost so_far = entries@.take(i + 1);
        assert(so_far.drop_last() =~= entries@.take(i as int));
        assert(so_far.last() == *e);
        if !same(e.name.as_str(), "default") && e.directory {
            list.push(
                Choice {
                    name: e.name.clone(),
                    cell: padded(e.name.as_str(), 16),
                    description: e.describe(),
                },
            );
        }
        i += 1;
    }
    assert(entries@.take(i as int) =~= entries@);
    if list.len() == 0 {
        return Err(
            PristError::msg(
                "No environments installed yet. Run `prist create <name> <version>`.".to_string(),
            ),
        );
    }
    if !terminal {
        return Err(
            PristError::msg(
                "Interactive selection requires a terminal. Please specify the environment name explicitly.".to_string(),
            ),
        );
    }
    Ok(list)
}

// ---------------------------------------------------------------------------
// Releases
// ---------------------------------------------------------------------------

/// How many releases stand on a page.
pub const PAGE_SIZE: usize = 50;

/// A row of the table of releases.
#[derive(Debug)]
pub struct ReleaseRow {
    /// The channel, by which the row is coloured.
    pub channel: String,
    /// The cells of the channel, the version and the date, filled up to the width of
    /// their columns.
    pub channel_cell: String,
    pub version_cell: String,
    pub date_cell: String,
    pub commit: String,
}

/// A text, or a dash where there is none.
pub open spec fn or_dash(o: Option<Seq<char>>) -> Seq<char> {
    match o {
        Some(s) => s,
        None => "-"@,
    }
}

/// The day of a point in time: its first ten bytes, or a dash.
pub open spec fn day(date: Option<Seq<char>>) -> Seq<char> {
    or_dash(byte_cut(or_dash(date), 10))
}

/// `row` shows the release `r`.
pub open spec fn shows(row: ReleaseRow, r: ReleaseView) -> bool {
    &&& row.channel@ == or_dash(r.channel)
    &&& row.channel_cell@ == pad_right(or_dash(r.channel), 10)
    &&& row.version_cell@ == pad_right(or_dash(r.version), 16)
    &&& row.date_cell@ == pad_right(day(r.release_date), 10)
    &&& row.commit@ == or_dash(r.hash)
}

/// A copy of a text, or a dash where there is none.
fn dashed(o: &Option<String>) -> (r: String)
    ensures
        r@ == or_dash(opt_text(*o)),
{
    match o {
        Some(s) => s.clone(),
        None => "-".to_string(),
    }
}

/// `cell` shows `text` and fills up to `width` characters with spaces.
pub open spec fn cell_shows(cell: Seq<char>, text: Seq<char>, width: int) -> bool {
    &&& cell.len() == if text.len() < width {
        width
    } else {
        text.len() as int
    }
    &&& forall|i: int| 0 <= i < text.len() ==> #[trigger] cell[i] == text[i]
    &&& forall|i: int| text.len() <= i < cell.len() ==> #[trigger] cell[i] == ' '
}

/// The row tells of the release: its channel, its version, the first ten bytes of its date
/// and its commit, each a dash where the release does not state it.
pub open spec fn tells(row: ReleaseRow, release: Release) -> bool {
    &&& match release.channel {
        Some(c) => row.channel@ == c@ && cell_shows(row.channel_cell@, c@, 10),
        None => row.channel@ == "-"@ && cell_shows(row.channel_cell@, "-"@, 10),
    }
    &&& match release.version {
        Some(v) => cell_shows(row.version_cell@, v@, 16),
        None => cell_shows(row.version_cell@, "-"@, 16),
    }
    &&& match release.hash {
        Some(h) => row.commit@ == h@,
        None => row.commit@ == "-"@,
    }
    &&& match release.release_date {
        Some(d) => if exists|n: int| 0 <= n <= d@.len() && byte_len(#[trigger] d@.take(n)) == 10 {
            exists|n: int|
                0 <= n <= d@.len() && byte_len(#[trigger] d@.take(n)) == 10 && cell_shows(
                    row.date_cell@,
                    d@.take(n),
                    10,
                )
        } else {
            cell_shows(row.date_cell@, "-"@, 10)
        },
        None => cell_shows(row.date_cell@, "-"@, 10),
    }
}

/// A text filled up to a width begins with the text, and spaces follow.
proof fn lemma_cell(text: Seq<char>, width: nat)
    ensures
        cell_shows(pad_right(text, width), text, width as int),
{
}

/// A row of the table tells of the entry it is for: each column holds what the entry states
/// under that name, and nothing of another.
pub proof fn law_row_tells_of_its_entry(row: ReleaseRow, release: Release)
    requires
        shows(row, release@),
    ensures
        tells(row, release),
        match release.channel {
            Some(c) => row.channel@ == c@ && row.channel_cell@.take(c@.len() as int) == c@,
            None => row.channel@ == "-"@ && row.channel_cell@[0] == '-',
        },
        match release.version {
            Some(v) => row.version_cell@.take(v@.len() as int) == v@,
            None => row.version_cell@[0] == '-',
        },
        match release.hash {
            Some(h) => row.commit@ == h@,
            None => row.commit@ == "-"@,
        },
        release.release_date matches Some(d) ==> forall|n: int|
            0 <= n <= d@.len() && byte_len(#[trigger] d@.take(n)) == 10 ==> row.date_cell@.take(n)
                == d@.take(n),
{
    reveal_strlit("-");
    if let Some(c) = release.channel {
        assert(row.channel_cell@.take(c@.len() as int) =~= c@);
    }
    if let Some(v) = release.version {
        assert(row.version_cell@.take(v@.len() as int) =~= v@);
    }
    if let Some(d) = release.release_date {
        assert forall|n: int| 0 <= n <= d@.len() && byte_len(#[trigger] d@.take(n)) == 10 implies row.date_cell@.take(
            n,
        ) == d@.take(n) by {
            law_cut_is_found(d@, 10);
            law_cut_is_a_front_part(d@, 10);
            let t = byte_cut(d@, 10)->0;
            law_cut_is_the_only_one(d@, n, t.len() as int);
            assert(row.date_cell@.take(n) =~= d@.take(n));
        }
    }
    lemma_cell(or_dash(release@.channel), 10);
    lemma_cell(or_dash(release@.version), 16);
    lemma_cell(day(release@.release_date), 10);
    assert("-"@.len() == 1);
    law_cut_is_a_front_part(or_dash(release@.release_date), 10);
    match release.release_date {
        Some(d) => {
            law_cut_is_found(d@, 10);
            if let Some(t) = byte_cut(d@, 10) {
                assert(byte_len(d@.take(t.len() as int)) == 10);
            }
        },
        None => {
            law_cut_is_found("-"@, 10);
            if let Some(t) = byte_cut("-"@, 10) {
                lemma_bytes_at_most(t);
            }
        },
    }
}

/// A text takes at most four bytes for each character.
proof fn lemma_bytes_at_most(s: Seq<char>)
    ensures
        byte_len(s) <= 4 * s.len(),
    decreases s.len(),
{
    if s.len() > 0 {
        lemma_bytes_at_most(s.drop_first());
    }
}

/// Two entries that state the same channel have the same channel in their rows, whatever
/// else they state; and so for the version, the date and the commit.
pub proof fn law_columns_depend_on_one_member(
    row: ReleaseRow,
    release: Release,
    other_row: ReleaseRow,
    other: Release,
)
    requires
        shows(row, release@),
        shows(other_row, other@),
    ensures
        opt_text(release.channel) == opt_text(other.channel) ==> row.channel@ == other_row.channel@
            && row.channel_cell@ == other_row.channel_cell@,
        opt_text(release.version) == opt_text(other.version) ==> row.version_cell@
            == other_row.version_cell@,
        opt_text(release.release_date) == opt_text(other.release_date) ==> row.date_cell@
            == other_row.date_cell@,
        opt_text(release.hash) == opt_text(other.hash) ==> row.commit@ == other_row.commit@,
{
}

/// The row that shows a release.
fn release_row(release: &Release) -> (r: ReleaseRow)
    ensures
        shows(r, release@),
        tells(r, *release),
{
    let channel = dashed(&release.channel);
    let channel_cell = padded(channel.as_str(), 10);
    let day = dashed(&cut_bytes(dashed(&release.release_date).as_str(), 10));
    let row = ReleaseRow {
        channel,
        channel_cell,
        version_cell: padded(dashed(&release.version).as_str(), 16),
        date_cell: padded(day.as_str(), 10),
        commit: dashed(&release.hash),
    };
    proof {
        law_row_tells_of_its_entry(row, *release);
    }
    row
}

/// How many pages some entries take.
pub open spec fn page_count(entries: nat) -> nat {
    (entries + 49) / 50
}

/// The rows for the entries from number `from` on, as many as stand on a page.
fn page(feed: &ReleaseFeed, from: usize) -> (r: Vec<ReleaseRow>)
    requires
        from < feed.releases@.len(),
    ensures
        r@.len() == if feed.releases@.len() - from < PAGE_SIZE {
            feed.releases@.len() - from
        } else {
            PAGE_SIZE as int
        },
        forall|i: int| 0 <= i < r@.len() ==> shows(#[trigger] r@[i], feed@.releases[from + i]),
{
    let mut list: Vec<ReleaseRow> = Vec::new();
    let mut i: usize = 0;
    while i < feed.releases.len() - from && i < PAGE_SIZE
        invariant
            from < feed.releases@.len(),
            i <= feed.releases@.len() - from,
            i <= PAGE_SIZE,
            list@.len() == i,
            forall|j: int| 0 <= j < i ==> shows(#[trigger] list@[j], feed@.releases[from + j]),
        decreases feed.releases@.len() - i,
    {
        let row = release_row(&feed.releases[from + i]);
        assert(feed@.releases[from + i] == feed.releases@[from + i]@);
        list.push(row);
        i += 1;
    }
    list
}

/// The pages of the table of releases. Together they hold all entries of the feed, in
/// order: every page but the last is full, and entry `k` stands on page `k / 50` as row
/// `k % 50`.
pub fn releases(feed: &ReleaseFeed) -> (r: Vec<Vec<ReleaseRow>>)
    ensures
        r@.len() == page_count(feed@.releases.len()),
        forall|p: int|
            0 <= p < r@.len() ==> (#[trigger] r@[p])@.len() == if p + 1 < r@.len() {
                50
            } else {
                feed@.releases.len() - 50 * p
            },
        forall|p: int, i: int|
            0 <= p < r@.len() && 0 <= i < r@[p]@.len() ==> shows(
                #[trigger] r@[p]@[i],
                feed@.releases[50 * p + i],
            ),
        forall|p: int, i: int|
            0 <= p < r@.len() && 0 <= i < r@[p]@.len() ==> tells(
                #[trigger] r@[p]@[i],
                feed.releases@[50 * p + i],
            ),
        forall|p: int, i: int|
            0 <= p < r@.len() && 0 <= i < r@[p]@.len() ==> match feed.releases@[50 * p + i].channel {
                Some(c) => (#[trigger] r@[p]@[i]).channel@ == c@ && r@[p]@[i].channel_cell@.take(
                    c@.len() as int,
                ) == c@,
                None => r@[p]@[i].channel@ == "-"@,
            },
        forall|p: int, i: int|
            0 <= p < r@.len() && 0 <= i < r@[p]@.len() ==> match feed.releases@[50 * p + i].version {
                Some(v) => (#[trigger] r@[p]@[i]).version_cell@.take(v@.len() as int) == v@,
                None => r@[p]@[i].version_cell@[0] == '-',
            },
        forall|p: int, i: int|
            0 <= p < r@.len() && 0 <= i < r@[p]@.len() ==> match feed.releases@[50 * p + i].hash {
                Some(h) => (#[trigger] r@[p]@[i]).commit@ == h@,
                None => r@[p]@[i].commit@ == "-"@,
            },
{
    let mut pages: Vec<Vec<ReleaseRow>> = Vec::new();
    let mut from: usize = 0;
    let n: usize = feed.releases.len();
    while from < n
        invariant
            n == feed.releases@.len(),
            n == feed@.releases.len(),
            from <= n,
            from == 50 * pages@.len() || (from == n && pages@.len() == page_count(n as nat)),
            pages@.len() <= page_count(n as nat),
            forall|p: int|
                0 <= p < pages@.len() ==> (#[trigger] pages@[p])@.len() == if p + 1 < page_count(
                    n as nat,
                ) {
                    50
                } else {
                    n - 50 * p
                },
            forall|p: int, i: int|
                0 <= p < pages@.len() && 0 <= i < pages@[p]@.len() ==> shows(
                    #[trigger] pages@[p]@[i],
                    feed@.releases[50 * p + i],
                ),
        decreases n - from,
    {
        let rows = page(feed, from);
        let count: usize = rows.len();
        let ghost before = pages@;
        pages.push(rows);
        from += count;
        assert forall|p: int, i: int|
            0 <= p < pages@.len() && 0 <= i < pages@[p]@.len() implies shows(
            #[trigger] pages@[p]@[i],
            feed@.releases[50 * p + i],
        ) by {
            if p < before.len() {
                assert(pages@[p] == before[p]);
            }
        }
    }
    proof {
        assert forall|p: int, i: int|
            0 <= p < pages@.len() && 0 <= i < pages@[p]@.len() implies ({
            let row = #[trigger] pages@[p]@[i];
            let e = feed.releases@[50 * p + i];
            &&& tells(row, e)
            &&& match e.channel {
                Some(c) => row.channel@ == c@ && row.channel_cell@.take(c@.len() as int) == c@,
                None => row.channel@ == "-"@,
            }
            &&& match e.version {
                Some(v) => row.version_cell@.take(v@.len() as int) == v@,
                None => row.version_cell@[0] == '-',
            }
            &&& match e.hash {
                Some(h) => row.commit@ == h@,
                None => row.commit@ == "-"@,
            }
        }) by {
            let k = 50 * p + i;
            assert(0 <= k < n);
            assert(feed@.releases[k] == feed.releases@[k]@);
            law_row_tells_of_its_entry(pages@[p]@[i], feed.releases@[k]);
        }
    }
    pages
}

/// Every entry of the feed stands on exactly one page, at one place.
pub proof fn law_every_release_is_shown_once(n: nat, k: int, p: int, i: int)
    requires
        0 <= k < n,
        0 <= i < 50,
    ensures
        0 <= k / 50 < page_count(n),
        k == 50 * (k / 50) + k % 50,
        k == 50 * p + i ==> p == k / 50 && i == k % 50,
{
}

// ---------------------------------------------------------------------------
// What the rows say
// ---------------------------------------------------------------------------

/// `text` describes an environment with this record and this version in its files: by the
/// version, else the channel, else the first seven bytes of the commit that the record
/// states; only where it states none of them by the version in the files, or as unknown.
pub open spec fn describes(text: Seq<char>, meta: Option<EnvMeta>, version: Option<String>) -> bool {
    match meta {
        Some(m) => match (m.version, m.channel, m.commit) {
            (Some(v), _, _) => text == v@,
            (None, Some(c), _) => text == c@,
            (None, None, Some(h)) => exists|n: int|
                0 <= n <= h@.len() && text == #[trigger] h@.take(n) + "…"@ && if byte_len(h@) <= 7 {
                    n == h@.len()
                } else {
                    byte_len(h@.take(n)) == 7
                },
            (None, None, None) => text == version_or_unknown(version),
        },
        None => text == version_or_unknown(version),
    }
}

/// The version in the files, or that it is unknown.
pub open spec fn version_or_unknown(version: Option<String>) -> Seq<char> {
    match version {
        Some(v) => v@,
        None => "unknown"@,
    }
}

/// The record describes an environment before its files do: the version, else the channel,
/// else the commit.
pub proof fn law_record_describes_first(meta: Option<EnvMeta>, version: Option<String>)
    requires
        describable(meta),
    ensures
        describes(description(meta, opt_text(version)), meta, version),
        meta matches Some(m) ==> (m.version matches Some(v) ==> description(meta, opt_text(version))
            == v@),
        meta matches Some(m) ==> m.version is None ==> (m.channel matches Some(c) ==> description(
            meta,
            opt_text(version),
        ) == c@),
        meta matches Some(m) ==> m.version is None && m.channel is None ==> (m.commit matches Some(h)
            ==> exists|n: int|
            0 <= n <= h@.len() && description(meta, opt_text(version)) == #[trigger] h@.take(n)
                + "…"@ && if byte_len(h@) <= 7 {
                n == h@.len()
            } else {
                byte_len(h@.take(n)) == 7
            }),
        meta is None || (meta->0.version is None && meta->0.channel is None && meta->0.commit is None)
            ==> description(meta, opt_text(version)) == match version {
            Some(v) => v@,
            None => "unknown"@,
        },
{
    if let Some(m) = meta {
        if let (None, None, Some(h)) = (m.version, m.channel, m.commit) {
            law_cut_is_a_front_part(h@, 7);
            if byte_len(h@) <= 7 {
                assert(h@.take(h@.len() as int) =~= h@);
            } else {
                let t = byte_cut(h@, 7)->0;
                assert(h@.take(t.len() as int) == t);
            }
        }
    }
}

/// The row tells of the entry: its name, what its record or its files state, whether it is
/// the active one, and whether it is the global default.
pub open spec fn tells_of(
    row: Row,
    entry: EnvEntry,
    global: GlobalConfig,
    active: Option<String>,
    source: ActiveSource,
) -> bool {
    &&& row.name@ == entry.name@
    &&& describes(row.description@, entry.meta, entry.version)
    &&& row.active == ((active matches Some(a) && a@ == entry.name@) && !(source is Nowhere))
    &&& row.global == (global.default_env matches Some(d) && d@ == entry.name@)
}

/// The row tells of one of the entries, and not of the default link.
pub open spec fn tells_of_one(
    row: Row,
    entries: Seq<EnvEntry>,
    global: GlobalConfig,
    active: Option<String>,
    source: ActiveSource,
) -> bool {
    exists|i: int|
        0 <= i < entries.len() && (#[trigger] entries[i]).name@ != "default"@ && tells_of(
            row,
            entries[i],
            global,
            active,
            source,
        )
}

/// Every entry but the default link has a row of its own, behind the rows of the entries
/// before it, with its name, its description and its marks.
pub proof fn law_rows_are_of_the_entries(
    entries: Seq<EnvEntry>,
    global: GlobalConfig,
    active: Option<String>,
    source: ActiveSource,
    i: int,
)
    requires
        0 <= i < entries.len(),
    ensures
        rows_of(seq![], global, active, source).len() == 0,
        ({
            let before = rows_of(entries.take(i), global, active, source).len() as int;
            let upto = rows_of(entries.take(i + 1), global, active, source).len() as int;
            let all = rows_of(entries, global, active, source);
            let e = entries[i];
            if e.name@ == "default"@ {
                upto == before
            } else {
                &&& upto == before + 1
                &&& before < all.len()
                &&& all[before].name == e.name@
                &&& all[before].description == description(e.meta, opt_text(e.version))
                &&& all[before].active == ((active matches Some(a) && a@ == e.name@) && !(
                source is Nowhere))
                &&& all[before].global == (global.default_env matches Some(d) && d@ == e.name@)
            }
        }),
{
    let so_far = entries.take(i + 1);
    assert(so_far.drop_last() =~= entries.take(i));
    assert(so_far.last() == entries[i]);
    lemma_rows_grow(entries, global, active, source, i + 1);
}

/// The rows of the first entries stay where they are.
proof fn lemma_rows_grow(
    entries: Seq<EnvEntry>,
    global: GlobalConfig,
    active: Option<String>,
    source: ActiveSource,
    i: int,
)
    requires
        0 <= i <= entries.len(),
    ensures
        rows_of(entries.take(i), global, active, source).len() <= rows_of(
            entries,
            global,
            active,
            source,
        ).len(),
        forall|k: int|
            0 <= k < rows_of(entries.take(i), global, active, source).len() ==> #[trigger] rows_of(
                entries,
                global,
                active,
                source,
            )[k] == rows_of(entries.take(i), global, active, source)[k],
    decreases entries.len() - i,
{
    if i < entries.len() {
        let rest = entries.drop_last();
        assert(rest.take(i) =~= entries.take(i));
        lemma_rows_grow(rest, global, active, source, i);
    } else {
        assert(entries.take(i) =~= entries);
    }
}

/// Every row is of some entry.
proof fn lemma_row_has_entry(
    entries: Seq<EnvEntry>,
    global: GlobalConfig,
    active: Option<String>,
    source: ActiveSource,
    k: int,
) -> (i: int)
    requires
        0 <= k < rows_of(entries, global, active, source).len(),
    ensures
        0 <= i < entries.len(),
        entries[i].name@ != "default"@,
        rows_of(entries.take(i), global, active, source).len() == k,
    decreases entries.len(),
{
    let rest = entries.drop_last();
    let n = entries.len() - 1;
    assert(entries.take(n) =~= rest);
    if k < rows_of(rest, global, active, source).len() {
        let i = lemma_row_has_entry(rest, global, active, source, k);
        assert(rest.take(i) =~= entries.take(i));
        i
    } else {
        n
    }
}

/// A column is exactly as wide as it has to be: it holds its longest text in bytes, and is
/// no wider than that or than its least width.
pub proof fn law_column_is_as_wide_as_needed(cells: Seq<Seq<char>>, least: nat)
    ensures
        column_width(cells, least) >= least,
        forall|i: int|
            0 <= i < cells.len() ==> byte_len(#[trigger] cells[i]) <= column_width(cells, least),
        column_width(cells, least) == least || exists|i: int|
            0 <= i < cells.len() && byte_len(#[trigger] cells[i]) == column_width(cells, least),
    decreases cells.len(),
{
    if cells.len() > 0 {
        let rest = cells.drop_last();
        law_column_is_as_wide_as_needed(rest, least);
        assert forall|i: int| 0 <= i < cells.len() implies byte_len(#[trigger] cells[i])
            <= column_width(cells, least) by {
            if i < rest.len() {
                assert(rest[i] == cells[i]);
            }
        }
        if column_width(cells, least) != least {
            if column_width(cells, least) == byte_len(cells.last()) {
                assert(byte_len(cells[cells.len() - 1]) == column_width(cells, least));
            } else {
                let i = choose|i: int|
                    0 <= i < rest.len() && byte_len(#[trigger] rest[i]) == column_width(rest, least);
                assert(cells[i] == rest[i]);
            }
        }
    }
}

/// Every environment is offered, but for the default link and what is no directory, each
/// behind those offered before it, under its own name and description.
pub proof fn law_environments_are_offered(entries: Seq<EnvEntry>, i: int)
    requires
        0 <= i < entries.len(),
    ensures
        offered(seq![]).len() == 0,
        ({
            let before = offered(entries.take(i)).len() as int;
            let upto = offered(entries.take(i + 1)).len() as int;
            if entries[i].name@ == "default"@ || !entries[i].directory {
                upto == before
            } else {
                &&& upto == before + 1
                &&& before < offered(entries).len()
                &&& offered(entries)[before] == entries[i]
            }
        }),
{
    assert(entries.take(i + 1).drop_last() =~= entries.take(i));
    assert(entries.take(i + 1).last() == entries[i]);
    lemma_offers_grow(entries, i + 1);
}

/// What was offered stays where it is.
proof fn lemma_offers_grow(entries: Seq<EnvEntry>, i: int)
    requires
        0 <= i <= entries.len(),
    ensures
        offered(entries.take(i)).len() <= offered(entries).len(),
        forall|k: int|
            0 <= k < offered(entries.take(i)).len() ==> #[trigger] offered(entries)[k] == offered(
                entries.take(i),
            )[k],
    decreases entries.len() - i,
{
    if i < entries.len() {
        let rest = entries.drop_last();
        assert(rest.take(i) =~= entries.take(i));
        lemma_offers_grow(rest, i);
    } else {
        assert(entries.take(i) =~= entries);
    }
}

/// What a choice shows of its environment.
pub proof fn law_choice_shows_its_environment(choice: Choice, e: EnvEntry)
    requires
        offers(choice, e),
        describable(e.meta),
    ensures
        choice.name@ == e.name@,
        cell_shows(choice.cell@, e.name@, 16),
        describes(choice.description@, e.meta, e.version),
{
    lemma_cell(e.name@, 16);
    law_record_describes_first(e.meta, e.version);
}

/// A row is marked by what it is: the word `active` stands there exactly where it is
/// active, the word `global` exactly where it is the global default.
pub proof fn law_marks_tell_both(active: bool, global: bool)
    ensures
        !active && !global ==> label(active, global) is None,
        active || global ==> label(active, global) is Some,
        active ==> contains(label(active, global)->0, "active"@),
        global ==> contains(label(active, global)->0, "global"@),
        !active && global ==> !contains(label(active, global)->0, "active"@),
        active && !global ==> !contains(label(active, global)->0, "global"@),
{
    reveal_strlit("(active, global)");
    reveal_strlit("(active)");
    reveal_strlit("(global)");
    reveal_strlit("active");
    reveal_strlit("global");
    let both = "(active, global)"@;
    assert(both.subrange(1, 7) =~= "active"@);
    assert(occurs_at(both, "active"@, 1));
    assert(both.subrange(9, 15) =~= "global"@);
    assert(occurs_at(both, "global"@, 9));
    let a = "(active)"@;
    assert(a.subrange(1, 7) =~= "active"@);
    assert(occurs_at(a, "active"@, 1));
    let g = "(global)"@;
    assert(g.subrange(1, 7) =~= "global"@);
    assert(occurs_at(g, "global"@, 1));
    assert forall|i: int| !occurs_at(g, "active"@, i) by {
        if occurs_at(g, "active"@, i) {
            assert(g.subrange(i, i + 6)[0] == 'a');
            assert(g[i] == 'a');
        }
    }
    assert forall|i: int| !occurs_at(a, "global"@, i) by {
        if occurs_at(a, "global"@, i) {
            assert(a.subrange(i, i + 6)[0] == 'g');
            assert(a[i] == 'g');
        }
    }
}

} // verus!
