//! What Prist writes into a project so that editors find its Flutter SDK, and
//! how it takes that back.
//!
//! - VS Code: `dart.flutterSdkPath` in `.vscode/settings.json`, and exclusions
//!   for the file watcher and the search.
//! - Android Studio and IntelliJ: `flutter.sdk` in `android/local.properties`,
//!   and an ignored root in `.idea/workspace.xml`.
//! - Git: a block of entries in `.gitignore`.

use vstd::prelude::*;

use crate::error::{PristError, Result};
use crate::paths::{Location, LocationView};
use crate::settings::{Document, Found, Json, MAX_DEPTH, Node, Object, deeper, depth, depth_of, empty, entries, insert, is_empty, json_pretty, jsonc_value, nesting, no_entries, object_at, parse, pretty, remove};
use crate::text::{begins, blank, borrowed, chars_of, contains, ends_in, find_from, has, index_from, index_of, is_blank, is_line, join, joined, law_finding, law_lines_read_back, lemma_index_from, lemma_index_from_shape, lemma_lines_hold_no_feed, lemma_upto, lines, lines_of, occurs_at, opt_str, opt_text, starts_with, terminate, terminated, text_between, texts, upto};

verus! {

/// The line before the entries of `.gitignore` that Prist manages.
pub const PRIST_MARKER_BEGIN: &'static str = "# prist-managed — begin";

/// The line after the entries of `.gitignore` that Prist manages.
pub const PRIST_MARKER_END: &'static str = "# prist-managed — end";

// ---------------------------------------------------------------------------
// .gitignore
// ---------------------------------------------------------------------------

/// The block that Prist manages, for a home at `home`.
pub open spec fn managed_block(home: Seq<char>) -> Seq<char> {
    "\n"@ + PRIST_MARKER_BEGIN@ + "\n.pristrc\n"@ + home + "\n"@ + PRIST_MARKER_END@ + "\n"@
}

/// What becomes of a `.gitignore`; nothing where it holds the block already.
pub open spec fn gitignored(existing: Seq<char>, home: Seq<char>) -> Option<Seq<char>> {
    if contains(existing, PRIST_MARKER_BEGIN@) {
        None
    } else {
        Some(terminated(existing) + managed_block(home))
    }
}

/// What to write to `.gitignore` so that it holds the block that Prist manages;
/// nothing where it holds it already.
pub fn gitignore(existing: &str, home: &str) -> (r: Option<String>)
    ensures
        (match r {
            Some(t) => Some(t@),
            None => None,
        }) == gitignored(existing@, home@),
{
    if has(existing, PRIST_MARKER_BEGIN) {
        return None;
    }
    let mut t = terminate(existing);
    let block = "\n".to_string().concat(PRIST_MARKER_BEGIN).concat("\n.pristrc\n").concat(
        home,
    ).concat("\n").concat(PRIST_MARKER_END).concat("\n");
    t.append(block.as_str());
    Some(t)
}

/// Where the block begins, with the line feed that was put before it.
pub open spec fn block_start(existing: Seq<char>, begin: int) -> int {
    if begin > 0 && existing[begin - 1] == '\n' {
        begin - 1
    } else {
        begin
    }
}

/// Where the line that begins at or before `i` ends, with its line feed.
pub open spec fn line_stop(existing: Seq<char>, i: int) -> int {
    let e = i + upto(existing.skip(i), '\n');
    if e < existing.len() {
        e + 1
    } else {
        existing.len() as int
    }
}

/// What becomes of a `.gitignore` once the block is taken out, from its first
/// line to the end of its last, with the line feed that was put before it; nothing
/// where either of the two lines is missing.
pub open spec fn ungitignored(existing: Seq<char>) -> Option<Seq<char>> {
    match index_of(existing, PRIST_MARKER_BEGIN@) {
        None => None,
        Some(begin) => match index_from(existing, PRIST_MARKER_END@, begin) {
            None => None,
            Some(end) => {
                Some(
                    existing.take(block_start(existing, begin)) + existing.skip(
                        line_stop(existing, end),
                    ),
                )
            },
        },
    }
}

/// What to write to `.gitignore` to take out the block that Prist manages;
/// nothing where it does not hold the block.
pub fn gitignore_revert(existing: &str) -> (r: Option<String>)
    ensures
        (match r {
            Some(t) => Some(t@),
            None => None,
        }) == ungitignored(existing@),
{
    let v = chars_of(existing);
    let first = chars_of(PRIST_MARKER_BEGIN);
    let last = chars_of(PRIST_MARKER_END);
    let begin = match find_from(&v, &first, 0) {
        Some(i) => i,
        None => return None,
    };
    let end = match find_from(&v, &last, begin) {
        Some(i) => i,
        None => return None,
    };
    let start: usize = if begin > 0 && v[begin - 1] == '\n' {
        begin - 1
    } else {
        begin
    };
    let mut stop: usize = end;
    while stop < v.len() && v[stop] != '\n'
        invariant
            end <= stop <= v@.len(),
            forall|j: int| end <= j < stop ==> v@[j] != '\n',
        decreases v@.len() - stop,
    {
        stop += 1;
    }
    proof {
        let t = v@.skip(end as int);
        assert forall|j: int| 0 <= j < stop - end implies t[j] != '\n' by {
            assert(t[j] == v@[end + j]);
        }
        if stop < v@.len() {
            assert(t[stop - end] == v@[stop as int]);
        }
        lemma_upto(t, '\n', stop - end);
    }
    if stop < v.len() {
        stop += 1;
    }
    let kept = text_between(&v, 0, start).concat(text_between(&v, stop, v.len()).as_str());
    proof {
        assert(existing@.take(start as int) =~= v@.subrange(0, start as int));
        assert(existing@.skip(stop as int) =~= v@.subrange(stop as int, v@.len() as int));
    }
    Some(kept)
}

// ---------------------------------------------------------------------------
// android/local.properties
// ---------------------------------------------------------------------------

/// The lines of `list` that do not begin with `prefix`.
pub open spec fn without_prefixed(list: Seq<Seq<char>>, prefix: Seq<char>) -> Seq<Seq<char>>
    decreases list.len(),
{
    if list.len() == 0 {
        seq![]
    } else {
        let rest = without_prefixed(list.drop_last(), prefix);
        if starts_with(list.last(), prefix) {
            rest
        } else {
            rest.push(list.last())
        }
    }
}

/// The lines of a `local.properties` that names the SDK at `sdk`.
pub open spec fn property_lines(existing: Seq<char>, sdk: Seq<char>) -> Seq<Seq<char>> {
    without_prefixed(lines(existing), "flutter.sdk="@).push("flutter.sdk="@ + sdk)
}

/// A `local.properties` that names the SDK at `sdk`: the other lines stay as
/// they are, and the one that names the SDK comes last.
pub open spec fn properties(existing: Seq<char>, sdk: Seq<char>) -> Seq<char> {
    join(property_lines(existing, sdk), "\n"@) + "\n"@
}

/// The lines of a list that do not begin with `prefix`.
fn unprefixed(all: &Vec<String>, prefix: &str) -> (r: Vec<String>)
    ensures
        texts(r@) == without_prefixed(texts(all@), prefix@),
{
    let mut kept: Vec<String> = Vec::new();
    let mut i: usize = 0;
    let ghost ls = texts(all@);
    assert(ls.take(0) =~= seq![]);
    assert(texts(kept@) =~= seq![]);
    while i < all.len()
        invariant
            i <= all@.len(),
            ls == texts(all@),
            texts(kept@) == without_prefixed(ls.take(i as int), prefix@),
        decreases all@.len() - i,
    {
        proof {
            assert(ls.take(i + 1).drop_last() =~= ls.take(i as int));
            assert(ls.take(i + 1).last() == all@[i as int]@);
        }
        if !begins(all[i].as_str(), prefix) {
            let ghost before = texts(kept@);
            let line = all[i].clone();
            kept.push(line);
            assert(texts(kept@) =~= before.push(all@[i as int]@));
        }
        i += 1;
    }
    assert(ls.take(i as int) =~= ls);
    kept
}

/// What to write to `local.properties` so that it names the SDK at `sdk`.
pub fn local_properties(existing: &str, sdk: &str) -> (r: String)
    ensures
        r@ == properties(existing@, sdk@),
{
    let mut kept = unprefixed(&lines_of(existing), "flutter.sdk=");
    let ghost before = texts(kept@);
    let line = "flutter.sdk=".to_string().concat(sdk);
    kept.push(line);
    assert(texts(kept@) =~= before.push("flutter.sdk="@ + sdk@));
    joined(&kept, "\n").concat("\n")
}

/// The lines of a list that name no SDK below the directory `envs`.
pub open spec fn without_envs(list: Seq<Seq<char>>, envs: Seq<char>) -> Seq<Seq<char>> {
    without_prefixed(
        without_prefixed(list, "flutter.sdk="@ + envs + "/"@),
        "flutter.sdk="@ + envs + "\\"@,
    )
}

/// What to do to a `local.properties` to take out what Prist put there: the lines that
/// name an SDK below the directory `envs`. It goes if it held nothing else.
pub open spec fn properties_reverted(existing: Seq<char>, envs: Seq<char>) -> TextChangeView {
    let left = without_envs(lines(existing), envs);
    if left.len() == lines(existing).len() {
        TextChangeView::Keep
    } else if left.len() == 0 {
        TextChangeView::Remove
    } else {
        TextChangeView::Write(join(left, "\n"@) + "\n"@)
    }
}

/// What to do to a `local.properties` to take out what Prist put there, where the
/// environments are in the directory `envs`.
pub fn properties_revert(existing: &str, envs: &str) -> (r: TextChange)
    ensures
        r@ == properties_reverted(existing@, envs@),
{
    let all = lines_of(existing);
    let unix = "flutter.sdk=".to_string().concat(envs).concat("/");
    let windows = "flutter.sdk=".to_string().concat(envs).concat("\\");
    let left = unprefixed(&unprefixed(&all, unix.as_str()), windows.as_str());
    assert(texts(left@).len() == left@.len() && texts(all@).len() == all@.len());
    if left.len() == all.len() {
        TextChange::Keep
    } else if left.len() == 0 {
        TextChange::Remove
    } else {
        TextChange::Write(joined(&left, "\n").concat("\n"))
    }
}

// ---------------------------------------------------------------------------
// .idea/workspace.xml
// ---------------------------------------------------------------------------

/// The element that keeps the paths matching `pattern` out of the index.
pub open spec fn ignored_roots(pattern: Seq<char>) -> Seq<char> {
    "  <ignored-roots>\n    <path value=\""@ + pattern + "\" />\n  </ignored-roots>\n"@
}

/// Where the element goes: before the first closing component, else before the
/// first closing project.
pub open spec fn injection_point(xml: Seq<char>) -> Option<int> {
    match index_of(xml, "</component>"@) {
        Some(i) => Some(i),
        None => index_of(xml, "</project>"@),
    }
}

/// What becomes of a workspace; nothing where it holds the pattern already. One
/// without a closing tag stays as it is.
pub open spec fn ignoring(xml: Seq<char>, pattern: Seq<char>) -> Option<Seq<char>> {
    if contains(xml, pattern) {
        None
    } else {
        match injection_point(xml) {
            Some(i) => Some(xml.take(i) + ignored_roots(pattern) + xml.skip(i)),
            None => Some(xml),
        }
    }
}

/// What to write to `workspace.xml` so that the paths matching `pattern` are
/// kept out of the index; nothing where it names the pattern already.
pub fn workspace_xml(xml: &str, pattern: &str) -> (r: Option<String>)
    ensures
        (match r {
            Some(t) => Some(t@),
            None => None,
        }) == ignoring(xml@, pattern@),
{
    if has(xml, pattern) {
        return None;
    }
    let v = chars_of(xml);
    let component = chars_of("</component>");
    let project = chars_of("</project>");
    let point = match find_from(&v, &component, 0) {
        Some(i) => Some(i),
        None => find_from(&v, &project, 0),
    };
    match point {
        Some(i) => {
            proof {
                assert(xml@.take(i as int) =~= v@.subrange(0, i as int));
                assert(xml@.skip(i as int) =~= v@.subrange(i as int, v@.len() as int));
            }
            let element = "  <ignored-roots>\n    <path value=\"".to_string().concat(
                pattern,
            ).concat("\" />\n  </ignored-roots>\n");
            Some(
                text_between(&v, 0, i).concat(element.as_str()).concat(
                    text_between(&v, i, v.len()).as_str(),
                ),
            )
        },
        None => Some(xml.to_string()),
    }
}

/// What becomes of a workspace once the element is taken out; nothing where it is not
/// there.
pub open spec fn no_longer_ignoring(xml: Seq<char>, pattern: Seq<char>) -> Option<Seq<char>> {
    match index_of(xml, ignored_roots(pattern)) {
        Some(i) => Some(xml.take(i) + xml.skip((i + ignored_roots(pattern).len()) as int)),
        None => None,
    }
}

/// What to write to `workspace.xml` to take out the element for the paths matching
/// `pattern`; nothing where it is not there.
pub fn workspace_revert(xml: &str, pattern: &str) -> (r: Option<String>)
    ensures
        opt_text(r) == no_longer_ignoring(xml@, pattern@),
{
    let element = "  <ignored-roots>\n    <path value=\"".to_string().concat(pattern).concat(
        "\" />\n  </ignored-roots>\n",
    );
    let v = chars_of(xml);
    let e = chars_of(element.as_str());
    match find_from(&v, &e, 0) {
        Some(i) => {
            let whole: usize = v.len();
            assert(i + e@.len() <= whole);
            let stop: usize = i + e.len();
            proof {
                assert(xml@.take(i as int) =~= v@.subrange(0, i as int));
                assert(xml@.skip(stop as int) =~= v@.subrange(stop as int, v@.len() as int));
            }
            Some(text_between(&v, 0, i).concat(text_between(&v, stop, whole).as_str()))
        },
        None => None,
    }
}

// ---------------------------------------------------------------------------
// .vscode/settings.json
// ---------------------------------------------------------------------------

/// What keeps the paths matching `pattern` out of a watcher or a search.
pub open spec fn exclusion(pattern: Seq<char>) -> Json {
    Json::Object(no_entries().insert(pattern, Json::Bool(true)))
}

/// Settings that keep the paths matching `pattern` out of what the key `k` is for:
/// the pattern joins those that are there. A value that is no object stays.
pub open spec fn excluding(e: Map<Seq<char>, Json>, k: Seq<char>, pattern: Seq<char>) -> Map<
    Seq<char>,
    Json,
> {
    if !e.contains_key(k) {
        e.insert(k, exclusion(pattern))
    } else {
        match e[k] {
            Json::Object(m) => e.insert(k, Json::Object(m.insert(pattern, Json::Bool(true)))),
            _ => e,
        }
    }
}

/// Settings that no longer keep the paths matching `pattern` out of what the key `k`
/// is for: the other patterns stay, and the key goes with the last of them.
pub open spec fn including(e: Map<Seq<char>, Json>, k: Seq<char>, pattern: Seq<char>) -> Map<
    Seq<char>,
    Json,
> {
    if !e.contains_key(k) {
        e
    } else {
        match e[k] {
            Json::Object(m) => if !m.contains_key(pattern) {
                e
            } else if m.remove(pattern) == no_entries() {
                e.remove(k)
            } else {
                e.insert(k, Json::Object(m.remove(pattern)))
            },
            _ => e,
        }
    }
}

/// Settings that name the SDK at `sdk`, and that keep the paths matching `pattern`
/// out of the watcher and the search.
pub open spec fn with_sdk(e: Map<Seq<char>, Json>, sdk: Seq<char>, pattern: Seq<char>) -> Map<
    Seq<char>,
    Json,
> {
    let named = e.insert("dart.flutterSdkPath"@, Json::Text(sdk));
    excluding(
        excluding(named, "files.watcherExclude"@, pattern),
        "search.exclude"@,
        pattern,
    )
}

/// Settings that name no SDK, and that do not keep the paths matching `pattern` out
/// of the watcher or the search.
pub open spec fn without_sdk(e: Map<Seq<char>, Json>, pattern: Seq<char>) -> Map<Seq<char>, Json> {
    let unnamed = e.remove("dart.flutterSdkPath"@);
    including(
        including(unnamed, "files.watcherExclude"@, pattern),
        "search.exclude"@,
        pattern,
    )
}

/// What is said of settings that are nested too deeply.
pub const TOO_DEEP: &'static str = "the settings are nested too deeply";

/// What is said of settings that are no object.
pub const NO_OBJECT: &'static str = "the settings are not an object";

/// The settings in a text: those of the object that it holds, or none where it holds
/// nothing. Any other text is refused, with a reason.
pub open spec fn settings_in(text: Seq<char>) -> std::result::Result<Map<Seq<char>, Json>, Seq<char>> {
    if depth(text) > MAX_DEPTH {
        Err(TOO_DEEP@)
    } else {
        match jsonc_value(text) {
            Ok(Some(Json::Object(e))) => Ok(e),
            Ok(Some(_)) => Err(NO_OBJECT@),
            Ok(None) => Ok(no_entries()),
            Err(m) => Err(m),
        }
    }
}

/// The settings in a file that may be missing or blank.
pub open spec fn settings_of(existing: Option<Seq<char>>) -> std::result::Result<
    Map<Seq<char>, Json>,
    Seq<char>,
> {
    match existing {
        Some(t) if !is_blank(t) => settings_in(t),
        _ => Ok(no_entries()),
    }
}

/// Keep the paths matching `pattern` out of what the key `k` is for.
fn exclude(root: &mut Object, k: &str, pattern: &str)
    requires
        nesting(*old(root)) <= MAX_DEPTH,
    ensures
        entries(*final(root)) == excluding(entries(*old(root)), k@, pattern@),
        nesting(*final(root)) <= deeper(nesting(*old(root)), 1),
{
    match object_at(root, k) {
        Found::Nothing => {
            let mut m = empty();
            insert(&mut m, pattern, Node::Flag(true));
            insert(root, k, Node::Object(m));
        },
        Found::Object(m) => {
            let mut m = m;
            insert(&mut m, pattern, Node::Flag(true));
            insert(root, k, Node::Object(m));
        },
        Found::Other => {},
    }
}

/// No longer keep the paths matching `pattern` out of what the key `k` is for. Says
/// whether that changed anything.
fn include_again(root: &mut Object, k: &str, pattern: &str) -> (r: bool)
    requires
        nesting(*old(root)) <= MAX_DEPTH,
    ensures
        entries(*final(root)) == including(entries(*old(root)), k@, pattern@),
        nesting(*final(root)) <= nesting(*old(root)),
        r == (entries(*final(root)) != entries(*old(root))),
{
    let ghost e = entries(*root);
    match object_at(root, k) {
        Found::Object(m) => {
            let mut m = m;
            let ghost before = entries(m);
            if !remove(&mut m, pattern) {
                return false;
            }
            if is_empty(&m) {
                remove(root, k);
                assert(!entries(*root).contains_key(k@));
            } else {
                insert(root, k, Node::Object(m));
                assert(!before.remove(pattern@).contains_key(pattern@));
                assert(entries(*root)[k@] != e[k@]);
            }
            true
        },
        _ => false,
    }
}

/// Let the settings name the SDK at `sdk`, and keep the paths matching `pattern` out of
/// the watcher and the search.
pub fn name_sdk(root: &mut Object, sdk: &str, pattern: &str)
    requires
        nesting(*old(root)) <= MAX_DEPTH,
    ensures
        entries(*final(root)) == with_sdk(entries(*old(root)), sdk@, pattern@),
        nesting(*final(root)) <= MAX_DEPTH,
{
    insert(root, "dart.flutterSdkPath", Node::Text(sdk.to_string()));
    exclude(root, "files.watcherExclude", pattern);
    exclude(root, "search.exclude", pattern);
}

/// Let the settings name no SDK, and no longer keep the paths matching `pattern` out of
/// the watcher and the search. Says whether that changed anything.
pub fn forget_sdk(root: &mut Object, pattern: &str) -> (r: bool)
    requires
        nesting(*old(root)) <= MAX_DEPTH,
    ensures
        entries(*final(root)) == without_sdk(entries(*old(root)), pattern@),
        nesting(*final(root)) <= MAX_DEPTH,
        r == (entries(*final(root)) != entries(*old(root))),
{
    let ghost e = entries(*root);
    let named = remove(root, "dart.flutterSdkPath");
    let ghost e1 = entries(*root);
    let watched = include_again(root, "files.watcherExclude", pattern);
    let ghost e2 = entries(*root);
    let searched = include_again(root, "search.exclude", pattern);
    proof {
        lemma_setting_keys();
        let e3 = entries(*root);
        let sdk = "dart.flutterSdkPath"@;
        let w = "files.watcherExclude"@;
        if named {
            assert(!e3.contains_key(sdk));
        } else {
            assert(e1 =~= e);
        }
        if watched {
            assert(e1.contains_key(w));
            assert(!e2.contains_key(w) || e2[w] != e1[w]);
            assert(e3.contains_key(w) == e2.contains_key(w));
            assert(e.contains_key(w) && e[w] == e1[w]);
            if e2.contains_key(w) {
                assert(e3[w] == e2[w]);
            }
        }
    }
    named || watched || searched
}

/// The settings in a text.
fn read_settings(text: &str) -> (r: Result<Object>)
    ensures
        match r {
            Ok(o) => settings_in(text@) == Ok::<Map<Seq<char>, Json>, Seq<char>>(entries(o))
                && nesting(o) <= MAX_DEPTH,
            Err(PristError::Json(m)) => settings_in(text@) == Err::<
                Map<Seq<char>, Json>,
                Seq<char>,
            >(m@),
            Err(_) => false,
        },
{
    if depth_of(text) > MAX_DEPTH {
        return Err(PristError::Json(TOO_DEEP.to_string()));
    }
    match parse(text) {
        Ok(Document::Object(o)) => Ok(o),
        Ok(Document::Nothing) => Ok(empty()),
        Ok(Document::Other) => Err(PristError::Json(NO_OBJECT.to_string())),
        Err(m) => Err(PristError::Json(m)),
    }
}

/// Settings as they are written.
fn write_settings(root: Object) -> (r: Result<String>)
    requires
        nesting(root) <= MAX_DEPTH,
    ensures
        r matches Ok(t) && t@ == json_pretty(entries(root)) + "\n"@,
{
    match pretty(root) {
        Ok(t) => Ok(t.concat("\n")),
        Err(m) => Err(PristError::Json(m)),
    }
}

/// What to write to `settings.json` so that it names the SDK at `sdk` and keeps the
/// paths matching `pattern` out of the watcher and the search. A file that cannot be
/// read as a JSON object is refused, so that no setting in it is lost.
pub fn vscode(existing: Option<&str>, sdk: &str, pattern: &str) -> (r: Result<String>)
    ensures
        match r {
            Ok(t) => settings_of(opt_str(existing)) matches Ok(e) && t@ == json_pretty(
                with_sdk(e, sdk@, pattern@),
            ) + "\n"@,
            Err(PristError::Json(m)) => settings_of(opt_str(existing)) == Err::<
                Map<Seq<char>, Json>,
                Seq<char>,
            >(m@),
            Err(_) => false,
        },
{
    let mut root = match existing {
        Some(t) => if blank(t) {
            empty()
        } else {
            match read_settings(t) {
                Ok(o) => o,
                Err(e) => return Err(e),
            }
        },
        None => empty(),
    };
    name_sdk(&mut root, sdk, pattern);
    write_settings(root)
}

/// What to do to a text file.
#[derive(Debug)]
pub enum TextChange {
    Keep,
    Remove,
    Write(String),
}

/// What to do to a text file, as the text it holds.
pub enum TextChangeView {
    Keep,
    Remove,
    Write(Seq<char>),
}

impl View for TextChange {
    type V = TextChangeView;

    open spec fn view(&self) -> TextChangeView {
        match self {
            TextChange::Keep => TextChangeView::Keep,
            TextChange::Remove => TextChangeView::Remove,
            TextChange::Write(t) => TextChangeView::Write(t@),
        }
    }
}

/// What to do to a `settings.json` that holds the settings `e` to take out what Prist
/// put there: it stays as it is where there is nothing of the kind, and goes if it
/// held nothing else.
pub open spec fn settings_reverted(e: Map<Seq<char>, Json>, pattern: Seq<char>) -> TextChangeView {
    let left = without_sdk(e, pattern);
    if left == e {
        TextChangeView::Keep
    } else if left == no_entries() {
        TextChangeView::Remove
    } else {
        TextChangeView::Write(json_pretty(left) + "\n"@)
    }
}

/// What to do to a `settings.json` that holds `contents` to take out what Prist put
/// there.
pub fn vscode_revert(contents: &str, pattern: &str) -> (r: Result<TextChange>)
    ensures
        match r {
            Ok(change) => settings_in(contents@) matches Ok(e) && change@ == settings_reverted(
                e,
                pattern@,
            ),
            Err(PristError::Json(m)) => settings_in(contents@) == Err::<
                Map<Seq<char>, Json>,
                Seq<char>,
            >(m@),
            Err(_) => false,
        },
{
    let mut root = match read_settings(contents) {
        Ok(o) => o,
        Err(e) => return Err(e),
    };
    if !forget_sdk(&mut root, pattern) {
        return Ok(TextChange::Keep);
    }
    if is_empty(&root) {
        Ok(TextChange::Remove)
    } else {
        match write_settings(root) {
            Ok(t) => Ok(TextChange::Write(t)),
            Err(e) => Err(e),
        }
    }
}

// ---------------------------------------------------------------------------
// The project as a whole
// ---------------------------------------------------------------------------

/// The parent of a path, by the rules of Windows or by those of Unix.
pub uninterp spec fn path_parent(windows: bool, path: Seq<char>) -> Option<Seq<char>>;

/// What stands before the last slash of a path.
pub open spec fn before_slash(path: Seq<char>) -> Seq<char>
    decreases path.len(),
{
    if path.len() == 0 {
        path
    } else if path.last() == '/' {
        path.drop_last()
    } else {
        before_slash(path.drop_last())
    }
}

/// What stands after the last slash of a path.
pub open spec fn after_slash(path: Seq<char>) -> Seq<char> {
    path.skip((before_slash(path).len() + 1) as int)
}

/// A path whose last component is a plain name, set off by a slash from a path that
/// does not end in a root, a separator or a dot, nor begins with a prefix of Windows.
pub open spec fn plain_path(path: Seq<char>) -> bool {
    let dir = before_slash(path);
    let name = after_slash(path);
    &&& path.contains('/')
    &&& name.len() > 0 && name != "."@ && name != ".."@ && !name.contains('\\')
    &&& dir.len() > 0 && dir.last() != '/' && dir.last() != '\\' && dir.last() != ':'
        && dir.last() != '.'
    &&& dir[0] != '\\' && !(dir.len() > 1 && dir[0] == '/' && (dir[1] == '/' || dir[1] == '\\'))
}

/// `std::path::Path::parent`, by the rules of the platform that the library is
/// built for: the path without its last component. For a path whose last component is
/// a plain name behind a slash, that is what stands before the slash, by the rules of
/// either platform. Of other paths no more is said than that the parent depends on the
/// path and on the rules.
#[verifier::external_body]
fn parent(path: &str) -> (r: Option<String>)
    ensures
        exists|windows: bool| opt_text(r) == path_parent(windows, path@),
        plain_path(path@) ==> opt_text(r) == Some(before_slash(path@)),
{
    std::path::Path::new(path).parent().map(|p| p.to_string_lossy().into_owned())
}

/// A path without its last component, where it has one to lose.
pub open spec fn popped(windows: bool, path: Seq<char>) -> Seq<char> {
    match path_parent(windows, path) {
        Some(p) => p,
        None => path,
    }
}

/// `up` is `path` without its last component, where it has one to lose.
pub open spec fn one_up(path: Seq<char>, up: Seq<char>) -> bool {
    &&& exists|windows: bool| up == popped(windows, path)
    &&& plain_path(path) ==> up == before_slash(path)
}

/// The pattern of all that is below `home`.
pub open spec fn below_home(home: Seq<char>) -> Seq<char> {
    "**/"@ + home + "/**"@
}

/// The path without its last component, where it has one to lose.
fn pop(path: String) -> (r: String)
    ensures
        one_up(path@, r@),
{
    let up = parent(path.as_str());
    let ghost w = choose|w: bool| opt_text(up) == path_parent(w, path@);
    let r = match up {
        Some(p) => p,
        None => path,
    };
    assert(r@ == popped(w, path@));
    r
}

/// The directory of all environments, for the environment at `env_path`.
pub fn envs_of(env_path: &str) -> (r: String)
    ensures
        one_up(env_path@, r@),
{
    pop(env_path.to_string())
}

/// `pattern` is that of all that is below the home of the environment at `env_path`.
pub open spec fn covers_home(env_path: Seq<char>, pattern: Seq<char>) -> bool {
    exists|envs: Seq<char>, home: Seq<char>|
        #[trigger] one_up(env_path, envs) && #[trigger] one_up(envs, home) && pattern == below_home(
            home,
        )
}

/// The pattern of all that is below the home of the environment at `env_path`,
/// which is two levels up: `<home>/envs/<name>`.
pub fn home_for_exclusion(env_path: &str) -> (r: String)
    ensures
        covers_home(env_path@, r@),
{
    let up_one = envs_of(env_path);
    let ghost envs = up_one@;
    let up_two = pop(up_one);
    assert(one_up(env_path@, envs) && one_up(envs, up_two@));
    home_pattern(up_two.as_str())
}

/// The pattern of all that is below `home`.
pub fn home_pattern(home: &str) -> (r: String)
    ensures
        r@ == below_home(home@),
{
    "**/".to_string().concat(home).concat("/**")
}

/// The pattern for an environment at an ordinary path is that of the home two levels
/// up, whatever the environment is called.
pub proof fn law_pattern_is_that_of_the_home(env_path: Seq<char>, pattern: Seq<char>)
    requires
        plain_path(env_path),
        plain_path(before_slash(env_path)),
        covers_home(env_path, pattern),
    ensures
        pattern == below_home(before_slash(before_slash(env_path))),
{
}

/// The files of a project that concern Prist, as far as they can be read.
#[derive(Debug)]
pub struct ProjectFiles {
    /// `.vscode/settings.json`
    pub settings: Option<String>,
    /// Whether there is a directory `android`.
    pub android: bool,
    /// `android/local.properties`
    pub properties: Option<String>,
    /// Whether there is a directory `.idea`.
    pub idea: bool,
    /// `.idea/workspace.xml`
    pub workspace: Option<String>,
    /// `.gitignore`
    pub gitignore: Option<String>,
}

/// Something to be done to a file.
#[derive(Debug)]
pub enum FileChange {
    Write { file: Location, text: String },
    Remove { file: Location },
}

/// Something to be done to a file, as the texts it holds.
pub enum ChangeView {
    Write(LocationView, Seq<char>),
    Remove(LocationView),
}

impl View for FileChange {
    type V = ChangeView;

    open spec fn view(&self) -> ChangeView {
        match self {
            FileChange::Write { file, text } => ChangeView::Write(file@, text@),
            FileChange::Remove { file } => ChangeView::Remove(file@),
        }
    }
}

/// A list of changes, as the texts it holds.
pub open spec fn changes(list: Seq<FileChange>) -> Seq<ChangeView> {
    list.map_values(|c: FileChange| c@)
}

/// The settings of VS Code in a project.
pub open spec fn settings_file(project: LocationView) -> LocationView {
    project.join(".vscode"@).join("settings.json"@)
}

/// The properties of the Android build in a project.
pub open spec fn properties_file(project: LocationView) -> LocationView {
    project.join("android"@).join("local.properties"@)
}

/// The workspace of IntelliJ in a project.
pub open spec fn workspace_file(project: LocationView) -> LocationView {
    project.join(".idea"@).join("workspace.xml"@)
}

/// The ignore file of a project.
pub open spec fn gitignore_file(project: LocationView) -> LocationView {
    project.join(".gitignore"@)
}

/// A text, or the empty one where there is none.
pub open spec fn or_empty(o: Option<String>) -> Seq<char> {
    match o {
        Some(s) => s@,
        None => seq![],
    }
}

/// One change, or none.
pub open spec fn at_most_one(file: LocationView, text: Option<Seq<char>>) -> Seq<ChangeView> {
    match text {
        Some(t) => seq![ChangeView::Write(file, t)],
        None => seq![],
    }
}

/// The changes for Android Studio and IntelliJ.
pub open spec fn intellij_changes(
    files: ProjectFiles,
    sdk: Seq<char>,
    pattern: Seq<char>,
    project: LocationView,
) -> Seq<ChangeView> {
    at_most_one(
        properties_file(project),
        if files.android {
            Some(properties(or_empty(files.properties), sdk))
        } else {
            None
        },
    ) + at_most_one(
        workspace_file(project),
        match files.workspace {
            Some(xml) if files.idea => ignoring(xml@, pattern),
            _ => None,
        },
    )
}

/// A copy of a text, or the empty one where there is none.
fn text_or_empty(o: &Option<String>) -> (r: String)
    ensures
        r@ == or_empty(*o),
{
    match o {
        Some(s) => s.clone(),
        None => String::new(),
    }
}

/// Add a change to a list of them, if there is one.
fn push_change(list: &mut Vec<FileChange>, file: Location, text: Option<String>)
    ensures
        changes(final(list)@) == changes(old(list)@) + at_most_one(file@, opt_text(text)),
{
    let ghost before = changes(list@);
    match text {
        Some(t) => {
            let change = FileChange::Write { file, text: t };
            list.push(change);
            assert(changes(list@) =~= before + seq![change@]);
        },
        None => {
            assert(before + seq![] =~= before);
        },
    }
}

/// The changes for Android Studio and IntelliJ: the SDK is named in
/// `local.properties` where there is an Android project, and the home is kept
/// out of the index where there is a workspace.
pub fn intellij(files: &ProjectFiles, sdk: &str, pattern: &str, project: &Location) -> (r: Vec<
    FileChange,
>)
    ensures
        changes(r@) == intellij_changes(*files, sdk@, pattern@, project@),
{
    let mut list: Vec<FileChange> = Vec::new();
    assert(changes(list@) =~= seq![]);
    let props = if files.android {
        Some(local_properties(text_or_empty(&files.properties).as_str(), sdk))
    } else {
        None
    };
    push_change(&mut list, project.join("android").join("local.properties"), props);
    let workspace = match &files.workspace {
        Some(xml) => if files.idea {
            workspace_xml(xml.as_str(), pattern)
        } else {
            None
        },
        None => None,
    };
    push_change(&mut list, project.join(".idea").join("workspace.xml"), workspace);
    assert(changes(list@) =~= intellij_changes(*files, sdk@, pattern@, project@));
    list
}

/// `r` is what to do to a project so that editors find the SDK at `sdk`.
pub open spec fn integrated(
    home: Seq<char>,
    sdk: Seq<char>,
    pattern: Seq<char>,
    project: LocationView,
    files: ProjectFiles,
    r: Result<Vec<FileChange>>,
) -> bool {
    match r {
        Ok(list) => settings_of(opt_text(files.settings)) matches Ok(e) && changes(list@) =~= seq![
            ChangeView::Write(
                settings_file(project),
                json_pretty(with_sdk(e, sdk, pattern)) + "\n"@,
            ),
        ] + intellij_changes(files, sdk, pattern, project) + at_most_one(
            gitignore_file(project),
            gitignored(or_empty(files.gitignore), home),
        ),
        Err(PristError::Json(m)) => settings_of(opt_text(files.settings)) == Err::<
            Map<Seq<char>, Json>,
            Seq<char>,
        >(m@),
        Err(_) => false,
    }
}

/// What to do to a project so that editors find the SDK at `sdk`, in order: the
/// settings of VS Code, what IntelliJ reads, `.gitignore`. Nothing is done where
/// the settings cannot be read.
pub fn integrate(
    home: &str,
    sdk: &str,
    pattern: &str,
    project: &Location,
    files: &ProjectFiles,
) -> (r: Result<Vec<FileChange>>)
    ensures
        integrated(home@, sdk@, pattern@, project@, *files, r),
{
    let settings = match vscode(borrowed(&files.settings), sdk, pattern) {
        Ok(t) => t,
        Err(e) => return Err(e),
    };
    let ghost text = settings@;
    let mut list: Vec<FileChange> = Vec::new();
    assert(changes(list@) =~= seq![]);
    push_change(&mut list, project.join(".vscode").join("settings.json"), Some(settings));
    let mut more = intellij(files, sdk, pattern, project);
    let ghost first = changes(list@);
    let ghost second = changes(more@);
    list.append(&mut more);
    assert(changes(list@) =~= first + second);
    let ignore = gitignore(text_or_empty(&files.gitignore).as_str(), home);
    push_change(&mut list, project.join(".gitignore"), ignore);
    assert(seq![] + at_most_one(settings_file(project@), Some(text)) =~= seq![
        ChangeView::Write(settings_file(project@), text),
    ]);
    Ok(list)
}

/// What to do to a project so that editors find the environment at `env_path`, of the
/// home at `home`, and keep out of that home.
pub fn integrate_env(home: &str, env_path: &str, project: &Location, files: &ProjectFiles) -> (r:
    Result<Vec<FileChange>>)
    ensures
        exists|pattern: Seq<char>| #[trigger]
            covers_home(env_path@, pattern) && integrated(
                home@,
                env_path@,
                pattern,
                project@,
                *files,
                r,
            ),
{
    let pattern = home_for_exclusion(env_path);
    integrate(home, env_path, pattern.as_str(), project, files)
}

/// What is to be done to one file.
pub open spec fn change_of(file: LocationView, change: TextChangeView) -> Seq<ChangeView> {
    match change {
        TextChangeView::Keep => seq![],
        TextChangeView::Remove => seq![ChangeView::Remove(file)],
        TextChangeView::Write(t) => seq![ChangeView::Write(file, t)],
    }
}

/// Add what is to be done to one file to a list of changes.
fn push_text_change(list: &mut Vec<FileChange>, file: Location, change: TextChange)
    ensures
        changes(final(list)@) == changes(old(list)@) + change_of(file@, change@),
{
    let ghost before = changes(list@);
    match change {
        TextChange::Keep => {
            assert(before + seq![] =~= before);
        },
        TextChange::Remove => {
            let c = FileChange::Remove { file };
            list.push(c);
            assert(changes(list@) =~= before + seq![c@]);
        },
        TextChange::Write(text) => {
            let c = FileChange::Write { file, text };
            list.push(c);
            assert(changes(list@) =~= before + seq![c@]);
        },
    }
}

/// What takes out of a project's files, but for the settings, what Prist put there.
pub open spec fn others_reverted(
    pattern: Seq<char>,
    envs: Seq<char>,
    project: LocationView,
    files: ProjectFiles,
) -> Seq<ChangeView> {
    (match files.properties {
        Some(t) => change_of(properties_file(project), properties_reverted(t@, envs)),
        None => seq![],
    }) + (match files.workspace {
        Some(t) => at_most_one(workspace_file(project), no_longer_ignoring(t@, pattern)),
        None => seq![],
    }) + (match files.gitignore {
        Some(t) => at_most_one(gitignore_file(project), ungitignored(t@)),
        None => seq![],
    })
}

/// `r` is what to do to a project to take out what Prist put there.
pub open spec fn reverted(
    pattern: Seq<char>,
    envs: Seq<char>,
    project: LocationView,
    files: ProjectFiles,
    r: Result<Vec<FileChange>>,
) -> bool {
    let others = others_reverted(pattern, envs, project, files);
    match (r, files.settings) {
        (Ok(list), None) => changes(list@) =~= others,
        (Ok(list), Some(t)) => settings_in(t@) matches Ok(e) && changes(list@) =~= change_of(
            settings_file(project),
            settings_reverted(e, pattern),
        ) + others,
        (Err(PristError::Json(m)), Some(t)) => settings_in(t@) == Err::<
            Map<Seq<char>, Json>,
            Seq<char>,
        >(m@),
        (Err(_), _) => false,
    }
}

/// What to do to a project to take out what Prist put there, in order: the settings of
/// VS Code, what IntelliJ reads, `.gitignore`. Files that cannot be read are left
/// alone, and nothing is done where the settings cannot be understood.
pub fn revert(pattern: &str, envs: &str, project: &Location, files: &ProjectFiles) -> (r: Result<
    Vec<FileChange>,
>)
    ensures
        reverted(pattern@, envs@, project@, *files, r),
{
    let mut list: Vec<FileChange> = Vec::new();
    assert(changes(list@) =~= seq![]);
    if let Some(t) = &files.settings {
        match vscode_revert(t.as_str(), pattern) {
            Ok(change) => push_text_change(
                &mut list,
                project.join(".vscode").join("settings.json"),
                change,
            ),
            Err(e) => return Err(e),
        }
    }
    if let Some(t) = &files.properties {
        push_text_change(
            &mut list,
            project.join("android").join("local.properties"),
            properties_revert(t.as_str(), envs),
        );
    }
    if let Some(t) = &files.workspace {
        push_change(
            &mut list,
            project.join(".idea").join("workspace.xml"),
            workspace_revert(t.as_str(), pattern),
        );
    }
    if let Some(t) = &files.gitignore {
        push_change(&mut list, project.join(".gitignore"), gitignore_revert(t.as_str()));
    }
    Ok(list)
}

/// What to do to a project to take out what Prist put there for an environment that
/// stands beside `env_path`.
pub fn revert_env(env_path: &str, project: &Location, files: &ProjectFiles) -> (r: Result<
    Vec<FileChange>,
>)
    ensures
        exists|pattern: Seq<char>, envs: Seq<char>|
            #[trigger] covers_home(env_path@, pattern) && #[trigger] one_up(env_path@, envs)
                && reverted(pattern, envs, project@, *files, r),
{
    let pattern = home_for_exclusion(env_path);
    let envs = envs_of(env_path);
    revert(pattern.as_str(), envs.as_str(), project, files)
}

// ---------------------------------------------------------------------------
// Laws
// ---------------------------------------------------------------------------

/// The markers hold no line feed, and the first does not hold the second.
proof fn lemma_markers()
    ensures
        !PRIST_MARKER_BEGIN@.contains('\n'),
        !PRIST_MARKER_END@.contains('\n'),
        PRIST_MARKER_BEGIN@.len() == 23,
        PRIST_MARKER_END@.len() == 21,
        !contains(PRIST_MARKER_BEGIN@, PRIST_MARKER_END@),
        "\n"@ == seq!['\n'],
        "\n.pristrc\n"@ == seq!['\n', '.', 'p', 'r', 'i', 's', 't', 'r', 'c', '\n'],
{
    reveal_strlit("# prist-managed — begin");
    reveal_strlit("# prist-managed — end");
    reveal_strlit("\n");
    reveal_strlit("\n.pristrc\n");
    let b = PRIST_MARKER_BEGIN@;
    let e = PRIST_MARKER_END@;
    assert("\n"@ =~= seq!['\n']);
    assert("\n.pristrc\n"@ =~= seq!['\n', '.', 'p', 'r', 'i', 's', 't', 'r', 'c', '\n']);
    assert forall|i: int| !occurs_at(b, e, i) by {
        if occurs_at(b, e, i) {
            let w = b.subrange(i, i + e.len());
            if i == 0 {
                assert(w[18] == b[18]);
            } else {
                assert(w[0] == b[i]);
            }
        }
    }
}

/// A needle without the character `c` cannot reach across a `c`.
proof fn lemma_no_straddle(hay: Seq<char>, needle: Seq<char>, c: char, i: int, k: int)
    requires
        occurs_at(hay, needle, i),
        !needle.contains(c),
        0 <= k < hay.len(),
        hay[k] == c,
    ensures
        k < i || i + needle.len() <= k,
{
    if i <= k < i + needle.len() {
        assert(hay.subrange(i, i + needle.len())[k - i] == hay[k]);
        assert(needle[k - i] == c);
    }
}

/// A needle that stands inside a part of the text stands in that part.
proof fn lemma_occurs_in_part(hay: Seq<char>, needle: Seq<char>, from: int, to: int, i: int)
    requires
        occurs_at(hay, needle, i),
        0 <= from <= i,
        i + needle.len() <= to <= hay.len(),
    ensures
        contains(hay.subrange(from, to), needle),
{
    let part = hay.subrange(from, to);
    assert(part.subrange(i - from, i - from + needle.len()) =~= hay.subrange(
        i,
        i + needle.len(),
    ));
    assert(occurs_at(part, needle, i - from));
}

/// Where the two markers stand once the block has been added.
proof fn lemma_block_position(existing: Seq<char>, home: Seq<char>)
    requires
        !contains(existing, PRIST_MARKER_BEGIN@),
        !contains(home, PRIST_MARKER_END@),
    ensures
        ({
            let pre = terminated(existing);
            let t = pre + managed_block(home);
            &&& index_of(t, PRIST_MARKER_BEGIN@) == Some((pre.len() + 1) as int)
            &&& index_from(t, PRIST_MARKER_END@, (pre.len() + 1) as int) == Some(t.len() - 22)
            &&& t[pre.len() as int] == '\n'
            &&& line_stop(t, t.len() - 22) == t.len()
        }),
{
    lemma_markers();
    let b = PRIST_MARKER_BEGIN@;
    let e = PRIST_MARKER_END@;
    let pre = terminated(existing);
    let n = pre.len() as int;
    let t = pre + managed_block(home);
    // The first marker stands right after the block's own line feed.
    assert(t.subrange(n + 1, n + 24) =~= b);
    assert(occurs_at(t, b, n + 1));
    assert(t[n] == '\n');
    assert forall|j: int| 0 <= j < n + 1 implies !occurs_at(t, b, j) by {
        if occurs_at(t, b, j) {
            lemma_no_straddle(t, b, '\n', j, n);
            if n > existing.len() {
                assert(t[existing.len() as int] == '\n');
                lemma_no_straddle(t, b, '\n', j, existing.len() as int);
            }
            assert(j + b.len() <= existing.len());
            lemma_occurs_in_part(t, b, 0, existing.len() as int, j);
            assert(t.subrange(0, existing.len() as int) =~= existing);
        }
    }
    lemma_index_from(t, b, 0, n + 1);
    // The second marker stands after the home, and nowhere before.
    let h = n + 24 + 10;
    let m = h + home.len();
    assert(m + 1 == t.len() - 22);
    assert(t[n + 24] == '\n');
    assert(t[n + 33] == '\n');
    assert(t[m] == '\n');
    assert(t.subrange(m + 1, m + 22) =~= e);
    assert(occurs_at(t, e, m + 1));
    assert forall|j: int| n + 1 <= j < m + 1 implies !occurs_at(t, e, j) by {
        if occurs_at(t, e, j) {
            lemma_no_straddle(t, e, '\n', j, n + 24);
            lemma_no_straddle(t, e, '\n', j, n + 33);
            lemma_no_straddle(t, e, '\n', j, m);
            if j < n + 24 {
                lemma_occurs_in_part(t, e, n + 1, n + 24, j);
            } else {
                assert(h <= j);
                lemma_occurs_in_part(t, e, h, m, j);
                assert(t.subrange(h, m) =~= home);
            }
        }
    }
    lemma_index_from(t, e, n + 1, m + 1);
    // The line of the second marker is the last.
    let rest = t.skip(m + 1);
    assert(rest =~= e.push('\n'));
    assert forall|j: int| 0 <= j < 21 implies rest[j] != '\n' by {
        assert(e.contains(e[j]));
    }
    lemma_upto(rest, '\n', 21);
}

/// Taking out the block that was added to a `.gitignore` gives back exactly what it
/// held before, or where its last line was not terminated, that with the line feed.
pub proof fn law_gitignore_revert_undoes(existing: Seq<char>, home: Seq<char>)
    requires
        !contains(existing, PRIST_MARKER_BEGIN@),
        !contains(home, PRIST_MARKER_END@),
    ensures
        gitignored(existing, home) matches Some(t) && ungitignored(t) == Some(terminated(existing)),
        existing.len() == 0 || ends_in(existing, '\n') ==> terminated(existing) == existing,
{
    let pre = terminated(existing);
    let t = pre + managed_block(home);
    lemma_block_position(existing, home);
    assert(t.take(pre.len() as int) + t.skip(t.len() as int) =~= pre);
}

/// The block is added once: a `.gitignore` that holds it is left alone.
pub proof fn law_gitignore_is_added_once(existing: Seq<char>, home: Seq<char>, other: Seq<char>)
    ensures
        gitignored(existing, home) matches Some(t) ==> gitignored(t, other) is None,
{
    if let Some(t) = gitignored(existing, home) {
        lemma_markers();
        let n = terminated(existing).len() as int;
        assert(t.subrange(n + 1, n + 24) =~= PRIST_MARKER_BEGIN@);
        assert(occurs_at(t, PRIST_MARKER_BEGIN@, n + 1));
    }
}

/// Keeping the lines without a prefix keeps only such lines, and all of them.
proof fn lemma_without_prefixed(list: Seq<Seq<char>>, prefix: Seq<char>)
    ensures
        forall|i: int|
            0 <= i < without_prefixed(list, prefix).len() ==> !starts_with(
                #[trigger] without_prefixed(list, prefix)[i],
                prefix,
            ) && list.contains(without_prefixed(list, prefix)[i]),
    decreases list.len(),
{
    if list.len() > 0 {
        let front = list.drop_last();
        lemma_without_prefixed(front, prefix);
        let kept = without_prefixed(list, prefix);
        assert forall|i: int| 0 <= i < kept.len() implies !starts_with(#[trigger] kept[i], prefix)
            && list.contains(kept[i]) by {
            let rest = without_prefixed(front, prefix);
            if i < rest.len() {
                assert(kept[i] == rest[i]);
                let j = front.index_of(rest[i]);
                assert(front.contains(rest[i]));
                assert(list[j] == rest[i]);
            } else {
                assert(list[list.len() - 1] == kept[i]);
            }
        }
    }
}

/// Where no line begins with the prefix, all lines are kept.
proof fn lemma_without_prefixed_all(list: Seq<Seq<char>>, prefix: Seq<char>)
    requires
        forall|i: int| 0 <= i < list.len() ==> !starts_with(#[trigger] list[i], prefix),
    ensures
        without_prefixed(list, prefix) == list,
    decreases list.len(),
{
    if list.len() > 0 {
        let front = list.drop_last();
        assert forall|i: int| 0 <= i < front.len() implies !starts_with(
            #[trigger] front[i],
            prefix,
        ) by {
            assert(front[i] == list[i]);
        }
        lemma_without_prefixed_all(front, prefix);
        assert(front.push(list.last()) =~= list);
    }
}

/// A `local.properties` names one SDK, the last that was set: setting it again
/// is the same as having set only the second. The lines must survive being
/// written and read, so none may end in a carriage return.
pub proof fn law_last_sdk_wins(existing: Seq<char>, first: Seq<char>, second: Seq<char>)
    requires
        is_line(first),
        forall|i: int|
            0 <= i < lines(existing).len() ==> !ends_in(#[trigger] lines(existing)[i], '\r'),
    ensures
        properties(properties(existing, first), second) == properties(existing, second),
{
    let key = "flutter.sdk="@;
    let kept = without_prefixed(lines(existing), key);
    let list = property_lines(existing, first);
    lemma_property_lines(existing, first);
    lemma_without_prefixed(lines(existing), key);
    let named = key + first;
    assert(list.drop_last() =~= kept);
    assert(named.subrange(0, key.len() as int) =~= key);
    assert(starts_with(list.last(), key));
    lemma_without_prefixed_all(kept, key);
}

/// The lines of a `local.properties` are read back as they were written.
proof fn lemma_property_lines(existing: Seq<char>, sdk: Seq<char>)
    requires
        is_line(sdk),
        forall|i: int|
            0 <= i < lines(existing).len() ==> !ends_in(#[trigger] lines(existing)[i], '\r'),
    ensures
        lines(properties(existing, sdk)) == property_lines(existing, sdk),
{
    let key = "flutter.sdk="@;
    let kept = without_prefixed(lines(existing), key);
    let list = property_lines(existing, sdk);
    lemma_without_prefixed(lines(existing), key);
    lemma_lines_hold_no_feed(existing);
    reveal_strlit("flutter.sdk=");
    let named = key + sdk;
    assert forall|i: int| 0 <= i < list.len() implies is_line(#[trigger] list[i]) by {
        if i < kept.len() {
            assert(list[i] == kept[i]);
            assert(lines(existing).contains(kept[i]));
            let j = lines(existing).index_of(kept[i]);
            assert(lines(existing)[j] == kept[i]);
        } else {
            assert(list[i] == named);
            assert forall|j: int| 0 <= j < named.len() implies named[j] != '\n' by {
                if j >= key.len() {
                    assert(named[j] == sdk[j - key.len()]);
                    assert(sdk.contains(sdk[j - key.len()]));
                }
            }
            if sdk.len() > 0 {
                assert(named.last() == sdk.last());
            } else {
                assert(named.last() == key[11]);
            }
        }
    }
    law_lines_read_back(list);
}

/// The element is added once: a workspace into which it was put is left alone.
pub proof fn law_ignored_roots_are_added_once(xml: Seq<char>, pattern: Seq<char>)
    requires
        injection_point(xml) is Some,
    ensures
        ignoring(xml, pattern) matches Some(t) ==> ignoring(t, pattern) is None,
{
    if let Some(t) = ignoring(xml, pattern) {
        lemma_index_from_shape(xml, "</component>"@, 0);
        lemma_index_from_shape(xml, "</project>"@, 0);
        let i = injection_point(xml)->0;
        let front = "  <ignored-roots>\n    <path value=\""@;
        let at = i + front.len();
        assert(t.subrange(at, at + pattern.len()) =~= pattern);
        assert(occurs_at(t, pattern, at));
    }
}

/// Settings name one SDK, the last that was set, and keep all that the user excludes.
pub proof fn law_last_sdk_setting_wins(
    e: Map<Seq<char>, Json>,
    first: Seq<char>,
    second: Seq<char>,
    pattern: Seq<char>,
)
    ensures
        with_sdk(with_sdk(e, first, pattern), second, pattern) == with_sdk(e, second, pattern),
        with_sdk(e, first, pattern)["dart.flutterSdkPath"@] == Json::Text(first),
        forall|k: Seq<char>|
            e.contains_key(k) && k != "dart.flutterSdkPath"@ && !(e[k] is Object)
                ==> with_sdk(e, first, pattern).contains_key(k) && #[trigger] with_sdk(
                e,
                first,
                pattern,
            )[k] == e[k],
{
    lemma_setting_keys();
    let w = "files.watcherExclude"@;
    let s = "search.exclude"@;
    let once = with_sdk(e, first, pattern);
    let twice = with_sdk(once, second, pattern);
    let want = with_sdk(e, second, pattern);
    let yes = Json::Bool(true);
    assert(no_entries().insert(pattern, yes).insert(pattern, yes) =~= no_entries().insert(
        pattern,
        yes,
    ));
    if e.contains_key(w) {
        if let Json::Object(m) = e[w] {
            assert(m.insert(pattern, yes).insert(pattern, yes) =~= m.insert(pattern, yes));
        }
    }
    if e.contains_key(s) {
        if let Json::Object(m) = e[s] {
            assert(m.insert(pattern, yes).insert(pattern, yes) =~= m.insert(pattern, yes));
        }
    }
    assert(twice =~= want);
}

/// The three settings that Prist touches are distinct.
proof fn lemma_setting_keys()
    ensures
        "dart.flutterSdkPath"@ != "files.watcherExclude"@,
        "dart.flutterSdkPath"@ != "search.exclude"@,
        "files.watcherExclude"@ != "search.exclude"@,
{
    reveal_strlit("dart.flutterSdkPath");
    reveal_strlit("files.watcherExclude");
    reveal_strlit("search.exclude");
    assert("dart.flutterSdkPath"@.len() == 19);
    assert("files.watcherExclude"@.len() == 20);
    assert("search.exclude"@.len() == 14);
}

/// The settings have nothing that Prist would put there for `pattern`, and no empty
/// list of exclusions.
pub open spec fn untouched(e: Map<Seq<char>, Json>, pattern: Seq<char>) -> bool {
    &&& !e.contains_key("dart.flutterSdkPath"@)
    &&& fresh(e, "files.watcherExclude"@, pattern)
    &&& fresh(e, "search.exclude"@, pattern)
}

/// What the settings have for the key `k` is no list of exclusions that is empty or
/// holds `pattern`.
pub open spec fn fresh(e: Map<Seq<char>, Json>, k: Seq<char>, pattern: Seq<char>) -> bool {
    e.contains_key(k) ==> match e[k] {
        Json::Object(m) => !m.contains_key(pattern) && m != no_entries(),
        _ => true,
    }
}

/// Excluding a pattern and including it again changes nothing.
proof fn lemma_including_undoes(e: Map<Seq<char>, Json>, k: Seq<char>, pattern: Seq<char>)
    requires
        fresh(e, k, pattern),
    ensures
        including(excluding(e, k, pattern), k, pattern) == e,
{
    let yes = Json::Bool(true);
    assert(no_entries().insert(pattern, yes).remove(pattern) =~= no_entries());
    if e.contains_key(k) {
        if let Json::Object(m) = e[k] {
            assert(m.insert(pattern, yes).remove(pattern) =~= m);
        }
    }
    assert(including(excluding(e, k, pattern), k, pattern) =~= e);
}

/// What is done for one key and what is done for another do not touch each other.
proof fn lemma_keys_apart(e: Map<Seq<char>, Json>, a: Seq<char>, b: Seq<char>, pattern: Seq<char>)
    requires
        a != b,
    ensures
        including(excluding(e, b, pattern), a, pattern) == excluding(
            including(e, a, pattern),
            b,
            pattern,
        ),
        excluding(e, a, pattern).remove(b) == excluding(e.remove(b), a, pattern),
{
    assert(including(excluding(e, b, pattern), a, pattern) =~= excluding(
        including(e, a, pattern),
        b,
        pattern,
    ));
    assert(excluding(e, a, pattern).remove(b) =~= excluding(e.remove(b), a, pattern));
}

/// Taking out of the settings what Prist put there gives back the user's own.
pub proof fn law_forgetting_undoes_naming(
    e: Map<Seq<char>, Json>,
    sdk: Seq<char>,
    pattern: Seq<char>,
)
    requires
        untouched(e, pattern),
    ensures
        without_sdk(with_sdk(e, sdk, pattern), pattern) == e,
{
    lemma_setting_keys();
    let d = "dart.flutterSdkPath"@;
    let w = "files.watcherExclude"@;
    let s = "search.exclude"@;
    let named = e.insert(d, Json::Text(sdk));
    assert(named.remove(d) =~= e);
    lemma_keys_apart(excluding(named, w, pattern), s, d, pattern);
    lemma_keys_apart(named, w, d, pattern);
    let both = excluding(excluding(e, w, pattern), s, pattern);
    assert(with_sdk(e, sdk, pattern).remove(d) == both);
    lemma_keys_apart(excluding(e, w, pattern), w, s, pattern);
    lemma_including_undoes(e, w, pattern);
    lemma_including_undoes(e, s, pattern);
}

/// Where the settings that were written are read back as they were written, taking out
/// what Prist put there gives back the user's own, and where the user had none the file
/// goes.
pub proof fn law_settings_are_given_back(
    e: Map<Seq<char>, Json>,
    sdk: Seq<char>,
    pattern: Seq<char>,
    text: Seq<char>,
)
    requires
        untouched(e, pattern),
        text == json_pretty(with_sdk(e, sdk, pattern)) + "\n"@,
        settings_in(text) == Ok::<Map<Seq<char>, Json>, Seq<char>>(with_sdk(e, sdk, pattern)),
    ensures
        settings_reverted(settings_in(text)->Ok_0, pattern) == if e == no_entries() {
            TextChangeView::Remove
        } else {
            TextChangeView::Write(json_pretty(e) + "\n"@)
        },
{
    law_forgetting_undoes_naming(e, sdk, pattern);
    lemma_setting_keys();
    assert(with_sdk(e, sdk, pattern).contains_key("dart.flutterSdkPath"@));
}

/// Taking the SDK out of a `local.properties` gives back the user's own lines, and
/// where there were none the file goes.
pub proof fn law_properties_are_given_back(
    existing: Seq<char>,
    envs: Seq<char>,
    name: Seq<char>,
)
    requires
        is_line(envs + "/"@ + name),
        forall|i: int|
            0 <= i < lines(existing).len() ==> !ends_in(#[trigger] lines(existing)[i], '\r')
                && !starts_with(lines(existing)[i], "flutter.sdk="@),
    ensures
        properties_reverted(properties(existing, envs + "/"@ + name), envs) == if lines(
            existing,
        ).len() == 0 {
            TextChangeView::Remove
        } else {
            TextChangeView::Write(join(lines(existing), "\n"@) + "\n"@)
        },
{
    let key = "flutter.sdk="@;
    let own = lines(existing);
    let sdk = envs + "/"@ + name;
    lemma_without_prefixed_all(own, key);
    let all = own.push(key + sdk);
    assert(property_lines(existing, sdk) == all);
    lemma_property_lines(existing, sdk);
    assert(lines(properties(existing, sdk)) == all);
    let unix = key + envs + "/"@;
    let windows = key + envs + "\\"@;
    assert forall|i: int| 0 <= i < own.len() implies !starts_with(#[trigger] own[i], unix)
        && !starts_with(own[i], windows) by {
        if starts_with(own[i], unix) {
            assert(own[i].subrange(0, unix.len() as int).subrange(0, key.len() as int) =~= key);
            assert(own[i].subrange(0, key.len() as int) =~= key);
        }
        if starts_with(own[i], windows) {
            assert(own[i].subrange(0, windows.len() as int).subrange(0, key.len() as int) =~= key);
            assert(own[i].subrange(0, key.len() as int) =~= key);
        }
    }
    assert(all.drop_last() =~= own);
    assert((key + sdk).subrange(0, unix.len() as int) =~= unix);
    assert(starts_with(all.last(), unix));
    lemma_without_prefixed_all(own, unix);
    lemma_without_prefixed_all(own, windows);
}

/// The element for a pattern without a line feed cannot overlap itself.
proof fn lemma_element_stands_alone(pattern: Seq<char>, d: int)
    requires
        !pattern.contains('\n'),
        0 < d < ignored_roots(pattern).len(),
    ensures
        exists|k: int|
            0 <= k < ignored_roots(pattern).len() - d && #[trigger] ignored_roots(pattern)[k]
                != ignored_roots(pattern)[k + d],
{
    reveal_strlit("  <ignored-roots>\n    <path value=\"");
    reveal_strlit("\" />\n  </ignored-roots>\n");
    let front = "  <ignored-roots>\n    <path value=\""@;
    let back = "\" />\n  </ignored-roots>\n"@;
    let e = ignored_roots(pattern);
    let n = e.len() as int;
    assert(front.len() == 35);
    assert(back.len() == 24);
    let k = n - d - 1;
    assert(e[n - 1] == '\n');
    if e[k] == '\n' {
        if k < 35 {
            assert(e[k] == front[k]);
        } else if k < 35 + pattern.len() {
            assert(e[k] == pattern[k - 35]);
            assert(pattern.contains(pattern[k - 35]));
        } else {
            assert(e[k] == back[k - 35 - pattern.len()]);
        }
        if k == 17 {
            assert(e[1] == front[1]);
            assert(e[1 + d] == back[7]);
            assert(e[1] != e[1 + d]);
        } else {
            assert(k == n - 20);
            assert(e[n - 22] == back[2]);
            assert(e[n - 22 + d] == back[21]);
            assert(e[n - 22] != e[n - 22 + d]);
        }
    } else {
        assert(e[k] != e[k + d]);
    }
}

/// Taking the element out of a workspace gives back what it held before.
pub proof fn law_workspace_is_given_back(xml: Seq<char>, pattern: Seq<char>)
    requires
        !pattern.contains('\n'),
        !contains(xml, pattern),
        injection_point(xml) is Some,
    ensures
        ignoring(xml, pattern) matches Some(t) && no_longer_ignoring(t, pattern) == Some(xml),
{
    let e = ignored_roots(pattern);
    let n = e.len() as int;
    let i = injection_point(xml)->0;
    lemma_index_from_shape(xml, "</component>"@, 0);
    lemma_index_from_shape(xml, "</project>"@, 0);
    let t = xml.take(i) + e + xml.skip(i);
    assert(t.subrange(i, i + n) =~= e);
    assert forall|j: int| 0 <= j < i implies !occurs_at(t, e, j) by {
        if occurs_at(t, e, j) {
            if j + n <= i {
                let at = j + "  <ignored-roots>\n    <path value=\""@.len();
                assert(t.subrange(j, j + n).subrange(at - j, at - j + pattern.len()) =~= pattern);
                assert(xml.subrange(at, at + pattern.len()) =~= pattern);
                assert(occurs_at(xml, pattern, at));
            } else {
                let d = i - j;
                lemma_element_stands_alone(pattern, d);
                let k = choose|k: int| 0 <= k < n - d && #[trigger] e[k] != e[k + d];
                assert(t.subrange(j, j + n)[k + d] == t[j + k + d]);
                assert(t.subrange(i, i + n)[k] == t[i + k]);
            }
        }
    }
    lemma_index_from(t, e, 0, i);
    assert(t.take(i) + t.skip(i + n) =~= xml);
}

/// What a project's files held before editors were told of an environment.
pub struct ProjectTexts {
    /// The settings of VS Code; none where there was no file.
    pub settings: Map<Seq<char>, Json>,
    /// `local.properties`, where there is a directory `android`; empty where there was no
    /// file.
    pub properties: Option<Seq<char>>,
    /// `workspace.xml`, where there is a directory `.idea` with that file.
    pub workspace: Option<Seq<char>>,
    /// `.gitignore`; empty where there was no file.
    pub gitignore: Seq<char>,
}

/// The lines name no SDK, and survive being written and read.
pub open spec fn plain_lines(list: Seq<Seq<char>>) -> bool {
    forall|i: int|
        0 <= i < list.len() ==> !ends_in(#[trigger] list[i], '\r') && !starts_with(
            list[i],
            "flutter.sdk="@,
        )
}

/// The files of a project hold nothing of Prist's, and all of them can be given back:
/// see the laws on each of them.
pub open spec fn ordinary_project(t: ProjectTexts, pattern: Seq<char>) -> bool {
    &&& untouched(t.settings, pattern)
    &&& t.properties matches Some(text) ==> plain_lines(lines(text))
    &&& t.workspace matches Some(xml) ==> !contains(xml, pattern)
    &&& !contains(t.gitignore, PRIST_MARKER_BEGIN@)
}

/// The files hold what was written so that editors find the environment `name` in the
/// directory `envs`.
pub open spec fn holds_integration(
    files: ProjectFiles,
    t: ProjectTexts,
    home: Seq<char>,
    envs: Seq<char>,
    name: Seq<char>,
    pattern: Seq<char>,
) -> bool {
    let sdk = envs + "/"@ + name;
    &&& opt_text(files.settings) == Some(json_pretty(with_sdk(t.settings, sdk, pattern)) + "\n"@)
    &&& opt_text(files.properties) == match t.properties {
        Some(text) => Some(properties(text, sdk)),
        None => None,
    }
    &&& opt_text(files.workspace) == match t.workspace {
        Some(xml) => ignoring(xml, pattern),
        None => None,
    }
    &&& opt_text(files.gitignore) == gitignored(t.gitignore, home)
}

/// The changes that give back a `settings.json`: one without settings goes.
pub open spec fn settings_again(t: ProjectTexts, project: LocationView) -> Seq<ChangeView> {
    change_of(
        settings_file(project),
        if t.settings == no_entries() {
            TextChangeView::Remove
        } else {
            TextChangeView::Write(json_pretty(t.settings) + "\n"@)
        },
    )
}

/// The changes that give back a `local.properties`: one without lines goes.
pub open spec fn properties_again(t: ProjectTexts, project: LocationView) -> Seq<ChangeView> {
    match t.properties {
        Some(text) => change_of(
            properties_file(project),
            if lines(text).len() == 0 {
                TextChangeView::Remove
            } else {
                TextChangeView::Write(join(lines(text), "\n"@) + "\n"@)
            },
        ),
        None => seq![],
    }
}

/// The changes that give back a `workspace.xml`: one without a closing tag was not
/// changed.
pub open spec fn workspace_again(t: ProjectTexts, project: LocationView) -> Seq<ChangeView> {
    match t.workspace {
        Some(xml) if injection_point(xml) is Some => seq![
            ChangeView::Write(workspace_file(project), xml),
        ],
        _ => seq![],
    }
}

/// A text without the pattern does not hold the element for it.
proof fn lemma_no_element(xml: Seq<char>, pattern: Seq<char>)
    requires
        !contains(xml, pattern),
    ensures
        no_longer_ignoring(xml, pattern) is None,
{
    let e = ignored_roots(pattern);
    lemma_index_from_shape(xml, e, 0);
    if let Some(i) = index_of(xml, e) {
        let at = i + "  <ignored-roots>\n    <path value=\""@.len();
        assert(xml.subrange(i, i + e.len()).subrange(at - i, at - i + pattern.len()) =~= pattern);
        assert(xml.subrange(at, at + pattern.len()) =~= pattern);
        assert(occurs_at(xml, pattern, at));
    }
}

/// Taking out of a project what Prist put there gives back what its files held before:
/// the settings, where those that were written are read back so, the lines of
/// `local.properties`, the workspace and `.gitignore`, as far as the project has them.
pub proof fn law_revert_undoes_integrate(
    files: ProjectFiles,
    t: ProjectTexts,
    home: Seq<char>,
    envs: Seq<char>,
    name: Seq<char>,
    pattern: Seq<char>,
    project: LocationView,
    r: Result<Vec<FileChange>>,
)
    requires
        ordinary_project(t, pattern),
        is_line(envs + "/"@ + name),
        !pattern.contains('\n'),
        !contains(home, PRIST_MARKER_END@),
        holds_integration(files, t, home, envs, name, pattern),
        settings_in(opt_text(files.settings)->0) == Ok::<Map<Seq<char>, Json>, Seq<char>>(
            with_sdk(t.settings, envs + "/"@ + name, pattern),
        ),
        reverted(pattern, envs, project, files, r),
    ensures
        r matches Ok(list) && changes(list@) == settings_again(t, project) + properties_again(
            t,
            project,
        ) + workspace_again(t, project) + seq![
            ChangeView::Write(gitignore_file(project), terminated(t.gitignore)),
        ],
{
    let sdk = envs + "/"@ + name;
    law_settings_are_given_back(t.settings, sdk, pattern, opt_text(files.settings)->0);
    if let Some(text) = t.properties {
        law_properties_are_given_back(text, envs, name);
    }
    if let Some(xml) = t.workspace {
        if injection_point(xml) is Some {
            law_workspace_is_given_back(xml, pattern);
        } else {
            lemma_no_element(xml, pattern);
        }
    }
    law_gitignore_revert_undoes(t.gitignore, home);
    let others = others_reverted(pattern, envs, project, files);
    let s = settings_again(t, project);
    let p = properties_again(t, project);
    let w = workspace_again(t, project);
    let g = seq![ChangeView::Write(gitignore_file(project), terminated(t.gitignore))];
    assert(others == p + w + g);
    assert(s + (p + w + g) =~= s + p + w + g);
}

// ---------------------------------------------------------------------------
// What is written, in the open
// ---------------------------------------------------------------------------

/// A `.gitignore` keeps all it held, and gets the two entries between the two markers behind
/// it.
pub proof fn law_gitignore_gets_two_entries(existing: Seq<char>, home: Seq<char>)
    ensures
        contains(existing, "# prist-managed — begin"@) <==> gitignored(existing, home) is None,
        gitignored(existing, home) matches Some(t) ==> t == (if existing.len() > 0
            && existing.last() != '\n' {
            existing.push('\n')
        } else {
            existing
        }) + "\n"@ + "# prist-managed — begin"@ + "\n.pristrc\n"@ + home + "\n"@
            + "# prist-managed — end"@ + "\n"@,
{
    if let Some(t) = gitignored(existing, home) {
        let pre = terminated(existing);
        assert(pre + managed_block(home) =~= pre + "\n"@ + "# prist-managed — begin"@
            + "\n.pristrc\n"@ + home + "\n"@ + "# prist-managed — end"@ + "\n"@);
    }
}

/// A `local.properties` keeps every line of the user's that names no SDK, in order, and the
/// line that names the SDK comes last; no other line names one.
pub proof fn law_properties_keep_other_lines(existing: Seq<char>, sdk: Seq<char>)
    requires
        is_line(sdk),
        forall|i: int|
            0 <= i < lines(existing).len() ==> !ends_in(#[trigger] lines(existing)[i], '\r'),
    ensures
        lines(properties(existing, sdk)).len() > 0,
        lines(properties(existing, sdk)).last() == "flutter.sdk="@ + sdk,
        (forall|i: int|
            0 <= i < lines(existing).len() ==> !starts_with(
                #[trigger] lines(existing)[i],
                "flutter.sdk="@,
            )) ==> lines(properties(existing, sdk)) == lines(existing).push("flutter.sdk="@ + sdk),
        forall|i: int|
            0 <= i < lines(properties(existing, sdk)).len() - 1 ==> !starts_with(
                #[trigger] lines(properties(existing, sdk))[i],
                "flutter.sdk="@,
            ) && lines(existing).contains(lines(properties(existing, sdk))[i]),
        forall|i: int|
            0 <= i < lines(existing).len() && !starts_with(
                #[trigger] lines(existing)[i],
                "flutter.sdk="@,
            ) ==> lines(properties(existing, sdk)).contains(lines(existing)[i]),
{
    let key = "flutter.sdk="@;
    let own = lines(existing);
    let kept = without_prefixed(own, key);
    lemma_property_lines(existing, sdk);
    lemma_without_prefixed(own, key);
    let all = property_lines(existing, sdk);
    if forall|i: int| 0 <= i < own.len() ==> !starts_with(#[trigger] own[i], key) {
        lemma_without_prefixed_all(own, key);
    }
    assert forall|i: int| 0 <= i < all.len() - 1 implies !starts_with(#[trigger] all[i], key)
        && own.contains(all[i]) by {
        assert(all[i] == kept[i]);
    }
    assert forall|i: int| 0 <= i < own.len() && !starts_with(#[trigger] own[i], key) implies all.contains(
        own[i],
    ) by {
        let k = lemma_kept_line(own, key, i);
        assert(all[k] == own[i]);
    }
}

/// A line that does not begin with the prefix is kept, behind those kept before it.
proof fn lemma_kept_line(list: Seq<Seq<char>>, prefix: Seq<char>, i: int) -> (k: int)
    requires
        0 <= i < list.len(),
        !starts_with(list[i], prefix),
    ensures
        0 <= k < without_prefixed(list, prefix).len(),
        without_prefixed(list, prefix)[k] == list[i],
        k == without_prefixed(list.take(i), prefix).len(),
    decreases list.len(),
{
    let front = list.drop_last();
    if i < front.len() {
        assert(front.take(i) =~= list.take(i));
        lemma_kept_line(front, prefix, i)
    } else {
        assert(list.take(i) =~= front);
        without_prefixed(front, prefix).len() as int
    }
}

/// The lines that are kept keep their order.
pub proof fn law_kept_lines_keep_their_order(
    existing: Seq<char>,
    prefix: Seq<char>,
    i: int,
    j: int,
)
    requires
        0 <= i < j < lines(existing).len(),
        !starts_with(lines(existing)[i], prefix),
        !starts_with(lines(existing)[j], prefix),
    ensures
        exists|a: int, b: int|
            0 <= a < b < without_prefixed(lines(existing), prefix).len()
                && #[trigger] without_prefixed(lines(existing), prefix)[a] == lines(existing)[i]
                && #[trigger] without_prefixed(lines(existing), prefix)[b] == lines(existing)[j],
{
    let list = lines(existing);
    let a = lemma_kept_line(list, prefix, i);
    let b = lemma_kept_line(list, prefix, j);
    let front = list.take(j);
    assert(front[i] == list[i]);
    let c = lemma_kept_line(front, prefix, i);
    assert(front.take(i) =~= list.take(i));
    assert(a < b);
    assert(without_prefixed(list, prefix)[a] == list[i]);
    assert(without_prefixed(list, prefix)[b] == list[j]);
}

/// The element goes right before the first closing component of a workspace, else before the
/// first closing project, and everything else stays.
pub proof fn law_element_goes_before_the_first_closing_tag(
    xml: Seq<char>,
    pattern: Seq<char>,
    i: int,
)
    requires
        !contains(xml, pattern),
    ensures
        occurs_at(xml, "</component>"@, i) && (forall|k: int|
            0 <= k < i ==> !#[trigger] occurs_at(xml, "</component>"@, k)) ==> ignoring(xml, pattern)
            == Some(
            xml.take(i) + ("  <ignored-roots>\n    <path value=\""@ + pattern
                + "\" />\n  </ignored-roots>\n"@) + xml.skip(i),
        ),
        !contains(xml, "</component>"@) && occurs_at(xml, "</project>"@, i) && (forall|k: int|
            0 <= k < i ==> !#[trigger] occurs_at(xml, "</project>"@, k)) ==> ignoring(xml, pattern)
            == Some(
            xml.take(i) + ("  <ignored-roots>\n    <path value=\""@ + pattern
                + "\" />\n  </ignored-roots>\n"@) + xml.skip(i),
        ),
        !contains(xml, "</component>"@) && !contains(xml, "</project>"@) ==> ignoring(xml, pattern)
            == Some(xml),
{
    law_finding(xml, "</component>"@, i);
    law_finding(xml, "</project>"@, i);
}

/// Telling VS Code of an SDK touches three settings: the path of the SDK, and the two lists
/// of exclusions, to which the pattern is added. Every other setting, and every other
/// exclusion, stays as it is.
pub proof fn law_three_settings_are_touched(
    e: Map<Seq<char>, Json>,
    sdk: Seq<char>,
    pattern: Seq<char>,
    k: Seq<char>,
)
    ensures
        ({
            let t = with_sdk(e, sdk, pattern);
            let w = "files.watcherExclude"@;
            let s = "search.exclude"@;
            let yes = Json::Bool(true);
            &&& t.contains_key("dart.flutterSdkPath"@) && t["dart.flutterSdkPath"@] == Json::Text(sdk)
            &&& t.contains_key(w) && t.contains_key(s)
            &&& !e.contains_key(w) ==> t[w] == Json::Object(
                Map::<Seq<char>, Json>::empty().insert(pattern, yes),
            )
            &&& !e.contains_key(s) ==> t[s] == Json::Object(
                Map::<Seq<char>, Json>::empty().insert(pattern, yes),
            )
            &&& e.contains_key(w) ==> match e[w] {
                Json::Object(m) => t[w] == Json::Object(m.insert(pattern, yes)),
                _ => t[w] == e[w],
            }
            &&& e.contains_key(s) ==> match e[s] {
                Json::Object(m) => t[s] == Json::Object(m.insert(pattern, yes)),
                _ => t[s] == e[s],
            }
            &&& k != "dart.flutterSdkPath"@ && k != w && k != s ==> t.contains_key(k)
                == e.contains_key(k) && t[k] == e[k]
        }),
{
    lemma_setting_keys();
}

/// Taking out of the settings what Prist put there takes the path of the SDK, and the pattern
/// out of the two lists of exclusions, with a list that is then empty. Every other setting,
/// and every other exclusion, stays as it is.
pub proof fn law_three_settings_are_taken_back(
    e: Map<Seq<char>, Json>,
    pattern: Seq<char>,
    k: Seq<char>,
)
    ensures
        ({
            let t = without_sdk(e, pattern);
            let w = "files.watcherExclude"@;
            let s = "search.exclude"@;
            &&& !t.contains_key("dart.flutterSdkPath"@)
            &&& t.contains_key(w) ==> e.contains_key(w) && match e[w] {
                Json::Object(m) => if m.contains_key(pattern) {
                    t[w] == Json::Object(m.remove(pattern)) && m.remove(pattern) != Map::<
                        Seq<char>,
                        Json,
                    >::empty()
                } else {
                    t[w] == e[w]
                },
                _ => t[w] == e[w],
            }
            &&& t.contains_key(s) ==> e.contains_key(s) && match e[s] {
                Json::Object(m) => if m.contains_key(pattern) {
                    t[s] == Json::Object(m.remove(pattern)) && m.remove(pattern) != Map::<
                        Seq<char>,
                        Json,
                    >::empty()
                } else {
                    t[s] == e[s]
                },
                _ => t[s] == e[s],
            }
            &&& e.contains_key(w) && !t.contains_key(w) ==> (e[w] matches Json::Object(m)
                && m.contains_key(pattern) && m.remove(pattern) == Map::<Seq<char>, Json>::empty())
            &&& e.contains_key(s) && !t.contains_key(s) ==> (e[s] matches Json::Object(m)
                && m.contains_key(pattern) && m.remove(pattern) == Map::<Seq<char>, Json>::empty())
            &&& k != "dart.flutterSdkPath"@ && k != w && k != s ==> t.contains_key(k)
                == e.contains_key(k) && t[k] == e[k]
        }),
{
    lemma_setting_keys();
}

/// Only what Prist could have put into a `local.properties` is taken out: lines that name an
/// SDK right below the directory of the environments.
pub proof fn law_only_own_lines_are_taken_out(existing: Seq<char>, envs: Seq<char>, i: int)
    requires
        0 <= i < lines(existing).len(),
        !starts_with(lines(existing)[i], "flutter.sdk="@ + envs + "/"@),
        !starts_with(lines(existing)[i], "flutter.sdk="@ + envs + "\\"@),
    ensures
        without_envs(lines(existing), envs).contains(lines(existing)[i]),
        !(properties_reverted(existing, envs) is Remove),
{
    let list = lines(existing);
    let unix = "flutter.sdk="@ + envs + "/"@;
    let windows = "flutter.sdk="@ + envs + "\\"@;
    let k = lemma_kept_line(list, unix, i);
    let first = without_prefixed(list, unix);
    let m = lemma_kept_line(first, windows, k);
    assert(without_envs(list, envs)[m] == list[i]);
}

/// What is kept out of watchers, searches and indexes is everything below the home.
pub proof fn law_pattern_is_of_all_below(home: Seq<char>)
    ensures
        below_home(home) == "**/"@ + home + "/**"@,
        below_home(home).len() == home.len() + 6,
        below_home(home).subrange(3, 3 + home.len() as int) == home,
{
    reveal_strlit("**/");
    reveal_strlit("/**");
    assert(below_home(home).subrange(3, 3 + home.len() as int) =~= home);
}

/// Only what is there is changed: the settings always, `local.properties` exactly where there
/// is a directory `android`, the workspace exactly where there is one that does not name the
/// home, and `.gitignore` exactly where it does not hold the entries; in this order.
pub proof fn law_integration_changes_what_is_there(
    home: Seq<char>,
    sdk: Seq<char>,
    pattern: Seq<char>,
    project: LocationView,
    files: ProjectFiles,
    list: Vec<FileChange>,
)
    requires
        integrated(home, sdk, pattern, project, files, Ok(list)),
    ensures
        ({
            let c = changes(list@);
            let ignore = match files.gitignore {
                Some(t) => t@,
                None => seq![],
            };
            let p = if files.android {
                1int
            } else {
                0int
            };
            let w = if files.idea && (files.workspace matches Some(x) && !contains(x@, pattern)) {
                1int
            } else {
                0int
            };
            let g = if contains(ignore, "# prist-managed — begin"@) {
                0int
            } else {
                1int
            };
            &&& c.len() == 1 + p + w + g
            &&& c[0] matches ChangeView::Write(f, _) && f == (LocationView {
                base: project.base,
                parts: project.parts + seq![".vscode"@, "settings.json"@],
            })
            &&& p == 1 ==> (c[1] matches ChangeView::Write(f, t) && f == (LocationView {
                base: project.base,
                parts: project.parts + seq!["android"@, "local.properties"@],
            }) && t == properties(
                match files.properties {
                    Some(x) => x@,
                    None => seq![],
                },
                sdk,
            ))
            &&& w == 1 ==> (c[1 + p] matches ChangeView::Write(f, t) && f == (LocationView {
                base: project.base,
                parts: project.parts + seq![".idea"@, "workspace.xml"@],
            }) && Some(t) == ignoring(files.workspace->0@, pattern))
            &&& g == 1 ==> (c[1 + p + w] matches ChangeView::Write(f, t) && f == (LocationView {
                base: project.base,
                parts: project.parts + seq![".gitignore"@],
            }) && Some(t) == gitignored(ignore, home))
        }),
{
    assert(settings_file(project).parts =~= project.parts + seq![".vscode"@, "settings.json"@]);
    assert(properties_file(project).parts =~= project.parts + seq![
        "android"@,
        "local.properties"@,
    ]);
    assert(workspace_file(project).parts =~= project.parts + seq![".idea"@, "workspace.xml"@]);
    assert(gitignore_file(project).parts =~= project.parts + seq![".gitignore"@]);
}

/// The parent of an ordinary path is what stands before its last slash.
pub proof fn law_last_slash(dir: Seq<char>, name: Seq<char>)
    requires
        !name.contains('/'),
    ensures
        before_slash(dir + "/"@ + name) == dir,
        after_slash(dir + "/"@ + name) == name,
    decreases name.len(),
{
    reveal_strlit("/");
    let path = dir + "/"@ + name;
    if name.len() == 0 {
        assert(path.last() == '/');
        assert(path.drop_last() =~= dir);
    } else {
        assert(path.last() == name.last());
        assert(name.contains(name.last()));
        assert(path.drop_last() =~= dir + "/"@ + name.drop_last());
        assert forall|i: int| 0 <= i < name.drop_last().len() implies name.drop_last()[i] != '/' by {
            assert(name.contains(name[i]));
        }
        law_last_slash(dir, name.drop_last());
    }
    assert(path.skip((dir.len() + 1) as int) =~= name);
}

/// Taking out the block leaves all that stands before it and all that stands behind it.
pub proof fn law_revert_keeps_what_surrounds_the_block(
    existing: Seq<char>,
    home: Seq<char>,
    behind: Seq<char>,
)
    requires
        !contains(existing, PRIST_MARKER_BEGIN@),
        !contains(home, PRIST_MARKER_END@),
    ensures
        ungitignored(terminated(existing) + managed_block(home) + behind) == Some(
            terminated(existing) + behind,
        ),
{
    lemma_markers();
    lemma_block_position(existing, home);
    let b = PRIST_MARKER_BEGIN@;
    let e = PRIST_MARKER_END@;
    let pre = terminated(existing);
    let n = pre.len() as int;
    let short = pre + managed_block(home);
    let t = short + behind;
    let m = short.len() - 22;
    assert(m >= n + 24);
    lemma_index_from_shape(short, b, 0);
    lemma_index_from_shape(short, e, n + 1);
    assert(t.subrange(n + 1, n + 24) =~= short.subrange(n + 1, n + 24));
    assert(occurs_at(t, b, n + 1));
    assert forall|j: int| 0 <= j < n + 1 implies !occurs_at(t, b, j) by {
        if occurs_at(t, b, j) {
            assert(t.subrange(j, j + b.len()) =~= short.subrange(j, j + b.len()));
            assert(occurs_at(short, b, j));
        }
    }
    lemma_index_from(t, b, 0, n + 1);
    assert(t.subrange(m, m + 21) =~= short.subrange(m, m + 21));
    assert(occurs_at(t, e, m));
    assert forall|j: int| n + 1 <= j < m implies !occurs_at(t, e, j) by {
        if occurs_at(t, e, j) {
            assert(t.subrange(j, j + e.len()) =~= short.subrange(j, j + e.len()));
            assert(occurs_at(short, e, j));
        }
    }
    lemma_index_from(t, e, n + 1, m);
    let rest = t.skip(m);
    assert forall|j: int| 0 <= j < 21 implies rest[j] != '\n' by {
        assert(rest[j] == t.subrange(m, m + 21)[j]);
        assert(e.contains(e[j]));
    }
    assert(rest[21] == short.last());
    assert(short.last() == '\n');
    lemma_upto(rest, '\n', 21);
    assert(line_stop(t, m) == short.len());
    assert(t[n] == short[n]);
    assert(t.take(n) + t.skip(short.len() as int) =~= pre + behind);
}

} // verus!
