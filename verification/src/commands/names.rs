//! The names of environments, and how environments are described.

use vstd::prelude::*;

use crate::config::EnvMeta;
use crate::error::{PristError, Result};
use crate::paths::{LocationView, default_link, env_of, law_env_dirs_are_distinct};
use crate::releases::{Release, ReleaseView};
use crate::text::{ascii_lower, byte_cut, byte_len, byte_length, cut_bytes, decimal, decimal_of, has_char, law_lower_is_of_letters, lemma_word_is_trimmed, lower, lowered, opt_str, opt_text, same, trim, trimmed};

verus! {

/// An environment may be called `name`.
pub open spec fn env_name(name: Seq<char>) -> bool {
    &&& name.len() > 0
    &&& name != "default"@
    &&& !name.contains('/')
    &&& !name.contains('\\')
    &&& !name.contains('\0')
}

/// Whether an environment may be called `name`: not by an empty name, nor by
/// `default`, nor by one that holds a path separator.
pub fn validate_env_name(name: &str) -> (r: Result<()>)
    ensures
        match r {
            Ok(_) => env_name(name@),
            Err(PristError::Other(m)) => !env_name(name@) && m@
                == "invalid env name: must be non-empty, not 'default', and contain no path separators"@,
            Err(_) => false,
        },
{
    if name.is_empty() || same(name, "default") || has_char(name, '/') || has_char(name, '\\')
        || has_char(name, '\0') {
        return Err(
            PristError::msg(
                "invalid env name: must be non-empty, not 'default', and contain no path separators".to_string(),
            ),
        );
    }
    Ok(())
}

/// `name` leads to an environment and nowhere else: an environment may be called so,
/// and it stands neither for the directory of all environments nor for what is above.
pub open spec fn leads_to_env(name: Seq<char>) -> bool {
    env_name(name) && name != "."@ && name != ".."@
}

/// Whether `name` leads to an environment and nowhere else.
pub fn is_env_name(name: &str) -> (r: bool)
    ensures
        r == leads_to_env(name@),
{
    validate_env_name(name).is_ok() && !same(name, ".") && !same(name, "..")
}

/// How a release is described: by its version, else its channel, else the commit,
/// else as the head of the repository.
pub open spec fn release_label(release: ReleaseView, commit: Option<Seq<char>>) -> Seq<char> {
    match (release.version, release.channel, commit) {
        (Some(v), _, _) => v,
        (None, Some(c), _) => c,
        (None, None, Some(h)) => h,
        (None, None, None) => "HEAD"@,
    }
}

/// How a release is described.
pub fn describe_release(release: &Release, commit: Option<&str>) -> (r: String)
    ensures
        r@ == release_label(release@, opt_str(commit)),
{
    if let Some(v) = &release.version {
        return v.clone();
    }
    if let Some(c) = &release.channel {
        return c.clone();
    }
    match commit {
        Some(h) => h.to_string(),
        None => "HEAD".to_string(),
    }
}

/// A commit in short: its first seven bytes.
pub open spec fn short_commit(commit: Seq<char>) -> Seq<char> {
    if byte_len(commit) <= 7 {
        commit
    } else {
        byte_cut(commit, 7)->0
    }
}

/// A commit can be cut after its seventh byte.
pub open spec fn has_short_commit(commit: Seq<char>) -> bool {
    byte_len(commit) <= 7 || byte_cut(commit, 7) is Some
}

/// Whether a commit can be cut after its seventh byte.
pub fn can_shorten(commit: &str) -> (r: bool)
    ensures
        r == has_short_commit(commit@),
{
    byte_length(commit) <= 7 || cut_bytes(commit, 7).is_some()
}

/// An environment can be described: what describes it is no commit, or one that can
/// be cut short.
pub open spec fn describable(meta: Option<EnvMeta>) -> bool {
    match meta {
        Some(m) => m.version is Some || m.channel is Some || (match m.commit {
            Some(c) => has_short_commit(c@),
            None => true,
        }),
        None => true,
    }
}

/// Whether an environment can be described.
pub fn can_describe(meta: &Option<EnvMeta>) -> (r: bool)
    ensures
        r == describable(*meta),
{
    match meta {
        Some(m) => match (&m.version, &m.channel, &m.commit) {
            (None, None, Some(c)) => can_shorten(c.as_str()),
            _ => true,
        },
        None => true,
    }
}

/// How an environment is described: by the version, else the channel, else the
/// commit of its record, else by the version that its files state.
pub open spec fn description(meta: Option<EnvMeta>, version: Option<Seq<char>>) -> Seq<char> {
    let in_files = match version {
        Some(v) => v,
        None => "unknown"@,
    };
    match meta {
        Some(m) => match (m.version, m.channel, m.commit) {
            (Some(v), _, _) => v@,
            (None, Some(c), _) => c@,
            (None, None, Some(h)) => short_commit(h@) + "…"@,
            (None, None, None) => in_files,
        },
        None => in_files,
    }
}

/// How an environment is described, given its record and the version that its files
/// state.
pub fn describe_meta(meta: &Option<EnvMeta>, version: Option<String>) -> (r: String)
    requires
        describable(*meta),
    ensures
        r@ == description(*meta, opt_text(version)),
{
    if let Some(m) = meta {
        if let Some(v) = &m.version {
            return v.clone();
        }
        if let Some(c) = &m.channel {
            return c.clone();
        }
        if let Some(h) = &m.commit {
            let short = if byte_length(h.as_str()) <= 7 {
                h.clone()
            } else {
                match cut_bytes(h.as_str(), 7) {
                    Some(t) => t,
                    None => String::new(),
                }
            };
            return short.concat("…");
        }
    }
    match version {
        Some(v) => v,
        None => "unknown".to_string(),
    }
}

/// An answer that means yes.
pub open spec fn affirmative(answer: Seq<char>) -> bool {
    lower(trim(answer)) == "y"@ || lower(trim(answer)) == "yes"@
}

/// Whether an answer means yes: `y` or `yes`, in whatever case and with white space
/// round it.
pub fn confirmed(answer: &str) -> (r: bool)
    ensures
        r == affirmative(answer@),
{
    let word = lowered(trimmed(answer).as_str());
    same(word.as_str(), "y") || same(word.as_str(), "yes")
}

/// A time as it is recorded: in seconds since 1970.
pub fn now_iso(seconds: u64) -> (r: String)
    ensures
        r@ == decimal(seconds as nat),
{
    decimal_of(seconds)
}

/// An environment with a proper name never stands where the default link stands, nor
/// where another one stands.
pub proof fn law_proper_names_do_not_clash(root: LocationView, a: Seq<char>, b: Seq<char>)
    requires
        env_name(a),
        a != b,
    ensures
        env_of(root, a) != default_link(root),
        env_of(root, a) != env_of(root, b),
{
    law_env_dirs_are_distinct(root, a, b);
}

/// A name is refused exactly where it is empty, is `default`, or holds a slash, a backslash
/// or a null anywhere; it leads to an environment alone if it is also neither `.` nor `..`.
pub proof fn law_names_that_are_refused(name: Seq<char>)
    ensures
        !env_name(name) <==> name.len() == 0 || name == "default"@ || exists|i: int|
            0 <= i < name.len() && (#[trigger] name[i] == '/' || name[i] == '\\' || name[i] == '\0'),
        leads_to_env(name) <==> env_name(name) && name != "."@ && name != ".."@,
{
    if !env_name(name) && name.len() > 0 && name != "default"@ {
        if name.contains('/') {
            let i = choose|i: int| 0 <= i < name.len() && name[i] == '/';
            assert(name[i] == '/');
        } else if name.contains('\\') {
            let i = choose|i: int| 0 <= i < name.len() && name[i] == '\\';
            assert(name[i] == '\\');
        } else {
            let i = choose|i: int| 0 <= i < name.len() && name[i] == '\0';
            assert(name[i] == '\0');
        }
    }
}

/// A release is described by its version where it states one, else by its channel, else by
/// the commit, else as the head.
pub proof fn law_release_is_described(release: Release, commit: Option<Seq<char>>)
    ensures
        release.version matches Some(v) ==> release_label(release@, commit) == v@,
        release.version is None ==> (release.channel matches Some(c) ==> release_label(
            release@,
            commit,
        ) == c@),
        release.version is None && release.channel is None ==> (commit matches Some(h)
            ==> release_label(release@, commit) == h),
        release.version is None && release.channel is None && commit is None ==> release_label(
            release@,
            commit,
        ) == "HEAD"@,
{
}

/// White space round an answer and the case of its letters do not matter, and nothing but
/// `y` and `yes` means yes.
pub proof fn law_answers_that_mean_yes(answer: Seq<char>, other: Seq<char>)
    ensures
        affirmative("y"@) && affirmative("yes"@),
        trim(answer) == trim(other) ==> affirmative(answer) == affirmative(other),
        affirmative(answer) ==> {
            let w = trim(answer);
            &&& w.len() == 1 || w.len() == 3
            &&& w[0] == 'y' || w[0] == 'Y'
            &&& w.len() == 3 ==> (w[1] == 'e' || w[1] == 'E') && (w[2] == 's' || w[2] == 'S')
        },
{
    reveal_strlit("y");
    reveal_strlit("yes");
    let w = trim(answer);
    assert("y"@.len() == 1 && "y"@[0] == 'y');
    assert("yes"@.len() == 3 && "yes"@[0] == 'y' && "yes"@[1] == 'e' && "yes"@[2] == 's');
    lemma_word_is_trimmed("y"@);
    lemma_word_is_trimmed("yes"@);
    law_lower_is_of_letters("y"@, "y"@);
    law_lower_is_of_letters("yes"@, "yes"@);
    assert(lower("y"@) =~= "y"@);
    assert(lower("yes"@) =~= "yes"@);
    assert(lower(w).len() == w.len());
    if affirmative(answer) {
        assert(lower(w)[0] == ascii_lower(w[0]));
        if w.len() == 3 {
            assert(lower(w)[1] == ascii_lower(w[1]));
            assert(lower(w)[2] == ascii_lower(w[2]));
        }
    }
}

} // verus!
