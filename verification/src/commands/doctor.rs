//! `prist doctor`: is everything that Prist relies on in order?

use vstd::prelude::*;

use crate::text::{decimal, decimal_of, is_white_space, law_prefixes_are_stripped, lemma_trim_back, lemma_trim_front, same, starts_with, strip_repeated, stripped, trim, trimmed};

verus! {

/// What came of asking git for its version.
#[derive(Debug)]
pub enum GitProbe {
    /// What it printed.
    Printed(String),
    /// It ended badly.
    Failed,
    /// It could not be run.
    Missing,
}

/// What the file system says of a path that an alternates file points at.
#[derive(Debug)]
pub struct AlternateFacts {
    /// Whether it is a directory.
    pub directory: bool,
    /// Whether it holds a directory `pack`.
    pub pack: bool,
}

/// What the file system says of an environment.
#[derive(Debug)]
pub struct EnvHealth {
    pub name: String,
    /// What it says of each path that the alternates file points at, if that can be
    /// read.
    pub alternates: Option<Vec<AlternateFacts>>,
    /// Whether there is a `bin/flutter`.
    pub flutter: bool,
    /// Whether there is a `bin/flutter.bat`.
    pub flutter_bat: bool,
}

/// Something that was checked.
#[derive(Debug)]
pub struct Check {
    pub passed: bool,
    pub text: String,
}

/// Something that was checked, as the text it holds.
#[verifier::ext_equal]
pub struct CheckView {
    pub passed: bool,
    pub text: Seq<char>,
}

impl View for Check {
    type V = CheckView;

    open spec fn view(&self) -> CheckView {
        CheckView { passed: self.passed, text: self.text@ }
    }
}

/// The views of some checks.
pub open spec fn check_views(checks: Seq<Check>) -> Seq<CheckView> {
    checks.map_values(|c: Check| c@)
}

/// The check of git.
pub open spec fn git_check(probe: GitProbe) -> CheckView {
    match probe {
        GitProbe::Printed(out) => CheckView {
            passed: true,
            text: "Git "@ + strip_repeated(trim(out@), "git version "@),
        },
        GitProbe::Failed => CheckView { passed: false, text: "Git check failed"@ },
        GitProbe::Missing => CheckView { passed: false, text: "Git missing"@ },
    }
}

/// The check of git: it can be run and tells its version.
pub fn check_git(probe: &GitProbe) -> (r: Check)
    ensures
        r@ == git_check(*probe),
{
    proof {
        reveal_strlit("git version ");
    }
    match probe {
        GitProbe::Printed(out) => {
            let version = stripped(trimmed(out.as_str()).as_str(), "git version ");
            Check { passed: true, text: "Git ".to_string().concat(version.as_str()) }
        },
        GitProbe::Failed => Check { passed: false, text: "Git check failed".to_string() },
        GitProbe::Missing => Check { passed: false, text: "Git missing".to_string() },
    }
}

/// The check of the shared repository.
pub open spec fn bare_check(there: bool) -> CheckView {
    if there {
        CheckView { passed: true, text: "Shared bare repository"@ }
    } else {
        CheckView { passed: false, text: "Bare repository missing"@ }
    }
}

/// The check of the shared repository: it is there.
pub fn check_bare(there: bool) -> (r: Check)
    ensures
        r@ == bare_check(there),
{
    if there {
        Check { passed: true, text: "Shared bare repository".to_string() }
    } else {
        Check { passed: false, text: "Bare repository missing".to_string() }
    }
}

/// All paths of an alternates file lead to a directory or hold a directory `pack`.
pub open spec fn alternates_lead_somewhere(facts: Seq<AlternateFacts>) -> bool {
    forall|i: int| 0 <= i < facts.len() ==> (#[trigger] facts[i]).pack || facts[i].directory
}

/// An environment is in order: its alternates file can be read and leads somewhere, and
/// its Flutter tool is there.
pub open spec fn healthy(env: EnvHealth) -> bool {
    &&& env.alternates matches Some(facts) && alternates_lead_somewhere(facts@)
    &&& env.flutter || env.flutter_bat
}

/// The check of an environment.
pub open spec fn env_check(env: EnvHealth) -> CheckView {
    if healthy(env) {
        CheckView { passed: true, text: "Environment '"@ + env.name@ + "'"@ }
    } else {
        CheckView { passed: false, text: "Environment '"@ + env.name@ + "' issues found"@ }
    }
}

/// Whether all paths of an alternates file lead to a directory or hold a directory
/// `pack`.
fn lead_somewhere(facts: &Vec<AlternateFacts>) -> (r: bool)
    ensures
        r == alternates_lead_somewhere(facts@),
{
    let mut i: usize = 0;
    while i < facts.len()
        invariant
            i <= facts@.len(),
            forall|j: int| 0 <= j < i ==> (#[trigger] facts@[j]).pack || facts@[j].directory,
        decreases facts@.len() - i,
    {
        if !facts[i].pack && !facts[i].directory {
            return false;
        }
        i += 1;
    }
    true
}

/// The check of an environment.
pub fn check_env(env: &EnvHealth) -> (r: Check)
    ensures
        r@ == env_check(*env),
{
    let linked = match &env.alternates {
        Some(facts) => lead_somewhere(facts),
        None => false,
    };
    let opening = "Environment '".to_string().concat(env.name.as_str());
    if linked && (env.flutter || env.flutter_bat) {
        Check { passed: true, text: opening.concat("'") }
    } else {
        Check { passed: false, text: opening.concat("' issues found") }
    }
}

/// The checks of some environments: one for each but the default link.
pub open spec fn env_checks(envs: Seq<EnvHealth>) -> Seq<CheckView>
    decreases envs.len(),
{
    if envs.len() == 0 {
        seq![]
    } else if envs.last().name@ == "default"@ {
        env_checks(envs.drop_last())
    } else {
        env_checks(envs.drop_last()).push(env_check(envs.last()))
    }
}

/// All checks: of git, of the shared repository and of each environment.
pub fn doctor(git: &GitProbe, bare: bool, envs: &Vec<EnvHealth>) -> (r: Vec<Check>)
    ensures
        check_views(r@) == seq![git_check(*git), bare_check(bare)] + env_checks(envs@),
{
    let mut checks: Vec<Check> = Vec::new();
    checks.push(check_git(git));
    checks.push(check_bare(bare));
    let ghost first = seq![git_check(*git), bare_check(bare)];
    let mut i: usize = 0;
    assert(envs@.take(0) =~= seq![]);
    assert(check_views(checks@) =~= first + env_checks(envs@.take(0)));
    while i < envs.len()
        invariant
            i <= envs@.len(),
            check_views(checks@) == first + env_checks(envs@.take(i as int)),
        decreases envs@.len() - i,
    {
        let ghost so_far = envs@.take(i + 1);
        assert(so_far.drop_last() =~= envs@.take(i as int));
        assert(so_far.last() == envs@[i as int]);
        if !same(envs[i].name.as_str(), "default") {
            let ghost before = check_views(checks@);
            let check = check_env(&envs[i]);
            let ghost v = check@;
            checks.push(check);
            assert(check_views(checks@) =~= before.push(v));
            assert(check_views(checks@) =~= first + env_checks(so_far));
        }
        i += 1;
    }
    assert(envs@.take(i as int) =~= envs@);
    checks
}

/// How many checks failed.
pub open spec fn issue_count(checks: Seq<CheckView>) -> nat
    decreases checks.len(),
{
    if checks.len() == 0 {
        0
    } else {
        issue_count(checks.drop_last()) + if checks.last().passed {
            0nat
        } else {
            1nat
        }
    }
}

/// What all checks come to.
pub open spec fn verdict(checks: Seq<CheckView>) -> CheckView {
    if issue_count(checks) == 0 {
        CheckView { passed: true, text: "All checks passed"@ }
    } else {
        CheckView { passed: false, text: decimal(issue_count(checks)) + " issue(s) found"@ }
    }
}

/// What all checks come to.
pub fn summary(checks: &Vec<Check>) -> (r: Check)
    ensures
        r@ == verdict(check_views(checks@)),
{
    let mut issues: u64 = 0;
    let mut i: usize = 0;
    let ghost views = check_views(checks@);
    while i < checks.len()
        invariant
            i <= checks@.len(),
            views == check_views(checks@),
            issues == issue_count(views.take(i as int)),
            issues <= i,
        decreases checks@.len() - i,
    {
        let ghost so_far = views.take(i + 1);
        assert(so_far.drop_last() =~= views.take(i as int));
        assert(so_far.last() == checks@[i as int]@);
        if !checks[i].passed {
            issues += 1;
        }
        i += 1;
    }
    assert(views.take(i as int) =~= views);
    if issues == 0 {
        Check { passed: true, text: "All checks passed".to_string() }
    } else {
        Check { passed: false, text: decimal_of(issues).concat(" issue(s) found") }
    }
}

/// The verdict is good exactly where every check passed, and it never counts more
/// issues than there are checks.
pub proof fn law_verdict_is_good_if_all_is(checks: Seq<CheckView>)
    ensures
        verdict(checks).passed <==> forall|i: int|
            0 <= i < checks.len() ==> (#[trigger] checks[i]).passed,
        issue_count(checks) <= checks.len(),
    decreases checks.len(),
{
    if checks.len() > 0 {
        let rest = checks.drop_last();
        law_verdict_is_good_if_all_is(rest);
        assert forall|i: int| 0 <= i < rest.len() implies rest[i] == checks[i] by {}
        if verdict(checks).passed {
            assert(verdict(rest).passed);
            assert forall|i: int| 0 <= i < checks.len() implies (#[trigger] checks[i]).passed by {
                if i < rest.len() {
                    assert(rest[i].passed);
                }
            }
        }
        if forall|i: int| 0 <= i < checks.len() ==> (#[trigger] checks[i]).passed {
            assert forall|i: int| 0 <= i < rest.len() implies (#[trigger] rest[i]).passed by {
                assert(checks[i].passed);
            }
        }
    }
}

/// What a check says: git passes exactly where it printed its version, the shared repository
/// exactly where it is there, an environment exactly where its alternates file can be read,
/// each path in it is a directory or holds one called `pack`, and one of the two Flutter
/// tools is there.
pub proof fn law_checks_pass_where_all_is_there(git: GitProbe, bare: bool, env: EnvHealth)
    ensures
        git_check(git).passed == git is Printed,
        bare_check(bare).passed == bare,
        env_check(env).passed == ((env.alternates matches Some(facts) && forall|i: int|
            0 <= i < facts@.len() ==> (#[trigger] facts@[i]).pack || facts@[i].directory) && (
        env.flutter || env.flutter_bat)),
        env_check(env).passed ==> env_check(env).text == "Environment '"@ + env.name@ + "'"@,
        !env_check(env).passed ==> env_check(env).text == "Environment '"@ + env.name@
            + "' issues found"@,
        git matches GitProbe::Printed(out) ==> exists|version: Seq<char>|
            git_check(git).text == "Git "@ + version && !starts_with(version, "git version "@),
{
    if let GitProbe::Printed(out) = git {
        reveal_strlit("git version ");
        let version = strip_repeated(trim(out@), "git version "@);
        law_prefixes_are_stripped(trim(out@), "git version "@);
        assert(git_check(git).text == "Git "@ + version);
    }
}

/// Every environment is checked once, behind those before it, and the default link is not.
pub proof fn law_every_environment_is_checked(envs: Seq<EnvHealth>, i: int)
    requires
        0 <= i < envs.len(),
    ensures
        env_checks(seq![]).len() == 0,
        ({
            let before = env_checks(envs.take(i)).len() as int;
            let upto = env_checks(envs.take(i + 1)).len() as int;
            if envs[i].name@ == "default"@ {
                upto == before
            } else {
                &&& upto == before + 1
                &&& before < env_checks(envs).len()
                &&& env_checks(envs)[before] == env_check(envs[i])
            }
        }),
{
    assert(envs.take(i + 1).drop_last() =~= envs.take(i));
    assert(envs.take(i + 1).last() == envs[i]);
    lemma_checks_grow(envs, i + 1);
}

/// The checks of the first environments stay where they are.
proof fn lemma_checks_grow(envs: Seq<EnvHealth>, i: int)
    requires
        0 <= i <= envs.len(),
    ensures
        env_checks(envs.take(i)).len() <= env_checks(envs).len(),
        forall|k: int|
            0 <= k < env_checks(envs.take(i)).len() ==> #[trigger] env_checks(envs)[k] == env_checks(
                envs.take(i),
            )[k],
    decreases envs.len() - i,
{
    if i < envs.len() {
        let rest = envs.drop_last();
        assert(rest.take(i) =~= envs.take(i));
        lemma_checks_grow(rest, i);
    } else {
        assert(envs.take(i) =~= envs);
    }
}

/// One check more that fails is one issue more, and one that passes is none.
pub proof fn law_issues_are_the_failed_checks(checks: Seq<CheckView>, c: CheckView)
    ensures
        issue_count(seq![]) == 0,
        issue_count(checks.push(c)) == issue_count(checks) + if c.passed {
            0int
        } else {
            1int
        },
        issue_count(checks) > 0 ==> verdict(checks).text == decimal(issue_count(checks))
            + " issue(s) found"@,
{
    assert(checks.push(c).drop_last() =~= checks);
}

/// Git's version is shown without the words before it and the white space round it.
pub proof fn law_git_version_is_shown(out: String, version: Seq<char>)
    requires
        out@ == "git version "@ + version + "\n"@,
        version.len() > 0 && !is_white_space(version.last()),
        !starts_with(version, "git version "@),
    ensures
        git_check(GitProbe::Printed(out)).text == "Git "@ + version,
{
    reveal_strlit("git version ");
    reveal_strlit("\n");
    let word = "git version "@ + version;
    let p = |c: char| is_white_space(c);
    assert(out@[0] == 'g');
    lemma_trim_front(out@, p, 0);
    assert(out@.skip(0) =~= out@);
    assert(out@[word.len() - 1] == version.last());
    lemma_trim_back(out@, p, word.len() as int);
    assert(out@.take(word.len() as int) =~= word);
    law_prefixes_are_stripped(version, "git version "@);
}

} // verus!
