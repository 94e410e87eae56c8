use prist::commands::doctor::{
    check_bare, check_env, check_git, doctor, summary, AlternateFacts, EnvHealth, GitProbe,
};
use prist::commands::listing::{
    is_active, mark, releases, rows, select_env_interactively, table, EnvEntry,
};
use prist::commands::names::{
    can_describe, can_shorten, confirmed, describe_meta, describe_release, now_iso,
    validate_env_name,
};
use prist::commands::repair::{repair, repair_env, EnvState, Repair};
use prist::commands::tools::{
    install_shims, path_entries, resolve_tool, shim_entry, tool_arguments, tool_path, tool_variables, unlinks_as_file_first,
    Argument, EntryFacts,
};
use prist::config::{ActiveSource, EnvMeta, GlobalConfig};
use prist::git_ops::{read_alternates, write_alternates};
use prist::paths::{Location, PristHome};
use prist::releases::{CurrentRelease, Platform, Release, ReleaseFeed};
use prist::work::{Action, Arg, Outcome};

fn s(t: &str) -> Option<String> {
    Some(t.to_string())
}

fn shown(l: &Location) -> String {
    let mut all = vec![l.base.clone()];
    all.extend(l.parts.iter().cloned());
    all.join("/")
}

fn meta(version: Option<&str>, channel: Option<&str>, commit: Option<&str>) -> Option<EnvMeta> {
    Some(EnvMeta {
        name: "a".to_string(),
        reference: None,
        channel: channel.map(|t| t.to_string()),
        version: version.map(|t| t.to_string()),
        commit: commit.map(|t| t.to_string()),
        engine_hash: None,
        created_at: None,
    })
}

fn entry(name: &str, directory: bool, version: &str) -> EnvEntry {
    EnvEntry { name: name.to_string(), directory, meta: None, version: s(version) }
}

#[test]
fn names_of_environments() {
    for good in ["a", "music_app", "3.0.1", "Default", ".."] {
        assert!(validate_env_name(good).is_ok(), "{good}");
    }
    for bad in ["", "default", "a/b", "a\\b", "a\0"] {
        assert_eq!(
            validate_env_name(bad).unwrap_err().message(),
            "invalid env name: must be non-empty, not 'default', and contain no path separators"
        );
    }
}

#[test]
fn releases_are_described() {
    let r = Release { version: s("3"), channel: s("beta"), ..Default::default() };
    assert_eq!(describe_release(&r, Some("c")), "3");
    let r = Release { channel: s("beta"), ..Default::default() };
    assert_eq!(describe_release(&r, Some("c")), "beta");
    let r = Release::default();
    assert_eq!(describe_release(&r, Some("c")), "c");
    assert_eq!(describe_release(&r, None), "HEAD");
}

#[test]
fn environments_are_described() {
    let c = "0123456789";
    assert_eq!(describe_meta(&meta(Some("3"), Some("beta"), Some(c)), s("x")), "3");
    assert_eq!(describe_meta(&meta(None, Some("beta"), Some(c)), s("x")), "beta");
    assert_eq!(describe_meta(&meta(None, None, Some(c)), s("x")), "0123456…");
    assert_eq!(describe_meta(&meta(None, None, Some("012")), s("x")), "012…");
    assert_eq!(describe_meta(&meta(None, None, None), s("x")), "x");
    assert_eq!(describe_meta(&None, None), "unknown");
    assert!(!can_shorten("012345é"));
    assert!(can_shorten("01234é"));
    assert!(can_shorten("01234é89"));
    assert!(!can_describe(&meta(None, None, Some("012345é"))));
    assert!(can_describe(&meta(None, Some("c"), Some("012345é"))));
}

#[test]
fn answers_that_mean_yes() {
    for yes in ["y", "Y\n", " yes ", "YES"] {
        assert!(confirmed(yes), "{yes}");
    }
    for no in ["", "n", "ye", "yess", "ÿ"] {
        assert!(!confirmed(no), "{no}");
    }
    assert_eq!(now_iso(1700000000), "1700000000");
}

#[test]
fn environments_are_marked() {
    let p = ActiveSource::Project("/w/.pristrc".to_string());
    assert!(is_active("b", &s("b"), &p));
    assert!(!is_active("a", &s("b"), &p));
    assert!(is_active("a", &s("a"), &ActiveSource::Global));
    assert!(!is_active("b", &s("b"), &ActiveSource::Nowhere));
    assert!(!is_active("b", &None, &ActiveSource::Nowhere));
    let g = GlobalConfig { default_env: s("a") };
    let entries = || vec![entry("a", true, "3"), entry("b", true, "3"), entry("default", true, "3")];
    let marks = |active: &Option<String>, source: &ActiveSource| {
        rows(&entries(), &g, active, source).iter().map(mark).collect::<Vec<_>>()
    };
    assert_eq!(marks(&s("a"), &ActiveSource::Global), [Some("(active, global)"), None]);
    assert_eq!(marks(&s("b"), &p), [Some("(global)"), Some("(active)")]);
}

#[test]
fn environments_are_listed_in_columns() {
    let entries = vec![
        entry("a", true, "3.0.1"),
        entry("default", true, "3.0.1"),
        entry("longer", false, "3.47.0-0.1.pre"),
    ];
    let g = GlobalConfig { default_env: s("longer") };
    let list = rows(&entries, &g, &s("a"), &ActiveSource::Global);
    assert_eq!(list.len(), 2);
    let list = table(&list);
    assert_eq!(list[0].name, "a     ");
    assert_eq!(list[0].description, "3.0.1         ");
    assert!(list[0].active && !list[0].global);
    assert_eq!(list[1].name, "longer");
    assert!(!list[1].active && list[1].global);
    let list = table(&rows(&vec![entry("a", true, "3")], &g, &None, &ActiveSource::Nowhere));
    assert_eq!(list[0].name, "a   ");
    assert_eq!(list[0].description, "3      ");
    let list = table(&rows(&vec![entry("ééé", true, "3")], &g, &None, &ActiveSource::Nowhere));
    assert_eq!(list[0].name, format!("{:<6}", "ééé"));
}

#[test]
fn environments_are_offered() {
    let entries = vec![entry("a", true, "3"), entry("default", true, "3"), entry("f", false, "3")];
    let list = select_env_interactively(&entries, true).unwrap();
    assert_eq!(list.len(), 1);
    assert_eq!(list[0].name, "a");
    assert_eq!(list[0].cell, "a               ");
    assert_eq!(list[0].description, "3");
    assert_eq!(
        select_env_interactively(&entries, false).unwrap_err().message(),
        "Interactive selection requires a terminal. Please specify the environment name explicitly."
    );
    for terminal in [true, false] {
        assert_eq!(
            select_env_interactively(&vec![entry("default", true, "3")], terminal)
                .unwrap_err()
                .message(),
            "No environments installed yet. Run `prist create <name> <version>`."
        );
    }
}

#[test]
fn releases_are_listed() {
    let r = Release {
        version: s("3.0.1"),
        release_date: s("2026-11-16T00:00:00Z"),
        hash: s("c0"),
        ..Default::default()
    };
    let mut list = Vec::new();
    for _ in 0..60 {
        list.push(r.clone());
    }
    list[1].release_date = s("short");
    list[2].release_date = None;
    let feed = ReleaseFeed {
        base_url: None,
        current_release: CurrentRelease { stable: None, beta: None, dev: None },
        releases: list,
    };
    let pages = releases(&feed);
    let lengths: Vec<usize> = pages.iter().map(|p| p.len()).collect();
    assert_eq!(lengths, [50, 10]);
    assert_eq!(pages[1][9].commit, "c0");
    let rows = &pages[0];
    assert_eq!(rows[0].channel, "-");
    assert_eq!(rows[0].channel_cell, "-         ");
    assert_eq!(rows[0].version_cell, "3.0.1           ");
    assert_eq!(rows[0].date_cell, "2026-11-16");
    assert_eq!(rows[0].commit, "c0");
    assert_eq!(rows[1].date_cell, "-         ");
    assert_eq!(rows[2].date_cell, "-         ");
    let mut feed = feed;
    feed.releases.truncate(50);
    assert_eq!(releases(&feed).len(), 1);
    feed.releases.clear();
    assert_eq!(releases(&feed).len(), 0);
}

fn health(name: &str, alternates: Option<Vec<(bool, bool)>>, flutter: bool) -> EnvHealth {
    EnvHealth {
        name: name.to_string(),
        alternates: alternates.map(|l| {
            l.into_iter().map(|(directory, pack)| AlternateFacts { directory, pack }).collect()
        }),
        flutter,
        flutter_bat: false,
    }
}

#[test]
fn checks_are_told() {
    let c = check_git(&GitProbe::Printed("git version 2.43.0\n".to_string()));
    assert!(c.passed);
    assert_eq!(c.text, "Git 2.43.0");
    assert_eq!(check_git(&GitProbe::Failed).text, "Git check failed");
    assert_eq!(check_git(&GitProbe::Missing).text, "Git missing");
    assert_eq!(check_bare(true).text, "Shared bare repository");
    assert_eq!(check_bare(false).text, "Bare repository missing");
    assert!(check_env(&health("a", Some(vec![(true, false), (false, true)]), true)).passed);
    assert!(check_env(&health("a", Some(vec![]), true)).passed);
    assert!(!check_env(&health("a", Some(vec![(true, true), (false, false)]), true)).passed);
    assert!(!check_env(&health("a", None, true)).passed);
    assert_eq!(check_env(&health("a", Some(vec![]), true)).text, "Environment 'a'");
    assert_eq!(
        check_env(&health("a", Some(vec![]), false)).text,
        "Environment 'a' issues found"
    );
}

#[test]
fn issues_are_counted() {
    let envs = vec![
        health("a", Some(vec![]), true),
        health("default", None, false),
        health("b", None, true),
    ];
    let checks = doctor(&GitProbe::Missing, true, &envs);
    let passed: Vec<bool> = checks.iter().map(|c| c.passed).collect();
    assert_eq!(passed, [false, true, true, false]);
    let end = summary(&checks);
    assert!(!end.passed);
    assert_eq!(end.text, "2 issue(s) found");
    let checks = doctor(&GitProbe::Printed(String::new()), true, &vec![]);
    assert_eq!(summary(&checks).text, "All checks passed");
}

fn steps(state: &EnvState) -> Vec<String> {
    let home = PristHome { root: Location::at("/p") };
    repair_env(&home, state)
        .iter()
        .map(|step| match &step.action {
            Action::MakeDirectory(l) => format!("{} dir {}", step.needed, shown(l)),
            Action::WriteAlternates { file, objects } => {
                format!("{} alternates {} {}", step.needed, shown(file), shown(objects))
            }
            Action::Git { args, shown: seen } => {
                assert!(!seen);
                let words: Vec<String> = args
                    .list
                    .iter()
                    .map(|a| match a {
                        Arg::Word(w) => w.clone(),
                        Arg::Place(l) => shown(l),
                    })
                    .collect();
                format!("{} git {}", step.needed, words.join(" "))
            }
            a => panic!("{a:?}"),
        })
        .collect()
}

#[test]
fn environments_are_repaired() {
    let upstream = [
        "false git -C /p/envs/a remote set-url origin https://github.com/flutter/flutter.git",
        "false git -C /p/envs/a config remote.origin.fetch +refs/heads/*:refs/remotes/origin/*",
        "false git -C /p/envs/a update-ref refs/remotes/origin/stable HEAD",
        "false git -C /p/envs/a checkout -B stable",
        "false git -C /p/envs/a branch --set-upstream-to origin/stable",
    ];
    let state = |alternates, flutter, version| EnvState {
        name: "a".to_string(),
        alternates,
        flutter,
        flutter_bat: false,
        version,
    };
    assert_eq!(steps(&state(Some(vec![true]), true, None)), upstream);
    let all = steps(&state(Some(vec![true, false]), false, s("3.0.1")));
    assert_eq!(
        all[..3],
        [
            "true dir /p/envs/a/.git/objects/info",
            "true alternates /p/envs/a/.git/objects/info/alternates /p/shared/git_bare.git/objects",
            "false git -C /p/envs/a checkout -f 3.0.1",
        ]
    );
    assert_eq!(all[3..], upstream);
    assert_eq!(
        steps(&state(None, false, None))[2],
        "false git -C /p/envs/a checkout -f stable"
    );
    let mut default = state(None, false, None);
    default.name = "default".to_string();
    assert_eq!(steps(&default).len(), 0);
}

#[test]
fn tools_have_places() {
    let env = Location::at("/e");
    let at = |platform, tool| {
        let (list, leading) = resolve_tool(platform, &env, tool);
        (list.iter().map(shown).collect::<Vec<_>>(), leading)
    };
    assert_eq!(at(Platform::Linux, "flutter"), (vec!["/e/bin/flutter".to_string()], None));
    assert_eq!(at(Platform::Windows, "flutter"), (vec!["/e/bin/flutter.bat".to_string()], None));
    assert_eq!(
        at(Platform::Macos, "dart"),
        (
            vec!["/e/bin/dart".to_string(), "/e/bin/cache/dart-sdk/bin/dart".to_string()],
            None
        )
    );
    assert_eq!(
        at(Platform::Windows, "pub"),
        (
            vec![
                "/e/bin/dart.exe".to_string(),
                "/e/bin/dart.bat".to_string(),
                "/e/bin/cache/dart-sdk/bin/dart.exe".to_string()
            ],
            Some("pub")
        )
    );
    assert_eq!(at(Platform::Linux, "x"), (vec!["/e/bin/x".to_string()], None));
}

#[test]
fn shims_leave_the_path() {
    let facts = |resolved_same, same_path| EntryFacts { resolved_same, same_path };
    assert!(shim_entry(Platform::Linux, "x", "y", &facts(Some(true), false)));
    assert!(!shim_entry(Platform::Linux, "y", "y", &facts(Some(false), true)));
    assert!(shim_entry(Platform::Linux, "x", "y", &facts(None, true)));
    assert!(!shim_entry(Platform::Linux, "y", "y", &facts(None, false)));
    assert!(shim_entry(Platform::Windows, "C:\\P\\Bin", "c:\\p\\bin", &facts(None, false)));
    assert!(!shim_entry(Platform::Windows, "C:\\P", "c:\\p\\bin", &facts(None, true)));

    let entries = path_entries(Platform::Linux, "/usr/bin:/p/bin::/bin");
    assert_eq!(entries, ["/usr/bin", "/p/bin", "", "/bin"]);
    let known = vec![
        facts(Some(false), false),
        facts(Some(true), true),
        facts(None, false),
        facts(Some(false), false),
    ];
    let path = tool_path(
        Platform::Linux,
        "/e/bin",
        "/e/bin/cache/dart-sdk/bin",
        &entries,
        "/p/bin",
        &known,
    );
    assert_eq!(path, "/e/bin:/e/bin/cache/dart-sdk/bin:/usr/bin::/bin");
    let entries = path_entries(Platform::Windows, "c:\\p\\bin");
    let path = tool_path(
        Platform::Windows,
        "b",
        "d",
        &entries,
        "C:\\P\\BIN",
        &vec![facts(None, false)],
    );
    assert_eq!(path, "b;d;");
}

#[test]
fn shims_call_prist() {
    let list = install_shims(Platform::Linux);
    let files: Vec<&str> = list.iter().map(|x| x.file.as_str()).collect();
    assert_eq!(files, ["flutter", "dart", "pub"]);
    assert_eq!(list[1].text, "#!/bin/sh\nexec prist dart \"$@\"\n");
    assert!(list[1].executable);
    let list = install_shims(Platform::Windows);
    assert_eq!(list[2].file, "pub.bat");
    assert_eq!(list[2].text, "@echo off\r\nprist pub %*\r\n");
    assert!(!list[2].executable);
    assert!(unlinks_as_file_first(Platform::Linux));
    assert!(!unlinks_as_file_first(Platform::Windows));
}

#[test]
fn repaired_alternates_are_in_order() {
    let text = write_alternates("/p/shared/git_bare.git/objects");
    let list = read_alternates(Some(&text)).unwrap();
    assert_eq!(list, ["/p/shared/git_bare.git/objects"]);
    let there = || list.iter().map(|_| (true, false)).collect();
    assert!(check_env(&health("a", Some(there()), true)).passed);
    let state = EnvState {
        name: "a".to_string(),
        alternates: Some(list.iter().map(|_| true).collect()),
        flutter: true,
        flutter_bat: false,
        version: None,
    };
    assert!(steps(&state).iter().all(|s| s.starts_with("false git")));
}

#[test]
fn tools_are_told_where_they_are() {
    let list: Vec<(&str, String)> =
        tool_variables("/e", "/e/bin").into_iter().map(|v| (v.name, v.value)).collect();
    assert_eq!(
        list,
        [
            ("FLUTTER_ROOT", "/e".to_string()),
            ("FLUTTER_GIT_URL", "https://github.com/flutter/flutter.git".to_string()),
            ("PATH", "/e/bin".to_string()),
            ("FLUTTER_ALREADY_WAITED", "true".to_string()),
        ]
    );
}

fn follow_repair(outcomes: Vec<Outcome>) -> (Vec<String>, Repair) {
    let home = PristHome { root: Location::at("/p") };
    let mut run = repair();
    let mut log = Vec::new();
    for o in outcomes {
        log.push(match run.action(&home).unwrap() {
            Action::IsBareRepository(l) => format!("bare? {}", shown(&l)),
            Action::Read(l) => format!("read {}", shown(&l)),
            Action::Write { file, text } => format!("write {} {text:?}", shown(&file)),
            Action::ListEntries => "list".to_string(),
            Action::SurveyEnv(l) => format!("survey {}", shown(&l)),
            Action::MakeDirectory(l) => format!("dir {}", shown(&l)),
            Action::WriteAlternates { file, .. } => format!("alternates {}", shown(&file)),
            Action::Git { .. } => "git".to_string(),
            a => format!("{a:?}"),
        });
        run = run.next(o);
    }
    (log, run)
}

fn found(alternates: Option<Vec<bool>>) -> Outcome {
    Outcome::Env(EnvState {
        name: String::new(),
        alternates,
        flutter: true,
        flutter_bat: false,
        version: None,
    })
}

#[test]
fn repair_goes_through_all_environments() {
    let oh = || Outcome::Failed("oh".to_string());
    let names = ["default", "a", "default", "b"].map(|n| n.to_string()).to_vec();
    let mut outcomes = vec![
        Outcome::Yes,
        Outcome::Text("x".to_string()),
        Outcome::Done,
        Outcome::Names(names),
        found(None),
        Outcome::Done,
        Outcome::Done,
    ];
    outcomes.extend([oh(), oh(), oh(), oh(), oh()]);
    outcomes.push(found(Some(vec![true])));
    outcomes.extend([oh(), oh(), oh(), oh(), oh()]);
    let (log, run) = follow_repair(outcomes);
    assert_eq!(
        log[..7],
        [
            "bare? /p/shared/git_bare.git",
            "read /p/shared/git_bare.git/config",
            "write /p/shared/git_bare.git/config \"x\\n[gc]\\n\\tauto = 0\\n\"",
            "list",
            "survey /p/envs/a",
            "dir /p/envs/a/.git/objects/info",
            "alternates /p/envs/a/.git/objects/info/alternates",
        ]
    );
    assert_eq!(log[12], "survey /p/envs/b");
    assert!(log[13..].iter().all(|l| l == "git"));
    assert!(matches!(run, Repair::Done(names) if names.len() == 4));
}

#[test]
fn repair_failures_are_told() {
    let oh = || Outcome::Failed("oh".to_string());
    let error = |outcomes| match follow_repair(outcomes).1 {
        Repair::Failed(f) => f.error().message(),
        run => panic!("{run:?}"),
    };
    assert_eq!(error(vec![Outcome::No, oh()]), "I/O error: oh");
    assert_eq!(error(vec![Outcome::Yes, oh(), oh()]), "oh");
    assert_eq!(error(vec![Outcome::Yes, oh(), Outcome::Done, oh()]), "oh");
    let names = || Outcome::Names(vec!["a".to_string()]);
    assert_eq!(
        error(vec![Outcome::Yes, oh(), Outcome::Done, names(), found(None), Outcome::Done, oh()]),
        "I/O error: oh"
    );
    let (_, run) = follow_repair(vec![
        Outcome::Yes,
        oh(),
        Outcome::Done,
        Outcome::Names(vec!["default".to_string()]),
    ]);
    assert!(matches!(run, Repair::Done(_)));
}

#[test]
fn user_arguments_follow() {
    let list: Vec<String> =
        tool_arguments("pub", 2).iter().map(|a| format!("{a:?}")).collect();
    assert_eq!(list, ["Word(\"pub\")", "User(0)", "User(1)"]);
    assert!(matches!(tool_arguments("dart", 1)[..], [Argument::User(0)]));
    assert_eq!(tool_arguments("flutter", 0).len(), 0);
}

#[test]
fn default_link_need_not_be_described() {
    let odd = |name: &str, directory| EnvEntry {
        name: name.to_string(),
        directory,
        meta: meta(None, None, Some("012345é")),
        version: None,
    };
    let g = GlobalConfig { default_env: None };
    let entries = vec![odd("default", true), entry("a", true, "3")];
    assert_eq!(rows(&entries, &g, &None, &ActiveSource::Nowhere).len(), 1);
    let entries = vec![odd("default", true), odd("file", false), entry("a", true, "3")];
    assert_eq!(select_env_interactively(&entries, true).unwrap().len(), 1);
}
