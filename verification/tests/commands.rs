use prist::commands::activate::{scope, use_env, Activation, UseStage};
use prist::commands::create::{create, version_label, CreateStage, Creation};
use prist::commands::proxy::{proxy, Proxy, ProxyStage};
use prist::commands::remove::{rm, Removal, RemoveStage};
use prist::commands::tools::{EntryFacts, PathFacts};
use prist::commands::upgrade::{upgrade, Upgrade, UpgradeStage};
use prist::config::{resolve_active, ActiveSource, EnvMeta, GlobalConfig, Resolution};
use prist::error::PristError;
use prist::paths::{Location, PristHome};
use prist::releases::{CurrentRelease, Platform, Release, ReleaseFeed};
use prist::work::{Action, Arg, Args, Outcome};

const LINUX: Platform = Platform::Linux;

fn home() -> PristHome {
    PristHome { root: Location::at("/p") }
}

fn s(t: &str) -> Option<String> {
    Some(t.to_string())
}

fn shown(l: &Location) -> String {
    let mut all = vec![l.base.clone()];
    all.extend(l.parts.iter().cloned());
    all.join("/")
}

fn words(args: &Args) -> String {
    let words: Vec<String> = args
        .list
        .iter()
        .map(|a| match a {
            Arg::Word(w) => w.clone(),
            Arg::Place(l) => shown(l),
        })
        .collect();
    words.join(" ")
}

fn told(a: &Action) -> String {
    match a {
        Action::Exists(l) => format!("there? {}", shown(l)),
        Action::IsDirectory(l) => format!("dir? {}", shown(l)),
        Action::EngineVersion(l) => format!("engine? {}", shown(l)),
        Action::FlutterVersion(l) => format!("version? {}", shown(l)),
        Action::ReadLink(l) => format!("link? {}", shown(l)),
        Action::RemoveTree(l) => format!("remove {}", shown(l)),
        Action::Unlink(l) => format!("unlink {}", shown(l)),
        Action::Link { link, target } => format!("link {} {}", shown(link), shown(target)),
        Action::Git { args, .. } => format!("git {}", words(args)),
        Action::FetchFeed => "feed".to_string(),
        Action::FindActive => "active?".to_string(),
        Action::ChooseEnv { prompt } => format!("choose {prompt}"),
        Action::ConfirmRemoval { name } => format!("confirm {name}"),
        Action::ListEnvs => "envs?".to_string(),
        Action::IsTerminal => "terminal?".to_string(),
        Action::LoadGlobal => "load global".to_string(),
        Action::SaveGlobal(c) => format!("save global {:?}", c.default_env),
        Action::SaveProject(c) => format!("save project {:?} {:?}", c.env, c.flutter),
        Action::LoadMeta(l) => format!("load meta {}", shown(l)),
        Action::SaveMeta { env, meta } => format!(
            "save meta {} {} {:?} {:?} {:?} {:?} {:?} {:?}",
            shown(env),
            meta.name,
            meta.reference,
            meta.channel,
            meta.version,
            meta.commit,
            meta.engine_hash,
            meta.created_at
        ),
        Action::Now => "now?".to_string(),
        Action::InstallShims => "shims".to_string(),
        Action::WorkingDirectory => "cwd?".to_string(),
        Action::IntegrateEditors { env, project } => format!("editors {} {project}", shown(env)),
        Action::SurveyPath { env, bin, sdk_bin, shims } => {
            format!("path? {} {} {} {}", shown(env), shown(bin), shown(sdk_bin), shown(shims))
        }
        Action::Launch { program, arguments, variables } => {
            let set: Vec<String> =
                variables.iter().map(|v| format!("{}={}", v.name, v.value)).collect();
            format!("launch {} {arguments:?} {}", shown(program), set.join(" "))
        }
        _ => "..".to_string(),
    }
}

fn text(t: &str) -> Outcome {
    Outcome::Text(t.to_string())
}

fn failed() -> Outcome {
    Outcome::Failed("oh".to_string())
}

fn exit(code: Option<i32>) -> Outcome {
    Outcome::Exit { code, told: String::new() }
}

fn global(name: Option<&str>) -> Outcome {
    Outcome::Global(GlobalConfig { default_env: name.map(|n| n.to_string()) })
}

fn meta(reference: Option<&str>, channel: Option<&str>, version: Option<&str>) -> EnvMeta {
    EnvMeta {
        name: "a".to_string(),
        reference: reference.map(|t| t.to_string()),
        channel: channel.map(|t| t.to_string()),
        version: version.map(|t| t.to_string()),
        commit: s("c0"),
        engine_hash: None,
        created_at: s("11"),
    }
}

fn feed() -> Outcome {
    Outcome::Feed(ReleaseFeed {
        base_url: None,
        current_release: CurrentRelease { stable: s("c1"), beta: None, dev: None },
        releases: vec![Release {
            hash: s("c1"),
            channel: s("stable"),
            version: s("3.0.1"),
            ..Default::default()
        }],
    })
}

fn activate(mut run: Activation, outcomes: Vec<Outcome>) -> (Vec<String>, Activation) {
    let mut log = Vec::new();
    for o in outcomes {
        log.push(told(&run.action(&home(), LINUX).unwrap()));
        run = run.next(o);
    }
    (log, run)
}

#[test]
fn project_is_pinned() {
    let (log, run) = activate(
        use_env(None, false),
        vec![
            Outcome::Active(None),
            text("a"),
            Outcome::Yes,
            Outcome::Missing,
            Outcome::Meta(meta(None, s("beta").as_deref(), None)),
            Outcome::Done,
            text("/w"),
            failed(),
        ],
    );
    assert!(matches!(run.stage, UseStage::Done(n) if n == "a"));
    assert_eq!(
        log,
        [
            "active?",
            "choose ? Select environment:",
            "dir? /p/envs/a",
            "engine? /p/envs/a",
            "load meta /p/envs/a",
            "save project Some(\"a\") Some(\"beta\")",
            "cwd?",
            "editors /p/envs/a /w",
        ]
    );
    assert_eq!(scope(false), "project");
    assert_eq!(scope(true), "global default");
}

#[test]
fn recorded_version_is_the_most_exact() {
    let flutter = |o| {
        let (_, run) =
            activate(use_env(s("a"), false), vec![Outcome::Yes, Outcome::Missing, o]);
        match run.stage {
            UseStage::SaveProject(_, c) => c.flutter,
            stage => panic!("{stage:?}"),
        }
    };
    assert_eq!(flutter(Outcome::Meta(meta(None, Some("beta"), Some("3")))), s("3"));
    assert_eq!(flutter(Outcome::Meta(meta(None, Some("beta"), None))), s("beta"));
    assert_eq!(flutter(Outcome::Meta(meta(None, None, None))), s("c0"));
    assert_eq!(flutter(failed()), None);
}

#[test]
fn global_default_is_set() {
    let (log, run) = activate(
        use_env(s("a"), true),
        vec![
            Outcome::Yes,
            text("h"),
            Outcome::No,
            global(Some("b")),
            Outcome::Done,
            failed(),
            Outcome::Done,
            failed(),
            text("/w"),
            Outcome::Done,
        ],
    );
    assert!(matches!(run.stage, UseStage::Done(_)));
    assert_eq!(
        log,
        [
            "dir? /p/envs/a",
            "engine? /p/envs/a",
            "dir? /p/shared/engines/h",
            "load global",
            "save global Some(\"a\")",
            "unlink /p/envs/default",
            "link /p/envs/default /p/envs/a",
            "shims",
            "cwd?",
            "editors /p/envs/a /w",
        ]
    );
}

#[test]
fn activation_failures_are_told() {
    let error = |run, outcomes| match activate(run, outcomes).1.stage {
        UseStage::Failed(f) => f.error(),
        stage => panic!("{stage:?}"),
    };
    assert!(matches!(
        error(use_env(s("a"), true), vec![Outcome::No]),
        PristError::EnvNotFound(n) if n == "a"
    ));
    assert_eq!(error(use_env(None, true), vec![failed()]).message(), "oh");
    assert_eq!(
        error(use_env(None, true), vec![Outcome::Active(None), Outcome::Missing]).message(),
        "no answer"
    );
    let known = vec![Outcome::Yes, Outcome::Missing];
    assert_eq!(
        error(
            use_env(s("a"), false),
            known.into_iter().chain([Outcome::Missing, Outcome::Done, failed()]).collect()
        )
        .message(),
        "cwd: oh"
    );
    let known = vec![Outcome::Yes, Outcome::Missing];
    assert_eq!(
        error(use_env(s("a"), true), known.into_iter().chain([failed()]).collect()).message(),
        "oh"
    );
}

fn follow_create(mut run: Creation, outcomes: Vec<Outcome>) -> (Vec<String>, Creation) {
    let mut log = Vec::new();
    for o in outcomes {
        log.push(told(&run.action(&home(), LINUX).unwrap()));
        run = run.next(o);
    }
    (log, run)
}

/// The outcomes that clone an environment.
fn cloning() -> Vec<Outcome> {
    vec![
        Outcome::Done,
        Outcome::Yes,
        Outcome::Yes,
        text("[gc]\n\tauto = 0\n"),
        Outcome::Done,
        exit(Some(0)),
        exit(Some(0)),
        Outcome::Done,
        Outcome::Done,
    ]
}

#[test]
fn environment_is_created_at_stable() {
    let mut outcomes = vec![Outcome::No, feed()];
    outcomes.extend(cloning());
    outcomes.extend([
        text("h"),
        Outcome::No,
        text("3.0.2"),
        Outcome::Seconds(7),
        Outcome::Done,
        global(Some("b")),
    ]);
    let (log, run) = follow_create(create("a".to_string(), None, false), outcomes);
    assert_eq!(log[0], "there? /p/envs/a");
    assert_eq!(log[1], "feed");
    assert_eq!(log[8], "git -C /p/envs/a checkout -f c1");
    assert_eq!(
        log[11..],
        [
            "engine? /p/envs/a",
            "dir? /p/shared/engines/h",
            "version? /p/envs/a",
            "now?",
            "save meta /p/envs/a a Some(\"stable\") Some(\"stable\") Some(\"3.0.2\") Some(\"c1\") Some(\"h\") Some(\"7\")",
            "load global",
        ]
    );
    match run.stage {
        CreateStage::Done(chosen) => assert_eq!(version_label(&chosen), "3.0.1"),
        stage => panic!("{stage:?}"),
    }
}

#[test]
fn first_environment_becomes_the_default() {
    let commit = "cccccccccccccccccccccccccccccccccccccccc";
    let mut outcomes = vec![Outcome::No];
    outcomes.extend(cloning());
    outcomes.extend([
        Outcome::Missing,
        Outcome::Missing,
        Outcome::Seconds(7),
        Outcome::Done,
        failed(),
        Outcome::No,
    ]);
    let run = create("a".to_string(), s(commit), true);
    let (log, run) = follow_create(run, outcomes);
    assert_eq!(log[log.len() - 1], "dir? /p/envs/a");
    match run.stage {
        CreateStage::Done(chosen) => assert_eq!(version_label(&chosen), commit),
        stage => panic!("{stage:?}"),
    }
}

#[test]
fn creation_failures_are_told() {
    let error = |run, outcomes| match follow_create(run, outcomes).1.stage {
        CreateStage::Failed(f) => f.error(),
        stage => panic!("{stage:?}"),
    };
    let start = |reference| create("a".to_string(), reference, false);
    assert!(error(create("a/b".to_string(), None, false), vec![])
        .message()
        .starts_with("invalid env name"));
    assert!(matches!(
        error(start(None), vec![Outcome::Yes]),
        PristError::EnvAlreadyExists(n) if n == "a"
    ));
    assert!(matches!(
        error(start(s("beta")), vec![Outcome::No, feed()]),
        PristError::NoCurrentRelease(n) if n == "beta"
    ));
    assert!(matches!(
        error(start(None), vec![Outcome::No, failed()]),
        PristError::ReleaseFeed(e) if e == "oh"
    ));
    assert!(matches!(
        error(start(s("master")), vec![Outcome::No, failed()]),
        PristError::Io(_)
    ));
    let mut outcomes = vec![Outcome::No, feed()];
    outcomes.extend(cloning());
    outcomes.extend([Outcome::Missing, Outcome::Missing, Outcome::Seconds(7), failed()]);
    outcomes.push(Outcome::Done);
    assert_eq!(error(start(None), outcomes).message(), "oh");
}

#[test]
fn failed_creation_is_cleaned_up() {
    let mut outcomes = vec![Outcome::No, feed()];
    outcomes.extend(ready());
    outcomes.extend([Outcome::Done, exit(Some(0)), exit(Some(1)), exit(Some(1)), failed()]);
    let (log, run) = follow_create(create("a".to_string(), None, false), outcomes);
    assert_eq!(log[log.len() - 1], "remove /p/envs/a");
    match run.stage {
        CreateStage::Failed(f) => {
            assert_eq!(f.error().message(), "git checkout c1 failed (exit Some(1))")
        }
        stage => panic!("{stage:?}"),
    }
}

fn follow_upgrade(mut run: Upgrade, outcomes: Vec<Outcome>) -> (Vec<String>, Upgrade) {
    let mut log = Vec::new();
    for o in outcomes {
        log.push(told(&run.action(&home(), LINUX).unwrap()));
        run = run.next(o);
    }
    (log, run)
}

/// The outcomes that make the shared repository ready.
fn ready() -> Vec<Outcome> {
    vec![Outcome::Done, Outcome::Yes, Outcome::Yes, text("[gc]\n\tauto = 0\n")]
}

#[test]
fn environment_is_upgraded_in_place() {
    let mut outcomes = vec![
        Outcome::Active(s("a")),
        Outcome::Yes,
        Outcome::Meta(meta(Some("stable"), Some("beta"), Some("2"))),
        feed(),
    ];
    outcomes.extend(ready());
    outcomes.extend([exit(Some(0)), Outcome::Missing, Outcome::Missing, Outcome::Done]);
    let (log, run) = follow_upgrade(upgrade(None, None), outcomes);
    assert_eq!(log[0], "active?");
    assert_eq!(log[8], "git -C /p/envs/a checkout -f c1");
    assert_eq!(
        log[11],
        "save meta /p/envs/a a Some(\"stable\") Some(\"stable\") Some(\"3.0.1\") Some(\"c1\") None Some(\"11\")"
    );
    assert!(matches!(run.stage, UpgradeStage::Done(n, _) if n == "a"));
}

#[test]
fn upgrade_follows_the_reference() {
    let target = |reference: Option<&str>, o| {
        let run = upgrade(s("a"), reference.map(|t| t.to_string()));
        match follow_upgrade(run, vec![Outcome::Yes, o]).1.stage {
            UpgradeStage::Resolve(_, t) => t,
            UpgradeStage::Bare(_, chosen, _) => chosen.target,
            stage => panic!("{stage:?}"),
        }
    };
    assert_eq!(target(Some("3"), Outcome::Meta(meta(Some("r"), Some("beta"), None))), "3");
    assert_eq!(target(None, Outcome::Meta(meta(Some("r"), Some("beta"), None))), "r");
    assert_eq!(target(None, Outcome::Meta(meta(None, Some("beta"), None))), "beta");
    assert_eq!(target(None, Outcome::Meta(meta(None, None, None))), "stable");
    assert_eq!(target(None, failed()), "stable");
    assert_eq!(target(Some("master"), failed()), "master");
}

#[test]
fn upgrade_failures_are_told() {
    let error = |run, outcomes| match follow_upgrade(run, outcomes).1.stage {
        UpgradeStage::Failed(f) => f.error(),
        stage => panic!("{stage:?}"),
    };
    assert!(matches!(
        error(upgrade(s("a"), None), vec![Outcome::No]),
        PristError::EnvNotFound(_)
    ));
    assert!(matches!(
        error(upgrade(s("a"), s("dev")), vec![Outcome::Yes, failed(), feed()]),
        PristError::NoCurrentRelease(_)
    ));
    let upto_checkout = || {
        let mut outcomes = vec![Outcome::Yes, failed()];
        outcomes.extend([Outcome::Done, Outcome::Yes, text("[gc]\n\tauto = 0\n")]);
        outcomes
    };
    let mut outcomes = upto_checkout();
    outcomes.push(failed());
    assert_eq!(
        error(upgrade(s("a"), s("master")), outcomes).message(),
        "failed to checkout master: oh"
    );
    assert!(matches!(
        error(upgrade(s("a"), s("dev")), vec![Outcome::Yes, failed(), failed()]),
        PristError::ReleaseFeed(_)
    ));
    let mut outcomes = upto_checkout();
    outcomes.push(exit(Some(1)));
    assert_eq!(
        error(upgrade(s("a"), s("master")), outcomes).message(),
        "git checkout master failed"
    );
}

fn follow_rm(mut run: Removal, outcomes: Vec<Outcome>) -> (Vec<String>, Removal) {
    let mut log = Vec::new();
    for o in outcomes {
        log.push(told(&run.action(&home()).unwrap()));
        run = run.next(o);
    }
    (log, run)
}

#[test]
fn environment_is_removed_after_confirmation() {
    let (log, run) = follow_rm(
        rm(None, false),
        vec![
            text("a"),
            Outcome::Yes,
            Outcome::Yes,
            Outcome::Done,
            global(Some("a")),
            Outcome::Done,
            failed(),
        ],
    );
    assert!(matches!(run.stage, RemoveStage::Done(n) if n == "a"));
    assert_eq!(
        log,
        [
            "choose ? Select an environment to remove:",
            "dir? /p/envs/a",
            "confirm a",
            "remove /p/envs/a",
            "load global",
            "save global None",
            "unlink /p/envs/default",
        ]
    );
}

#[test]
fn other_defaults_stay() {
    let (log, run) = follow_rm(
        rm(s("a"), true),
        vec![Outcome::Yes, Outcome::Done, global(Some("b"))],
    );
    assert!(matches!(run.stage, RemoveStage::Done(_)));
    assert_eq!(log, ["dir? /p/envs/a", "remove /p/envs/a", "load global"]);
}

#[test]
fn removal_can_be_called_off() {
    let (_, run) = follow_rm(rm(s("a"), false), vec![Outcome::Yes, Outcome::No]);
    assert!(matches!(run.stage, RemoveStage::Aborted));
    assert!(run.action(&home()).is_none());
    for name in ["../shared", ".", "..", "", "default", "a\\b"] {
        let given = rm(s(name), true);
        assert!(given.action(&home()).is_none(), "{name}");
        let chosen = follow_rm(rm(None, true), vec![text(name)]).1;
        for run in [given, chosen] {
            match run.stage {
                RemoveStage::Failed(f) => {
                    assert_eq!(f.error().message(), format!("invalid env name '{name}'"))
                }
                stage => panic!("{stage:?}"),
            }
        }
    }
    match follow_rm(rm(s("a"), true), vec![Outcome::No]).1.stage {
        RemoveStage::Failed(f) => assert_eq!(f.error().message(), "environment 'a' not found"),
        stage => panic!("{stage:?}"),
    }
    match follow_rm(rm(s("a"), true), vec![Outcome::Yes, failed()]).1.stage {
        RemoveStage::Failed(f) => assert_eq!(f.error().message(), "oh"),
        stage => panic!("{stage:?}"),
    }
}

fn facts(env: &str) -> Outcome {
    Outcome::Path(PathFacts {
        path: "/p/bin:/usr/bin".to_string(),
        facts: vec![
            EntryFacts { resolved_same: Some(true), same_path: true },
            EntryFacts { resolved_same: Some(false), same_path: false },
        ],
        shims: "/p/bin".to_string(),
        env: env.to_string(),
        bin: format!("{env}/bin"),
        sdk_bin: format!("{env}/sdk"),
    })
}

fn follow_proxy(tool: &str, platform: Platform, outcomes: Vec<Outcome>) -> (Vec<String>, Proxy) {
    let mut run = proxy(tool.to_string(), 1);
    let mut log = Vec::new();
    for o in outcomes {
        log.push(told(&run.action(&home(), platform).unwrap()));
        run = run.next(platform, o);
    }
    (log, run)
}

#[test]
fn tool_of_the_active_environment_is_run() {
    let (log, run) = follow_proxy(
        "pub",
        LINUX,
        vec![
            Outcome::Active(s("a")),
            Outcome::Yes,
            Outcome::Missing,
            Outcome::No,
            Outcome::Yes,
            facts("/p/envs/a"),
            exit(Some(3)),
        ],
    );
    assert!(matches!(run.stage, ProxyStage::Exited(3)));
    assert_eq!(
        log,
        [
            "active?",
            "dir? /p/envs/a",
            "engine? /p/envs/a",
            "there? /p/envs/a/bin/dart",
            "there? /p/envs/a/bin/cache/dart-sdk/bin/dart",
            "path? /p/envs/a /p/envs/a/bin /p/envs/a/bin/cache/dart-sdk/bin /p/bin",
            "launch /p/envs/a/bin/cache/dart-sdk/bin/dart [Word(\"pub\"), User(0)] FLUTTER_ROOT=/p/envs/a FLUTTER_GIT_URL=https://github.com/flutter/flutter.git PATH=/p/envs/a/bin:/p/envs/a/sdk:/usr/bin FLUTTER_ALREADY_WAITED=true",
        ]
    );
}

#[test]
fn default_link_is_followed() {
    let (log, run) = follow_proxy(
        "flutter",
        Platform::Windows,
        vec![
            Outcome::Active(None),
            text("/x"),
            Outcome::Yes,
            Outcome::Missing,
            Outcome::Yes,
            facts("/x"),
            exit(None),
        ],
    );
    assert!(matches!(run.stage, ProxyStage::Exited(1)));
    assert_eq!(
        log[1..5],
        ["link? /p/envs/default", "dir? /x", "engine? /x", "there? /x/bin/flutter.bat"]
    );
    assert!(log[6].starts_with("launch /x/bin/flutter.bat [User(0)] FLUTTER_ROOT=/x "));
}

#[test]
fn only_environment_becomes_the_default() {
    let names = vec!["default".to_string(), "a".to_string()];
    let (log, run) = follow_proxy(
        "dart",
        LINUX,
        vec![
            Outcome::Active(None),
            Outcome::Missing,
            Outcome::Names(names),
            Outcome::No,
        ],
    );
    assert_eq!(log[3], "dir? /p/envs/a");
    assert!(matches!(run.stage, ProxyStage::EngineVersion(_)));
}

#[test]
fn user_chooses_among_several() {
    let names = || vec!["b".to_string(), "a".to_string()];
    let (log, run) = follow_proxy(
        "dart",
        LINUX,
        vec![
            Outcome::Active(None),
            text("/gone"),
            Outcome::No,
            Outcome::Names(names()),
            Outcome::Yes,
            text("a"),
        ],
    );
    assert_eq!(
        log[3..],
        [
            "envs?",
            "terminal?",
            "choose ? No active environment. Select one to activate:"
        ]
    );
    assert!(matches!(run.stage, ProxyStage::Activate(n, _) if n == "a"));
}

#[test]
fn proxy_failures_are_told() {
    let error = |tool, outcomes| match follow_proxy(tool, LINUX, outcomes).1.stage {
        ProxyStage::Failed(f) => f.error(tool, "/p/envs/a", "/p/envs/a/bin/flutter").message(),
        stage => panic!("{stage:?}"),
    };
    let found = || vec![Outcome::Active(s("a")), Outcome::Yes, Outcome::Missing];
    assert_eq!(error("dart", vec![Outcome::Active(s("a")), Outcome::No]), "environment 'a' not found");
    assert_eq!(
        error("dart", vec![Outcome::Active(None), Outcome::Missing, Outcome::Names(vec![])]),
        "No environments installed. Run `prist create <name> <version>`."
    );
    assert_eq!(
        error("dart", vec![Outcome::Active(None), Outcome::Missing, failed()]),
        "No environments installed. Run `prist create <name> <version>`."
    );
    assert_eq!(
        error(
            "dart",
            vec![
                Outcome::Active(None),
                Outcome::Missing,
                Outcome::Names(vec!["b".to_string(), "a".to_string()]),
                Outcome::No
            ]
        ),
        "no active environment. Run `prist use <name>`."
    );
    assert_eq!(error("dart", vec![Outcome::Active(None), failed()]), "oh");
    let mut outcomes = found();
    outcomes.extend([Outcome::No, Outcome::No]);
    assert_eq!(
        error("dart", outcomes),
        "dart not found in /p/envs/a (is the env fully created?)"
    );
    let mut outcomes = found();
    outcomes.extend([Outcome::Yes, facts("/p/envs/a"), failed()]);
    assert_eq!(error("flutter", outcomes), "failed to run /p/envs/a/bin/flutter: oh");
}

#[test]
fn activated_environment_is_active() {
    let (_, run) =
        activate(use_env(s("a"), false), vec![Outcome::Yes, Outcome::Missing, Outcome::Missing]);
    match run.stage {
        UseStage::SaveProject(_, config) => {
            match resolve_active(Some(("/w/.pristrc".to_string(), config)), None) {
                Resolution::Active(Some(n), ActiveSource::Project(_)) => assert_eq!(n, "a"),
                r => panic!("{r:?}"),
            }
        }
        stage => panic!("{stage:?}"),
    }
    let (_, run) =
        activate(use_env(s("a"), true), vec![Outcome::Yes, Outcome::Missing, global(None)]);
    match run.stage {
        UseStage::SaveGlobal(_, config) => match resolve_active(None, Some(config)) {
            Resolution::Active(Some(n), ActiveSource::Global) => assert_eq!(n, "a"),
            r => panic!("{r:?}"),
        },
        stage => panic!("{stage:?}"),
    }
}
