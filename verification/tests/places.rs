use prist::cli::{log_filter, resolve_home};
use prist::config::{
    find_active, resolve_active, ActiveSearch, ActiveSource, EnvMeta, FileRead, GlobalConfig, Loaded, ProjectConfig,
    Resolution,
};
use prist::error::PristError;
use prist::members::{Member, MemberValue};
use prist::paths::{find_project_config, EnvPlace, Location, PristHome, PROJECT_CONFIG_NAME};
use prist::releases::Platform;
use prist::work::{Action, Outcome};

fn s(t: &str) -> Option<String> {
    Some(t.to_string())
}

fn shown(l: &Location) -> String {
    let mut all = vec![l.base.clone()];
    all.extend(l.parts.iter().cloned());
    all.join("/")
}

#[test]
fn home_is_found() {
    let h = PristHome::find(Platform::Linux, s("/p"), s("/l"), s("/h")).unwrap();
    assert_eq!(shown(h.root()), "/p");
    let h = PristHome::find(Platform::Windows, None, s("/l"), s("/h")).unwrap();
    assert_eq!(shown(h.root()), "/l/prist");
    let h = PristHome::find(Platform::Linux, None, s("/l"), s("/h")).unwrap();
    assert_eq!(shown(h.root()), "/h/.prist");
    let h = PristHome::find(Platform::Windows, None, None, s("/h")).unwrap();
    assert_eq!(shown(h.root()), "/h/.prist");
    assert!(matches!(
        PristHome::find(Platform::Linux, None, None, None),
        Err(PristError::Other(m)) if m == "could not determine the user home directory"
    ));
    let h = resolve_home(s("/given"), Platform::Linux, s("/p"), None, None).unwrap();
    assert_eq!(shown(h.root()), "/given");
    let h = resolve_home(None, Platform::Linux, s("/p"), None, None).unwrap();
    assert_eq!(shown(h.root()), "/p");
    assert!(resolve_home(None, Platform::Linux, None, None, None).is_err());
}

#[test]
fn home_is_laid_out() {
    let h = PristHome { root: Location::at("/p") };
    assert_eq!(shown(&h.shared()), "/p/shared");
    assert_eq!(shown(&h.git_bare()), "/p/shared/git_bare.git");
    assert_eq!(shown(&h.engines()), "/p/shared/engines");
    assert_eq!(shown(&h.engine("abc")), "/p/shared/engines/abc");
    assert_eq!(shown(&h.envs()), "/p/envs");
    assert_eq!(shown(&h.env("a")), "/p/envs/a");
    assert_eq!(shown(&h.default_env_link()), "/p/envs/default");
    assert_eq!(shown(&h.config_file()), "/p/config.json");
    let dirs: Vec<(String, &str)> =
        h.ensure().iter().map(|d| (shown(&d.dir), d.doing)).collect();
    assert_eq!(
        dirs,
        [
            ("/p".to_string(), "creating prist home at"),
            ("/p/shared/git_bare.git".to_string(), "creating bare repo dir at"),
            ("/p/shared/engines".to_string(), "creating engines dir at"),
            ("/p/envs".to_string(), "creating envs dir at"),
        ]
    );
    assert_eq!(shown(&EnvPlace::Named("a".to_string()).location(&h)), "/p/envs/a");
    assert_eq!(shown(&EnvPlace::Linked("/x".to_string()).location(&h)), "/x");
}

#[test]
fn nearest_project_file_counts() {
    assert_eq!(find_project_config(&vec![false, true, true]), Some(1));
    assert_eq!(find_project_config(&vec![true]), Some(0));
    assert_eq!(find_project_config(&vec![false, false]), None);
    assert_eq!(PROJECT_CONFIG_NAME, ".pristrc");
}

#[test]
fn project_file_comes_before_global_default() {
    let project = |env: Option<String>| {
        Some(("/w/.pristrc".to_string(), ProjectConfig { env, flutter: None }))
    };
    let global = |env: Option<String>| Some(GlobalConfig { default_env: env });
    match resolve_active(project(s("a")), global(s("b"))) {
        Resolution::Active(Some(n), ActiveSource::Project(p)) => {
            assert_eq!(n, "a");
            assert_eq!(p, "/w/.pristrc");
        }
        _ => panic!(),
    }
    assert!(matches!(resolve_active(project(None), None), Resolution::NeedGlobal));
    assert!(matches!(resolve_active(None, None), Resolution::NeedGlobal));
    match resolve_active(project(None), global(s("b"))) {
        Resolution::Active(Some(n), ActiveSource::Global) => assert_eq!(n, "b"),
        _ => panic!(),
    }
    assert!(matches!(
        resolve_active(None, global(None)),
        Resolution::Active(None, ActiveSource::Nowhere)
    ));
}

#[test]
fn configurations_are_loaded() {
    let text = |t: &str| FileRead::Text(t.to_string());
    assert!(matches!(
        ProjectConfig::load(FileRead::Missing, "/f"),
        Loaded::Ready(ProjectConfig { env: None, flutter: None })
    ));
    assert!(matches!(ProjectConfig::load(text(" \n"), "/f"), Loaded::Ready(_)));
    match ProjectConfig::load(text("{}"), "/f") {
        Loaded::Parse { text, doing } => {
            assert_eq!(text, "{}");
            assert_eq!(doing, "parsing project config at /f");
        }
        _ => panic!(),
    }
    match ProjectConfig::load(FileRead::Failed("denied".to_string()), "/f") {
        Loaded::Failed { cause, doing } => {
            assert_eq!(cause, "denied");
            assert_eq!(doing, "reading project config at /f");
        }
        _ => panic!(),
    }
    assert!(matches!(
        GlobalConfig::load(FileRead::Missing, "/f"),
        Loaded::Ready(GlobalConfig { default_env: None })
    ));
    match GlobalConfig::load(text("x"), "/f") {
        Loaded::Parse { doing, .. } => assert_eq!(doing, "parsing global config at /f"),
        _ => panic!(),
    }
    match GlobalConfig::load(FileRead::Failed("denied".to_string()), "/f") {
        Loaded::Failed { doing, .. } => assert_eq!(doing, "reading global config at /f"),
        _ => panic!(),
    }
    assert!(matches!(EnvMeta::load(text("")), Loaded::Ready(None)));
    assert!(matches!(EnvMeta::load(FileRead::Missing), Loaded::Ready(None)));
    assert!(matches!(EnvMeta::load(text("{}")), Loaded::Parse { .. }));
    assert!(matches!(
        EnvMeta::load(FileRead::Failed(String::new())),
        Loaded::Failed { .. }
    ));
    assert_eq!(shown(&EnvMeta::path(&Location::at("/e"))), "/e/.prist-meta.json");
}

#[test]
fn verbosity_chooses_the_filter() {
    assert_eq!(log_filter(0), "prist=warn");
    assert_eq!(log_filter(1), "prist=info");
    assert_eq!(log_filter(2), "prist=debug");
    assert_eq!(log_filter(3), "prist=trace");
    assert_eq!(log_filter(255), "prist=trace");
}

#[test]
fn places_do_not_clash() {
    let h = PristHome { root: Location::at("/p") };
    assert_ne!(shown(&h.env("a")), shown(&h.env("b")));
    assert_ne!(shown(&h.env("a")), shown(&h.default_env_link()));
    assert_ne!(shown(&h.engine("a")), shown(&h.engine("b")));
    assert!(!shown(&h.env("a")).starts_with(&shown(&h.shared())));
}

fn search(outcomes: Vec<Outcome>) -> (Vec<String>, ActiveSearch) {
    let home = PristHome { root: Location::at("/p") };
    let mut run = find_active();
    let mut log = Vec::new();
    for o in outcomes {
        log.push(match run.action(&home).unwrap() {
            Action::FindProjectFile => "find".to_string(),
            Action::ReadConfig(l) => format!("read {}", shown(&l)),
            Action::ParseProject { text } => format!("project {text}"),
            Action::ParseGlobal { text } => format!("global {text}"),
            a => panic!("{a:?}"),
        });
        run = run.next(o);
    }
    (log, run)
}

#[test]
fn active_environment_is_searched() {
    let text = |t: &str| Outcome::Text(t.to_string());
    let project = |env| Outcome::Project(ProjectConfig { env, flutter: None });
    let global = |env| Outcome::Global(GlobalConfig { default_env: env });
    let (log, run) = search(vec![text("/w/.pristrc"), text("{..}"), project(s("a"))]);
    assert_eq!(log, ["find", "read /w/.pristrc", "project {..}"]);
    assert!(matches!(run, ActiveSearch::Done(Some(n), ActiveSource::Project(p))
        if n == "a" && p == "/w/.pristrc"));
    let (log, run) = search(vec![
        text("/w/.pristrc"),
        text("{}"),
        project(None),
        text("{.}"),
        global(s("b")),
    ]);
    assert_eq!(log[3..], ["read /p/config.json", "global {.}"]);
    assert!(matches!(run, ActiveSearch::Done(Some(n), ActiveSource::Global) if n == "b"));
    let (_, run) = search(vec![Outcome::Missing, text("{}"), global(None)]);
    assert!(matches!(run, ActiveSearch::Done(None, ActiveSource::Nowhere)));
    let (_, run) = search(vec![text("/w/.pristrc"), text(" \n"), Outcome::Missing]);
    assert!(matches!(run, ActiveSearch::Done(None, ActiveSource::Nowhere)));
}

#[test]
fn search_does_not_fall_back() {
    let text = |t: &str| Outcome::Text(t.to_string());
    let oh = || Outcome::Failed("oh".to_string());
    let trouble = |outcomes| match search(outcomes).1 {
        ActiveSearch::Failed(f) => {
            let t = f.trouble("/p/config.json");
            assert_eq!(t.cause.as_deref(), Some("oh"));
            t.doing
        }
        run => panic!("{run:?}"),
    };
    assert_eq!(trouble(vec![text("/w/.pristrc"), oh()]), "reading project config at /w/.pristrc");
    assert_eq!(
        trouble(vec![text("/w/.pristrc"), text("{"), oh()]),
        "parsing project config at /w/.pristrc"
    );
    assert_eq!(trouble(vec![Outcome::Missing, oh()]), "reading global config at /p/config.json");
    assert_eq!(
        trouble(vec![Outcome::Missing, text("{"), oh()]),
        "parsing global config at /p/config.json"
    );
}

#[test]
fn records_are_read_back() {
    let m = EnvMeta {
        name: "a".to_string(),
        reference: s("stable"),
        channel: None,
        version: s("3.0.1"),
        commit: s("c0"),
        engine_hash: None,
        created_at: s("7"),
    };
    let fields = m.fields();
    let keys: Vec<&str> = fields.iter().map(|f| f.key).collect();
    assert_eq!(keys, ["name", "reference", "version", "commit", "created_at"]);
    let member = |key: &str, value| Member { key: key.to_string(), value };
    let mut members: Vec<Member> =
        fields.into_iter().map(|f| member(f.key, MemberValue::Text(f.value))).collect();
    members.push(member("channel", MemberValue::Null));
    members.push(member("later", MemberValue::Other));
    let back = EnvMeta::from_members(&members).unwrap();
    assert_eq!(back.name, m.name);
    assert_eq!(back.reference, m.reference);
    assert_eq!(back.channel, None);
    assert_eq!(back.version, m.version);
    assert_eq!(back.commit, m.commit);
    assert_eq!(back.engine_hash, None);
    assert_eq!(back.created_at, m.created_at);
    assert!(matches!(
        EnvMeta::from_members(&Vec::new()),
        Err(PristError::Json(e)) if e == "missing field `name`"
    ));
    members.push(member("version", MemberValue::Other));
    assert!(matches!(
        EnvMeta::from_members(&members),
        Err(PristError::Json(e)) if e == "invalid type, expected a string"
    ));
}
