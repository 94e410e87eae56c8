use prist::error::PristError;
use prist::git_ops::{
    create_env_from_bare, ensure_bare, is_bare_repo, read_alternates, read_engine_version,
    read_flutter_version, repaired_config, set_gc_auto_zero, write_alternates, CloneStage,
    EnsureBare, EnvClone, GitFailure,
};
use prist::paths::{Location, PristHome};
use prist::work::{Action, Arg, Args, Outcome};

fn home() -> PristHome {
    PristHome { root: Location::at("/p") }
}

fn shown(l: &Location) -> String {
    let mut all = vec![l.base.clone()];
    all.extend(l.parts.iter().cloned());
    all.join("/")
}

fn words(args: &Args) -> String {
    let words: Vec<String> = args
        .list
        .iter()
        .map(|a| match a {
            Arg::Word(w) => w.clone(),
            Arg::Place(l) => shown(l),
        })
        .collect();
    words.join(" ")
}

fn told(a: &Action) -> String {
    match a {
        Action::MakeParent(l) => format!("parent {}", shown(l)),
        Action::MakeDirectory(l) => format!("dir {}", shown(l)),
        Action::IsBareRepository(l) => format!("bare? {}", shown(l)),
        Action::HasObject { repository, name } => format!("has? {} {name}", shown(repository)),
        Action::Read(l) => format!("read {}", shown(l)),
        Action::Write { file, text } => format!("write {} {text:?}", shown(file)),
        Action::WriteAlternates { file, objects } => {
            format!("alternates {} {}", shown(file), shown(objects))
        }
        Action::Git { args, shown } => format!("git{} {}", if *shown { "!" } else { "" }, words(args)),
        Action::GitAfterNotice { notice, args } => format!("{notice} git! {}", words(args)),
        _ => panic!("{a:?}"),
    }
}

fn exit(code: Option<i32>) -> Outcome {
    Outcome::Exit { code, told: String::new() }
}

fn failed() -> Outcome {
    Outcome::Failed("oh".to_string())
}

fn bare_run(commit: Option<&str>, outcomes: Vec<Outcome>) -> (Vec<String>, EnsureBare) {
    let mut run = ensure_bare(commit.map(|c| c.to_string()));
    let mut log = Vec::new();
    for o in outcomes {
        log.push(told(&run.action(&home()).unwrap()));
        run = run.next(o);
    }
    (log, run)
}

fn clone_run(commit: Option<&str>, outcomes: Vec<Outcome>) -> (Vec<String>, EnvClone) {
    let mut run = create_env_from_bare("a".to_string(), commit.map(|c| c.to_string()));
    let mut log = Vec::new();
    for o in outcomes {
        log.push(told(&run.action(&home()).unwrap()));
        run = run.next(o);
    }
    (log, run)
}

#[test]
fn bare_repositories_have_four_parts() {
    assert!(is_bare_repo(true, true, true, true));
    assert!(!is_bare_repo(false, true, true, true));
    assert!(!is_bare_repo(true, false, true, true));
    assert!(!is_bare_repo(true, true, false, true));
    assert!(!is_bare_repo(true, true, true, false));
}

#[test]
fn garbage_collection_is_turned_off() {
    let section = "[gc]\n\tauto = 0\n";
    assert_eq!(set_gc_auto_zero("").as_deref(), Some(section));
    assert_eq!(
        set_gc_auto_zero("[core]\n\tbare = true").unwrap(),
        format!("[core]\n\tbare = true\n{section}")
    );
    assert_eq!(set_gc_auto_zero(section), None);
    assert_eq!(set_gc_auto_zero("[core]\n\tx = 1\n[GC]\n  Auto=0\n[a]\n"), None);
    assert_eq!(set_gc_auto_zero("[gc] # mine\n\tauto = 0 ; note\n# [gc]\n; auto = 1\n"), None);
    let on = "[gc]\n\tauto = 256\n";
    assert_eq!(set_gc_auto_zero(on).unwrap(), format!("{on}{section}"));
    let other = "[gc]\n\tpruneExpire = never\n[core]\n\tautocrlf = true\n";
    assert_eq!(set_gc_auto_zero(other).unwrap(), format!("{other}{section}"));
    let elsewhere = "[gc]\n[core]\n\tauto = 0\n";
    assert_eq!(set_gc_auto_zero(elsewhere).unwrap(), format!("{elsewhere}{section}"));
    let inline = "[gc]\n\tauto = 0\n[gc] auto = 1\n";
    let folded = "[gc]\n\tx = a \\\n\tauto = 0\n";
    let drawn_in = "[gc]\n\tauto = 0\n[include]\n\tpath = other\n";
    let noted = "[gc]\n\tauto = 1 # 0\n";
    let quoted = "[gc]\n\tx = \"a;b \\\n\tauto = 0\n";
    let unset = "[gc]\n\tauto = 0\n\tauto\n";
    for t in ["", on, other, elsewhere, inline, folded, drawn_in, noted, quoted, unset] {
        assert!(set_gc_auto_zero(t).is_some(), "{t:?}");
        assert_eq!(set_gc_auto_zero(&set_gc_auto_zero(t).unwrap()), None);
        assert_eq!(set_gc_auto_zero(&repaired_config(t)), None);
    }
    assert_eq!(repaired_config("x"), "x\n[gc]\n\tauto = 0\n");
}

#[test]
fn alternates_are_read_back() {
    let t = write_alternates("/p/shared/git_bare.git/objects");
    assert_eq!(t, "/p/shared/git_bare.git/objects\n");
    assert_eq!(
        read_alternates(Some(&t)),
        Some(vec!["/p/shared/git_bare.git/objects".to_string()])
    );
    assert_eq!(read_alternates(Some("/a\n/b")).unwrap(), ["/a", "/b"]);
    assert_eq!(read_alternates(None), None);
}

#[test]
fn versions_are_read() {
    assert_eq!(read_engine_version(Some(" abc\n")).as_deref(), Some("abc"));
    assert_eq!(read_engine_version(None), None);
    assert_eq!(read_flutter_version(Some("1\n"), Some("2"), None).as_deref(), Some("1"));
    assert_eq!(read_flutter_version(None, Some(" 2\n"), Some("version: 3")).as_deref(), Some("2"));
    assert_eq!(
        read_flutter_version(None, None, Some("name: flutter\nversion: 3.0.1 \nversion: 4\n"))
            .as_deref(),
        Some("3.0.1")
    );
    assert_eq!(read_flutter_version(None, None, Some(" version: 3")), None);
    assert_eq!(read_flutter_version(None, None, None), None);
}

#[test]
fn shared_repository_is_cloned_once() {
    let (log, run) = bare_run(
        Some("c0"),
        vec![
            Outcome::Done,
            Outcome::No,
            exit(Some(0)),
            failed(),
            Outcome::No,
            failed(),
            failed(),
            Outcome::Text("[core]".to_string()),
            Outcome::Done,
        ],
    );
    assert!(matches!(run, EnsureBare::Done));
    assert!(run.action(&home()).is_none());
    let bare = "/p/shared/git_bare.git";
    assert_eq!(
        log,
        [
            format!("parent {bare}"),
            format!("bare? {bare}"),
            format!("  → fetching Flutter repo (this may take a minute)... git! clone --bare --progress https://github.com/flutter/flutter.git {bare}"),
            format!("git -C {bare} fetch origin +refs/tags/*:refs/tags/*"),
            format!("has? {bare} c0"),
            format!(
                "git -C {bare} fetch origin +refs/tags/*:refs/tags/* +refs/heads/*:refs/heads/*"
            ),
            format!("git -C {bare} fetch origin c0"),
            format!("read {bare}/config"),
            format!("write {bare}/config {:?}", "[core]\n[gc]\n\tauto = 0\n"),
        ]
    );
}

#[test]
fn ready_repository_is_left_alone() {
    let off = "[gc]\n\tauto = 0\n".to_string();
    let (log, run) = bare_run(
        Some("c0"),
        vec![Outcome::Done, Outcome::Yes, Outcome::Yes, Outcome::Text(off.clone())],
    );
    assert!(matches!(run, EnsureBare::Done));
    assert_eq!(log.len(), 4);
    let (log, run) = bare_run(None, vec![Outcome::Done, Outcome::Yes, Outcome::Text(off)]);
    assert!(matches!(run, EnsureBare::Done));
    assert_eq!(log[2], "read /p/shared/git_bare.git/config");
    let (log, run) =
        bare_run(None, vec![Outcome::Done, Outcome::Yes, failed(), Outcome::Done]);
    assert!(matches!(run, EnsureBare::Done));
    assert_eq!(log[3], format!("write /p/shared/git_bare.git/config {:?}", "[gc]\n\tauto = 0\n"));
}

#[test]
fn bare_clone_failures_are_told() {
    let error = |outcomes| match bare_run(None, outcomes).1 {
        EnsureBare::Failed(f) => f.error(),
        run => panic!("{run:?}"),
    };
    assert!(matches!(error(vec![failed()]), PristError::Io(e) if e == "oh"));
    assert_eq!(
        error(vec![Outcome::Done, Outcome::No, failed()]).message(),
        "failed to run git: oh"
    );
    assert_eq!(
        error(vec![Outcome::Done, Outcome::No, exit(Some(128))]).message(),
        "git clone --bare failed (exit Some(128))"
    );
    assert_eq!(
        error(vec![Outcome::Done, Outcome::No, exit(None)]).message(),
        "git clone --bare failed (exit None)"
    );
    assert!(matches!(
        error(vec![Outcome::Done, Outcome::Yes, failed(), failed()]),
        PristError::Io(_)
    ));
}

#[test]
fn environments_are_cloned_and_linked() {
    let (log, run) = clone_run(
        Some("c0"),
        vec![
            Outcome::Done,
            exit(Some(0)),
            exit(Some(1)),
            exit(Some(0)),
            Outcome::Done,
            Outcome::Done,
        ],
    );
    assert!(matches!(run.stage, CloneStage::Done));
    assert!(run.action(&home()).is_none());
    assert_eq!(
        log,
        [
            "parent /p/envs/a",
            "git! clone --shared /p/shared/git_bare.git /p/envs/a",
            "git! -C /p/envs/a checkout -f c0",
            "git! -C /p/envs/a checkout -f vc0",
            "dir /p/envs/a/.git/objects/info",
            "alternates /p/envs/a/.git/objects/info/alternates /p/shared/git_bare.git/objects",
        ]
    );
    let (log, run) = clone_run(
        None,
        vec![Outcome::Done, exit(Some(0)), Outcome::Done, Outcome::Done],
    );
    assert!(matches!(run.stage, CloneStage::Done));
    assert_eq!(log.len(), 4);
}

#[test]
fn clone_failures_are_told() {
    let error = |outcomes| match clone_run(Some("c0"), outcomes).1.stage {
        CloneStage::Failed(f) => f.error(),
        stage => panic!("{stage:?}"),
    };
    assert!(matches!(error(vec![failed()]), PristError::Io(_)));
    assert_eq!(error(vec![Outcome::Done, failed()]).message(), "failed to run git clone: oh");
    assert_eq!(
        error(vec![Outcome::Done, exit(Some(2))]).message(),
        "git clone --shared failed (exit Some(2))"
    );
    assert_eq!(
        error(vec![Outcome::Done, exit(Some(0)), failed()]).message(),
        "failed to run git checkout: oh"
    );
    assert_eq!(
        error(vec![Outcome::Done, exit(Some(0)), exit(Some(1)), failed()]).message(),
        "failed to run git checkout: oh"
    );
    assert_eq!(
        error(vec![Outcome::Done, exit(Some(0)), exit(Some(1)), exit(Some(-1))]).message(),
        "git checkout c0 failed (exit Some(-1))"
    );
    assert!(matches!(
        error(vec![Outcome::Done, exit(Some(0)), exit(Some(0)), failed()]),
        PristError::Io(_)
    ));
    assert!(matches!(
        error(vec![Outcome::Done, exit(Some(0)), exit(Some(0)), Outcome::Done, failed()]),
        PristError::Io(_)
    ));
    assert!(matches!(GitFailure::System("x".to_string()).error(), PristError::Io(_)));
}
