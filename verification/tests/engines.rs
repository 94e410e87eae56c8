use prist::engine::{
    engine_dir, ensure_engine, host_engine_segment, is_cached, link_engine_cache, relocate_cache, try_link_engine,
    write_stamp, EngineShare, EngineStage, MoveStage,
};
use prist::paths::{EnvPlace, Location, PristHome};
use prist::releases::Platform;
use prist::work::{Action, Arg, Args, Outcome};

fn home() -> PristHome {
    PristHome { root: Location::at("/p") }
}

fn shown(l: &Location) -> String {
    let mut all = vec![l.base.clone()];
    all.extend(l.parts.iter().cloned());
    all.join("/")
}

fn words(args: &Args) -> String {
    let words: Vec<String> = args
        .list
        .iter()
        .map(|a| match a {
            Arg::Word(w) => w.clone(),
            Arg::Place(l) => shown(l),
        })
        .collect();
    words.join(" ")
}

fn told(a: &Action) -> String {
    match a {
        Action::IsDirectory(l) => format!("dir? {}", shown(l)),
        Action::Exists(l) => format!("there? {}", shown(l)),
        Action::Read(l) => format!("read {}", shown(l)),
        Action::Run { program, args, directory } => {
            format!("run {} {} in {}", shown(program), words(args), shown(directory))
        }
        Action::MakeDirectory(l) => format!("dir {}", shown(l)),
        Action::MakeParent(l) => format!("parent {}", shown(l)),
        Action::MoveContents { from, to } => format!("move {} {}", shown(from), shown(to)),
        Action::WriteAtomically { file, text } => format!("write {} {text}", shown(file)),
        Action::RemoveTree(l) => format!("remove {}", shown(l)),
        Action::Link { link, target } => format!("link {} {}", shown(link), shown(target)),
        _ => panic!("{a:?}"),
    }
}

fn follow(
    mut run: EngineShare,
    platform: Platform,
    outcomes: Vec<Outcome>,
) -> (Vec<String>, EngineShare) {
    let mut log = Vec::new();
    for o in outcomes {
        log.push(told(&run.action(&home(), platform).unwrap()));
        run = run.next(o);
    }
    (log, run)
}

fn named() -> EnvPlace {
    EnvPlace::Named("a".to_string())
}

fn exit(code: Option<i32>, told: &str) -> Outcome {
    Outcome::Exit { code, told: told.to_string() }
}

fn failed() -> Outcome {
    Outcome::Failed("oh".to_string())
}

#[test]
fn stamps_mark_revisions() {
    assert_eq!(shown(&engine_dir(&home(), "h")), "/p/shared/engines/h");
    assert!(is_cached("h", true, Some("h")));
    assert!(is_cached("h", true, Some(" h\n")));
    assert!(!is_cached("h", false, Some("h")));
    assert!(!is_cached("h", true, Some("g")));
    assert!(!is_cached("h", true, None));
    match write_stamp(&Location::at("/e"), "h") {
        Action::WriteAtomically { file, text } => {
            assert_eq!(shown(&file), "/e/engine.stamp");
            assert!(is_cached("h", true, Some(&text)));
        }
        a => panic!("{a:?}"),
    }
}

#[test]
fn platforms_have_segments() {
    assert_eq!(host_engine_segment(Platform::Linux), "linux-x64");
    assert_eq!(host_engine_segment(Platform::Macos), "darwin-x64");
    assert_eq!(host_engine_segment(Platform::Windows), "windows-x64");
}

#[test]
fn missing_engine_is_downloaded_and_shared() {
    let (log, run) = follow(
        ensure_engine(named(), "h".to_string()),
        Platform::Linux,
        vec![
            Outcome::No,
            exit(Some(0), ""),
            failed(),
            Outcome::Done,
            Outcome::Yes,
            Outcome::Done,
            Outcome::Done,
            Outcome::Yes,
            Outcome::Done,
            Outcome::Done,
            Outcome::Done,
        ],
    );
    assert!(matches!(run.stage, EngineStage::Linked));
    assert_eq!(
        log,
        [
            "dir? /p/shared/engines/h",
            "run /p/envs/a/bin/flutter --version --suppress-analytics in /p/envs/a",
            "run /p/envs/a/bin/flutter precache --suppress-analytics in /p/envs/a",
            "dir /p/shared/engines/h",
            "dir? /p/envs/a/bin/cache",
            "move /p/envs/a/bin/cache /p/shared/engines/h",
            "write /p/shared/engines/h/engine.stamp h",
            "there? /p/envs/a/bin/cache",
            "remove /p/envs/a/bin/cache",
            "parent /p/envs/a/bin/cache",
            "link /p/envs/a/bin/cache /p/shared/engines/h",
        ]
    );
}

#[test]
fn cached_engine_is_only_linked() {
    let (log, run) = follow(
        try_link_engine(EnvPlace::Linked("/x".to_string()), "h".to_string()),
        Platform::Windows,
        vec![
            Outcome::Yes,
            Outcome::Text("h\n".to_string()),
            Outcome::No,
            Outcome::Done,
            Outcome::Done,
        ],
    );
    assert!(matches!(run.stage, EngineStage::Linked));
    assert_eq!(
        log,
        [
            "dir? /p/shared/engines/h",
            "read /p/shared/engines/h/engine.stamp",
            "there? /x/bin/cache",
            "parent /x/bin/cache",
            "link /x/bin/cache /p/shared/engines/h",
        ]
    );
    let run = link_engine_cache(named(), "h".to_string());
    assert_eq!(told(&run.action(&home(), Platform::Linux).unwrap()), "there? /p/envs/a/bin/cache");
}

#[test]
fn nothing_is_downloaded_unasked() {
    let run = try_link_engine(named(), "h".to_string());
    let (_, run) = follow(run, Platform::Linux, vec![Outcome::No]);
    assert!(matches!(run.stage, EngineStage::Absent));
    assert!(run.action(&home(), Platform::Linux).is_none());
    let run = try_link_engine(named(), "h".to_string());
    let (_, run) =
        follow(run, Platform::Linux, vec![Outcome::Yes, Outcome::Text("other".to_string())]);
    assert!(matches!(run.stage, EngineStage::Absent));
}

#[test]
fn windows_runs_the_batch_file() {
    let run = ensure_engine(named(), "h".to_string());
    let (_, run) = follow(run, Platform::Windows, vec![Outcome::Yes, failed()]);
    assert_eq!(
        told(&run.action(&home(), Platform::Windows).unwrap()),
        "run /p/envs/a/bin/flutter.bat --version --suppress-analytics in /p/envs/a"
    );
}

#[test]
fn engine_failures_are_told() {
    let error = |outcomes| {
        let (_, run) = follow(ensure_engine(named(), "h".to_string()), Platform::Linux, outcomes);
        match run.stage {
            EngineStage::Failed(f) => f.error("/p/envs/a/bin/cache").message(),
            stage => panic!("{stage:?}"),
        }
    };
    assert_eq!(error(vec![Outcome::No, failed()]), "failed to run flutter --version: oh");
    assert_eq!(
        error(vec![Outcome::No, exit(Some(1), "exit status: 1")]),
        "flutter --version exited with exit status: 1"
    );
    assert_eq!(
        error(vec![Outcome::No, exit(Some(0), ""), Outcome::Done, Outcome::Done, Outcome::No]),
        "expected bin/cache at /p/envs/a/bin/cache after flutter --version, found none"
    );
    assert_eq!(error(vec![Outcome::No, exit(Some(0), ""), Outcome::Done, failed()]), "oh");
}

#[test]
fn entries_are_renamed_or_copied() {
    let mut run = relocate_cache(3);
    let mut log = Vec::new();
    for o in [Outcome::Done, failed(), Outcome::Done, Outcome::Done, Outcome::Done] {
        log.push(format!("{:?}", run.action().unwrap()));
        run = run.next(o);
    }
    assert_eq!(log, ["Rename(0)", "Rename(1)", "Copy(1)", "Remove(1)", "Rename(2)"]);
    assert!(matches!(run.stage, MoveStage::Done));
    assert!(run.action().is_none());
    assert!(matches!(relocate_cache(0).stage, MoveStage::Done));
    let run = relocate_cache(1).next(failed()).next(failed());
    assert!(matches!(run.stage, MoveStage::Failed(e) if e == "oh"));
    let run = relocate_cache(1).next(failed()).next(Outcome::Done).next(failed());
    assert!(matches!(run.stage, MoveStage::Failed(_)));
}

#[test]
fn revision_is_downloaded_once() {
    let first = ensure_engine(named(), "h".to_string());
    let (log, _) = follow(
        first,
        Platform::Linux,
        vec![
            Outcome::No,
            exit(Some(0), ""),
            Outcome::Done,
            Outcome::Done,
            Outcome::Yes,
            Outcome::Done,
            Outcome::Done,
        ],
    );
    let stamp = log[6].rsplit(' ').next().unwrap().to_string();
    let second = ensure_engine(EnvPlace::Named("b".to_string()), "h".to_string());
    let (_, second) = follow(second, Platform::Linux, vec![Outcome::Yes, Outcome::Text(stamp)]);
    assert!(matches!(second.stage, EngineStage::LookForLink));
}
