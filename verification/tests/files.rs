use prist::config::FileRead;
use prist::fs_util::{
    atomic_write, atomic_write_str, make_dir_link, read_dir_link, read_if_exists, remove_dir_all,
    tmp_sibling, AtomicWrite, JunctionProbe, LinkRead, WriteAction, WriteStage,
};
use prist::paths::Location;
use prist::releases::Platform;
use prist::work::Outcome;

fn shown(l: &Location) -> String {
    let mut all = vec![l.base.clone()];
    all.extend(l.parts.iter().cloned());
    all.join("/")
}

fn told(a: &WriteAction) -> String {
    match a {
        WriteAction::MakeDirectory(l) => format!("dir {}", shown(l)),
        WriteAction::WriteTemporary(l) => format!("write {}", shown(l)),
        WriteAction::Rename { from, to } => format!("rename {} {}", shown(from), shown(to)),
    }
}

fn start() -> AtomicWrite {
    atomic_write("/d/f".to_string(), Some("/d".to_string()), Some("f".to_string()), 42)
}

fn follow(mut run: AtomicWrite, outcomes: Vec<Outcome>) -> (Vec<String>, AtomicWrite) {
    let mut log = Vec::new();
    for o in outcomes {
        log.push(told(&run.action().unwrap()));
        run = run.next(o);
    }
    (log, run)
}

fn failed() -> Outcome {
    Outcome::Failed("oh".to_string())
}

#[test]
fn files_are_written_beside_their_destination() {
    assert_eq!(shown(&tmp_sibling(Some("/d"), "f", 42)), "/d/.f.tmp.42");
    assert_eq!(shown(&tmp_sibling(None, "f", 0)), "./.f.tmp.0");
    assert_eq!(atomic_write_str("aé"), "aé".as_bytes());
}

#[test]
fn destination_is_touched_last() {
    let (log, run) = follow(start(), vec![Outcome::Done, Outcome::Done, Outcome::Done]);
    assert_eq!(log, ["dir /d", "write /d/.f.tmp.42", "rename /d/.f.tmp.42 /d/f"]);
    assert!(matches!(run.stage, WriteStage::Done));
    assert!(run.action().is_none());
    assert!(run.trouble("").is_none());
    let (log, run) = follow(start(), vec![Outcome::Done, failed()]);
    assert!(log.iter().all(|l| !l.contains("/d/f")));
    assert!(run.action().is_none());
}

#[test]
fn write_failures_are_told() {
    let trouble = |run: AtomicWrite, outcomes| {
        let t = follow(run, outcomes).1.trouble("/d/.f.tmp.42").unwrap();
        (t.doing, t.cause)
    };
    let oh = Some("oh".to_string());
    assert_eq!(
        trouble(start(), vec![failed()]),
        ("creating parent dirs for /d/f".to_string(), oh.clone())
    );
    assert_eq!(
        trouble(start(), vec![Outcome::Done, failed()]),
        ("writing temp file /d/.f.tmp.42".to_string(), oh.clone())
    );
    assert_eq!(
        trouble(
            start(),
            vec![Outcome::Done, Outcome::Done, failed()]
        ),
        ("renaming /d/.f.tmp.42 -> /d/f".to_string(), oh)
    );
    let nameless = atomic_write("/".to_string(), None, None, 1);
    assert_eq!(
        trouble(nameless, vec![]),
        ("invalid destination path /".to_string(), None)
    );
    let nameless =
        atomic_write("/a/..".to_string(), Some("/a".to_string()), None, 1);
    assert!(matches!(follow(nameless, vec![Outcome::Done]).1.stage, WriteStage::NoName));
}

#[test]
fn missing_files_are_nothing() {
    assert_eq!(read_if_exists(FileRead::Missing, "/f").unwrap(), None);
    assert_eq!(
        read_if_exists(FileRead::Text("t".to_string()), "/f").unwrap().as_deref(),
        Some("t")
    );
    let t = read_if_exists(FileRead::Failed("oh".to_string()), "/f").unwrap_err();
    assert_eq!(t.doing, "reading /f");
    assert_eq!(t.cause.as_deref(), Some("oh"));
    assert!(remove_dir_all(Outcome::Missing, "/f").is_ok());
    assert!(remove_dir_all(Outcome::Done, "/f").is_ok());
    assert_eq!(remove_dir_all(failed(), "/f").unwrap_err().doing, "removing /f");
}

#[test]
fn links_are_made() {
    assert!(make_dir_link(Platform::Linux, "/l", "/t", Outcome::Done).is_ok());
    let t = make_dir_link(Platform::Macos, "/l", "/t", failed()).unwrap_err();
    assert_eq!(t.doing, "creating symlink /l -> /t");
    assert_eq!(t.cause.as_deref(), Some("oh"));
    let t = make_dir_link(Platform::Windows, "/l", "/t", failed()).unwrap_err();
    assert_eq!(t.doing, "creating junction /l -> /t: oh");
    assert_eq!(t.cause, None);
}

#[test]
fn links_are_read() {
    let target = || LinkRead::Target("/t".to_string());
    let broken = || LinkRead::Failed("oh".to_string());
    assert_eq!(read_dir_link("/l", None, target()), Ok(Some("/t".to_string())));
    assert_eq!(read_dir_link("/l", None, LinkRead::Missing), Ok(None));
    assert_eq!(read_dir_link("/l", None, broken()), Err("oh".to_string()));
    let j = || Some(JunctionProbe::Junction);
    assert_eq!(read_dir_link("/l", j(), target()), Ok(Some("/t".to_string())));
    assert_eq!(read_dir_link("/l", j(), LinkRead::Missing), Ok(None));
    assert_eq!(read_dir_link("/l", j(), broken()), Err("reading junction /l: oh".to_string()));
    assert_eq!(read_dir_link("/l", Some(JunctionProbe::Other), target()), Ok(None));
    assert_eq!(read_dir_link("/l", Some(JunctionProbe::Missing), target()), Ok(None));
    assert_eq!(
        read_dir_link("/l", Some(JunctionProbe::Failed("no".to_string())), target()),
        Err("reading junction /l: no".to_string())
    );
}
