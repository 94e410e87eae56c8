use prist::error::PristError;
use prist::ide::{
    gitignore, gitignore_revert, home_for_exclusion, home_pattern, integrate, integrate_env,
    local_properties, properties_revert, revert, revert_env, vscode, vscode_revert,
    workspace_revert, workspace_xml, FileChange, ProjectFiles, TextChange,
};
use prist::settings::{depth_of, MAX_DEPTH};
use prist::paths::Location;

const BLOCK: &str =
    "\n# prist-managed — begin\n.pristrc\n/home/u/.prist\n# prist-managed — end\n";

fn files() -> ProjectFiles {
    ProjectFiles {
        settings: None,
        android: false,
        properties: None,
        idea: false,
        workspace: None,
        gitignore: None,
    }
}

#[test]
fn ignored_entries_are_added_once() {
    let t = gitignore("build", "/home/u/.prist").unwrap();
    assert_eq!(t, format!("build\n{BLOCK}"));
    assert_eq!(gitignore(&t, "/elsewhere"), None);
    assert_eq!(gitignore("", "/home/u/.prist").unwrap(), BLOCK);
}

#[test]
fn ignored_entries_are_taken_back() {
    let t = gitignore("build\n", "/home/u/.prist").unwrap();
    assert_eq!(gitignore_revert(&t).as_deref(), Some("build\n"));
    assert_eq!(gitignore_revert("build\n"), None);
    assert_eq!(gitignore_revert("# prist-managed — begin\nno end"), None);
    let t = format!("a\n{BLOCK}b\n\n\n");
    assert_eq!(gitignore_revert(&t).as_deref(), Some("a\nb\n\n\n"));
    assert_eq!(
        gitignore_revert("# prist-managed — begin\n# prist-managed — end").as_deref(),
        Some("")
    );
    for existing in ["", "a\n", "target/\n\n", "\n", "a\n\n\n"] {
        let t = gitignore(existing, "/h").unwrap();
        assert_eq!(gitignore_revert(&t).as_deref(), Some(existing));
    }
    let t = gitignore("a", "/h").unwrap();
    assert_eq!(gitignore_revert(&t).as_deref(), Some("a\n"));
}

#[test]
fn last_sdk_wins_in_properties() {
    let t = local_properties("sdk.dir=/a\nflutter.sdk=/old\r\nx=1", "/new");
    assert_eq!(t, "sdk.dir=/a\nx=1\nflutter.sdk=/new\n");
    assert_eq!(local_properties(&t, "/newer"), "sdk.dir=/a\nx=1\nflutter.sdk=/newer\n");
    assert_eq!(local_properties("", "/new"), "flutter.sdk=/new\n");
}

#[test]
fn ignored_roots_are_added_once_to_workspaces() {
    let xml = "<project>\n  <component>\n  </component>\n</project>\n";
    let t = workspace_xml(xml, "**//p/**").unwrap();
    assert_eq!(
        t,
        "<project>\n  <component>\n    <ignored-roots>\n    <path value=\"**//p/**\" />\n  </ignored-roots>\n</component>\n</project>\n"
    );
    assert_eq!(workspace_xml(&t, "**//p/**"), None);
    assert_eq!(
        workspace_xml("<project></project>", "q").unwrap(),
        "<project>  <ignored-roots>\n    <path value=\"q\" />\n  </ignored-roots>\n</project>"
    );
    assert_eq!(workspace_xml("nothing", "q").as_deref(), Some("nothing"));
}

#[test]
fn settings_name_the_sdk() {
    let t = vscode(None, "/sdk", "**//home/**").unwrap();
    assert_eq!(
        t,
        "{\n  \"dart.flutterSdkPath\": \"/sdk\",\n  \"files.watcherExclude\": {\n    \"**//home/**\": true\n  },\n  \"search.exclude\": {\n    \"**//home/**\": true\n  }\n}\n"
    );
    assert_eq!(vscode(Some(" \n"), "/sdk", "**//home/**").unwrap(), t);
}

#[test]
fn settings_with_comments_are_read() {
    let t = vscode(
        Some("{ // mine\n \"a\": 1, \"search.exclude\": {\"x\": true}, }"),
        "/sdk",
        "p",
    )
    .unwrap();
    assert_eq!(
        t,
        "{\n  \"a\": 1,\n  \"dart.flutterSdkPath\": \"/sdk\",\n  \"files.watcherExclude\": {\n    \"p\": true\n  },\n  \"search.exclude\": {\n    \"p\": true,\n    \"x\": true\n  }\n}\n"
    );
    assert!(matches!(
        vscode(Some("[1]"), "/sdk", "p"),
        Err(PristError::Json(m)) if m == "the settings are not an object"
    ));
    assert_eq!(
        vscode(Some("// only this\n"), "/sdk", "p").unwrap(),
        vscode(None, "/sdk", "p").unwrap()
    );
    assert!(matches!(vscode(Some("{\"a\":"), "/sdk", "p"), Err(PristError::Json(_))));
}

#[test]
fn exclusions_join_those_of_the_user() {
    let user = "{\"files.watcherExclude\":{\"**/build/**\":true},\"search.exclude\":7}";
    let t = vscode(Some(user), "/h/envs/e", &home_for_exclusion("/h/envs/e")).unwrap();
    assert_eq!(
        t,
        "{\n  \"dart.flutterSdkPath\": \"/h/envs/e\",\n  \"files.watcherExclude\": {\n    \"**//h/**\": true,\n    \"**/build/**\": true\n  },\n  \"search.exclude\": 7\n}\n"
    );
    match vscode_revert(&t, "**//h/**") {
        Ok(TextChange::Write(t)) => assert_eq!(
            t,
            "{\n  \"files.watcherExclude\": {\n    \"**/build/**\": true\n  },\n  \"search.exclude\": 7\n}\n"
        ),
        r => panic!("{r:?}"),
    }
}

#[test]
fn settings_forget_the_sdk() {
    let own = vscode(None, "/sdk", "p").unwrap();
    assert!(matches!(vscode_revert(&own, "p"), Ok(TextChange::Remove)));
    assert!(matches!(
        vscode_revert("{\"dart.flutterSdkPath\": \"/sdk\"}", "p"),
        Ok(TextChange::Remove)
    ));
    match vscode_revert("{\"dart.flutterSdkPath\": \"/sdk\", \"a\": [1]}", "p") {
        Ok(TextChange::Write(t)) => assert_eq!(t, "{\n  \"a\": [\n    1\n  ]\n}\n"),
        r => panic!("{r:?}"),
    }
    for kept in ["", "{}", "// only this\n", "{\"search.exclude\": {}} // mine"] {
        assert!(matches!(vscode_revert(kept, "p"), Ok(TextChange::Keep)), "{kept}");
    }
    assert!(matches!(vscode_revert("{", "p"), Err(PristError::Json(_))));
    assert!(matches!(vscode_revert("[]", "p"), Err(PristError::Json(_))));
}

#[test]
fn deep_settings_are_refused() {
    let deep = |n: usize| "[".repeat(n) + &"]".repeat(n);
    let object = |n: usize| format!("{{\"a\": {}}}", deep(n));
    let t = vscode(Some(&object(MAX_DEPTH - 1)), "/sdk", "p").unwrap();
    assert_eq!(t.matches('[').count(), MAX_DEPTH - 1);
    let mut nested = "1".to_string();
    for _ in 0..MAX_DEPTH - 1 {
        nested = format!("{{\"search.exclude\": {nested}}}");
    }
    let t = vscode(Some(&nested), "/sdk", "p").unwrap();
    assert!(t.contains("\"p\": true"));
    assert!(vscode(Some(&"[".repeat(MAX_DEPTH)), "/sdk", "p").is_err());
    let wide = format!("{{\"a\": [{}]}}", "{}, ".repeat(5000));
    assert!(vscode(Some(&wide), "/sdk", "p").is_ok());
    let brackets = "[".repeat(5000);
    let quoted = format!(
        "{{\"a\": \"{brackets}\\\"{brackets}\", 'b': '{brackets}', // {brackets}\n /* {brackets} */ \"c\": 1}}"
    );
    assert_eq!(depth_of(&quoted), 1);
    assert!(vscode(Some(&quoted), "/sdk", "p").is_ok());
    assert_eq!(depth_of("/*/ [ */ [{}] }} ["), 2);
    for text in [object(MAX_DEPTH), "[".repeat(1_000_000)] {
        assert!(matches!(
            vscode(Some(&text), "/sdk", "p"),
            Err(PristError::Json(m)) if m == "the settings are nested too deeply"
        ));
        assert!(vscode_revert(&text, "p").is_err());
    }
}

#[test]
fn properties_are_given_back() {
    let t = local_properties("sdk.dir=/a\nx=1\n", "/h/envs/e");
    match properties_revert(&t, "/h/envs") {
        TextChange::Write(t) => assert_eq!(t, "sdk.dir=/a\nx=1\n"),
        r => panic!("{r:?}"),
    }
    let t = local_properties("", "/h/envs/e");
    assert!(matches!(properties_revert(&t, "/h/envs"), TextChange::Remove));
    for own in ["", "flutter.sdk=/opt/flutter\n", "flutter.sdk=/h/envs2/e\n"] {
        assert!(matches!(properties_revert(own, "/h/envs"), TextChange::Keep), "{own}");
    }
    assert!(matches!(
        properties_revert("flutter.sdk=C:\\h\\envs\\e\n", "C:\\h\\envs"),
        TextChange::Remove
    ));
}

#[test]
fn workspaces_are_given_back() {
    for xml in ["<project>\n  <component>\n  </component>\n</project>\n", "<project></project>"] {
        let t = workspace_xml(xml, "**//h/**").unwrap();
        assert_eq!(workspace_revert(&t, "**//h/**").as_deref(), Some(xml));
        assert_eq!(workspace_revert(xml, "**//h/**"), None);
    }
}

#[test]
fn exclusions_cover_the_home() {
    assert_eq!(home_for_exclusion("/home/u/.prist/envs/a"), "**//home/u/.prist/**");
    assert_eq!(home_for_exclusion("a"), "**//**");
    assert_eq!(home_pattern("C:\\p"), "**/C:\\p/**");
}

#[test]
fn integration_changes_what_is_there() {
    let project = Location::at("/project");
    let list = integrate("/home/u/.prist", "/sdk", "p", &project, &files()).unwrap();
    assert_eq!(list.len(), 2);
    match &list[0] {
        FileChange::Write { file, .. } => assert_eq!(file.parts, [".vscode", "settings.json"]),
        _ => panic!(),
    }
    match &list[1] {
        FileChange::Write { file, text } => {
            assert_eq!(file.base, "/project");
            assert_eq!(file.parts, [".gitignore"]);
            assert_eq!(text, BLOCK);
        }
        _ => panic!(),
    }
    let all = ProjectFiles {
        settings: Some("{}".to_string()),
        android: true,
        properties: None,
        idea: true,
        workspace: Some("<project></project>".to_string()),
        gitignore: Some(BLOCK.to_string()),
    };
    let list = integrate("/home/u/.prist", "/sdk", "q", &project, &all).unwrap();
    assert_eq!(list.len(), 3);
    match &list[1] {
        FileChange::Write { file, text } => {
            assert_eq!(file.parts, ["android", "local.properties"]);
            assert_eq!(text, "flutter.sdk=/sdk\n");
        }
        _ => panic!(),
    }
    match &list[2] {
        FileChange::Write { file, .. } => assert_eq!(file.parts, [".idea", "workspace.xml"]),
        _ => panic!(),
    }
    let broken = ProjectFiles { settings: Some("{".to_string()), ..files() };
    assert!(matches!(
        integrate("h", "s", "p", &project, &broken),
        Err(PristError::Json(_))
    ));
}

#[test]
fn integration_is_taken_back() {
    let project = Location::at("/project");
    assert_eq!(revert_env("/h/envs/default", &project, &files()).unwrap().len(), 0);
    let before = ProjectFiles {
        settings: Some("{\n  \"a\": 1\n}\n".to_string()),
        android: true,
        properties: Some("x=1\n".to_string()),
        idea: true,
        workspace: Some("<project></project>".to_string()),
        gitignore: Some("target/\n\n".to_string()),
    };
    let text = |c: &FileChange| match c {
        FileChange::Write { text, .. } => Some(text.clone()),
        FileChange::Remove { .. } => None,
    };
    let list = integrate_env("/h", "/h/envs/e", &project, &before).unwrap();
    assert_eq!(list.len(), 4);
    let after = ProjectFiles {
        settings: text(&list[0]),
        android: true,
        properties: text(&list[1]),
        idea: true,
        workspace: text(&list[2]),
        gitignore: text(&list[3]),
    };
    assert!(after.settings.as_ref().unwrap().contains("**//h/**"));
    let list = revert_env("/h/envs/default", &project, &after).unwrap();
    let texts: Vec<Option<String>> = list.iter().map(text).collect();
    assert_eq!(texts, [before.settings, before.properties, before.workspace, before.gitignore]);

    let list = integrate_env("/h", "/h/envs/e", &project, &files()).unwrap();
    let after = ProjectFiles { settings: text(&list[0]), gitignore: text(&list[1]), ..files() };
    let list = revert_env("/h/envs/default", &project, &after).unwrap();
    assert!(matches!(&list[0], FileChange::Remove { .. }));
    assert_eq!(text(&list[1]).as_deref(), Some(""));
    let broken = ProjectFiles { settings: Some("{".to_string()), ..files() };
    assert!(revert("p", "/h/envs", &project, &broken).is_err());
}

#[test]
fn last_sdk_wins_in_settings() {
    let once = vscode(None, "/first", "p").unwrap();
    let twice = vscode(Some(&once), "/second", "p").unwrap();
    assert_eq!(twice, vscode(None, "/second", "p").unwrap());
    assert!(matches!(vscode_revert(&twice, "p"), Ok(TextChange::Remove)));
}
