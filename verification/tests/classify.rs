//! End-to-end classification tests: decode a document, classify it, and
//! check the composed notification.

use notch_hook::args::ArgValue;
use notch_hook::event::{decode_from, kind_of_name, EventKind, HookError};
use notch_hook::hook::{FsFacts, NotchHook, PreviewFacts};
use notch_hook::ingest::parse_document;
use notch_hook::notify::Notification;

fn cv(s: &str) -> Vec<char> {
    s.chars().collect()
}

fn cs(v: &Vec<char>) -> String {
    v.iter().collect()
}

fn hook() -> NotchHook {
    NotchHook::new(cv("/proj"), cv("/tmp/previews"), cv("3.2"), cv("4242"))
}

fn plain_fs() -> FsFacts {
    FsFacts { abs_exists: false, preview: None }
}

fn text_field(key: &str, val: &str) -> (Vec<char>, ArgValue) {
    (cv(key), ArgValue::Text(cv(val)))
}

fn event_doc(name: &str, tool: Option<&str>, input: Option<ArgValue>) -> ArgValue {
    let mut fields = vec![text_field("hook_event_name", name)];
    if let Some(t) = tool {
        fields.push(text_field("tool_name", t));
    }
    if let Some(i) = input {
        fields.push((cv("tool_input"), i));
    }
    ArgValue::Fields(fields)
}

fn bash_input(cmd: &str) -> ArgValue {
    ArgValue::Fields(vec![text_field("command", cmd)])
}

/// The value the receiving side reads for `key`: the last entry wins.
fn meta_get(n: &Notification, key: &str) -> Option<String> {
    let k = cv(key);
    let mut found = None;
    for (ek, evv) in &n.metadata {
        if *ek == k {
            found = Some(cs(evv));
        }
    }
    found
}

fn classify(doc: &ArgValue, fs: &FsFacts) -> Option<Notification> {
    let h = hook();
    let ev = decode_from(doc).expect("well-formed event");
    h.process_event(&ev, fs)
}

#[test]
fn alias_pairs_name_the_same_kind() {
    let pairs = [
        ("PreToolUse", "pre_tool_use", EventKind::PreToolUse),
        ("PostToolUse", "post_tool_use", EventKind::PostToolUse),
        ("Stop", "stop", EventKind::Stop),
        ("Notification", "notification", EventKind::Notification),
        ("SessionStart", "session_start", EventKind::SessionStart),
        ("UserPromptSubmit", "user_prompt_submit", EventKind::UserPromptSubmit),
        ("PreCompact", "pre_compact", EventKind::PreCompact),
    ];
    for (pascal, snake, kind) in pairs {
        assert_eq!(kind_of_name(&cv(pascal)), kind);
        assert_eq!(kind_of_name(&cv(snake)), kind);
        assert_eq!(kind_of_name(&cv(&pascal.to_uppercase())), kind);
        assert_eq!(kind_of_name(&cv(&pascal.to_lowercase())), kind);
    }
    assert_eq!(kind_of_name(&cv("SomethingElse")), EventKind::Unrecognized);
}

#[test]
fn aliases_classify_identically() {
    let fs = plain_fs();
    let a = classify(&event_doc("PreToolUse", Some("Bash"), Some(bash_input("git push"))), &fs);
    let b = classify(&event_doc("pre_tool_use", Some("Bash"), Some(bash_input("git push"))), &fs);
    let (a, b) = (a.unwrap(), b.unwrap());
    assert!(a.title == b.title && a.message == b.message && a.category == b.category);
    assert_eq!(a.priority, b.priority);
    assert!(a.metadata == b.metadata);
}

#[test]
fn noise_command_is_suppressed() {
    let fs = plain_fs();
    let n = classify(&event_doc("PreToolUse", Some("Bash"), Some(bash_input("ls -la"))), &fs);
    assert!(n.is_none());
}

#[test]
fn git_command_gets_version_control_category() {
    let fs = plain_fs();
    let n = classify(
        &event_doc("PreToolUse", Some("Bash"), Some(bash_input("git commit -m x"))),
        &fs,
    )
    .unwrap();
    assert_eq!(cs(&n.title), "[proj] 🔀 执行命令");
    assert_eq!(cs(&n.message), "git commit -m x...");
    assert_eq!(cs(&n.category), "tool_use");
    assert_eq!(n.priority, 2);
}

#[test]
fn dangerous_prefix_priority_is_clamped() {
    let fs = plain_fs();
    let n = classify(
        &event_doc("PreToolUse", Some("Bash"), Some(bash_input("rm -fr target"))),
        &fs,
    )
    .unwrap();
    assert_eq!(cs(&n.title), "[proj] ⚠️ 执行命令");
    assert_eq!(n.priority, 2);
}

#[test]
fn truncation_counts_characters_not_bytes() {
    let long: String = "汉字😀".repeat(60);
    let fs = plain_fs();
    let n = classify(&event_doc("PreToolUse", Some("Bash"), Some(bash_input(&long))), &fs)
        .unwrap();
    let msg = n.message;
    assert_eq!(msg.len(), 83);
    let expected: Vec<char> = long.chars().take(80).chain("...".chars()).collect();
    assert!(msg == expected);
}

#[test]
fn truncate_chars_respects_budget() {
    let t = notch_hook::text::truncate_chars(&cv("😀🦀汉字abc"), 3);
    assert!(t == cv("😀🦀汉"));
    let u = notch_hook::text::truncate_chars(&cv("ab"), 200);
    assert!(u == cv("ab"));
}

#[test]
fn error_overrides_post_processing() {
    let fs = plain_fs();
    let h = hook();
    for tool in ["Bash", "Edit", "SomethingNobodyKnows"] {
        let mut fields = vec![
            text_field("hook_event_name", "PostToolUse"),
            text_field("tool_name", tool),
            text_field("error", "it broke badly"),
        ];
        fields.push((cv("tool_input"), bash_input("ls")));
        let doc = ArgValue::Fields(fields);
        let ev = decode_from(&doc).unwrap();
        let n = h.process_event(&ev, &fs).unwrap();
        assert_eq!(cs(&n.category), "error");
        assert_eq!(n.priority, 3);
        assert_eq!(cs(&n.title), "[proj] ❌ 工具执行失败");
        assert_eq!(cs(&n.message), format!("{}: it broke badly", tool));
        assert_eq!(meta_get(&n, "error_message").unwrap(), "it broke badly");
        assert_eq!(meta_get(&n, "tool_name").unwrap(), tool);
        assert_eq!(meta_get(&n, "event_type").unwrap(), "tool_error");
    }
}

#[test]
fn post_bash_output_excerpt() {
    let fs = plain_fs();
    let h = hook();
    let doc = ArgValue::Fields(vec![
        text_field("hook_event_name", "PostToolUse"),
        text_field("tool_name", "Bash"),
        (cv("tool_output"), ArgValue::Text(cv("line one\nline two\nline three"))),
    ]);
    let ev = decode_from(&doc).unwrap();
    let n = h.process_event(&ev, &fs).unwrap();
    assert_eq!(cs(&n.message), "line one | line two");
    assert_eq!(cs(&n.category), "success");
    assert_eq!(n.priority, 0);

    let empty = ArgValue::Fields(vec![
        text_field("hook_event_name", "PostToolUse"),
        text_field("tool_name", "Bash"),
        (cv("tool_output"), ArgValue::Text(cv(""))),
    ]);
    let ev = decode_from(&empty).unwrap();
    assert!(h.process_event(&ev, &fs).is_none());
}

#[test]
fn multi_edit_reports_edit_count() {
    let fs = plain_fs();
    let input = ArgValue::Fields(vec![
        text_field("file_path", "src/lib.rs"),
        (
            cv("edits"),
            ArgValue::Items(vec![
                ArgValue::Fields(vec![text_field("old_string", "a")]),
                ArgValue::Fields(vec![text_field("old_string", "b")]),
            ]),
        ),
    ]);
    let n = classify(&event_doc("PreToolUse", Some("MultiEdit"), Some(input)), &fs).unwrap();
    assert_eq!(cs(&n.title), "[proj] 📝 批量修改");
    assert_eq!(cs(&n.message), "src/lib.rs (批量修改 2 处)");
}

#[test]
fn todo_write_reports_progress() {
    let fs = plain_fs();
    let todo = |status: &str| ArgValue::Fields(vec![text_field("status", status)]);
    let input = ArgValue::Fields(vec![(
        cv("todos"),
        ArgValue::Items(vec![todo("completed"), todo("pending"), todo("completed")]),
    )]);
    let n = classify(&event_doc("PreToolUse", Some("TodoWrite"), Some(input)), &fs).unwrap();
    assert_eq!(cs(&n.message), "进度: 2/3 完成");
    assert_eq!(cs(&n.category), "reminder");
}

#[test]
fn edit_with_preview_attaches_diff_metadata() {
    let h = hook();
    let input = ArgValue::Fields(vec![
        text_field("file_path", "/README.md"),
        text_field("old_string", "foo"),
        text_field("new_string", "bar"),
    ]);
    let doc = event_doc("PreToolUse", Some("Edit"), Some(input));
    let ev = decode_from(&doc).unwrap();
    let fs = FsFacts {
        abs_exists: false,
        preview: Some(PreviewFacts { added: 1, removed: 2, diff_path: cv("/tmp/previews/x.diff") }),
    };
    let n = h.process_event(&ev, &fs).unwrap();
    assert_eq!(cs(&n.title), "[proj] ⏸️ 即将修改");
    assert_eq!(cs(&n.message), "README.md (预计 +1 -2)");
    assert_eq!(meta_get(&n, "diff_path").unwrap(), "/tmp/previews/x.diff");
    assert_eq!(meta_get(&n, "is_preview").unwrap(), "true");
    assert_eq!(meta_get(&n, "file_path").unwrap(), "/proj/README.md");
    assert_eq!(meta_get(&n, "tool_name").unwrap(), "Edit");

    let without = FsFacts { abs_exists: false, preview: None };
    let plain = h.process_event(&ev, &without).unwrap();
    assert_eq!(cs(&plain.title), "[proj] ✏️ 即将修改");
    assert_eq!(cs(&plain.message), "README.md");
}

#[test]
fn read_tools_get_lowest_priority() {
    let fs = plain_fs();
    let input = ArgValue::Fields(vec![text_field("pattern", "TODO")]);
    let n = classify(&event_doc("PreToolUse", Some("Grep"), Some(input)), &fs).unwrap();
    assert_eq!(cs(&n.title), "[proj] 🔍 Grep");
    assert_eq!(cs(&n.message), "TODO");
    assert_eq!(cs(&n.category), "info");
    assert_eq!(n.priority, 0);
}

#[test]
fn jb_fallthrough_suppresses_quiet_calls() {
    let fs = plain_fs();
    let quiet = classify(
        &event_doc(
            "PreToolUse",
            Some("mcp__jetbrains__get_project_modules"),
            Some(ArgValue::Fields(vec![])),
        ),
        &fs,
    );
    assert!(quiet.is_none());

    let with_detail = classify(
        &event_doc(
            "PreToolUse",
            Some("mcp__jetbrains__get_project_modules"),
            Some(ArgValue::Fields(vec![text_field("path", "src/main.rs")])),
        ),
        &fs,
    )
    .unwrap();
    assert_eq!(cs(&with_detail.title), "[proj] 📦 JetBrains 获取项目模块");
    assert_eq!(cs(&with_detail.message), "src/main.rs");

    let loud = classify(
        &event_doc("PreToolUse", Some("mcp__jetbrains__reformat_file"), None),
        &fs,
    )
    .unwrap();
    assert_eq!(cs(&loud.message), "格式化文件");
    assert_eq!(loud.priority, 2);
}

#[test]
fn prompt_submit_needs_confirmation_keyword() {
    let fs = plain_fs();
    let with = event_doc(
        "UserPromptSubmit",
        None,
        Some(ArgValue::Text(cv("Do you want to allow this tool?"))),
    );
    let n = classify(&with, &fs).unwrap();
    assert_eq!(cs(&n.category), "confirmation");
    assert_eq!(n.priority, 3);
    assert_eq!(meta_get(&n, "prompt_type").unwrap(), "user_confirmation");

    let without = event_doc("UserPromptSubmit", None, Some(ArgValue::Text(cv("hello there"))));
    assert!(classify(&without, &fs).is_none());
}

#[test]
fn session_start_carries_identity_metadata() {
    let fs = plain_fs();
    let n = classify(&event_doc("SessionStart", None, None), &fs).unwrap();
    assert_eq!(cs(&n.title), "[proj] 🚀 会话开始");
    assert_eq!(meta_get(&n, "session_id").unwrap(), "4242");
    assert_eq!(meta_get(&n, "project").unwrap(), "proj");
    assert_eq!(meta_get(&n, "source").unwrap(), "agent-hook");
    assert_eq!(meta_get(&n, "session_duration").unwrap(), "3.2");
    assert_eq!(meta_get(&n, "event_type").unwrap(), "session_start");
}

#[test]
fn stop_notification_and_unrecognized_silence() {
    let fs = plain_fs();
    let n = classify(&event_doc("Stop", None, None), &fs).unwrap();
    assert_eq!(cs(&n.title), "[proj] 🎉 会话结束");
    assert_eq!(cs(&n.category), "celebration");
    assert_eq!(n.priority, 2);

    assert!(classify(&event_doc("TotallyNewEvent", None, None), &fs).is_none());
}

fn assert_malformed(doc: &ArgValue) {
    match decode_from(doc) {
        Err(e) => assert_eq!(e, HookError::MalformedEvent),
        Ok(_) => panic!("expected a malformed-event error"),
    }
}

#[test]
fn malformed_documents_are_rejected() {
    assert_eq!(parse_document("{nope").unwrap_err(), HookError::MalformedEvent);
    assert_malformed(&parse_document("42").unwrap());
    assert_malformed(&parse_document("{\"tool_name\":\"Bash\"}").unwrap());
    assert_malformed(&parse_document("{\"hook_event_name\":\"Stop\",\"tool_name\":7}").unwrap());
}

#[test]
fn parsed_documents_decode_like_built_ones() {
    let root = parse_document(
        "{\"hook_event_name\":\"pre_tool_use\",\"tool_name\":\"Bash\",\
         \"tool_input\":{\"command\":\"git status\"}}",
    )
    .unwrap();
    let h = hook();
    let ev = decode_from(&root).unwrap();
    assert_eq!(ev.kind, EventKind::PreToolUse);
    let n = h.process_event(&ev, &plain_fs()).unwrap();
    assert_eq!(cs(&n.title), "[proj] 🔀 执行命令");
    assert_eq!(cs(&n.message), "git status...");
}

#[test]
fn null_optional_fields_decode_as_absent() {
    let root = parse_document(
        "{\"hook_event_name\":\"Stop\",\"tool_name\":null,\"tool_input\":null,\"error\":null}",
    )
    .unwrap();
    let ev = decode_from(&root).unwrap();
    assert!(ev.tool_name.is_none());
    assert!(ev.tool_input.is_none());
    assert!(ev.error.is_none());
}

#[test]
fn snake_case_aliases_survive_any_letter_case() {
    assert_eq!(kind_of_name(&cv("PRE_TOOL_USE")), EventKind::PreToolUse);
    assert_eq!(kind_of_name(&cv("Session_Start")), EventKind::SessionStart);
    assert_eq!(kind_of_name(&cv("pRecOmpact")), EventKind::PreCompact);
}

#[test]
fn task_delegation_names_the_subagent() {
    let fs = plain_fs();
    let input = ArgValue::Fields(vec![
        text_field("subagent_type", "statusline-setup"),
        text_field("description", "set up the status line"),
    ]);
    let n = classify(&event_doc("PreToolUse", Some("Task"), Some(input)), &fs).unwrap();
    assert_eq!(cs(&n.title), "[proj] ⚙️ Agent 启动");
    assert_eq!(cs(&n.message), "set up the status line (statusline-setup)");

    let bare = classify(
        &event_doc("PreToolUse", Some("Task"), Some(ArgValue::Fields(vec![]))),
        &fs,
    )
    .unwrap();
    assert_eq!(cs(&bare.title), "[proj] 🤖 Agent 启动");
    assert_eq!(cs(&bare.message), "AI 任务处理中 (general-purpose)");
}

#[test]
fn web_fetch_defaults_to_an_empty_target() {
    let fs = plain_fs();
    let n = classify(
        &event_doc("PreToolUse", Some("WebFetch"), Some(ArgValue::Fields(vec![]))),
        &fs,
    )
    .unwrap();
    assert_eq!(cs(&n.title), "[proj] 🌐 网络访问");
    assert_eq!(cs(&n.message), "");
    let s = classify(
        &event_doc(
            "PreToolUse",
            Some("WebSearch"),
            Some(ArgValue::Fields(vec![text_field("query", "rust verus")])),
        ),
        &fs,
    )
    .unwrap();
    assert_eq!(cs(&s.title), "[proj] 🔎 网络访问");
    assert_eq!(cs(&s.message), "rust verus");
}

#[test]
fn jb_navigation_uses_the_first_present_key() {
    let fs = plain_fs();
    let input = ArgValue::Fields(vec![text_field("query", "main")]);
    let n = classify(
        &event_doc("PreToolUse", Some("mcp__jetbrains__search_everywhere"), Some(input)),
        &fs,
    )
    .unwrap();
    assert_eq!(cs(&n.title), "[proj] 🌐 JetBrains 全局搜索");
    assert_eq!(cs(&n.message), "main");

    let none = classify(
        &event_doc(
            "PreToolUse",
            Some("mcp__jetbrains__navigate_to_definition"),
            Some(ArgValue::Fields(vec![])),
        ),
        &fs,
    )
    .unwrap();
    assert_eq!(cs(&none.title), "[proj] 🎯 JetBrains 跳转定义");
    assert_eq!(cs(&none.message), "未知目标");
}

#[test]
fn jb_replace_previews_only_with_both_fragments() {
    let h = hook();
    let full = ArgValue::Fields(vec![
        text_field("pathInProject", "src/a.kt"),
        text_field("oldText", "x"),
        text_field("newText", "y"),
    ]);
    let doc = event_doc("PreToolUse", Some("mcp__jetbrains__replace_text_in_file"), Some(full));
    let ev = decode_from(&doc).unwrap();
    let fs = FsFacts {
        abs_exists: false,
        preview: Some(PreviewFacts { added: 2, removed: 1, diff_path: cv("/tmp/previews/d") }),
    };
    let n = h.process_event(&ev, &fs).unwrap();
    assert_eq!(cs(&n.title), "[proj] ✏️ JetBrains IDE 修改");
    assert_eq!(cs(&n.message), "src/a.kt (预计 +2 -1)");
    assert_eq!(meta_get(&n, "is_preview").unwrap(), "true");

    let partial = ArgValue::Fields(vec![
        text_field("pathInProject", "src/a.kt"),
        text_field("newText", "y"),
    ]);
    let doc = event_doc("PreToolUse", Some("mcp__jetbrains__replace_text_in_file"), Some(partial));
    let ev = decode_from(&doc).unwrap();
    let n = h.process_event(&ev, &fs).unwrap();
    assert_eq!(cs(&n.message), "src/a.kt");
    assert!(meta_get(&n, "is_preview").is_none());
}

#[test]
fn dangerous_operation_is_a_pure_signal() {
    let h = hook();
    let bash = bash_input("sudo rm -rf /");
    assert!(h.is_dangerous_operation(&cv("Bash"), Some(&bash), false));
    let harmless = bash_input("ls -la");
    assert!(!h.is_dangerous_operation(&cv("Bash"), Some(&harmless), false));
    let edit = ArgValue::Fields(vec![text_field("file_path", ".ssh/config")]);
    assert!(h.is_dangerous_operation(&cv("Edit"), Some(&edit), false));
    let benign = ArgValue::Fields(vec![text_field("file_path", "src/lib.rs")]);
    assert!(!h.is_dangerous_operation(&cv("Edit"), Some(&benign), false));
    assert!(!h.is_dangerous_operation(&cv("Read"), Some(&bash_input("sudo")), false));

    // The signal does not change what the classifier emits.
    let fs = plain_fs();
    let n = classify(
        &event_doc("PreToolUse", Some("Bash"), Some(bash_input("sudo make install"))),
        &fs,
    )
    .unwrap();
    assert_eq!(n.priority, 1);
}

#[test]
fn operation_details_are_formatted() {
    let h = hook();
    let bash = bash_input("make all");
    assert_eq!(
        cs(&h.format_operation_details(&cv("Bash"), Some(&bash), false)),
        "执行命令: make all"
    );
    let edit = ArgValue::Fields(vec![text_field("file_path", ".env")]);
    assert_eq!(
        cs(&h.format_operation_details(&cv("Edit"), Some(&edit), false)),
        "修改敏感文件: .env"
    );
    assert_eq!(
        cs(&h.format_operation_details(&cv("Task"), None, false)),
        "执行操作: Task"
    );
}
