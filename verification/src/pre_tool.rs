//! Classification of pre-execution tool events.
//!
//! The rule table is keyed by tool identity: file-editing tools announce the
//! target and, when a preview was produced, its line statistics; shell
//! commands are categorized by prefix, with noise commands suppressed;
//! read-only inspection tools get the lowest priority; namespaced
//! IDE-integration tools fall through to a lookup table with a generic
//! default.

use vstd::prelude::*;
use crate::args::{ArgValue, as_items, chain_text, count_completed, count_completed_items,
    key_text, list_len_or_zero, lookup};
use crate::event::LifecycleEvent;
use crate::hook::{FsFacts, NotchHook, spec_compose, spec_diff_meta, spec_display, tool_of};
use crate::notify::{Notification, NotifSpec, matches_spec};
use crate::paths::{spec_relative, spec_resolve};
use crate::text::{clip, clone_chars, dec_chars, eq_lit, lit_chars, push_all, push_lit, spec_dec,
    starts_with, starts_with_lit, truncate_chars};

verus! {

// ---------------------------------------------------------------------------
// Shell command categories
// ---------------------------------------------------------------------------

/// The category of a shell command, by prefix: `None` suppresses the
/// notification (noise), otherwise a raw priority and an icon tag.
pub open spec fn spec_bash_rule(cmd: Seq<char>) -> Option<(int, Seq<char>)> {
    if starts_with(cmd, "git "@) {
        Some((2, "🔀"@))
    } else if starts_with(cmd, "npm "@) || starts_with(cmd, "yarn "@) || starts_with(
        cmd,
        "pnpm "@,
    ) {
        Some((2, "📦"@))
    } else if starts_with(cmd, "rm "@) || starts_with(cmd, "mv "@) {
        Some((3, "⚠️"@))
    } else if starts_with(cmd, "docker "@) || starts_with(cmd, "kubectl "@) {
        Some((2, "🐳"@))
    } else if starts_with(cmd, "make "@) || starts_with(cmd, "cargo "@) || starts_with(
        cmd,
        "go "@,
    ) {
        Some((1, "🔨"@))
    } else if starts_with(cmd, "pytest"@) || starts_with(cmd, "jest"@) || starts_with(
        cmd,
        "test"@,
    ) {
        Some((1, "🧪"@))
    } else if starts_with(cmd, "echo"@) || starts_with(cmd, "ls"@) || starts_with(cmd, "pwd"@)
        || starts_with(cmd, "date"@) || starts_with(cmd, "curl localhost:9876"@) {
        None
    } else {
        Some((1, "💻"@))
    }
}

/// Executable mirror of [`spec_bash_rule`].
pub fn bash_rule(cmd: &Vec<char>) -> (r: Option<(u8, Vec<char>)>)
    ensures
        match spec_bash_rule(cmd@) {
            Some(p) => r is Some && (r->0).0 as int == p.0 && (r->0).1@ == p.1,
            None => r is None,
        },
{
    if starts_with_lit(cmd, "git ") {
        Some((2, lit_chars("🔀")))
    } else if starts_with_lit(cmd, "npm ") || starts_with_lit(cmd, "yarn ") || starts_with_lit(
        cmd,
        "pnpm ",
    ) {
        Some((2, lit_chars("📦")))
    } else if starts_with_lit(cmd, "rm ") || starts_with_lit(cmd, "mv ") {
        Some((3, lit_chars("⚠️")))
    } else if starts_with_lit(cmd, "docker ") || starts_with_lit(cmd, "kubectl ") {
        Some((2, lit_chars("🐳")))
    } else if starts_with_lit(cmd, "make ") || starts_with_lit(cmd, "cargo ") || starts_with_lit(
        cmd,
        "go ",
    ) {
        Some((1, lit_chars("🔨")))
    } else if starts_with_lit(cmd, "pytest") || starts_with_lit(cmd, "jest") || starts_with_lit(
        cmd,
        "test",
    ) {
        Some((1, lit_chars("🧪")))
    } else if starts_with_lit(cmd, "echo") || starts_with_lit(cmd, "ls") || starts_with_lit(
        cmd,
        "pwd",
    ) || starts_with_lit(cmd, "date") || starts_with_lit(cmd, "curl localhost:9876") {
        None
    } else {
        Some((1, lit_chars("💻")))
    }
}

// ---------------------------------------------------------------------------
// IDE-integration tool table
// ---------------------------------------------------------------------------

/// The (icon, label, priority) triple of a namespaced IDE-integration tool
/// not covered by a specific rule; a default triple when unmatched.
pub open spec fn spec_jb_rule(tool: Seq<char>) -> (Seq<char>, Seq<char>, int) {
    if tool == "mcp__jetbrains__get_run_configurations"@ {
        ("⚙️"@, "获取运行配置"@, 0)
    } else if tool == "mcp__jetbrains__get_project_modules"@ {
        ("📦"@, "获取项目模块"@, 0)
    } else if tool == "mcp__jetbrains__get_project_dependencies"@ {
        ("🔗"@, "获取项目依赖"@, 0)
    } else if tool == "mcp__jetbrains__get_project_problems"@ {
        ("⚠️"@, "获取项目问题"@, 1)
    } else if tool == "mcp__jetbrains__get_project_vcs_status"@ {
        ("🔀"@, "获取VCS状态"@, 1)
    } else if tool == "mcp__jetbrains__list_directory_tree"@ {
        ("🌳"@, "列出目录树"@, 0)
    } else if tool == "mcp__jetbrains__find_files_by_name_keyword"@ {
        ("🔍"@, "按名称搜索文件"@, 1)
    } else if tool == "mcp__jetbrains__find_files_by_glob"@ {
        ("📁"@, "按模式搜索文件"@, 1)
    } else if tool == "mcp__jetbrains__get_all_open_file_paths"@ {
        ("📂"@, "获取打开的文件"@, 0)
    } else if tool == "mcp__jetbrains__open_file_in_editor"@ {
        ("📝"@, "打开文件"@, 1)
    } else if tool == "mcp__jetbrains__get_file_text_by_path"@ {
        ("📖"@, "读取文件内容"@, 0)
    } else if tool == "mcp__jetbrains__get_file_problems"@ {
        ("🔴"@, "获取文件问题"@, 1)
    } else if tool == "mcp__jetbrains__reformat_file"@ {
        ("✨"@, "格式化文件"@, 2)
    } else if tool == "mcp__jetbrains__search_in_files_by_text"@ {
        ("🔎"@, "文本搜索"@, 1)
    } else if tool == "mcp__jetbrains__search_in_files_by_regex"@ {
        ("🔍"@, "正则搜索"@, 1)
    } else if tool == "mcp__jetbrains__get_symbol_info"@ {
        ("ℹ️"@, "获取符号信息"@, 0)
    } else if tool == "mcp__jetbrains__rename_refactoring"@ {
        ("✏️"@, "重命名重构"@, 2)
    } else if tool == "mcp__jetbrains__execute_run_configuration"@ {
        ("▶️"@, "执行运行配置"@, 2)
    } else if tool == "mcp__jetbrains__find_commit_by_message"@ {
        ("📜"@, "搜索提交"@, 1)
    } else {
        ("🔧"@, "JetBrains操作"@, 1)
    }
}

/// Executable mirror of [`spec_jb_rule`].
pub fn jb_rule(tool: &Vec<char>) -> (r: (Vec<char>, Vec<char>, u8))
    ensures
        r.0@ == spec_jb_rule(tool@).0,
        r.1@ == spec_jb_rule(tool@).1,
        r.2 as int == spec_jb_rule(tool@).2,
{
    if eq_lit(tool, "mcp__jetbrains__get_run_configurations") {
        (lit_chars("⚙️"), lit_chars("获取运行配置"), 0)
    } else if eq_lit(tool, "mcp__jetbrains__get_project_modules") {
        (lit_chars("📦"), lit_chars("获取项目模块"), 0)
    } else if eq_lit(tool, "mcp__jetbrains__get_project_dependencies") {
        (lit_chars("🔗"), lit_chars("获取项目依赖"), 0)
    } else if eq_lit(tool, "mcp__jetbrains__get_project_problems") {
        (lit_chars("⚠️"), lit_chars("获取项目问题"), 1)
    } else if eq_lit(tool, "mcp__jetbrains__get_project_vcs_status") {
        (lit_chars("🔀"), lit_chars("获取VCS状态"), 1)
    } else if eq_lit(tool, "mcp__jetbrains__list_directory_tree") {
        (lit_chars("🌳"), lit_chars("列出目录树"), 0)
    } else if eq_lit(tool, "mcp__jetbrains__find_files_by_name_keyword") {
        (lit_chars("🔍"), lit_chars("按名称搜索文件"), 1)
    } else if eq_lit(tool, "mcp__jetbrains__find_files_by_glob") {
        (lit_chars("📁"), lit_chars("按模式搜索文件"), 1)
    } else if eq_lit(tool, "mcp__jetbrains__get_all_open_file_paths") {
        (lit_chars("📂"), lit_chars("获取打开的文件"), 0)
    } else if eq_lit(tool, "mcp__jetbrains__open_file_in_editor") {
        (lit_chars("📝"), lit_chars("打开文件"), 1)
    } else if eq_lit(tool, "mcp__jetbrains__get_file_text_by_path") {
        (lit_chars("📖"), lit_chars("读取文件内容"), 0)
    } else if eq_lit(tool, "mcp__jetbrains__get_file_problems") {
        (lit_chars("🔴"), lit_chars("获取文件问题"), 1)
    } else if eq_lit(tool, "mcp__jetbrains__reformat_file") {
        (lit_chars("✨"), lit_chars("格式化文件"), 2)
    } else if eq_lit(tool, "mcp__jetbrains__search_in_files_by_text") {
        (lit_chars("🔎"), lit_chars("文本搜索"), 1)
    } else if eq_lit(tool, "mcp__jetbrains__search_in_files_by_regex") {
        (lit_chars("🔍"), lit_chars("正则搜索"), 1)
    } else if eq_lit(tool, "mcp__jetbrains__get_symbol_info") {
        (lit_chars("ℹ️"), lit_chars("获取符号信息"), 0)
    } else if eq_lit(tool, "mcp__jetbrains__rename_refactoring") {
        (lit_chars("✏️"), lit_chars("重命名重构"), 2)
    } else if eq_lit(tool, "mcp__jetbrains__execute_run_configuration") {
        (lit_chars("▶️"), lit_chars("执行运行配置"), 2)
    } else if eq_lit(tool, "mcp__jetbrains__find_commit_by_message") {
        (lit_chars("📜"), lit_chars("搜索提交"), 1)
    } else {
        (lit_chars("🔧"), lit_chars("JetBrains操作"), 1)
    }
}

// ---------------------------------------------------------------------------
// Branch specifications
// ---------------------------------------------------------------------------

/// Batch edit: announce the target and the count of discrete edits.
pub open spec fn spec_pre_multi_edit(h: NotchHook, input: ArgValue, fs: FsFacts) -> Option<
    NotifSpec,
> {
    match key_text(input, "file_path"@) {
        Some(raw) => {
            let rel = spec_display(h, raw, fs.abs_exists);
            let cnt = list_len_or_zero(input, "edits"@);
            let message = if cnt > 0 {
                rel + " (批量修改 "@ + spec_dec(cnt) + " 处)"@
            } else {
                rel + " (批量修改)"@
            };
            Some(
                spec_compose(
                    h,
                    "["@ + h.project_name@ + "] 📝 批量修改"@,
                    message,
                    "tool_use"@,
                    2,
                    Seq::empty(),
                ),
            )
        },
        None => None,
    }
}

/// Single edit or full write: with a preview, announce its statistics and
/// attach the artifact; without one, a plain announcement.
pub open spec fn spec_pre_edit_write(
    h: NotchHook,
    tool: Seq<char>,
    input: ArgValue,
    fs: FsFacts,
) -> Option<NotifSpec> {
    match key_text(input, "file_path"@) {
        Some(raw) => {
            let resolved = spec_resolve(raw, h.project_path@, fs.abs_exists);
            let rel = spec_relative(resolved, h.project_path@);
            match fs.preview {
                Some(p) => Some(
                    NotifSpec {
                        title: "["@ + h.project_name@ + "] ⏸️ 即将修改"@,
                        message: rel + " (预计 +"@ + spec_dec(p.added as nat) + " -"@ + spec_dec(
                            p.removed as nat,
                        ) + ")"@,
                        category: "tool_use"@,
                        priority: 2,
                        metadata: spec_diff_meta(h, tool, Some(resolved), Some(p.diff_path@)),
                    },
                ),
                None => Some(
                    spec_compose(
                        h,
                        "["@ + h.project_name@ + "] ✏️ 即将修改"@,
                        rel,
                        "tool_use"@,
                        2,
                        Seq::empty(),
                    ),
                ),
            }
        },
        None => None,
    }
}

/// IDE text replacement: previewed only when both fragments are given.
pub open spec fn spec_pre_jb_replace(h: NotchHook, input: ArgValue, fs: FsFacts) -> Option<
    NotifSpec,
> {
    match key_text(input, "pathInProject"@) {
        Some(raw) => {
            let resolved = spec_resolve(raw, h.project_path@, fs.abs_exists);
            let rel = spec_relative(resolved, h.project_path@);
            if key_text(input, "oldText"@) is Some && key_text(input, "newText"@) is Some
                && fs.preview is Some {
                let p = fs.preview->0;
                Some(
                    NotifSpec {
                        title: "["@ + h.project_name@ + "] ✏️ JetBrains IDE 修改"@,
                        message: rel + " (预计 +"@ + spec_dec(p.added as nat) + " -"@ + spec_dec(
                            p.removed as nat,
                        ) + ")"@,
                        category: "sync"@,
                        priority: 2,
                        metadata: spec_diff_meta(
                            h,
                            "mcp__jetbrains__replace_text_in_file"@,
                            Some(resolved),
                            Some(p.diff_path@),
                        ),
                    },
                )
            } else {
                Some(
                    spec_compose(
                        h,
                        "["@ + h.project_name@ + "] ✏️ JetBrains IDE 修改"@,
                        rel,
                        "sync"@,
                        2,
                        Seq::empty(),
                    ),
                )
            }
        },
        None => None,
    }
}

/// IDE file creation.
pub open spec fn spec_pre_jb_create(h: NotchHook, input: ArgValue, fs: FsFacts) -> Option<
    NotifSpec,
> {
    match key_text(input, "pathInProject"@) {
        Some(raw) => Some(
            spec_compose(
                h,
                "["@ + h.project_name@ + "] 🆕 JetBrains 创建文件"@,
                spec_display(h, raw, fs.abs_exists),
                "sync"@,
                2,
                Seq::empty(),
            ),
        ),
        None => None,
    }
}

/// IDE navigation and search.
pub open spec fn spec_pre_jb_nav(h: NotchHook, tool: Seq<char>, input: ArgValue) -> Option<
    NotifSpec,
> {
    let target = match chain_text(input, seq!["symbol"@, "query"@]) {
        Some(t) => t,
        None => "未知目标"@,
    };
    let pair = if tool == "mcp__jetbrains__navigate_to_definition"@ {
        ("🎯"@, "跳转定义"@)
    } else if tool == "mcp__jetbrains__find_usages"@ {
        ("🔗"@, "查找引用"@)
    } else {
        ("🌐"@, "全局搜索"@)
    };
    Some(
        spec_compose(
            h,
            "["@ + h.project_name@ + "] "@ + pair.0 + " JetBrains "@ + pair.1,
            clip(target, 80),
            "sync"@,
            1,
            Seq::empty(),
        ),
    )
}

/// IDE run or debug configuration.
pub open spec fn spec_pre_jb_run(h: NotchHook, tool: Seq<char>, input: ArgValue) -> Option<
    NotifSpec,
> {
    let config = match key_text(input, "configuration"@) {
        Some(c) => c,
        None => "默认配置"@,
    };
    let pair = if tool == "mcp__jetbrains__debug_configuration"@ {
        ("🐞"@, "调试"@)
    } else {
        ("▶️"@, "运行"@)
    };
    Some(
        spec_compose(
            h,
            "["@ + h.project_name@ + "] "@ + pair.0 + " JetBrains "@ + pair.1,
            config,
            "sync"@,
            2,
            Seq::empty(),
        ),
    )
}

/// IDE terminal command.
pub open spec fn spec_pre_jb_terminal(h: NotchHook, input: ArgValue) -> Option<NotifSpec> {
    match key_text(input, "command"@) {
        Some(cmd) => Some(
            spec_compose(
                h,
                "["@ + h.project_name@ + "] 💻 JetBrains 终端"@,
                clip(cmd, 80),
                "sync"@,
                2,
                Seq::empty(),
            ),
        ),
        None => None,
    }
}

/// Shell command: categorized by prefix, noise suppressed, priority capped
/// at two.
pub open spec fn spec_pre_bash(h: NotchHook, input: ArgValue) -> Option<NotifSpec> {
    match key_text(input, "command"@) {
        Some(cmd) => match spec_bash_rule(cmd) {
            Some(rule) => Some(
                spec_compose(
                    h,
                    "["@ + h.project_name@ + "] "@ + rule.1 + " 执行命令"@,
                    clip(cmd, 80) + "..."@,
                    "tool_use"@,
                    if rule.0 < 2 {
                        rule.0
                    } else {
                        2
                    },
                    Seq::empty(),
                ),
            ),
            None => None,
        },
        None => None,
    }
}

/// Sub-agent delegation.
pub open spec fn spec_pre_task(h: NotchHook, input: ArgValue) -> Option<NotifSpec> {
    let sub = match key_text(input, "subagent_type"@) {
        Some(s) => s,
        None => "general-purpose"@,
    };
    let desc = match key_text(input, "description"@) {
        Some(d) => d,
        None => "AI 任务处理中"@,
    };
    let icon = if sub == "statusline-setup"@ {
        "⚙️"@
    } else if sub == "output-style-setup"@ {
        "🎨"@
    } else {
        "🤖"@
    };
    Some(
        spec_compose(
            h,
            "["@ + h.project_name@ + "] "@ + icon + " Agent 启动"@,
            desc + " ("@ + sub + ")"@,
            "ai"@,
            2,
            Seq::empty(),
        ),
    )
}

/// Read-only inspection tools, lowest priority.
pub open spec fn spec_pre_read(h: NotchHook, tool: Seq<char>, input: ArgValue) -> Option<
    NotifSpec,
> {
    let key = if tool == "Read"@ {
        "file_path"@
    } else if tool == "Grep"@ || tool == "Glob"@ {
        "pattern"@
    } else {
        "path"@
    };
    match key_text(input, key) {
        Some(target) => {
            let icon = if tool == "Read"@ {
                "📖"@
            } else if tool == "Grep"@ {
                "🔍"@
            } else if tool == "Glob"@ {
                "📁"@
            } else {
                "📋"@
            };
            Some(
                spec_compose(
                    h,
                    "["@ + h.project_name@ + "] "@ + icon + " "@ + tool,
                    clip(target, 100),
                    "info"@,
                    0,
                    Seq::empty(),
                ),
            )
        },
        None => None,
    }
}

/// Network fetch and search.
pub open spec fn spec_pre_web(h: NotchHook, tool: Seq<char>, input: ArgValue) -> Option<
    NotifSpec,
> {
    let u = match chain_text(input, seq!["url"@, "query"@]) {
        Some(t) => t,
        None => Seq::empty(),
    };
    let icon = if tool == "WebSearch"@ {
        "🔎"@
    } else {
        "🌐"@
    };
    Some(
        spec_compose(
            h,
            "["@ + h.project_name@ + "] "@ + icon + " 网络访问"@,
            clip(u, 100),
            "download"@,
            1,
            Seq::empty(),
        ),
    )
}

/// Todo-list update: progress of completed items over the total.
pub open spec fn spec_pre_todo(h: NotchHook, input: ArgValue) -> Option<NotifSpec> {
    match lookup(input, "todos"@) {
        Some(v) => match as_items(v) {
            Some(items) => Some(
                spec_compose(
                    h,
                    "["@ + h.project_name@ + "] 📋 任务更新"@,
                    "进度: "@ + spec_dec(count_completed(items)) + "/"@ + spec_dec(items.len())
                        + " 完成"@,
                    "reminder"@,
                    1,
                    Seq::empty(),
                ),
            ),
            None => None,
        },
        None => None,
    }
}

/// The displayable detail of a generic IDE-integration call: the first
/// non-empty candidate among path-like, pattern-like and configuration
/// fields.
pub open spec fn spec_jb_detail(input: Option<ArgValue>) -> Seq<char> {
    match input {
        Some(v) => {
            let path_keys = seq!["directoryPath"@, "pathInProject"@, "filePath"@, "path"@];
            let pattern_keys = seq![
                "pattern"@,
                "globPattern"@,
                "nameKeyword"@,
                "searchText"@,
                "regexPattern"@,
                "text"@,
            ];
            if chain_text(v, path_keys) is Some {
                clip(chain_text(v, path_keys)->0, 80)
            } else if chain_text(v, pattern_keys) is Some {
                clip(chain_text(v, pattern_keys)->0, 80)
            } else if key_text(v, "configurationName"@) is Some {
                key_text(v, "configurationName"@)->0
            } else {
                Seq::empty()
            }
        },
        None => Seq::empty(),
    }
}

/// Generic IDE-integration tools: classified by the lookup table; a
/// lowest-priority call without a displayable detail is suppressed.
pub open spec fn spec_pre_jb_other(h: NotchHook, tool: Seq<char>, input: Option<ArgValue>) -> Option<
    NotifSpec,
> {
    let rule = spec_jb_rule(tool);
    let detail = spec_jb_detail(input);
    if rule.2 > 0 || detail.len() > 0 {
        Some(
            spec_compose(
                h,
                "["@ + h.project_name@ + "] "@ + rule.0 + " JetBrains "@ + rule.1,
                if detail.len() == 0 {
                    rule.1
                } else {
                    detail
                },
                "sync"@,
                rule.2,
                Seq::empty(),
            ),
        )
    } else {
        None
    }
}

/// The whole pre-execution rule table, keyed by tool identity.
pub open spec fn spec_pre_tool(h: NotchHook, ev: LifecycleEvent, fs: FsFacts) -> Option<
    NotifSpec,
> {
    let tool = tool_of(ev);
    if tool == "MultiEdit"@ {
        match ev.tool_input {
            Some(i) => spec_pre_multi_edit(h, *i, fs),
            None => None,
        }
    } else if tool == "mcp__jetbrains__replace_text_in_file"@ {
        match ev.tool_input {
            Some(i) => spec_pre_jb_replace(h, *i, fs),
            None => None,
        }
    } else if tool == "mcp__jetbrains__create_new_file"@ {
        match ev.tool_input {
            Some(i) => spec_pre_jb_create(h, *i, fs),
            None => None,
        }
    } else if tool == "mcp__jetbrains__navigate_to_definition"@ || tool
        == "mcp__jetbrains__find_usages"@ || tool == "mcp__jetbrains__search_everywhere"@ {
        match ev.tool_input {
            Some(i) => spec_pre_jb_nav(h, tool, *i),
            None => None,
        }
    } else if tool == "mcp__jetbrains__run_configuration"@ || tool
        == "mcp__jetbrains__debug_configuration"@ {
        match ev.tool_input {
            Some(i) => spec_pre_jb_run(h, tool, *i),
            None => None,
        }
    } else if tool == "Edit"@ || tool == "Write"@ {
        match ev.tool_input {
            Some(i) => spec_pre_edit_write(h, tool, *i, fs),
            None => None,
        }
    } else if tool == "mcp__jetbrains__execute_terminal_command"@ {
        match ev.tool_input {
            Some(i) => spec_pre_jb_terminal(h, *i),
            None => None,
        }
    } else if tool == "Bash"@ {
        match ev.tool_input {
            Some(i) => spec_pre_bash(h, *i),
            None => None,
        }
    } else if tool == "Task"@ {
        match ev.tool_input {
            Some(i) => spec_pre_task(h, *i),
            None => None,
        }
    } else if tool == "Read"@ || tool == "Grep"@ || tool == "Glob"@ || tool == "LS"@ {
        match ev.tool_input {
            Some(i) => spec_pre_read(h, tool, *i),
            None => None,
        }
    } else if tool == "WebFetch"@ || tool == "WebSearch"@ {
        match ev.tool_input {
            Some(i) => spec_pre_web(h, tool, *i),
            None => None,
        }
    } else if tool == "TodoWrite"@ {
        match ev.tool_input {
            Some(i) => spec_pre_todo(h, *i),
            None => None,
        }
    } else if starts_with(tool, "mcp__jetbrains__"@) {
        spec_pre_jb_other(
            h,
            tool,
            match ev.tool_input {
                Some(i) => Some(*i),
                None => None,
            },
        )
    } else {
        None
    }
}

// ---------------------------------------------------------------------------
// Executable handlers
// ---------------------------------------------------------------------------

impl NotchHook {
    fn handle_pre_multi_edit(&self, input: &ArgValue, fs: &FsFacts) -> (r: Option<Notification>)
        ensures
            match spec_pre_multi_edit(*self, *input, *fs) {
                Some(m) => r is Some && matches_spec(r->0, m),
                None => r is None,
            },
    {
        let raw = match input.get_text("file_path") {
            Some(t) => t,
            None => {
                return None;
            },
        };
        let rel = self.display_path(raw, fs.abs_exists);
        let ghost relv = rel@;
        let cnt = input.get_list_len("edits");
        let mut message = rel;
        if cnt > 0 {
            push_lit(&mut message, " (批量修改 ");
            let d = dec_chars(cnt as u64);
            push_all(&mut message, &d);
            push_lit(&mut message, " 处)");
            proof {
                assert(message@ =~= relv + " (批量修改 "@ + spec_dec(cnt as nat) + " 处)"@);
            }
        } else {
            push_lit(&mut message, " (批量修改)");
            proof {
                assert(message@ =~= relv + " (批量修改)"@);
            }
        }
        let title = self.title_with("] 📝 批量修改");
        Some(self.send_notification(title, message, "tool_use", 2))
    }

    fn handle_pre_edit_write(&self, tool: &Vec<char>, input: &ArgValue, fs: &FsFacts) -> (r:
        Option<Notification>)
        ensures
            match spec_pre_edit_write(*self, tool@, *input, *fs) {
                Some(m) => r is Some && matches_spec(r->0, m),
                None => r is None,
            },
    {
        let raw = match input.get_text("file_path") {
            Some(t) => t,
            None => {
                return None;
            },
        };
        let resolved = crate::paths::resolve_path(raw, &self.project_path, fs.abs_exists);
        let rel = self.get_relative_path(&resolved);
        match &fs.preview {
            Some(p) => {
                let ghost relv = rel@;
                let mut message = rel;
                push_lit(&mut message, " (预计 +");
                let da = dec_chars(p.added as u64);
                push_all(&mut message, &da);
                push_lit(&mut message, " -");
                let dr = dec_chars(p.removed as u64);
                push_all(&mut message, &dr);
                push_lit(&mut message, ")");
                proof {
                    assert(message@ =~= relv + " (预计 +"@ + spec_dec(p.added as nat) + " -"@
                        + spec_dec(p.removed as nat) + ")"@);
                }
                let title = self.title_with("] ⏸️ 即将修改");
                let n = self.send_notification_with_diff(
                    title,
                    message,
                    "tool_use",
                    2,
                    Some(clone_chars(&p.diff_path)),
                    Some(resolved),
                    tool,
                );
                Some(n)
            },
            None => {
                let title = self.title_with("] ✏️ 即将修改");
                Some(self.send_notification(title, rel, "tool_use", 2))
            },
        }
    }

    fn handle_pre_jb_replace(&self, input: &ArgValue, fs: &FsFacts) -> (r: Option<Notification>)
        ensures
            match spec_pre_jb_replace(*self, *input, *fs) {
                Some(m) => r is Some && matches_spec(r->0, m),
                None => r is None,
            },
    {
        let raw = match input.get_text("pathInProject") {
            Some(t) => t,
            None => {
                return None;
            },
        };
        let resolved = crate::paths::resolve_path(raw, &self.project_path, fs.abs_exists);
        let rel = self.get_relative_path(&resolved);
        let old_ok = match input.get_text("oldText") {
            Some(_) => true,
            None => false,
        };
        let new_ok = match input.get_text("newText") {
            Some(_) => true,
            None => false,
        };
        if old_ok && new_ok {
            match &fs.preview {
                Some(p) => {
                    let ghost relv = rel@;
                    let mut message = rel;
                    push_lit(&mut message, " (预计 +");
                    let da = dec_chars(p.added as u64);
                    push_all(&mut message, &da);
                    push_lit(&mut message, " -");
                    let dr = dec_chars(p.removed as u64);
                    push_all(&mut message, &dr);
                    push_lit(&mut message, ")");
                    proof {
                        assert(message@ =~= relv + " (预计 +"@ + spec_dec(p.added as nat) + " -"@
                            + spec_dec(p.removed as nat) + ")"@);
                    }
                    let title = self.title_with("] ✏️ JetBrains IDE 修改");
                    let tool = lit_chars("mcp__jetbrains__replace_text_in_file");
                    let n = self.send_notification_with_diff(
                        title,
                        message,
                        "sync",
                        2,
                        Some(clone_chars(&p.diff_path)),
                        Some(resolved),
                        &tool,
                    );
                    return Some(n);
                },
                None => {},
            }
        }
        let title = self.title_with("] ✏️ JetBrains IDE 修改");
        Some(self.send_notification(title, rel, "sync", 2))
    }

    fn handle_pre_jb_create(&self, input: &ArgValue, fs: &FsFacts) -> (r: Option<Notification>)
        ensures
            match spec_pre_jb_create(*self, *input, *fs) {
                Some(m) => r is Some && matches_spec(r->0, m),
                None => r is None,
            },
    {
        let raw = match input.get_text("pathInProject") {
            Some(t) => t,
            None => {
                return None;
            },
        };
        let rel = self.display_path(raw, fs.abs_exists);
        let title = self.title_with("] 🆕 JetBrains 创建文件");
        Some(self.send_notification(title, rel, "sync", 2))
    }

    fn handle_pre_jb_nav(&self, tool: &Vec<char>, input: &ArgValue) -> (r: Option<Notification>)
        ensures
            match spec_pre_jb_nav(*self, tool@, *input) {
                Some(m) => r is Some && matches_spec(r->0, m),
                None => r is None,
            },
    {
        let mut keys: Vec<&str> = Vec::new();
        keys.push("symbol");
        keys.push("query");
        proof {
            assert(keys.deep_view() =~~= seq!["symbol"@, "query"@]);
        }
        let target = match input.chain_get_text(&keys) {
            Some(t) => clone_chars(t),
            None => lit_chars("未知目标"),
        };
        let (icon, action) = if eq_lit(tool, "mcp__jetbrains__navigate_to_definition") {
            (lit_chars("🎯"), lit_chars("跳转定义"))
        } else if eq_lit(tool, "mcp__jetbrains__find_usages") {
            (lit_chars("🔗"), lit_chars("查找引用"))
        } else {
            (lit_chars("🌐"), lit_chars("全局搜索"))
        };
        let mut title = lit_chars("[");
        push_all(&mut title, &self.project_name);
        push_lit(&mut title, "] ");
        push_all(&mut title, &icon);
        push_lit(&mut title, " JetBrains ");
        push_all(&mut title, &action);
        proof {
            assert(title@ =~= "["@ + self.project_name@ + "] "@ + icon@ + " JetBrains "@
                + action@);
        }
        let message = truncate_chars(&target, 80);
        Some(self.send_notification(title, message, "sync", 1))
    }

    fn handle_pre_jb_run(&self, tool: &Vec<char>, input: &ArgValue) -> (r: Option<Notification>)
        ensures
            match spec_pre_jb_run(*self, tool@, *input) {
                Some(m) => r is Some && matches_spec(r->0, m),
                None => r is None,
            },
    {
        let config = match input.get_text("configuration") {
            Some(c) => clone_chars(c),
            None => lit_chars("默认配置"),
        };
        let (icon, action) = if eq_lit(tool, "mcp__jetbrains__debug_configuration") {
            (lit_chars("🐞"), lit_chars("调试"))
        } else {
            (lit_chars("▶️"), lit_chars("运行"))
        };
        let mut title = lit_chars("[");
        push_all(&mut title, &self.project_name);
        push_lit(&mut title, "] ");
        push_all(&mut title, &icon);
        push_lit(&mut title, " JetBrains ");
        push_all(&mut title, &action);
        proof {
            assert(title@ =~= "["@ + self.project_name@ + "] "@ + icon@ + " JetBrains "@
                + action@);
        }
        Some(self.send_notification(title, config, "sync", 2))
    }

    fn handle_pre_jb_terminal(&self, input: &ArgValue) -> (r: Option<Notification>)
        ensures
            match spec_pre_jb_terminal(*self, *input) {
                Some(m) => r is Some && matches_spec(r->0, m),
                None => r is None,
            },
    {
        let cmd = match input.get_text("command") {
            Some(c) => c,
            None => {
                return None;
            },
        };
        let title = self.title_with("] 💻 JetBrains 终端");
        let message = truncate_chars(cmd, 80);
        Some(self.send_notification(title, message, "sync", 2))
    }

    fn handle_pre_bash(&self, input: &ArgValue) -> (r: Option<Notification>)
        ensures
            match spec_pre_bash(*self, *input) {
                Some(m) => r is Some && matches_spec(r->0, m),
                None => r is None,
            },
    {
        let cmd = match input.get_text("command") {
            Some(c) => c,
            None => {
                return None;
            },
        };
        match bash_rule(cmd) {
            Some((pr, icon)) => {
                let mut title = lit_chars("[");
                push_all(&mut title, &self.project_name);
                push_lit(&mut title, "] ");
                push_all(&mut title, &icon);
                push_lit(&mut title, " 执行命令");
                proof {
                    assert(title@ =~= "["@ + self.project_name@ + "] "@ + icon@ + " 执行命令"@);
                }
                let mut message = truncate_chars(cmd, 80);
                push_lit(&mut message, "...");
                let priority: u8 = if pr < 2 {
                    pr
                } else {
                    2
                };
                Some(self.send_notification(title, message, "tool_use", priority))
            },
            None => None,
        }
    }

    fn handle_pre_task(&self, input: &ArgValue) -> (r: Option<Notification>)
        ensures
            match spec_pre_task(*self, *input) {
                Some(m) => r is Some && matches_spec(r->0, m),
                None => r is None,
            },
    {
        let sub = match input.get_text("subagent_type") {
            Some(s) => clone_chars(s),
            None => lit_chars("general-purpose"),
        };
        let desc = match input.get_text("description") {
            Some(d) => clone_chars(d),
            None => lit_chars("AI 任务处理中"),
        };
        let icon = if eq_lit(&sub, "statusline-setup") {
            lit_chars("⚙️")
        } else if eq_lit(&sub, "output-style-setup") {
            lit_chars("🎨")
        } else {
            lit_chars("🤖")
        };
        let mut title = lit_chars("[");
        push_all(&mut title, &self.project_name);
        push_lit(&mut title, "] ");
        push_all(&mut title, &icon);
        push_lit(&mut title, " Agent 启动");
        proof {
            assert(title@ =~= "["@ + self.project_name@ + "] "@ + icon@ + " Agent 启动"@);
        }
        let ghost descv = desc@;
        let mut message = desc;
        push_lit(&mut message, " (");
        push_all(&mut message, &sub);
        push_lit(&mut message, ")");
        proof {
            assert(message@ =~= descv + " ("@ + sub@ + ")"@);
        }
        Some(self.send_notification(title, message, "ai", 2))
    }

    fn handle_pre_read(&self, tool: &Vec<char>, input: &ArgValue) -> (r: Option<Notification>)
        ensures
            match spec_pre_read(*self, tool@, *input) {
                Some(m) => r is Some && matches_spec(r->0, m),
                None => r is None,
            },
    {
        let target = if eq_lit(tool, "Read") {
            input.get_text("file_path")
        } else if eq_lit(tool, "Grep") || eq_lit(tool, "Glob") {
            input.get_text("pattern")
        } else {
            input.get_text("path")
        };
        let target = match target {
            Some(t) => t,
            None => {
                return None;
            },
        };
        let icon = if eq_lit(tool, "Read") {
            lit_chars("📖")
        } else if eq_lit(tool, "Grep") {
            lit_chars("🔍")
        } else if eq_lit(tool, "Glob") {
            lit_chars("📁")
        } else {
            lit_chars("📋")
        };
        let mut title = lit_chars("[");
        push_all(&mut title, &self.project_name);
        push_lit(&mut title, "] ");
        push_all(&mut title, &icon);
        push_lit(&mut title, " ");
        push_all(&mut title, tool);
        proof {
            assert(title@ =~= "["@ + self.project_name@ + "] "@ + icon@ + " "@ + tool@);
        }
        let message = truncate_chars(target, 100);
        Some(self.send_notification(title, message, "info", 0))
    }

    fn handle_pre_web(&self, tool: &Vec<char>, input: &ArgValue) -> (r: Option<Notification>)
        ensures
            match spec_pre_web(*self, tool@, *input) {
                Some(m) => r is Some && matches_spec(r->0, m),
                None => r is None,
            },
    {
        let mut keys: Vec<&str> = Vec::new();
        keys.push("url");
        keys.push("query");
        proof {
            assert(keys.deep_view() =~~= seq!["url"@, "query"@]);
        }
        let u = match input.chain_get_text(&keys) {
            Some(t) => clone_chars(t),
            None => Vec::new(),
        };
        proof {
            if chain_text(*input, seq!["url"@, "query"@]) is None {
                assert(u@ =~= Seq::<char>::empty());
            }
        }
        let icon = if eq_lit(tool, "WebSearch") {
            lit_chars("🔎")
        } else {
            lit_chars("🌐")
        };
        let mut title = lit_chars("[");
        push_all(&mut title, &self.project_name);
        push_lit(&mut title, "] ");
        push_all(&mut title, &icon);
        push_lit(&mut title, " 网络访问");
        proof {
            assert(title@ =~= "["@ + self.project_name@ + "] "@ + icon@ + " 网络访问"@);
        }
        let message = truncate_chars(&u, 100);
        Some(self.send_notification(title, message, "download", 1))
    }

    fn handle_pre_todo(&self, input: &ArgValue) -> (r: Option<Notification>)
        ensures
            match spec_pre_todo(*self, *input) {
                Some(m) => r is Some && matches_spec(r->0, m),
                None => r is None,
            },
    {
        let todos = match input.get("todos") {
            Some(v) => v,
            None => {
                return None;
            },
        };
        let items = match todos.items_ref() {
            Some(l) => l,
            None => {
                return None;
            },
        };
        let total = items.len();
        let completed = count_completed_items(items);
        let title = self.title_with("] 📋 任务更新");
        let mut message = lit_chars("进度: ");
        let dc = dec_chars(completed as u64);
        push_all(&mut message, &dc);
        push_lit(&mut message, "/");
        let dt = dec_chars(total as u64);
        push_all(&mut message, &dt);
        push_lit(&mut message, " 完成");
        proof {
            assert(message@ =~= "进度: "@ + spec_dec(completed as nat) + "/"@ + spec_dec(
                total as nat) + " 完成"@);
        }
        Some(self.send_notification(title, message, "reminder", 1))
    }

    fn handle_pre_jb_other(&self, tool: &Vec<char>, input: Option<&ArgValue>) -> (r: Option<
        Notification>)
        ensures
            match spec_pre_jb_other(
                *self,
                tool@,
                match input {
                    Some(i) => Some(*i),
                    None => None,
                },
            ) {
                Some(m) => r is Some && matches_spec(r->0, m),
                None => r is None,
            },
    {
        let (icon, action, priority) = jb_rule(tool);
        let detail: Vec<char> = match input {
            Some(v) => {
                let mut path_keys: Vec<&str> = Vec::new();
                path_keys.push("directoryPath");
                path_keys.push("pathInProject");
                path_keys.push("filePath");
                path_keys.push("path");
                proof {
                    assert(path_keys.deep_view() =~~= seq![
                        "directoryPath"@,
                        "pathInProject"@,
                        "filePath"@,
                        "path"@,
                    ]);
                }
                let mut pattern_keys: Vec<&str> = Vec::new();
                pattern_keys.push("pattern");
                pattern_keys.push("globPattern");
                pattern_keys.push("nameKeyword");
                pattern_keys.push("searchText");
                pattern_keys.push("regexPattern");
                pattern_keys.push("text");
                proof {
                    assert(pattern_keys.deep_view() =~~= seq![
                        "pattern"@,
                        "globPattern"@,
                        "nameKeyword"@,
                        "searchText"@,
                        "regexPattern"@,
                        "text"@,
                    ]);
                }
                match v.chain_get_text(&path_keys) {
                    Some(t) => truncate_chars(t, 80),
                    None => match v.chain_get_text(&pattern_keys) {
                        Some(t) => truncate_chars(t, 80),
                        None => match v.get_text("configurationName") {
                            Some(c) => clone_chars(c),
                            None => Vec::new(),
                        },
                    },
                }
            },
            None => Vec::new(),
        };
        proof {
            assert(detail@ == spec_jb_detail(
                match input {
                    Some(i) => Some(*i),
                    None => None,
                },
            ));
        }
        if priority > 0 || detail.len() > 0 {
            let mut title = lit_chars("[");
            push_all(&mut title, &self.project_name);
            push_lit(&mut title, "] ");
            push_all(&mut title, &icon);
            push_lit(&mut title, " JetBrains ");
            push_all(&mut title, &action);
            proof {
                assert(title@ =~= "["@ + self.project_name@ + "] "@ + icon@ + " JetBrains "@
                    + action@);
            }
            let message = if detail.len() == 0 {
                clone_chars(&action)
            } else {
                detail
            };
            Some(self.send_notification(title, message, "sync", priority))
        } else {
            None
        }
    }

    /// Classify a pre-execution tool event.
    pub fn handle_pre_tool_use(&self, ev: &LifecycleEvent, fs: &FsFacts) -> (r: Option<
        Notification>)
        ensures
            match spec_pre_tool(*self, *ev, *fs) {
                Some(m) => r is Some && matches_spec(r->0, m),
                None => r is None,
            },
    {
        let empty_tool: Vec<char> = Vec::new();
        let tool: &Vec<char> = match ev.tool_name {
            Some(t) => t,
            None => &empty_tool,
        };
        if eq_lit(tool, "MultiEdit") {
            match ev.tool_input {
                Some(i) => self.handle_pre_multi_edit(i, fs),
                None => None,
            }
        } else if eq_lit(tool, "mcp__jetbrains__replace_text_in_file") {
            match ev.tool_input {
                Some(i) => self.handle_pre_jb_replace(i, fs),
                None => None,
            }
        } else if eq_lit(tool, "mcp__jetbrains__create_new_file") {
            match ev.tool_input {
                Some(i) => self.handle_pre_jb_create(i, fs),
                None => None,
            }
        } else if eq_lit(tool, "mcp__jetbrains__navigate_to_definition") || eq_lit(
            tool,
            "mcp__jetbrains__find_usages",
        ) || eq_lit(tool, "mcp__jetbrains__search_everywhere") {
            match ev.tool_input {
                Some(i) => self.handle_pre_jb_nav(tool, i),
                None => None,
            }
        } else if eq_lit(tool, "mcp__jetbrains__run_configuration") || eq_lit(
            tool,
            "mcp__jetbrains__debug_configuration",
        ) {
            match ev.tool_input {
                Some(i) => self.handle_pre_jb_run(tool, i),
                None => None,
            }
        } else if eq_lit(tool, "Edit") || eq_lit(tool, "Write") {
            match ev.tool_input {
                Some(i) => self.handle_pre_edit_write(tool, i, fs),
                None => None,
            }
        } else if eq_lit(tool, "mcp__jetbrains__execute_terminal_command") {
            match ev.tool_input {
                Some(i) => self.handle_pre_jb_terminal(i),
                None => None,
            }
        } else if eq_lit(tool, "Bash") {
            match ev.tool_input {
                Some(i) => self.handle_pre_bash(i),
                None => None,
            }
        } else if eq_lit(tool, "Task") {
            match ev.tool_input {
                Some(i) => self.handle_pre_task(i),
                None => None,
            }
        } else if eq_lit(tool, "Read") || eq_lit(tool, "Grep") || eq_lit(tool, "Glob") || eq_lit(
            tool,
            "LS",
        ) {
            match ev.tool_input {
                Some(i) => self.handle_pre_read(tool, i),
                None => None,
            }
        } else if eq_lit(tool, "WebFetch") || eq_lit(tool, "WebSearch") {
            match ev.tool_input {
                Some(i) => self.handle_pre_web(tool, i),
                None => None,
            }
        } else if eq_lit(tool, "TodoWrite") {
            match ev.tool_input {
                Some(i) => self.handle_pre_todo(i),
                None => None,
            }
        } else if starts_with_lit(tool, "mcp__jetbrains__") {
            self.handle_pre_jb_other(tool, ev.tool_input)
        } else {
            None
        }
    }
}

} // verus!
