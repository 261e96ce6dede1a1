//! Classification of post-execution tool events.
//!
//! Completion confirmations mirror a subset of the pre-execution rules at
//! reduced priority.  A tool-level error always overrides them: an event
//! carrying an error message yields a fixed-priority error notification
//! with the tool name and a truncated excerpt, whatever the tool was.

use vstd::prelude::*;
use crate::args::{ArgValue, as_text, key_text, list_len_or_zero};
use crate::event::{EventKind, LifecycleEvent};
use crate::hook::{FsFacts, NotchHook, spec_compose, spec_display, tool_of};
use crate::notify::{Notification, NotifSpec, matches_spec, pairs_view};
use crate::text::{clip, clone_chars, contains_lit, contains_seq, dec_chars, eq_lit,
    first_two_lines_joined, join_sep, lit_chars, push_all, push_lit, spec_dec, spec_lines,
    truncate_chars};

verus! {

/// The error notification: fixed priority, tool name and truncated excerpt.
pub open spec fn spec_post_error(h: NotchHook, tool: Seq<char>, err: Seq<char>) -> NotifSpec {
    spec_compose(
        h,
        "["@ + h.project_name@ + "] ❌ 工具执行失败"@,
        tool + ": "@ + clip(err, 100),
        "error"@,
        3,
        seq![("event_type"@, "tool_error"@), ("tool_name"@, tool), ("error_message"@, err)],
    )
}

/// Batch edit completion.
pub open spec fn spec_post_multi_edit(h: NotchHook, input: ArgValue, fs: FsFacts) -> Option<
    NotifSpec,
> {
    match key_text(input, "file_path"@) {
        Some(raw) => {
            let rel = spec_display(h, raw, fs.abs_exists);
            let cnt = list_len_or_zero(input, "edits"@);
            let message = if cnt > 0 {
                rel + " ("@ + spec_dec(cnt) + " 处修改已完成)"@
            } else {
                rel
            };
            Some(
                spec_compose(
                    h,
                    "["@ + h.project_name@ + "] ✅ 批量修改完成"@,
                    message,
                    "success"@,
                    0,
                    Seq::empty(),
                ),
            )
        },
        None => None,
    }
}

/// IDE edit or file-creation completion.
pub open spec fn spec_post_jb_edit(h: NotchHook, tool: Seq<char>, input: ArgValue, fs: FsFacts) -> Option<
    NotifSpec,
> {
    match key_text(input, "pathInProject"@) {
        Some(raw) => {
            let action = if contains_seq(tool, "create"@) {
                "文件已创建"@
            } else {
                "IDE 修改完成"@
            };
            Some(
                spec_compose(
                    h,
                    "["@ + h.project_name@ + "] ✅ JetBrains "@ + action,
                    spec_display(h, raw, fs.abs_exists),
                    "success"@,
                    0,
                    Seq::empty(),
                ),
            )
        },
        None => None,
    }
}

/// Edit or write completion.
pub open spec fn spec_post_edit_write(h: NotchHook, input: ArgValue, fs: FsFacts) -> Option<
    NotifSpec,
> {
    match key_text(input, "file_path"@) {
        Some(raw) => Some(
            spec_compose(
                h,
                "["@ + h.project_name@ + "] ✅ 修改完成"@,
                spec_display(h, raw, fs.abs_exists),
                "success"@,
                0,
                Seq::empty(),
            ),
        ),
        None => None,
    }
}

/// Sub-agent completion.
pub open spec fn spec_post_task(h: NotchHook) -> NotifSpec {
    spec_compose(
        h,
        "["@ + h.project_name@ + "] ✨ Agent 完成"@,
        "AI 任务处理完毕"@,
        "success"@,
        1,
        Seq::empty(),
    )
}

/// Shell completion: the first two output lines, joined and truncated;
/// nothing when that excerpt is empty.
pub open spec fn spec_post_bash(h: NotchHook, output: Option<ArgValue>) -> Option<NotifSpec> {
    match output {
        Some(o) => match as_text(o) {
            Some(t) => {
                let lines = spec_lines(t);
                let preview = clip(
                    join_sep(
                        lines.take(
                            if lines.len() < 2 {
                                lines.len() as int
                            } else {
                                2
                            },
                        ),
                        " | "@,
                    ),
                    100,
                );
                if preview.len() > 0 {
                    Some(
                        spec_compose(
                            h,
                            "["@ + h.project_name@ + "] ✅ 命令完成"@,
                            preview,
                            "success"@,
                            0,
                            Seq::empty(),
                        ),
                    )
                } else {
                    None
                }
            },
            None => None,
        },
        None => None,
    }
}

/// The whole post-execution rule table.  An error message always wins.
pub open spec fn spec_post_tool(h: NotchHook, ev: LifecycleEvent, fs: FsFacts) -> Option<
    NotifSpec,
> {
    let tool = tool_of(ev);
    match ev.error {
        Some(e) => Some(spec_post_error(h, tool, e@)),
        None => if tool == "MultiEdit"@ {
            match ev.tool_input {
                Some(i) => spec_post_multi_edit(h, *i, fs),
                None => None,
            }
        } else if tool == "mcp__jetbrains__replace_text_in_file"@ || tool
            == "mcp__jetbrains__create_new_file"@ {
            match ev.tool_input {
                Some(i) => spec_post_jb_edit(h, tool, *i, fs),
                None => None,
            }
        } else if tool == "Edit"@ || tool == "Write"@ {
            match ev.tool_input {
                Some(i) => spec_post_edit_write(h, *i, fs),
                None => None,
            }
        } else if tool == "Task"@ {
            Some(spec_post_task(h))
        } else if tool == "Bash"@ {
            spec_post_bash(
                h,
                match ev.tool_output {
                    Some(o) => Some(*o),
                    None => None,
                },
            )
        } else {
            None
        },
    }
}

/// A post-execution event with a non-empty error always classifies to an
/// error-category notification at the fixed priority, whatever the tool.
pub proof fn lemma_error_overrides(h: NotchHook, ev: LifecycleEvent, fs: FsFacts)
    requires
        ev.kind == EventKind::PostToolUse,
        ev.error matches Some(e) && e@.len() > 0,
    ensures
        spec_post_tool(h, ev, fs) matches Some(m) && m.category == "error"@ && m.priority == 3,
{
}

impl NotchHook {
    fn handle_post_error(&self, tool: &Vec<char>, err: &Vec<char>) -> (n: Notification)
        ensures
            matches_spec(n, spec_post_error(*self, tool@, err@)),
    {
        let title = self.title_with("] ❌ 工具执行失败");
        let ghost toolv = tool@;
        let mut message = clone_chars(tool);
        push_lit(&mut message, ": ");
        let excerpt = truncate_chars(err, 100);
        push_all(&mut message, &excerpt);
        proof {
            assert(message@ =~= toolv + ": "@ + clip(err@, 100));
        }
        let mut extra: Vec<(Vec<char>, Vec<char>)> = Vec::new();
        extra.push((lit_chars("event_type"), lit_chars("tool_error")));
        extra.push((lit_chars("tool_name"), clone_chars(tool)));
        extra.push((lit_chars("error_message"), clone_chars(err)));
        proof {
            assert(pairs_view(extra@) =~= seq![
                ("event_type"@, "tool_error"@),
                ("tool_name"@, tool@),
                ("error_message"@, err@),
            ]);
        }
        self.send_notification_with_metadata(title, message, "error", 3, extra)
    }

    fn handle_post_multi_edit(&self, input: &ArgValue, fs: &FsFacts) -> (r: Option<Notification>)
        ensures
            match spec_post_multi_edit(*self, *input, *fs) {
                Some(m) => r is Some && matches_spec(r->0, m),
                None => r is None,
            },
    {
        let raw = match input.get_text("file_path") {
            Some(t) => t,
            None => {
                return None;
            },
        };
        let rel = self.display_path(raw, fs.abs_exists);
        let ghost relv = rel@;
        let cnt = input.get_list_len("edits");
        let mut message = rel;
        if cnt > 0 {
            push_lit(&mut message, " (");
            let d = dec_chars(cnt as u64);
            push_all(&mut message, &d);
            push_lit(&mut message, " 处修改已完成)");
            proof {
                assert(message@ =~= relv + " ("@ + spec_dec(cnt as nat) + " 处修改已完成)"@);
            }
        }
        let title = self.title_with("] ✅ 批量修改完成");
        Some(self.send_notification(title, message, "success", 0))
    }

    fn handle_post_jb_edit(&self, tool: &Vec<char>, input: &ArgValue, fs: &FsFacts) -> (r: Option<
        Notification>)
        ensures
            match spec_post_jb_edit(*self, tool@, *input, *fs) {
                Some(m) => r is Some && matches_spec(r->0, m),
                None => r is None,
            },
    {
        let raw = match input.get_text("pathInProject") {
            Some(t) => t,
            None => {
                return None;
            },
        };
        let rel = self.display_path(raw, fs.abs_exists);
        let mut title = self.title_with("] ✅ JetBrains ");
        if contains_lit(tool, "create") {
            push_lit(&mut title, "文件已创建");
            assert(title@ =~= "["@ + self.project_name@ + "] ✅ JetBrains "@ + "文件已创建"@);
        } else {
            push_lit(&mut title, "IDE 修改完成");
            assert(title@ =~= "["@ + self.project_name@ + "] ✅ JetBrains "@ + "IDE 修改完成"@);
        }
        Some(self.send_notification(title, rel, "success", 0))
    }

    fn handle_post_edit_write(&self, input: &ArgValue, fs: &FsFacts) -> (r: Option<Notification>)
        ensures
            match spec_post_edit_write(*self, *input, *fs) {
                Some(m) => r is Some && matches_spec(r->0, m),
                None => r is None,
            },
    {
        let raw = match input.get_text("file_path") {
            Some(t) => t,
            None => {
                return None;
            },
        };
        let rel = self.display_path(raw, fs.abs_exists);
        let title = self.title_with("] ✅ 修改完成");
        Some(self.send_notification(title, rel, "success", 0))
    }

    fn handle_post_bash(&self, output: &ArgValue) -> (r: Option<Notification>)
        ensures
            match spec_post_bash(*self, Some(*output)) {
                Some(m) => r is Some && matches_spec(r->0, m),
                None => r is None,
            },
    {
        let t = match output.text_ref() {
            Some(t) => t,
            None => {
                return None;
            },
        };
        let joined = first_two_lines_joined(t);
        let preview = truncate_chars(&joined, 100);
        if preview.len() == 0 {
            return None;
        }
        let title = self.title_with("] ✅ 命令完成");
        Some(self.send_notification(title, preview, "success", 0))
    }

    /// Classify a post-execution tool event.
    pub fn handle_post_tool_use(&self, ev: &LifecycleEvent, fs: &FsFacts) -> (r: Option<
        Notification>)
        ensures
            match spec_post_tool(*self, *ev, *fs) {
                Some(m) => r is Some && matches_spec(r->0, m),
                None => r is None,
            },
    {
        let empty_tool: Vec<char> = Vec::new();
        let tool: &Vec<char> = match ev.tool_name {
            Some(t) => t,
            None => &empty_tool,
        };
        match ev.error {
            Some(e) => {
                return Some(self.handle_post_error(tool, e));
            },
            None => {},
        }
        if eq_lit(tool, "MultiEdit") {
            match ev.tool_input {
                Some(i) => self.handle_post_multi_edit(i, fs),
                None => None,
            }
        } else if eq_lit(tool, "mcp__jetbrains__replace_text_in_file") || eq_lit(
            tool,
            "mcp__jetbrains__create_new_file",
        ) {
            match ev.tool_input {
                Some(i) => self.handle_post_jb_edit(tool, i, fs),
                None => None,
            }
        } else if eq_lit(tool, "Edit") || eq_lit(tool, "Write") {
            match ev.tool_input {
                Some(i) => self.handle_post_edit_write(i, fs),
                None => None,
            }
        } else if eq_lit(tool, "Task") {
            let title = self.title_with("] ✨ Agent 完成");
            Some(self.send_notification(title, lit_chars("AI 任务处理完毕"), "success", 1))
        } else if eq_lit(tool, "Bash") {
            match ev.tool_output {
                Some(o) => self.handle_post_bash(o),
                None => None,
            }
        } else {
            None
        }
    }
}

} // verus!
