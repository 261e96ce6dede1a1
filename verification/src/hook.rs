//! The hook context and the event dispatcher.
//!
//! A [`NotchHook`] holds the per-invocation configuration: project path and
//! name, the artifact directory for diff previews, and the session clock and
//! identity rendered as text by the caller.  Classification is a pure
//! mapping from the event and a few facts about the disk to at most one
//! [`Notification`]; the caller performs the probing, the artifact writes
//! and the delivery.

use vstd::prelude::*;
use crate::args::{ArgValue, as_text, key_text};
use crate::event::{EventKind, LifecycleEvent};
use crate::notify::{
    Notification,
    NotifSpec,
    insert_entries,
    matches_spec,
    meta_map,
    meta_push,
    meta_push_pair,
    pairs_view,
};
use crate::paths::{relative_path, resolve_path, spec_project_name, spec_relative, spec_resolve};
use crate::text::{clip, clone_chars, contains_seq, contains_lit, lit_chars, push_all, push_lit,
    truncate_chars};

verus! {

/// The per-invocation context of the hook.
pub struct NotchHook {
    /// Absolute path of the project the agent works in.
    pub project_path: Vec<char>,
    /// Display name of the project: the last segment of its path.
    pub project_name: Vec<char>,
    /// Directory that receives diff-preview artifacts.
    pub diff_dir: Vec<char>,
    /// Elapsed session time, already rendered (seconds with one decimal).
    pub session_duration_text: Vec<char>,
    /// Identity of this session, already rendered.
    pub session_id_text: Vec<char>,
}

/// What a generated preview looked like, as reported by the caller after it
/// persisted the artifacts.
pub struct PreviewFacts {
    pub added: usize,
    pub removed: usize,
    /// Full path of the persisted unified-diff artifact.
    pub diff_path: Vec<char>,
}

/// The facts about the disk that classification depends on.
pub struct FsFacts {
    /// Whether the raw tool path, taken verbatim as absolute, exists.
    pub abs_exists: bool,
    /// The persisted preview for this event, when one was produced.
    pub preview: Option<PreviewFacts>,
}

/// The tool identity of an event; empty when the event names no tool.
pub open spec fn tool_of(ev: LifecycleEvent) -> Seq<char> {
    match ev.tool_name {
        Some(t) => t@,
        None => Seq::empty(),
    }
}

/// The views of an optional character vector.
pub open spec fn opt_view(o: Option<Vec<char>>) -> Option<Seq<char>> {
    match o {
        Some(v) => Some(v@),
        None => None,
    }
}

// ---------------------------------------------------------------------------
// Composition
// ---------------------------------------------------------------------------

/// The baseline metadata attached to every composed notification.
pub open spec fn spec_baseline(h: NotchHook) -> Map<Seq<char>, Seq<char>> {
    Map::<Seq<char>, Seq<char>>::empty().insert("source"@, "agent-hook"@).insert(
        "project"@,
        h.project_name@,
    ).insert("project_path"@, h.project_path@).insert(
        "session_duration"@,
        h.session_duration_text@,
    )
}

/// A composed notification: baseline metadata first, event-specific entries
/// after it, so an event-specific key wins on conflict.
pub open spec fn spec_compose(
    h: NotchHook,
    title: Seq<char>,
    message: Seq<char>,
    category: Seq<char>,
    priority: int,
    extras: Seq<(Seq<char>, Seq<char>)>,
) -> NotifSpec {
    NotifSpec {
        title,
        message,
        category,
        priority,
        metadata: insert_entries(spec_baseline(h), extras),
    }
}

/// The metadata of a preview-bearing notification.  It replaces the session
/// clock by the tool identity and the artifact location.
pub open spec fn spec_diff_meta(
    h: NotchHook,
    tool: Seq<char>,
    file_path: Option<Seq<char>>,
    diff_path: Option<Seq<char>>,
) -> Map<Seq<char>, Seq<char>> {
    let m = Map::<Seq<char>, Seq<char>>::empty().insert("source"@, "agent-hook"@).insert(
        "project"@,
        h.project_name@,
    ).insert("project_path"@, h.project_path@).insert("tool_name"@, tool).insert(
        "event_type"@,
        "PreToolUse"@,
    );
    let m2 = if file_path is Some {
        m.insert("file_path"@, file_path->0)
    } else {
        m
    };
    if diff_path is Some {
        m2.insert("diff_path"@, diff_path->0).insert("is_preview"@, "true"@)
    } else {
        m2
    }
}

impl NotchHook {
    /// Build the context; the project name is derived from the path.
    pub fn new(
        project_path: Vec<char>,
        diff_dir: Vec<char>,
        session_duration_text: Vec<char>,
        session_id_text: Vec<char>,
    ) -> (h: NotchHook)
        ensures
            h.project_path@ == project_path@,
            h.project_name@ == spec_project_name(project_path@),
            h.diff_dir@ == diff_dir@,
            h.session_duration_text@ == session_duration_text@,
            h.session_id_text@ == session_id_text@,
    {
        let project_name = crate::paths::project_name_of(&project_path);
        NotchHook { project_path, project_name, diff_dir, session_duration_text, session_id_text }
    }

    /// The project-relative display form of a path.
    pub fn get_relative_path(&self, file_path: &Vec<char>) -> (r: Vec<char>)
        ensures
            r@ == spec_relative(file_path@, self.project_path@),
    {
        relative_path(file_path, &self.project_path)
    }

    /// A title of the form `[<project>]<tail>`.
    pub(crate) fn title_with(&self, tail: &str) -> (r: Vec<char>)
        ensures
            r@ == "["@ + self.project_name@ + tail@,
    {
        let mut t = lit_chars("[");
        push_all(&mut t, &self.project_name);
        push_lit(&mut t, tail);
        proof {
            assert(t@ =~= "["@ + self.project_name@ + tail@);
        }
        t
    }

    /// The resolved, project-relative display of a raw tool path.
    pub(crate) fn display_path(&self, raw: &Vec<char>, abs_exists: bool) -> (r: Vec<char>)
        ensures
            r@ == spec_display(*self, raw@, abs_exists),
    {
        let resolved = resolve_path(raw, &self.project_path, abs_exists);
        self.get_relative_path(&resolved)
    }

    /// Compose a notification from baseline metadata and extra entries;
    /// an extra entry with a baseline key overrides it.
    pub fn send_notification_with_metadata(
        &self,
        title: Vec<char>,
        message: Vec<char>,
        category: &str,
        priority: u8,
        extra: Vec<(Vec<char>, Vec<char>)>,
    ) -> (n: Notification)
        ensures
            matches_spec(
                n,
                spec_compose(
                    *self,
                    title@,
                    message@,
                    category@,
                    priority as int,
                    pairs_view(extra@),
                ),
            ),
    {
        let mut metadata: Vec<(Vec<char>, Vec<char>)> = Vec::new();
        proof {
            assert(pairs_view(metadata@) =~~= Seq::<(Seq<char>, Seq<char>)>::empty());
            assert(meta_map(metadata@) == Map::<Seq<char>, Seq<char>>::empty());
        }
        meta_push(&mut metadata, "source", lit_chars("agent-hook"));
        meta_push(&mut metadata, "project", clone_chars(&self.project_name));
        meta_push(&mut metadata, "project_path", clone_chars(&self.project_path));
        meta_push(&mut metadata, "session_duration", clone_chars(&self.session_duration_text));
        let ghost target = insert_entries(spec_baseline(*self), pairs_view(extra@));
        let mut extra = extra;
        while extra.len() > 0
            invariant
                insert_entries(meta_map(metadata@), pairs_view(extra@)) == target,
            decreases extra.len(),
        {
            let ghost pv = pairs_view(extra@);
            let p = extra.remove(0);
            proof {
                assert(pv[0] == (p.0@, p.1@));
                assert(pairs_view(extra@) =~~= pv.drop_first());
            }
            meta_push_pair(&mut metadata, p.0, p.1);
        }
        proof {
            assert(pairs_view(extra@).len() == 0);
            assert(insert_entries(meta_map(metadata@), pairs_view(extra@)) == meta_map(
                metadata@));
        }
        Notification { title, message, category: lit_chars(category), priority, metadata }
    }

    /// Compose a notification with no event-specific metadata.
    pub fn send_notification(
        &self,
        title: Vec<char>,
        message: Vec<char>,
        category: &str,
        priority: u8,
    ) -> (n: Notification)
        ensures
            matches_spec(
                n,
                spec_compose(
                    *self,
                    title@,
                    message@,
                    category@,
                    priority as int,
                    Seq::empty(),
                ),
            ),
    {
        let extra: Vec<(Vec<char>, Vec<char>)> = Vec::new();
        proof {
            assert(pairs_view(extra@) =~~= Seq::<(Seq<char>, Seq<char>)>::empty());
        }
        self.send_notification_with_metadata(title, message, category, priority, extra)
    }

    /// Compose a preview-bearing notification.
    pub fn send_notification_with_diff(
        &self,
        title: Vec<char>,
        message: Vec<char>,
        category: &str,
        priority: u8,
        diff_path: Option<Vec<char>>,
        file_path: Option<Vec<char>>,
        tool_name: &Vec<char>,
    ) -> (n: Notification)
        ensures
            n.title@ == title@,
            n.message@ == message@,
            n.category@ == category@,
            n.priority == priority,
            meta_map(n.metadata@) == spec_diff_meta(
                *self,
                tool_name@,
                opt_view(file_path),
                opt_view(diff_path),
            ),
    {
        let mut metadata: Vec<(Vec<char>, Vec<char>)> = Vec::new();
        proof {
            assert(pairs_view(metadata@) =~~= Seq::<(Seq<char>, Seq<char>)>::empty());
            assert(meta_map(metadata@) == Map::<Seq<char>, Seq<char>>::empty());
        }
        meta_push(&mut metadata, "source", lit_chars("agent-hook"));
        meta_push(&mut metadata, "project", clone_chars(&self.project_name));
        meta_push(&mut metadata, "project_path", clone_chars(&self.project_path));
        meta_push(&mut metadata, "tool_name", clone_chars(tool_name));
        meta_push(&mut metadata, "event_type", lit_chars("PreToolUse"));
        match file_path {
            Some(p) => meta_push(&mut metadata, "file_path", p),
            None => {},
        }
        match diff_path {
            Some(p) => {
                meta_push(&mut metadata, "diff_path", p);
                meta_push(&mut metadata, "is_preview", lit_chars("true"));
            },
            None => {},
        }
        Notification { title, message, category: lit_chars(category), priority, metadata }
    }
}

/// The resolved, project-relative display of a raw tool path.
pub open spec fn spec_display(h: NotchHook, raw: Seq<char>, abs_exists: bool) -> Seq<char> {
    spec_relative(spec_resolve(raw, h.project_path@, abs_exists), h.project_path@)
}

// ---------------------------------------------------------------------------
// Non-tool lifecycle events
// ---------------------------------------------------------------------------

/// The session-stop notification.
pub open spec fn spec_stop(h: NotchHook) -> NotifSpec {
    spec_compose(
        h,
        "["@ + h.project_name@ + "] 🎉 会话结束"@,
        "所有任务已完成"@,
        "celebration"@,
        2,
        Seq::empty(),
    )
}

/// The user-attention notification.
pub open spec fn spec_notice(h: NotchHook) -> NotifSpec {
    spec_compose(
        h,
        "["@ + h.project_name@ + "] 🔔 需要你的响应"@,
        "正在等待你的确认，请查看会话窗口"@,
        "reminder"@,
        3,
        Seq::empty(),
    )
}

/// The session-start notification, tagged with the session identity.
pub open spec fn spec_session_start(h: NotchHook) -> NotifSpec {
    spec_compose(
        h,
        "["@ + h.project_name@ + "] 🚀 会话开始"@,
        "编码会话已启动"@,
        "ai"@,
        0,
        seq![
            ("event_type"@, "session_start"@),
            ("session_id"@, h.session_id_text@),
            ("project"@, h.project_name@),
        ],
    )
}

/// The memory-compaction notification.
pub open spec fn spec_pre_compact(h: NotchHook) -> NotifSpec {
    spec_compose(
        h,
        "["@ + h.project_name@ + "] 🗜️ 内存优化"@,
        "正在压缩上下文以节省内存"@,
        "info"@,
        0,
        Seq::empty(),
    )
}

/// Whether free text carries one of the confirmation keywords.
pub open spec fn has_confirm_words(t: Seq<char>) -> bool {
    ||| contains_seq(t, "allow"@)
    ||| contains_seq(t, "deny"@)
    ||| contains_seq(t, "accept"@)
    ||| contains_seq(t, "reject"@)
    ||| contains_seq(t, "yes"@)
    ||| contains_seq(t, "no"@)
}

/// The user-confirmation notification: only textual input that carries at
/// least one affirmative or negative keyword is notified.
pub open spec fn spec_prompt_submit(h: NotchHook, ev: LifecycleEvent) -> Option<NotifSpec> {
    match ev.tool_input {
        Some(input) => match as_text(*input) {
            Some(t) => if has_confirm_words(t) {
                Some(
                    spec_compose(
                        h,
                        "["@ + h.project_name@ + "] 📋 需要响应"@,
                        clip(t, 200),
                        "confirmation"@,
                        3,
                        seq![("prompt_type"@, "user_confirmation"@), ("prompt_text"@, t)],
                    ),
                )
            } else {
                None
            },
            None => None,
        },
        None => None,
    }
}

impl NotchHook {
    /// The session has stopped: one fixed notification.
    pub fn handle_stop(&self) -> (n: Notification)
        ensures
            matches_spec(n, spec_stop(*self)),
    {
        let title = self.title_with("] 🎉 会话结束");
        self.send_notification(title, lit_chars("所有任务已完成"), "celebration", 2)
    }

    /// The agent waits for the user: one fixed notification.
    pub fn handle_notification(&self) -> (n: Notification)
        ensures
            matches_spec(n, spec_notice(*self)),
    {
        let title = self.title_with("] 🔔 需要你的响应");
        self.send_notification(title, lit_chars("正在等待你的确认，请查看会话窗口"), "reminder", 3)
    }

    /// A session has started: one fixed notification with identity metadata.
    pub fn handle_session_start(&self) -> (n: Notification)
        ensures
            matches_spec(n, spec_session_start(*self)),
    {
        let title = self.title_with("] 🚀 会话开始");
        let mut extra: Vec<(Vec<char>, Vec<char>)> = Vec::new();
        extra.push((lit_chars("event_type"), lit_chars("session_start")));
        extra.push((lit_chars("session_id"), clone_chars(&self.session_id_text)));
        extra.push((lit_chars("project"), clone_chars(&self.project_name)));
        proof {
            assert(pairs_view(extra@) =~= seq![
                ("event_type"@, "session_start"@),
                ("session_id"@, self.session_id_text@),
                ("project"@, self.project_name@),
            ]);
        }
        self.send_notification_with_metadata(title, lit_chars("编码会话已启动"), "ai", 0, extra)
    }

    /// Context is about to be compacted: one fixed notification.
    pub fn handle_pre_compact(&self) -> (n: Notification)
        ensures
            matches_spec(n, spec_pre_compact(*self)),
    {
        let title = self.title_with("] 🗜️ 内存优化");
        self.send_notification(title, lit_chars("正在压缩上下文以节省内存"), "info", 0)
    }

    /// Free-text user input: notified only when it looks like a
    /// confirmation prompt.
    pub fn handle_user_prompt_submit(&self, ev: &LifecycleEvent) -> (r: Option<Notification>)
        ensures
            match spec_prompt_submit(*self, *ev) {
                Some(m) => r is Some && matches_spec(r->0, m),
                None => r is None,
            },
    {
        let input = match ev.tool_input {
            Some(v) => v,
            None => {
                return None;
            },
        };
        let t = match input.text_ref() {
            Some(t) => t,
            None => {
                return None;
            },
        };
        let confirm = contains_lit(t, "allow") || contains_lit(t, "deny") || contains_lit(
            t,
            "accept",
        ) || contains_lit(t, "reject") || contains_lit(t, "yes") || contains_lit(t, "no");
        if !confirm {
            return None;
        }
        let title = self.title_with("] 📋 需要响应");
        let message = truncate_chars(t, 200);
        let mut extra: Vec<(Vec<char>, Vec<char>)> = Vec::new();
        extra.push((lit_chars("prompt_type"), lit_chars("user_confirmation")));
        extra.push((lit_chars("prompt_text"), clone_chars(t)));
        proof {
            assert(pairs_view(extra@) =~= seq![
                ("prompt_type"@, "user_confirmation"@),
                ("prompt_text"@, t@),
            ]);
        }
        Some(self.send_notification_with_metadata(title, message, "confirmation", 3, extra))
    }
}

// ---------------------------------------------------------------------------
// Path and text extraction
// ---------------------------------------------------------------------------

/// The argument field that carries the target path of a tool, if any.
pub open spec fn spec_path_key(tool: Seq<char>) -> Option<Seq<char>> {
    if tool == "Edit"@ || tool == "Write"@ || tool == "MultiEdit"@ {
        Some("file_path"@)
    } else if tool == "mcp__jetbrains__replace_text_in_file"@ || tool
        == "mcp__jetbrains__create_new_file"@ {
        Some("pathInProject"@)
    } else {
        None
    }
}

/// The raw path-like argument of an event, before resolution.
pub open spec fn spec_raw_path(ev: LifecycleEvent) -> Option<Seq<char>> {
    match ev.tool_input {
        Some(i) => match spec_path_key(tool_of(ev)) {
            Some(k) => key_text(*i, k),
            None => None,
        },
        None => None,
    }
}

/// Whether classifying this event will consult a diff preview: a
/// pre-execution edit or write with a target, or an IDE text replacement
/// with both fragments.
pub open spec fn spec_wants_preview(ev: LifecycleEvent) -> bool {
    ev.kind == EventKind::PreToolUse && match ev.tool_input {
        Some(i) => {
            let tool = tool_of(ev);
            if tool == "Edit"@ || tool == "Write"@ {
                key_text(*i, "file_path"@) is Some
            } else if tool == "mcp__jetbrains__replace_text_in_file"@ {
                key_text(*i, "pathInProject"@) is Some && key_text(*i, "oldText"@) is Some
                    && key_text(*i, "newText"@) is Some
            } else {
                false
            }
        },
        None => false,
    }
}

/// The old and new text fragments named by a tool's arguments.
pub open spec fn spec_old_text(tool: Seq<char>, input: ArgValue) -> Option<Seq<char>> {
    if tool == "Edit"@ {
        key_text(input, "old_string"@)
    } else if tool == "mcp__jetbrains__replace_text_in_file"@ {
        key_text(input, "oldText"@)
    } else {
        None
    }
}

/// The new text fragment named by a tool's arguments.
pub open spec fn spec_new_text(tool: Seq<char>, input: ArgValue) -> Option<Seq<char>> {
    if tool == "Edit"@ {
        key_text(input, "new_string"@)
    } else if tool == "Write"@ {
        key_text(input, "content"@)
    } else if tool == "mcp__jetbrains__replace_text_in_file"@ {
        key_text(input, "newText"@)
    } else if tool == "mcp__jetbrains__create_new_file"@ {
        key_text(input, "text"@)
    } else {
        None
    }
}

/// The raw path-like argument of an event, for the caller to probe on disk.
pub fn raw_path_of<'a>(ev: &LifecycleEvent<'a>) -> (r: Option<&'a Vec<char>>)
    ensures
        match spec_raw_path(*ev) {
            Some(p) => r is Some && r->0@ == p,
            None => r is None,
        },
{
    let empty_tool: Vec<char> = Vec::new();
    let tool: &Vec<char> = match ev.tool_name {
        Some(t) => t,
        None => &empty_tool,
    };
    let input = match ev.tool_input {
        Some(i) => i,
        None => {
            return None;
        },
    };
    if crate::text::eq_lit(tool, "Edit") || crate::text::eq_lit(tool, "Write")
        || crate::text::eq_lit(tool, "MultiEdit") {
        input.get_text("file_path")
    } else if crate::text::eq_lit(tool, "mcp__jetbrains__replace_text_in_file")
        || crate::text::eq_lit(tool, "mcp__jetbrains__create_new_file") {
        input.get_text("pathInProject")
    } else {
        None
    }
}

/// Whether classifying this event will consult a diff preview.
pub fn wants_preview(ev: &LifecycleEvent) -> (r: bool)
    ensures
        r == spec_wants_preview(*ev),
{
    if !matches!(ev.kind, EventKind::PreToolUse) {
        return false;
    }
    let empty_tool: Vec<char> = Vec::new();
    let tool: &Vec<char> = match ev.tool_name {
        Some(t) => t,
        None => &empty_tool,
    };
    let input = match ev.tool_input {
        Some(i) => i,
        None => {
            return false;
        },
    };
    if crate::text::eq_lit(tool, "Edit") || crate::text::eq_lit(tool, "Write") {
        match input.get_text("file_path") {
            Some(_) => true,
            None => false,
        }
    } else if crate::text::eq_lit(tool, "mcp__jetbrains__replace_text_in_file") {
        let p = match input.get_text("pathInProject") {
            Some(_) => true,
            None => false,
        };
        let o = match input.get_text("oldText") {
            Some(_) => true,
            None => false,
        };
        let n = match input.get_text("newText") {
            Some(_) => true,
            None => false,
        };
        p && o && n
    } else {
        false
    }
}

impl NotchHook {
    /// The resolved target path of a tool call, when its arguments name one.
    pub fn extract_file_path<'a>(
        &self,
        tool_name: &Vec<char>,
        tool_input: &'a ArgValue,
        abs_exists: bool,
    ) -> (r: Option<Vec<char>>)
        ensures
            match spec_path_key(tool_name@) {
                Some(k) => match key_text(*tool_input, k) {
                    Some(raw) => r is Some && r->0@ == spec_resolve(
                        raw,
                        self.project_path@,
                        abs_exists,
                    ),
                    None => r is None,
                },
                None => r is None,
            },
    {
        let raw = if crate::text::eq_lit(tool_name, "Edit") || crate::text::eq_lit(
            tool_name,
            "Write",
        ) || crate::text::eq_lit(tool_name, "MultiEdit") {
            tool_input.get_text("file_path")
        } else if crate::text::eq_lit(tool_name, "mcp__jetbrains__replace_text_in_file")
            || crate::text::eq_lit(tool_name, "mcp__jetbrains__create_new_file") {
            tool_input.get_text("pathInProject")
        } else {
            None
        };
        match raw {
            Some(p) => Some(resolve_path(p, &self.project_path, abs_exists)),
            None => None,
        }
    }

    /// The old and new text fragments of a tool call, by its identity.
    pub fn extract_text_content<'a>(
        &self,
        tool_name: &Vec<char>,
        tool_input: &'a ArgValue,
    ) -> (r: (Option<&'a Vec<char>>, Option<&'a Vec<char>>))
        ensures
            match spec_old_text(tool_name@, *tool_input) {
                Some(t) => r.0 is Some && (r.0)->0@ == t,
                None => r.0 is None,
            },
            match spec_new_text(tool_name@, *tool_input) {
                Some(t) => r.1 is Some && (r.1)->0@ == t,
                None => r.1 is None,
            },
    {
        let old_r: Option<&'a Vec<char>>;
        let new_r: Option<&'a Vec<char>>;
        if crate::text::eq_lit(tool_name, "Edit") {
            old_r = tool_input.get_text("old_string");
            new_r = tool_input.get_text("new_string");
        } else if crate::text::eq_lit(tool_name, "Write") {
            old_r = None;
            new_r = tool_input.get_text("content");
            proof {
                reveal_strlit("Write");
                reveal_strlit("mcp__jetbrains__replace_text_in_file");
                assert("Write"@.len() == 5);
                assert("mcp__jetbrains__replace_text_in_file"@.len() == 36);
                assert("Write"@ != "mcp__jetbrains__replace_text_in_file"@);
            }
        } else if crate::text::eq_lit(tool_name, "mcp__jetbrains__replace_text_in_file") {
            old_r = tool_input.get_text("oldText");
            new_r = tool_input.get_text("newText");
        } else if crate::text::eq_lit(tool_name, "mcp__jetbrains__create_new_file") {
            old_r = None;
            new_r = tool_input.get_text("text");
        } else {
            old_r = None;
            new_r = None;
        }
        proof {
            assert(match spec_old_text(tool_name@, *tool_input) {
                Some(t) => old_r is Some && old_r->0@ == t,
                None => old_r is None,
            });
        }
        (old_r, new_r)
    }
}

// ---------------------------------------------------------------------------
// Dispatch
// ---------------------------------------------------------------------------

/// The full classification: at most one notification per lifecycle event.
pub open spec fn spec_process(h: NotchHook, ev: LifecycleEvent, fs: FsFacts) -> Option<
    NotifSpec,
> {
    match ev.kind {
        EventKind::PreToolUse => crate::pre_tool::spec_pre_tool(h, ev, fs),
        EventKind::PostToolUse => crate::post_tool::spec_post_tool(h, ev, fs),
        EventKind::Stop => Some(spec_stop(h)),
        EventKind::Notification => Some(spec_notice(h)),
        EventKind::SessionStart => Some(spec_session_start(h)),
        EventKind::UserPromptSubmit => spec_prompt_submit(h, ev),
        EventKind::PreCompact => Some(spec_pre_compact(h)),
        EventKind::Unrecognized => None,
    }
}

impl NotchHook {
    /// Dispatch one decoded event to its rule and classify it.
    pub fn process_event(&self, ev: &LifecycleEvent, fs: &FsFacts) -> (r: Option<Notification>)
        ensures
            match spec_process(*self, *ev, *fs) {
                Some(m) => r is Some && matches_spec(r->0, m),
                None => r is None,
            },
    {
        match ev.kind {
            EventKind::PreToolUse => self.handle_pre_tool_use(ev, fs),
            EventKind::PostToolUse => self.handle_post_tool_use(ev, fs),
            EventKind::Stop => Some(self.handle_stop()),
            EventKind::Notification => Some(self.handle_notification()),
            EventKind::SessionStart => Some(self.handle_session_start()),
            EventKind::UserPromptSubmit => self.handle_user_prompt_submit(ev),
            EventKind::PreCompact => Some(self.handle_pre_compact()),
            EventKind::Unrecognized => None,
        }
    }
}

/// Every classified notification carries a priority in the 0–3 ordinal
/// range, whatever the event holds.
pub proof fn lemma_priority_range(h: NotchHook, ev: LifecycleEvent, fs: FsFacts)
    ensures
        spec_process(h, ev, fs) matches Some(m) ==> 0 <= m.priority <= 3,
{
}

/// Two events that differ only in the spelling of their discriminator —
/// either naming convention, any letter case — classify identically.
pub proof fn lemma_alias_same_classification(
    h: NotchHook,
    ev1: LifecycleEvent,
    ev2: LifecycleEvent,
    fs: FsFacts,
    name1: Seq<char>,
    name2: Seq<char>,
)
    requires
        crate::text::spec_lower(name1) == crate::text::spec_lower(name2),
        ev1.kind == crate::event::spec_kind_of(name1),
        ev2.kind == crate::event::spec_kind_of(name2),
        ev1.tool_name == ev2.tool_name,
        ev1.tool_input == ev2.tool_input,
        ev1.tool_output == ev2.tool_output,
        ev1.error == ev2.error,
    ensures
        spec_process(h, ev1, fs) == spec_process(h, ev2, fs),
{
    crate::event::lemma_kind_case_insensitive(name1, name2);
    assert(ev1 == ev2);
}

} // verus!
