//! Lifecycle events and their decoding.
//!
//! An event document is an object with a mandatory discriminator field
//! (`hook_event_name`) and optional tool identity, tool arguments, tool
//! result and error text.  The discriminator is accepted in two naming
//! conventions and matched case-insensitively; an unrecognized discriminator
//! is not an error, the event simply carries [`EventKind::Unrecognized`].

use vstd::prelude::*;
use crate::args::{ArgValue, key_text, lookup};
use crate::text::{eq_lit, lower_chars, spec_lower};

verus! {

/// The kind of a lifecycle event, normalized from the discriminator field.
#[derive(Clone, Copy, Debug, PartialEq, Eq, Structural)]
pub enum EventKind {
    PreToolUse,
    PostToolUse,
    Stop,
    Notification,
    SessionStart,
    UserPromptSubmit,
    PreCompact,
    Unrecognized,
}

/// An error of this library.
#[derive(Clone, Copy, Debug, PartialEq, Eq, Structural)]
pub enum HookError {
    /// The event document is not an object, lacks its discriminator, or
    /// holds a wrongly-typed optional field.
    MalformedEvent,
}

/// A decoded lifecycle event, borrowing from the parsed document.
pub struct LifecycleEvent<'a> {
    pub kind: EventKind,
    pub tool_name: Option<&'a Vec<char>>,
    pub tool_input: Option<&'a ArgValue>,
    pub tool_output: Option<&'a ArgValue>,
    pub error: Option<&'a Vec<char>>,
}

// ---------------------------------------------------------------------------
// Discriminator normalization
// ---------------------------------------------------------------------------

/// The kind named by a discriminator: either naming convention, any letter
/// case.
pub open spec fn spec_kind_of(name: Seq<char>) -> EventKind {
    let l = spec_lower(name);
    if l == "pretooluse"@ || l == "pre_tool_use"@ {
        EventKind::PreToolUse
    } else if l == "posttooluse"@ || l == "post_tool_use"@ {
        EventKind::PostToolUse
    } else if l == "stop"@ {
        EventKind::Stop
    } else if l == "notification"@ {
        EventKind::Notification
    } else if l == "sessionstart"@ || l == "session_start"@ {
        EventKind::SessionStart
    } else if l == "userpromptsubmit"@ || l == "user_prompt_submit"@ {
        EventKind::UserPromptSubmit
    } else if l == "precompact"@ || l == "pre_compact"@ {
        EventKind::PreCompact
    } else {
        EventKind::Unrecognized
    }
}

/// Normalize a discriminator to its event kind.
pub fn kind_of_name(name: &Vec<char>) -> (k: EventKind)
    ensures
        k == spec_kind_of(name@),
{
    let l = lower_chars(name);
    if eq_lit(&l, "pretooluse") || eq_lit(&l, "pre_tool_use") {
        EventKind::PreToolUse
    } else if eq_lit(&l, "posttooluse") || eq_lit(&l, "post_tool_use") {
        EventKind::PostToolUse
    } else if eq_lit(&l, "stop") {
        EventKind::Stop
    } else if eq_lit(&l, "notification") {
        EventKind::Notification
    } else if eq_lit(&l, "sessionstart") || eq_lit(&l, "session_start") {
        EventKind::SessionStart
    } else if eq_lit(&l, "userpromptsubmit") || eq_lit(&l, "user_prompt_submit") {
        EventKind::UserPromptSubmit
    } else if eq_lit(&l, "precompact") || eq_lit(&l, "pre_compact") {
        EventKind::PreCompact
    } else {
        EventKind::Unrecognized
    }
}

/// Discriminators that agree after case folding name the same kind.
pub proof fn lemma_kind_case_insensitive(a: Seq<char>, b: Seq<char>)
    requires
        spec_lower(a) == spec_lower(b),
    ensures
        spec_kind_of(a) == spec_kind_of(b),
{
}

/// Both naming conventions of every recognized discriminator name the kind
/// they spell.
pub proof fn lemma_discriminator_aliases()
    ensures
        spec_kind_of("PreToolUse"@) == EventKind::PreToolUse,
        spec_kind_of("pre_tool_use"@) == EventKind::PreToolUse,
        spec_kind_of("PostToolUse"@) == EventKind::PostToolUse,
        spec_kind_of("post_tool_use"@) == EventKind::PostToolUse,
        spec_kind_of("Stop"@) == EventKind::Stop,
        spec_kind_of("stop"@) == EventKind::Stop,
        spec_kind_of("Notification"@) == EventKind::Notification,
        spec_kind_of("notification"@) == EventKind::Notification,
        spec_kind_of("SessionStart"@) == EventKind::SessionStart,
        spec_kind_of("session_start"@) == EventKind::SessionStart,
        spec_kind_of("UserPromptSubmit"@) == EventKind::UserPromptSubmit,
        spec_kind_of("user_prompt_submit"@) == EventKind::UserPromptSubmit,
        spec_kind_of("PreCompact"@) == EventKind::PreCompact,
        spec_kind_of("pre_compact"@) == EventKind::PreCompact,
{
    reveal_strlit("PreToolUse");
    reveal_strlit("pre_tool_use");
    reveal_strlit("pretooluse");
    reveal_strlit("PostToolUse");
    reveal_strlit("post_tool_use");
    reveal_strlit("posttooluse");
    reveal_strlit("Stop");
    reveal_strlit("stop");
    reveal_strlit("Notification");
    reveal_strlit("notification");
    reveal_strlit("SessionStart");
    reveal_strlit("session_start");
    reveal_strlit("sessionstart");
    reveal_strlit("UserPromptSubmit");
    reveal_strlit("user_prompt_submit");
    reveal_strlit("userpromptsubmit");
    reveal_strlit("PreCompact");
    reveal_strlit("pre_compact");
    reveal_strlit("precompact");
    assert(spec_lower("PreToolUse"@) =~= "pretooluse"@);
    assert(spec_lower("pre_tool_use"@) =~= "pre_tool_use"@);
    assert(spec_lower("PostToolUse"@) =~= "posttooluse"@);
    assert(spec_lower("post_tool_use"@) =~= "post_tool_use"@);
    assert(spec_lower("Stop"@) =~= "stop"@);
    assert(spec_lower("stop"@) =~= "stop"@);
    assert(spec_lower("Notification"@) =~= "notification"@);
    assert(spec_lower("notification"@) =~= "notification"@);
    assert(spec_lower("SessionStart"@) =~= "sessionstart"@);
    assert(spec_lower("session_start"@) =~= "session_start"@);
    assert(spec_lower("UserPromptSubmit"@) =~= "userpromptsubmit"@);
    assert(spec_lower("user_prompt_submit"@) =~= "user_prompt_submit"@);
    assert(spec_lower("PreCompact"@) =~= "precompact"@);
    assert(spec_lower("pre_compact"@) =~= "pre_compact"@);
    assert("notification"@ != "pre_tool_use"@) by {
        assert("notification"@[0] == 'n' && "pre_tool_use"@[0] == 'p');
    }
    assert("sessionstart"@ != "pre_tool_use"@) by {
        assert("sessionstart"@[0] == 's' && "pre_tool_use"@[0] == 'p');
    }
    assert("sessionstart"@ != "notification"@) by {
        assert("sessionstart"@[0] == 's' && "notification"@[0] == 'n');
    }
    assert("session_start"@ != "post_tool_use"@) by {
        assert("session_start"@[0] == 's' && "post_tool_use"@[0] == 'p');
    }
    assert("precompact"@ != "pretooluse"@) by {
        assert("precompact"@[3] == 'c' && "pretooluse"@[3] == 't');
    }
    assert("pre_compact"@ != "posttooluse"@) by {
        assert("pre_compact"@[1] == 'r' && "posttooluse"@[1] == 'o');
    }
}

// ---------------------------------------------------------------------------
// Decoding
// ---------------------------------------------------------------------------

/// Whether an optional field is acceptable: absent, null, or text.
pub open spec fn opt_text_ok(root: ArgValue, key: Seq<char>) -> bool {
    match lookup(root, key) {
        Some(v) => v is Null || v is Text,
        None => true,
    }
}

/// The text of an optional field; `None` when absent or null.
pub open spec fn opt_text_field(root: ArgValue, key: Seq<char>) -> Option<Seq<char>> {
    key_text(root, key)
}

/// An optional structured field; `None` when absent or null.
pub open spec fn opt_value_field(root: ArgValue, key: Seq<char>) -> Option<ArgValue> {
    match lookup(root, key) {
        Some(v) => if v is Null {
            None
        } else {
            Some(v)
        },
        None => None,
    }
}

/// Whether a document decodes to an event: an object whose discriminator is
/// text, with tool identity and error text well-typed where present.
pub open spec fn well_formed_event(root: ArgValue) -> bool {
    &&& root is Fields
    &&& key_text(root, "hook_event_name"@) is Some
    &&& opt_text_ok(root, "tool_name"@)
    &&& opt_text_ok(root, "error"@)
}

/// Decode a parsed event document.
///
/// Fails exactly on documents that [`well_formed_event`] rejects; every
/// other document yields the event with its normalized kind and its
/// optional fields, absent ones decoded as `None`.
pub fn decode_from<'a>(root: &'a ArgValue) -> (r: Result<LifecycleEvent<'a>, HookError>)
    ensures
        r is Ok <==> well_formed_event(*root),
        r matches Err(e) ==> e == HookError::MalformedEvent,
        r matches Ok(ev) ==> {
            &&& ev.kind == spec_kind_of(key_text(*root, "hook_event_name"@)->0)
            &&& (match opt_text_field(*root, "tool_name"@) {
                Some(t) => ev.tool_name is Some && ev.tool_name->0@ == t,
                None => ev.tool_name is None,
            })
            &&& (match opt_value_field(*root, "tool_input"@) {
                Some(v) => ev.tool_input is Some && *ev.tool_input->0 == v,
                None => ev.tool_input is None,
            })
            &&& (match opt_value_field(*root, "tool_output"@) {
                Some(v) => ev.tool_output is Some && *ev.tool_output->0 == v,
                None => ev.tool_output is None,
            })
            &&& (match opt_text_field(*root, "error"@) {
                Some(t) => ev.error is Some && ev.error->0@ == t,
                None => ev.error is None,
            })
        },
{
    let is_object = match root {
        ArgValue::Fields(_) => true,
        _ => false,
    };
    if !is_object {
        return Err(HookError::MalformedEvent);
    }
    let name = match root.get_text("hook_event_name") {
        Some(t) => t,
        None => {
            return Err(HookError::MalformedEvent);
        },
    };
    let kind = kind_of_name(name);
    let tool_name = match root.get("tool_name") {
        None => None,
        Some(v) => match v {
            ArgValue::Null => None,
            ArgValue::Text(t) => Some(t),
            _ => {
                return Err(HookError::MalformedEvent);
            },
        },
    };
    let error = match root.get("error") {
        None => None,
        Some(v) => match v {
            ArgValue::Null => None,
            ArgValue::Text(t) => Some(t),
            _ => {
                return Err(HookError::MalformedEvent);
            },
        },
    };
    let tool_input = match root.get("tool_input") {
        None => None,
        Some(v) => match v {
            ArgValue::Null => None,
            _ => Some(v),
        },
    };
    let tool_output = match root.get("tool_output") {
        None => None,
        Some(v) => match v {
            ArgValue::Null => None,
            _ => Some(v),
        },
    };
    Ok(LifecycleEvent { kind, tool_name, tool_input, tool_output, error })
}

} // verus!
