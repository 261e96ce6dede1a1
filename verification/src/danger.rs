//! Dangerous-command and sensitive-file detection.
//!
//! A pure, auditable signal: a shell command that carries a known dangerous
//! fragment, or an edit that targets a known sensitive file.  The current
//! rule set computes it without letting it change any priority; it is kept
//! as a predicate for audit logging and future stricter modes.

use vstd::prelude::*;
use crate::args::{ArgValue, key_text};
use crate::hook::NotchHook;
use crate::paths::spec_resolve;
use crate::text::{clip, contains_lit, contains_seq, lit_chars, push_all, truncate_chars};

verus! {

/// Whether a shell command holds one of the known dangerous fragments.
pub open spec fn spec_dangerous_command(cmd: Seq<char>) -> bool {
    ||| contains_seq(cmd, "rm -rf"@)
    ||| contains_seq(cmd, "sudo"@)
    ||| contains_seq(cmd, "chmod 777"@)
    ||| contains_seq(cmd, "mkfs"@)
    ||| contains_seq(cmd, "> /dev/"@)
    ||| contains_seq(cmd, "dd if="@)
    ||| contains_seq(cmd, "curl | bash"@)
    ||| contains_seq(cmd, "wget | sh"@)
    ||| contains_seq(cmd, ":(){ :|:& };:"@)
}

/// Whether a resolved path touches one of the known sensitive locations.
pub open spec fn spec_sensitive_path(path: Seq<char>) -> bool {
    ||| contains_seq(path, ".ssh/"@)
    ||| contains_seq(path, ".aws/"@)
    ||| contains_seq(path, "package.json"@)
    ||| contains_seq(path, "Cargo.toml"@)
    ||| contains_seq(path, ".env"@)
    ||| contains_seq(path, "credentials"@)
}

/// Whether the event describes a dangerous operation: a dangerous shell
/// command, or an edit of a sensitive file.
pub open spec fn spec_is_dangerous(
    h: NotchHook,
    tool: Seq<char>,
    input: Option<ArgValue>,
    abs_exists: bool,
) -> bool {
    if tool == "Bash"@ {
        match input {
            Some(v) => match key_text(v, "command"@) {
                Some(cmd) => spec_dangerous_command(cmd),
                None => false,
            },
            None => false,
        }
    } else if tool == "Write"@ || tool == "Edit"@ {
        match input {
            Some(v) => match key_text(v, "file_path"@) {
                Some(raw) => spec_sensitive_path(spec_resolve(raw, h.project_path@, abs_exists)),
                None => false,
            },
            None => false,
        }
    } else {
        false
    }
}

/// The one-line human description of an operation.
pub open spec fn spec_operation_details(
    h: NotchHook,
    tool: Seq<char>,
    input: Option<ArgValue>,
    abs_exists: bool,
) -> Seq<char> {
    if tool == "Bash"@ {
        match input {
            Some(v) => match key_text(v, "command"@) {
                Some(cmd) => "执行命令: "@ + clip(cmd, 100),
                None => "执行 Bash 命令"@,
            },
            None => "执行 Bash 命令"@,
        }
    } else if tool == "Write"@ || tool == "Edit"@ {
        match input {
            Some(v) => match key_text(v, "file_path"@) {
                Some(raw) => "修改敏感文件: "@ + crate::hook::spec_display(h, raw, abs_exists),
                None => "修改文件"@,
            },
            None => "修改文件"@,
        }
    } else {
        "执行操作: "@ + tool
    }
}

impl NotchHook {
    /// The pure dangerous-operation signal; it gates nothing in the current
    /// rule set.
    pub fn is_dangerous_operation(
        &self,
        tool_name: &Vec<char>,
        tool_input: Option<&ArgValue>,
        abs_exists: bool,
    ) -> (r: bool)
        ensures
            r == spec_is_dangerous(
                *self,
                tool_name@,
                match tool_input {
                    Some(v) => Some(*v),
                    None => None,
                },
                abs_exists,
            ),
    {
        if crate::text::eq_lit(tool_name, "Bash") {
            match tool_input {
                Some(v) => match v.get_text("command") {
                    Some(cmd) => contains_lit(cmd, "rm -rf") || contains_lit(cmd, "sudo")
                        || contains_lit(cmd, "chmod 777") || contains_lit(cmd, "mkfs")
                        || contains_lit(cmd, "> /dev/") || contains_lit(cmd, "dd if=")
                        || contains_lit(cmd, "curl | bash") || contains_lit(cmd, "wget | sh")
                        || contains_lit(cmd, ":(){ :|:& };:"),
                    None => false,
                },
                None => false,
            }
        } else if crate::text::eq_lit(tool_name, "Write") || crate::text::eq_lit(
            tool_name,
            "Edit",
        ) {
            match tool_input {
                Some(v) => match v.get_text("file_path") {
                    Some(raw) => {
                        let resolved = crate::paths::resolve_path(
                            raw,
                            &self.project_path,
                            abs_exists,
                        );
                        contains_lit(&resolved, ".ssh/") || contains_lit(&resolved, ".aws/")
                            || contains_lit(&resolved, "package.json") || contains_lit(
                            &resolved,
                            "Cargo.toml",
                        ) || contains_lit(&resolved, ".env") || contains_lit(
                            &resolved,
                            "credentials",
                        )
                    },
                    None => false,
                },
                None => false,
            }
        } else {
            false
        }
    }

    /// Describe an operation in one line, for audit output.
    pub fn format_operation_details(
        &self,
        tool_name: &Vec<char>,
        tool_input: Option<&ArgValue>,
        abs_exists: bool,
    ) -> (r: Vec<char>)
        ensures
            r@ == spec_operation_details(
                *self,
                tool_name@,
                match tool_input {
                    Some(v) => Some(*v),
                    None => None,
                },
                abs_exists,
            ),
    {
        if crate::text::eq_lit(tool_name, "Bash") {
            match tool_input {
                Some(v) => match v.get_text("command") {
                    Some(cmd) => {
                        let mut r = lit_chars("执行命令: ");
                        let t = truncate_chars(cmd, 100);
                        push_all(&mut r, &t);
                        proof {
                            assert(r@ =~= "执行命令: "@ + clip(cmd@, 100));
                        }
                        r
                    },
                    None => lit_chars("执行 Bash 命令"),
                },
                None => lit_chars("执行 Bash 命令"),
            }
        } else if crate::text::eq_lit(tool_name, "Write") || crate::text::eq_lit(
            tool_name,
            "Edit",
        ) {
            match tool_input {
                Some(v) => match v.get_text("file_path") {
                    Some(raw) => {
                        let mut r = lit_chars("修改敏感文件: ");
                        let rel = self.display_path(raw, abs_exists);
                        push_all(&mut r, &rel);
                        proof {
                            assert(r@ =~= "修改敏感文件: "@ + crate::hook::spec_display(
                                *self,
                                raw@,
                                abs_exists,
                            ));
                        }
                        r
                    },
                    None => lit_chars("修改文件"),
                },
                None => lit_chars("修改文件"),
            }
        } else {
            let mut r = lit_chars("执行操作: ");
            push_all(&mut r, tool_name);
            proof {
                assert(r@ =~= "执行操作: "@ + tool_name@);
            }
            r
        }
    }
}

} // verus!
