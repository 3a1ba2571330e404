//! Tool-invocation runtime for an agent session.
//!
//! A model-issued response item is normalized into a [`router::ToolCall`],
//! dispatched through an external tool registry, and folded back into a
//! conversation-visible result; a failed tool call never silently kills the
//! session. Beside the router stands the background-task model: the
//! compaction task chooses a remote or local strategy, emits a usage counter,
//! and reports failures as session events rather than raised errors.

pub mod compact;
pub mod protocol;
pub mod router;
