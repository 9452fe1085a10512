//! Streaming chat-completion client core: line framing of a chunked byte
//! stream, decoding of protocol lines into content deltas, and the
//! append-only conversation transcript.

pub mod cli;
pub mod delta;
pub mod error;
pub mod framing;
pub mod text;
pub mod transcript;
pub mod turn;

pub use delta::{first_fragment, Choice, CompletionResponse};
pub use error::StreamError;
pub use framing::LineBuffer;
pub use text::{classify_line, LineKind};
pub use transcript::{Conversation, Message, Role};
pub use turn::{begin_turn, LineStep, StreamState, TurnStatus};
pub use cli::{is_clear_flag, is_help_flag, parse_api_key, parse_args, parse_input, trimmed, Command, UserInput};
