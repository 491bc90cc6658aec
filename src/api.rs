//! The request and response types of the service, under one path.
pub use crate::chat::{
    ChatAnswer, ChatArgs, ChatArgsBuilder, ChatArgsBuilderError, ChatChoice, ChatFormat, ChatRole,
};
pub use crate::completion::{CompletionArgs, CompletionArgsBuilder, CompletionArgsBuilderError};
pub use crate::records::{
    Choice, Completion, Container, ErrorBody, ErrorMessage, ErrorWrapper, LogProbs, ModelInfo,
};
pub use crate::sampling::Real;
