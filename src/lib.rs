//! A boundary between a host process and translation backends.
//!
//! Backends implement [`translator::Translator`]. The generic adapter in
//! [`boundary`] turns any such backend into the full set of boundary
//! operations, and [`proxy`] turns a boundary back into a `Translator` on the
//! host side. Owned buffers cross the boundary through the handle tables of
//! [`handles`], so that a release that comes twice is caught as an error.
//! [`registry`] holds the logic of plugin discovery. The remaining modules
//! hold the model and language tables of the known backends.

pub mod text;
pub mod model;
pub mod language;
pub mod json;
pub mod task;
pub mod handles;
pub mod ffi;
pub mod translator;
pub mod boundary;
pub mod proxy;
pub mod registry;
pub mod hunyuan;
pub mod qwen;
pub mod youdao;
pub mod baidu;
pub mod openai;

pub use model::{StreamSink, TranslateResult, TranslateStreamChunk};
pub use task::{TranslateTask, TranslatedItem};
pub use translator::Translator;
