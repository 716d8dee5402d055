//! An editing engine for hierarchical checklists kept as plain-text checkbox lines.
//!
//! A checklist is an ordered list of [`types::Task`] records. On disk each task is one line,
//! `<indent>- [ ] text` or `<indent>- [x] text`, where the width of the indent gives the
//! nesting level. The crate holds the codec between lines and tasks ([`parser`]), the
//! operations on the list and its selection ([`store`]), the in-place line editor
//! ([`editor`]), and the key dispatch that ties them together ([`ui`]). Every function is
//! specified against a mathematical view of the data and proved to meet that specification.

pub mod constants;
pub mod types;
pub mod utils;
pub mod store;
pub mod editor;
pub mod parser;
pub mod ui;
pub mod resolver;
