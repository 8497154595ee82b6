//! Task-local reference counted smart pointers, and the registry of the
//! language items that name the kinds their payloads must have.
//!
//! `Rc<T>` and `RcMut<T>` are handles that share one heap cell and free it
//! deterministically when the last handle is released. The cells of a task
//! live in a heap value (`RcHeap<T>`, `RcMutHeap<T>`) that the task owns and
//! hands to every operation, so that no handle is ever shared between tasks.
//! Payloads must be `Send` or `Freeze`, which rules out reference cycles.

pub mod count;
pub mod kinds;
pub mod lang_items;
pub mod rc;
pub mod rc_mut;

pub use kinds::{Freeze, Send};
pub use lang_items::{collect_language_items, LangItem, LanguageItemCollector, LanguageItems};
pub use rc::{rc_from_const, rc_from_owned, Rc, RcHeap};
pub use rc_mut::{rc_mut_from_const, rc_mut_from_owned, AliasingViolation, Borrow, RcMut, RcMutHeap};
