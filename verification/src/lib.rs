//! Bridges a callback-style foreign API into a single awaited outcome.
//!
//! A bridge owns one outcome cell and the handles a foreign runtime may call.
//! The first handle to fire maps its arguments to a `Result`, stores it in the
//! cell, releases every handle of the bridge and hands back the wake handle of
//! the task that waits. The next poll takes the outcome.
//!
//! Every type here holds its state in the open: operations take `&mut self`,
//! and whoever shares a bridge between the awaiting task and the handles
//! serialises access around them.

pub mod boundary;
pub mod callback;
pub mod callback_future;
pub mod callback_kind;
pub mod callback_pair;
pub mod callback_wrapper;
pub mod closure_kind;
pub mod handle;
pub mod outcome;
pub mod promise_wrapper;

pub use boundary::{identity, node_result, node_style, reject, Boundary};
pub use callback::{Callback, CallbackInner};
pub use callback_future::CallbackFuture;
pub use callback_kind::{CallbackKind, Mapping, MAX_ARITY};
pub use callback_pair::{CallbackPair, CallbackPairInner, Side};
pub use callback_wrapper::CallbackWrapper;
pub use closure_kind::ClosureKind;
pub use handle::HandleSlot;
pub use outcome::{notify, CellState, OutcomeCell, Phase, Polled};
pub use promise_wrapper::PromiseWrapper;
