//! Stack-rooting layer for native code holding references into a tracing
//! garbage-collected heap.
//!
//! Native frames register the references they hold on per-thread, per-kind
//! root lists so the collector can discover them; registration and
//! deregistration follow a strict LIFO discipline that mirrors native scope
//! nesting. `Handle` and `MutableHandle` are non-owning views of rooted or
//! collector-owned slots; writes to heap-owned slots route through the
//! post-barrier. A scoped guard tracks compartment entry and exit.
//!
//! The engine's per-thread state (the slot registry, the root-list heads,
//! the barrier bookkeeping and the current compartment) is modelled by
//! [`context::Context`], an explicit capability passed into every operation.

pub mod callargs;
pub mod compartment;
pub mod context;
pub mod handles;
pub mod kinds;
pub mod rooting;
pub mod roots;
pub mod values;
