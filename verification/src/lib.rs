//! A cooperative task-composition engine: trees of schedulable work units —
//! timers, predicate gates, single-assignment value cells, and wrappers for
//! detached background tasks — composed through ordered sequencing, parallel
//! joins and unordered grouping, and driven by a central poll loop.
//!
//! Every node kind shares one lifecycle (`active`/`running`/`completed`) and
//! one polling contract: `step` advances a node's progress without blocking.
//! Time enters as an explicit tick count, callbacks and predicates live in a
//! host object (`StepHost`) that `step` reports to, and the state moved by a
//! step is pinned exactly by the `gen_step_rel` relation, so the ordering and
//! join guarantees of the composites are proved, not merely intended.

pub mod coroutine;
pub mod factory;
pub mod flow;
pub mod future;
pub mod generator;
pub mod host;
pub mod kernel;
pub mod logger;
pub mod time_frame;
pub mod timer;
pub mod trigger;

pub use coroutine::{AsyncCoroutine, SyncCoroutine};
pub use factory::{FlowExtensions, FlowFactory};
pub use flow::{Barrier, Generator, Node, Sequence};
pub use future::AsyncFuture;
pub use generator::GeneratorBase;
pub use host::StepHost;
pub use kernel::AsyncKernel;
pub use logger::{LogLevel, LogRecord, Logger};
pub use time_frame::TimeFrame;
pub use timer::{PeriodicTimer, Timer};
pub use trigger::Trigger;
