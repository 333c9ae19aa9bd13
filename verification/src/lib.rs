//! A scoped capability proxy for a shared I2C-like bus.
//!
//! On a single-core, priority-preemptive scheduler, the task that actually
//! touches the bus hardware runs at a high priority; ordinary tasks may not
//! call it directly. Instead they hold a *capability* — a routing handle the
//! scheduler hands to a task for the duration of one invocation — and every
//! bus call is converted into an [`i2c_proxy::I2cCommand`] and forwarded
//! through whichever capability is currently installed.
//!
//! The pieces:
//!
//! * [`i2c_proxy::I2cCommand`] — one bus operation as plain data.
//! * [`i2c_proxy::I2cHandlerProxy`] — stands in for the bus; owns the single
//!   capability slot and forwards each call through it.
//! * [`scoped_task_spawn_provider::ScopedTaskSpawnProvider`] — the scope
//!   guard that installs a capability into a proxy's slot and clears the slot
//!   unconditionally when the scope is released.
//! * [`some_driver::SomeDriver`] — an illustrative consumer, generic over the
//!   bus interface and unaware of capabilities.
//! * [`in_memory_handler::InMemoryHandler`] — an in-memory capability whose
//!   handler runs synchronously, standing in for the scheduler-provided one.
//!
//! Every capability keeps a specification-level log of the commands routed
//! through it, so the contracts pin down that each bus call delivers exactly
//! one content-equal command, in issue order, and returns the routing call's
//! own outcome.

pub mod i2c_proxy;
pub mod in_memory_handler;
pub mod scoped_task_spawn_provider;
pub mod some_driver;
