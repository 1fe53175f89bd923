//! The decisions of an asynchronous Node-API callback, free of the calls into the runtime.
//!
//! Every procedure runs as a sequence of [`Step`]s. A step that is a [`Step::Call`] names the one
//! [`Request`] to put to the runtime and holds the procedure suspended; handing the [`Reply`] to
//! its `resume` method gives the next step.

pub mod baton;
pub mod complete;
pub mod constants;
pub mod handle;
pub mod init;
pub mod laws;
pub mod protocol;
pub mod run_laws;
pub mod test_async_work;

pub use baton::{execute, Baton};
pub use complete::{complete, Complete};
pub use handle::{Arguments, AsyncWork, CallbackInfo, Env, Reference, Value};
pub use init::{init, Init};
pub use protocol::{Entry, Fault, PropertyDescriptor, Reply, Request, Step};
pub use test_async_work::{test_async_work, TestAsyncWork};
