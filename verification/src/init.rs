//! The module's registration: one method on the object of exports.

use vstd::prelude::*;

use crate::handle::{Env, Value};
use crate::protocol::{Entry, PropertyDescriptor, Reply, Request, Step};

verus! {

/// The name of the method, closed by a NUL.
pub const METHOD_NAME: &'static str = "test_async_work\0";

/// Registration, suspended until its request is answered.
pub struct Init {}

impl Init {
    /// Hands over the reply to the request. Whatever it says, registration is done.
    pub fn resume(self, _reply: Reply) -> (step: Step<Init, ()>)
        ensures
            step == Step::<Init, ()>::Return(()),
    {
        Step::Return(())
    }
}

/// The properties that registration defines.
pub open spec fn properties() -> Seq<PropertyDescriptor> {
    seq![PropertyDescriptor { utf8name: METHOD_NAME, method: Entry::TestAsyncWork }]
}

/// Registers the module on `exports`.
pub fn init(env: Env, exports: Value) -> (step: Step<Init, ()>)
    ensures
        step matches Step::Call(_, Request::DefineProperties { env: e, object, properties: p })
            && e == env && object == exports && p@ == properties(),
{
    let properties = vec![PropertyDescriptor { utf8name: METHOD_NAME, method: Entry::TestAsyncWork }];
    Step::Call(Init {}, Request::DefineProperties { env, object: exports, properties })
}

} // verus!
