use vstd::prelude::*;

verus! {

/// Reported in place of a handle when the browser has no WebGL.
pub const RESULT_NOT_SUPPORTED: i32 = -1;

/// Reported in place of a handle when creation needs a deferred call.
pub const RESULT_FAILED_NOT_DEFERRED: i32 = -2;

/// Reported in place of a handle when creation failed for another reason.
pub const RESULT_FAILED: i32 = -6;

/// Why a WebGL context could not be created.
#[derive(Debug, Clone, Copy, PartialEq, Eq, Structural)]
pub enum ContextError {
    NotSupported,
    FailedNotDeferred,
    Failed,
    /// Any other negative result, as reported.
    Other(i32),
}

/// The error that a negative creation result stands for.
pub open spec fn creation_error(result: i32) -> ContextError {
    if result == RESULT_NOT_SUPPORTED {
        ContextError::NotSupported
    } else if result == RESULT_FAILED_NOT_DEFERRED {
        ContextError::FailedNotDeferred
    } else if result == RESULT_FAILED {
        ContextError::Failed
    } else {
        ContextError::Other(result)
    }
}

/// A created WebGL context, known by its handle.
pub struct Context {
    ctx: i32,
}

impl Context {
    pub closed spec fn handle_of(&self) -> i32 {
        self.ctx
    }

    /// The context that a creation call returned `result` for: a handle when
    /// it is not negative, else the error that it reports.
    pub fn from_handle(result: i32) -> (r: Result<Context, ContextError>)
        ensures
            r is Ok <==> result >= 0,
            r matches Ok(c) ==> c.handle_of() == result,
            result < 0 ==> r == Err::<Context, ContextError>(creation_error(result)),
    {
        if result == RESULT_NOT_SUPPORTED {
            Err(ContextError::NotSupported)
        } else if result == RESULT_FAILED_NOT_DEFERRED {
            Err(ContextError::FailedNotDeferred)
        } else if result == RESULT_FAILED {
            Err(ContextError::Failed)
        } else if result < 0 {
            Err(ContextError::Other(result))
        } else {
            Ok(Context { ctx: result })
        }
    }

    pub fn handle(&self) -> (r: i32)
        ensures
            r == self.handle_of(),
    {
        self.ctx
    }
}

} // verus!
