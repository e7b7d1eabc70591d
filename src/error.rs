use vstd::prelude::*;

verus! {

/// The code of a failure to deliver a report; the only one in use.
pub const DELIVERY_FAILED: usize = 0;

/// A failure to deliver a report.
///
/// The Bugsnag API processes requests asynchronously, so a report that the
/// service later drops does not come back as an error: what comes back is a
/// failure of the exchange itself (the network, the connection, a status that
/// the HTTP client counts as an error).
#[derive(Debug)]
pub struct BugsnagError {
    /// Always `DELIVERY_FAILED` for now; kept to tell kinds of failure apart.
    pub code: usize,
    /// The HTTP client's description of what went wrong.
    pub message: String,
}

/// The one-line description of an error with the given code.
pub open spec fn error_description(code: usize) -> Seq<char> {
    if code == DELIVERY_FAILED {
        "An error occured posting to bugsnag"@
    } else {
        "Some unknown error occured"@
    }
}

impl BugsnagError {
    /// A one-line description of the failure, by its code.
    pub fn to_string(&self) -> (r: String)
        ensures
            r@ == error_description(self.code),
    {
        if self.code == DELIVERY_FAILED {
            "An error occured posting to bugsnag".to_owned()
        } else {
            "Some unknown error occured".to_owned()
        }
    }
}

/// What a delivery attempt means for the caller. `sent` is what the HTTP
/// exchange gave: `Ok` when a response came back that the HTTP client accepts,
/// whatever its body, or the client's description of the failure. A success
/// carries nothing; a failure becomes a `BugsnagError` with code
/// `DELIVERY_FAILED` and that description as its message.
pub fn delivery_result(sent: Result<(), String>) -> (r: Result<(), BugsnagError>)
    ensures
        sent is Ok <==> r is Ok,
        sent is Err ==> r->Err_0.code == DELIVERY_FAILED && r->Err_0.message@ == sent->Err_0@,
{
    match sent {
        Ok(()) => Ok(()),
        Err(description) => Err(BugsnagError { code: DELIVERY_FAILED, message: description }),
    }
}

} // verus!
