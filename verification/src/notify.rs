//! How a notification attempt ended.

use vstd::prelude::*;

verus! {

/// Why a notification did not get through.
#[derive(Clone, Copy, Debug, PartialEq, Eq, Structural)]
pub enum NotifyError {
    /// The request could not be sent, or no response came back.
    Transport,
    /// The service answered with a status outside the success class.
    NonSuccessStatus,
}

/// Whether a response status is of the success class.
pub open spec fn is_success(status: u16) -> bool {
    200 <= status < 300
}

/// Judges a notification attempt by the response status, `None` standing for
/// an attempt that got no response at all.
pub fn delivery(status: Option<u16>) -> (r: Result<(), NotifyError>)
    ensures
        r is Ok <==> (status matches Some(s) && is_success(s)),
        r == Err::<(), NotifyError>(NotifyError::Transport) <==> status is None,
        r == Err::<(), NotifyError>(NotifyError::NonSuccessStatus) <==> (status matches Some(s)
            && !is_success(s)),
{
    match status {
        None => Err(NotifyError::Transport),
        Some(s) => if 200 <= s && s < 300 {
            Ok(())
        } else {
            Err(NotifyError::NonSuccessStatus)
        },
    }
}

} // verus!
