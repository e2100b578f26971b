//! Money-safety retry policy.
//!
//! A financial command (`safe_to_retry == false`) is never re-sent after a connection drop:
//! if the socket drops after the terminal processed a payment but before the response
//! arrived, a blind re-send would charge the cardholder twice. Such cases are recovered by
//! asking the terminal for its last result (`G`), not by retransmitting the request.
use vstd::prelude::*;

verus! {

/// Whether a command may be re-sent after an auto-reconnect: only when auto-reconnect is
/// on, the transport actually dropped, and the command is safe / idempotent.
pub open spec fn retry_allowed(auto_reconnect: bool, transport_dropped: bool, safe_to_retry: bool) -> bool {
    auto_reconnect && transport_dropped && safe_to_retry
}

/// Decides whether a command may be safely re-sent after an auto-reconnect.
pub fn should_retry_after_reconnect(
    auto_reconnect: bool,
    transport_dropped: bool,
    safe_to_retry: bool,
) -> (r: bool)
    ensures
        r == retry_allowed(auto_reconnect, transport_dropped, safe_to_retry),
        !safe_to_retry ==> !r,
{
    auto_reconnect && transport_dropped && safe_to_retry
}

/// A financial command is never retried, whatever the auto-reconnect and drop state.
pub proof fn lemma_financial_command_never_retried(auto_reconnect: bool, transport_dropped: bool)
    ensures
        !retry_allowed(auto_reconnect, transport_dropped, false),
{
}

/// A safe command is retried exactly when auto-reconnect is on and the transport dropped.
pub proof fn lemma_safe_command_retried_only_after_drop(auto_reconnect: bool, transport_dropped: bool)
    ensures
        retry_allowed(auto_reconnect, transport_dropped, true) <==> (auto_reconnect && transport_dropped),
{
}

} // verus!
