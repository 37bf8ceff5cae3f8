use tokio_util::sync::CancellationToken;
use vstd::prelude::*;

verus! {

#[verifier::external_type_specification]
#[verifier::external_body]
pub struct ExCancellationToken(CancellationToken);

/// A handle on one connection's cancellation state. Handles made by `share`
/// carry the same `id`; `is_cancelled` records that cancellation has been
/// signalled through this handle, after which the token stays cancelled.
pub struct ConnectionToken {
    token: CancellationToken,
    id: Ghost<nat>,
    cancelled: Ghost<bool>,
}

impl ConnectionToken {
    /// Which cancellation state this handle is on.
    pub closed spec fn id(&self) -> nat {
        self.id@
    }

    /// Whether cancellation has been signalled through this handle.
    pub closed spec fn is_cancelled(&self) -> bool {
        self.cancelled@
    }

    /// Relies on tokio_util's CancellationToken::new: a fresh token, not
    /// cancelled.
    #[verifier::external_body]
    pub fn new() -> (r: Self)
        ensures
            !r.is_cancelled(),
    {
        ConnectionToken { token: CancellationToken::new(), id: Ghost(arbitrary()), cancelled: Ghost(false) }
    }

    /// Relies on tokio_util's `Clone` for CancellationToken: the clone is a
    /// handle on the same cancellation state.
    #[verifier::external_body]
    pub fn share(&self) -> (r: Self)
        ensures
            r.id() == self.id(),
            r.is_cancelled() == self.is_cancelled(),
    {
        ConnectionToken { token: self.token.clone(), id: Ghost(self.id@), cancelled: Ghost(self.cancelled@) }
    }

    /// Relies on tokio_util's CancellationToken::cancel: it signals every
    /// handle on the token, and is a no-op on one already cancelled.
    #[verifier::external_body]
    pub fn cancel(&mut self)
        ensures
            final(self).id() == old(self).id(),
            final(self).is_cancelled(),
    {
        self.token.cancel();
    }

    /// The underlying token, for awaiting its cancellation.
    pub fn cancellation(&self) -> &CancellationToken {
        &self.token
    }
}

} // verus!
