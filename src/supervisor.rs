use crate::token::ConnectionToken;
use vstd::prelude::*;

verus! {

/// Why `stop` failed.
pub enum ConnectionError {
    NoActiveConnection,
}

pub open spec fn no_active_connection_text() -> Seq<char> {
    "当前没有活跃的连接"@
}

impl ConnectionError {
    /// A short description for the user.
    pub fn message(&self) -> (r: &'static str)
        ensures
            r@ == no_active_connection_text(),
    {
        "当前没有活跃的连接"
    }
}

/// Each retired token is a cancelled handle on the issued token of the same
/// position.
pub open spec fn aligned(retired: Seq<ConnectionToken>, issued: Seq<ConnectionToken>) -> bool {
    &&& retired.len() <= issued.len()
    &&& forall|i: int|
        #![trigger retired[i]]
        0 <= i < retired.len() ==> retired[i].id() == issued[i].id() && retired[i].is_cancelled()
}

/// Retiring the next issued token, cancelled, keeps the two logs aligned.
proof fn lemma_aligned_retire(retired: Seq<ConnectionToken>, issued: Seq<ConnectionToken>, t: ConnectionToken)
    requires
        aligned(retired, issued),
        retired.len() < issued.len(),
        t.id() == issued[retired.len() as int].id(),
        t.is_cancelled(),
    ensures
        aligned(retired.push(t), issued),
{
    assert forall|i: int| 0 <= i < retired.len() implies retired.push(t)[i] == retired[i] by {}
}

/// Issuing one more token keeps the two logs aligned.
proof fn lemma_aligned_issue(retired: Seq<ConnectionToken>, issued: Seq<ConnectionToken>, t: ConnectionToken)
    requires
        aligned(retired, issued),
    ensures
        aligned(retired, issued.push(t)),
{
    assert forall|i: int| 0 <= i < retired.len() implies issued.push(t)[i] == issued[i] by {}
}

/// The slot that holds the token of the one live connection. `issued` lists
/// every token put in the slot, in order; `retired` lists the handles through
/// which they were cancelled, in the same order.
pub struct ConnectionSupervisor {
    slot: Option<ConnectionToken>,
    issued: Ghost<Seq<ConnectionToken>>,
    retired: Ghost<Seq<ConnectionToken>>,
}

impl ConnectionSupervisor {
    /// The token in the slot, if any.
    pub closed spec fn live(&self) -> Option<ConnectionToken> {
        self.slot
    }

    /// Every token put in the slot, in order.
    pub closed spec fn issued(&self) -> Seq<ConnectionToken> {
        self.issued@
    }

    /// The cancelled handles of the tokens taken out of the slot, in order.
    pub closed spec fn retired(&self) -> Seq<ConnectionToken> {
        self.retired@
    }

    /// The slot holds the newest token, uncancelled; every earlier token has
    /// been cancelled, each once.
    pub closed spec fn wf(&self) -> bool {
        &&& aligned(self.retired@, self.issued@)
        &&& match self.slot {
            Some(t) => self.issued@.len() > 0 && t == self.issued@.last() && self.retired@.len() + 1
                == self.issued@.len() && !t.is_cancelled(),
            None => self.retired@.len() == self.issued@.len(),
        }
    }

    /// `post` has retired the token that `pre` held, cancelled.
    pub open spec fn retired_live(pre: Self, post: Self) -> bool {
        match pre.live() {
            Some(t) => {
                &&& post.retired().len() == pre.retired().len() + 1
                &&& post.retired().drop_last() == pre.retired()
                &&& post.retired().last().id() == t.id()
                &&& post.retired().last().is_cancelled()
            },
            None => post.retired() == pre.retired(),
        }
    }

    /// The supervisor as `start` leaves it, with the handle `r` it returns.
    pub open spec fn started(pre: Self, post: Self, r: ConnectionToken) -> bool {
        &&& Self::retired_live(pre, post)
        &&& post.live() is Some
        &&& post.issued() == pre.issued().push(post.live()->0)
        &&& r.id() == post.live()->0.id()
        &&& !r.is_cancelled()
    }

    /// An empty slot.
    pub fn new() -> (r: Self)
        ensures
            r.wf(),
            r.live() is None,
            r.issued() == Seq::<ConnectionToken>::empty(),
            r.retired() == Seq::<ConnectionToken>::empty(),
    {
        ConnectionSupervisor { slot: None, issued: Ghost(Seq::empty()), retired: Ghost(Seq::empty()) }
    }

    /// Whether a token is in the slot.
    pub fn is_active(&self) -> (r: bool)
        ensures
            r == self.live().is_some(),
    {
        self.slot.is_some()
    }

    /// Cancels the token in the slot, if any, and puts a fresh one there. The
    /// returned handle shares the fresh token's state: the new connection's
    /// pump watches it.
    pub fn start(&mut self) -> (r: ConnectionToken)
        requires
            old(self).wf(),
        ensures
            final(self).wf(),
            Self::started(*old(self), *final(self), r),
    {
        let ghost pre = *self;
        let token = ConnectionToken::new();
        let handle = token.share();
        if let Some(mut old_token) = self.slot.take() {
            assert(old_token == pre.issued@[pre.retired@.len() as int]);
            old_token.cancel();
            proof {
                lemma_aligned_retire(self.retired@, self.issued@, old_token);
                self.retired@ = self.retired@.push(old_token);
                assert(self.retired@.drop_last() =~= pre.retired@);
            }
        }
        proof {
            lemma_aligned_issue(self.retired@, self.issued@, token);
            self.issued@ = self.issued@.push(token);
        }
        self.slot = Some(token);
        handle
    }

    /// Takes the token out of the slot and cancels it; fails when the slot
    /// is empty, and then changes nothing.
    pub fn stop(&mut self) -> (r: Result<(), ConnectionError>)
        requires
            old(self).wf(),
        ensures
            final(self).wf(),
            match old(self).live() {
                None => r is Err && *final(self) == *old(self),
                Some(_) => {
                    &&& r is Ok
                    &&& final(self).live() is None
                    &&& final(self).issued() == old(self).issued()
                    &&& Self::retired_live(*old(self), *final(self))
                },
            },
    {
        let ghost pre = *self;
        match self.slot.take() {
            Some(mut token) => {
                assert(token == pre.issued@[pre.retired@.len() as int]);
                token.cancel();
                proof {
                    lemma_aligned_retire(self.retired@, self.issued@, token);
                    self.retired@ = self.retired@.push(token);
                    assert(self.retired@.drop_last() =~= pre.retired@);
                }
                Ok(())
            },
            None => Err(ConnectionError::NoActiveConnection),
        }
    }

    /// Every token ever issued but the one in the slot has been cancelled,
    /// once: at most one connection runs at a time.
    pub proof fn lemma_all_but_live_cancelled(&self, i: int)
        requires
            self.wf(),
            0 <= i < self.issued().len(),
            self.live() is None || i != self.issued().len() - 1,
        ensures
            i < self.retired().len(),
            self.retired()[i].id() == self.issued()[i].id(),
            self.retired()[i].is_cancelled(),
            self.retired().len() <= self.issued().len(),
    {
    }

    /// Of two `start`s in a row, the second cancels the token that the first
    /// handed out, and hands out a live handle on the token it puts in the slot.
    pub proof fn lemma_start_supersedes(
        s0: Self,
        s1: Self,
        s2: Self,
        r1: ConnectionToken,
        r2: ConnectionToken,
    )
        requires
            s0.wf(),
            s1.wf(),
            Self::started(s0, s1, r1),
            Self::started(s1, s2, r2),
        ensures
            s2.retired().last().id() == r1.id(),
            s2.retired().last().is_cancelled(),
            r2.id() == s2.live()->0.id(),
            !r2.is_cancelled(),
            s2.live() is Some,
    {
    }
}

} // verus!
