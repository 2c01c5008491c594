//! The process-wide "protocol does not match" latch.
//!
//! After an upgrade, applications that were already running keep the old DLL loaded. When its
//! protocol no longer matches the Server's, reconnecting cannot help. Once a mismatch is seen the
//! latch closes: every key passes through to the application and no connection is attempted. The
//! latch never reopens in the same process.

use vstd::prelude::*;

verus! {

/// The latch; closed once a mismatch has been seen. Its view is how many times a mismatch
/// was marked on it since it was made; only [`MismatchLatch::new`] makes one and only [`mark`]
/// changes it.
pub struct MismatchLatch {
    closed: bool,
    marks: Ghost<nat>,
}

impl View for MismatchLatch {
    type V = nat;

    closed spec fn view(&self) -> nat {
        self.marks@
    }
}

impl MismatchLatch {
    /// The latch is closed exactly when a mismatch has been marked on it.
    #[verifier::type_invariant]
    spec fn closed_iff_marked(self) -> bool {
        self.closed == (self.marks@ > 0)
    }

    /// An open latch: nothing marked yet.
    pub fn new() -> (r: Self)
        ensures
            r@ == after_marks(0),
    {
        MismatchLatch { closed: false, marks: Ghost(0) }
    }
}

/// The log line written the first time a mismatch is marked.
pub open spec fn mismatch_message(reason: Seq<char>) -> Seq<char> {
    "与 Server 的协议对不上（"@ + reason
        + "）：本应用加载的是升级前的旧 DLL，之后所有键放行给应用，重启这个应用即可恢复"@
}

/// Marks a mismatch and closes the latch. The first call returns the line to log; later calls
/// return `None`, so the log is not flooded on every key.
pub fn mark(latch: &mut MismatchLatch, reason: &str) -> (r: Option<String>)
    ensures
        final(latch)@ == marked_once_more(old(latch)@),
        old(latch)@ > 0 ==> r is None,
        old(latch)@ == 0 ==> (r matches Some(line) && line@ == mismatch_message(reason@)),
{
    proof {
        use_type_invariant(&*latch);
    }
    let first = !latch.closed;
    *latch = MismatchLatch { closed: true, marks: Ghost(latch.marks@ + 1) };
    if !first {
        return None;
    }
    let mut line = String::from_str("与 Server 的协议对不上（");
    line.append(reason);
    line.append("）：本应用加载的是升级前的旧 DLL，之后所有键放行给应用，重启这个应用即可恢复");
    Some(line)
}

/// Whether the latch is closed, that is whether a mismatch was ever marked on it. Once closed,
/// no connection is made and no key is taken.
pub fn detected(latch: &MismatchLatch) -> (r: bool)
    ensures
        r == reads_closed(latch@),
{
    proof {
        use_type_invariant(latch);
    }
    latch.closed
}

/// The latch after `n` marks on a new one.
pub open spec fn after_marks(n: nat) -> nat
    decreases n,
{
    if n == 0 {
        0
    } else {
        marked_once_more(after_marks((n - 1) as nat))
    }
}

/// What one call of [`mark`] does to the latch's count.
pub open spec fn marked_once_more(count: nat) -> nat {
    count + 1
}

/// What [`detected`] reads for a count.
pub open spec fn reads_closed(count: nat) -> bool {
    count > 0
}

/// The latch reads closed exactly when a mismatch was marked since it was made, and never
/// reopens: after `n` marks on a new latch it reads closed exactly when `n > 0`.
pub proof fn lemma_closed_exactly_after_a_mark(n: nat)
    ensures
        reads_closed(after_marks(n)) == (n > 0),
        after_marks(n) == n,
    decreases n,
{
    if n > 0 {
        lemma_closed_exactly_after_a_mark((n - 1) as nat);
    }
}

/// An error talking to the Server, as far as the text service's decisions read it.
#[derive(Clone, Debug)]
pub enum ClientError {
    /// Framing or I/O failed; `protocol_mismatch` tells whether the frame was one this DLL
    /// cannot understand (as the codec error reports).
    Codec { protocol_mismatch: bool },
    /// The Server closed the connection at a frame boundary while an answer was awaited.
    Closed,
    /// A message that does not answer the current request.
    Unexpected(String),
}

impl ClientError {
    /// Whether the two sides do not speak the same protocol (an old DLL still loaded after an
    /// upgrade). Reconnecting does not help then; a closed connection or a missing Server does
    /// not count.
    pub fn is_protocol_mismatch(&self) -> (r: bool)
        ensures
            r == match self {
                ClientError::Codec { protocol_mismatch } => *protocol_mismatch,
                ClientError::Unexpected(_) => true,
                ClientError::Closed => false,
            },
    {
        match self {
            ClientError::Codec { protocol_mismatch } => *protocol_mismatch,
            ClientError::Unexpected(_) => true,
            ClientError::Closed => false,
        }
    }
}

} // verus!
