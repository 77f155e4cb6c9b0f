//! The blocking, ordered signal channel, modelled as a single-owner FIFO.
//!
//! The abstract value of a queue is the sequence of signals it still holds,
//! in push order, together with a `closed` flag that is raised when a
//! terminal signal is popped. Once the flag is up, no further signal is ever
//! yielded. The thread-crossing wiring (one cloneable writer handle, one
//! exclusive reader handle) lives outside the library; every state change a
//! queue can undergo is one of the verified operations below.

use vstd::prelude::*;
use crate::signal::Terminal;

verus! {

pub struct SignalQueue<T> {
    items: Vec<T>,
    closed: bool,
}

impl<T> View for SignalQueue<T> {
    type V = Seq<T>;

    closed spec fn view(&self) -> Seq<T> {
        self.items@
    }
}

impl<T: Terminal> SignalQueue<T> {
    /// Whether a terminal signal has been popped, after which the queue
    /// yields nothing further.
    pub closed spec fn is_closed(&self) -> bool {
        self.closed
    }

    pub fn new() -> (r: SignalQueue<T>)
        ensures
            r@ == Seq::<T>::empty(),
            !r.is_closed(),
    {
        SignalQueue { items: Vec::new(), closed: false }
    }

    pub fn len(&self) -> (r: usize)
        ensures
            r == self@.len(),
    {
        self.items.len()
    }

    /// Appends one signal; never blocks, never reorders, never drops.
    pub fn push(&mut self, s: T)
        ensures
            final(self)@ == old(self)@.push(s),
            final(self).is_closed() == old(self).is_closed(),
    {
        self.items.push(s);
    }

    /// Takes the oldest signal.
    ///
    /// Yields nothing once a terminal signal has been popped, and marks the
    /// queue closed at the moment the terminal signal itself comes out.
    /// An empty open queue also yields nothing here; the thread-facing
    /// wrapper turns that case into a blocking wait.
    pub fn pop(&mut self) -> (r: Option<T>)
        ensures
            old(self).is_closed() ==> r is None && final(self)@ == old(self)@
                && final(self).is_closed(),
            !old(self).is_closed() && old(self)@.len() == 0 ==> r is None
                && final(self)@ == old(self)@ && !final(self).is_closed(),
            !old(self).is_closed() && old(self)@.len() > 0 ==> r == Some(old(self)@[0])
                && final(self)@ == old(self)@.drop_first()
                && final(self).is_closed() == old(self)@[0].is_terminal(),
    {
        if self.closed {
            return None;
        }
        if self.items.len() == 0 {
            return None;
        }
        let s = self.items.remove(0);
        if s.terminal() {
            self.closed = true;
        }
        Some(s)
    }
}

impl SignalQueue<crate::signal::AsyncSignal> {
    /// Pushes a logging request, stamped with the wall clock at push time,
    /// as producers of log events do.
    pub fn push_log(&mut self, sig: crate::signal::LoggerSignal)
        ensures
            final(self)@.len() == old(self)@.len() + 1,
            exists|t: i64|
                final(self)@ == old(self)@.push(crate::signal::AsyncSignal::Logger(t, sig)),
            crate::signal::payloads(final(self)@) == crate::signal::payloads(old(self)@).push(
                sig@,
            ),
            final(self).is_closed() == old(self).is_closed(),
    {
        let t = crate::util::now_ms();
        let ghost s0 = self@;
        self.push(crate::signal::AsyncSignal::Logger(t, sig));
        proof {
            crate::signal::lemma_payloads_push_logger(s0, t, sig);
        }
    }
}

/// The number of signals before the first terminal one (or the length,
/// when no terminal signal is queued): how many non-terminal signals a
/// consumer drains before stopping.
pub open spec fn first_terminal<T: Terminal>(s: Seq<T>) -> int
    decreases s.len(),
{
    if s.len() == 0 {
        0
    } else if s[0].is_terminal() {
        0
    } else {
        1 + first_terminal(s.drop_first())
    }
}

pub proof fn lemma_first_terminal_at<T: Terminal>(s: Seq<T>, k: int)
    requires
        0 <= k <= s.len(),
        forall|j: int| 0 <= j < k ==> !(#[trigger] s[j]).is_terminal(),
        k < s.len() ==> s[k].is_terminal(),
    ensures
        first_terminal(s) == k,
    decreases s.len(),
{
    if s.len() > 0 && !s[0].is_terminal() {
        assert forall|j: int| 0 <= j < k - 1 implies !(#[trigger] s.drop_first()[j]).is_terminal()
        by {
            assert(s.drop_first()[j] == s[j + 1]);
        }
        assert(k - 1 < s.drop_first().len() ==> s.drop_first()[k - 1] == s[k]);
        lemma_first_terminal_at(s.drop_first(), k - 1);
    }
}

/// The signals a consumer observes over `n` successive pops of a queue
/// holding `s` with the given closed flag: `Some` for each yielded signal,
/// `None` where the queue yields nothing.
pub open spec fn yielded<T: Terminal>(s: Seq<T>, closed: bool, n: nat) -> Seq<Option<T>>
    decreases n,
{
    if n == 0 {
        Seq::empty()
    } else if closed || s.len() == 0 {
        seq![Option::<T>::None] + yielded(s, closed, (n - 1) as nat)
    } else {
        seq![Some(s[0])] + yielded(s.drop_first(), s[0].is_terminal(), (n - 1) as nat)
    }
}

pub proof fn lemma_yielded_len<T: Terminal>(s: Seq<T>, closed: bool, n: nat)
    ensures
        yielded(s, closed, n).len() == n,
    decreases n,
{
    if n > 0 {
        if closed || s.len() == 0 {
            lemma_yielded_len(s, closed, (n - 1) as nat);
        } else {
            lemma_yielded_len(s.drop_first(), s[0].is_terminal(), (n - 1) as nat);
        }
    }
}

proof fn lemma_yields_nothing<T: Terminal>(s: Seq<T>, closed: bool, n: nat, j: int)
    requires
        0 <= j < n,
        closed || s.len() == 0,
    ensures
        yielded(s, closed, n)[j] is None,
    decreases n,
{
    lemma_yielded_len::<T>(s, closed, n);
    if j > 0 {
        lemma_yields_nothing(s, closed, (n - 1) as nat, j - 1);
    }
}

/// FIFO delivery: for every sequence of pushes from one producer, the pops
/// yield the signals in push order. Concretely, as long as no terminal
/// signal has come out yet, the `i`-th pop of an open queue holding `s`
/// yields exactly `s[i]`.
pub proof fn lemma_fifo<T: Terminal>(s: Seq<T>, n: nat, i: int)
    requires
        0 <= i < n,
        i < s.len(),
        forall|j: int| 0 <= j < i ==> !(#[trigger] s[j]).is_terminal(),
    ensures
        yielded(s, false, n)[i] == Some(s[i]),
    decreases n,
{
    lemma_yielded_len::<T>(s, false, n);
    if i > 0 {
        lemma_fifo(s.drop_first(), (n - 1) as nat, i - 1);
        assert(forall|j: int| 0 <= j < i - 1 ==> s.drop_first()[j] == s[j + 1]);
        assert(s.drop_first()[i - 1] == s[i]);
    }
}

/// Terminal idempotence: once a pop has yielded a terminal signal, no later
/// pop yields any signal at all — in particular, never a non-terminal one.
pub proof fn lemma_terminal_idempotence<T: Terminal>(
    s: Seq<T>,
    closed: bool,
    n: nat,
    i: int,
    j: int,
)
    requires
        0 <= i < j < n,
        yielded(s, closed, n)[i] is Some,
        yielded(s, closed, n)[i]->Some_0.is_terminal(),
    ensures
        yielded(s, closed, n)[j] is None,
    decreases n,
{
    lemma_yielded_len::<T>(s, closed, n);
    if closed || s.len() == 0 {
        lemma_yields_nothing::<T>(s, closed, n, i);
        assert(false);
    } else if i == 0 {
        assert(s[0].is_terminal());
        lemma_yields_nothing::<T>(s.drop_first(), true, (n - 1) as nat, j - 1);
    } else {
        lemma_terminal_idempotence(
            s.drop_first(),
            s[0].is_terminal(),
            (n - 1) as nat,
            i - 1,
            j - 1,
        );
    }
}

} // verus!
