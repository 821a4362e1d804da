//! The adapter between a container and a destination.
//!
//! The destination is driven by requests: open a context with a length hint,
//! write one element (or one entry) after another, close the context. The
//! adapter holds no destination. It names the request that is due, is told
//! how the destination answered, and names the next one. After the first
//! failure it asks for nothing more and hands the failure back as it came.

use crate::source::{MapSource, SequenceSource};
use vstd::prelude::*;

verus! {

/// Which of the two protocols a run follows.
#[derive(Clone, Copy, Debug, PartialEq, Eq, Structural)]
pub enum Protocol {
    Sequence,
    KeyValue,
}

/// What the destination is asked to do next.
#[derive(Clone, Copy, Debug, PartialEq, Eq, Structural)]
pub enum Request {
    /// Open a sequence or map context; `hint` is the number of writes that follow.
    Open { protocol: Protocol, hint: usize },
    /// Write the element, or the key and then the value, at `index` of the traversal.
    Write { index: usize },
    /// Close the context.
    Close,
    /// Every request succeeded; nothing is left to do.
    Finished,
    /// A request failed; nothing more is asked of the destination.
    Stopped,
}

#[derive(Clone, Copy, Debug, PartialEq, Eq, Structural)]
enum Phase {
    Opening,
    Writing,
    Closing,
    Complete,
    Aborted,
}

/// The state of one run over a container of a known length.
#[derive(Clone, Copy, Debug)]
pub struct Adapter {
    protocol: Protocol,
    len: usize,
    next: usize,
    phase: Phase,
}

/// The request that is due after `position` successful requests of a run
/// over `len` elements: one open, `len` writes in index order, one close.
pub open spec fn request_at(protocol: Protocol, len: nat, position: nat) -> Request {
    if position == 0 {
        Request::Open { protocol, hint: len as usize }
    } else if position <= len {
        Request::Write { index: (position - 1) as usize }
    } else if position == len + 1 {
        Request::Close
    } else {
        Request::Finished
    }
}

/// All requests of a run in which none fails.
pub open spec fn script(protocol: Protocol, len: nat) -> Seq<Request> {
    Seq::new(len + 2, |p: int| request_at(protocol, len, p as nat))
}

/// The requests that a run makes when the destination answers them, one
/// after another, as `outcomes` says (`true` for success). A run ends when
/// the context is closed, at the first failure, or when the answers run out.
pub open spec fn performed(a: Adapter, outcomes: Seq<bool>) -> Seq<Request>
    decreases outcomes.len(),
{
    if outcomes.len() == 0 || a.settled() {
        Seq::empty()
    } else {
        seq![a.due()] + performed(a.after(outcomes[0]), outcomes.drop_first())
    }
}

impl Adapter {
    /// The state's invariant.
    pub closed spec fn wf(&self) -> bool {
        &&& self.next <= self.len
        &&& self.phase == Phase::Opening ==> self.next == 0
        &&& self.phase == Phase::Writing ==> self.next < self.len
        &&& self.phase == Phase::Closing ==> self.next == self.len
        &&& self.phase == Phase::Complete ==> self.next == self.len
    }

    /// The protocol of the run.
    pub closed spec fn protocol(&self) -> Protocol {
        self.protocol
    }

    /// The number of elements of the container, which is the length hint.
    pub closed spec fn total(&self) -> nat {
        self.len as nat
    }

    /// The number of writes that the destination has accepted.
    pub closed spec fn written(&self) -> nat {
        self.next as nat
    }

    /// Whether a request has failed.
    pub closed spec fn stopped(&self) -> bool {
        self.phase == Phase::Aborted
    }

    /// The number of requests that have succeeded, where none has failed.
    pub closed spec fn position(&self) -> nat {
        match self.phase {
            Phase::Opening => 0,
            Phase::Writing => (self.next + 1) as nat,
            Phase::Closing => (self.len + 1) as nat,
            Phase::Complete => (self.len + 2) as nat,
            Phase::Aborted => 0,
        }
    }

    /// Whether the run is over, by success or by failure.
    pub open spec fn settled(&self) -> bool {
        self.stopped() || self.position() == self.total() + 2
    }

    /// The request that is due in this state.
    pub open spec fn due(&self) -> Request {
        if self.stopped() {
            Request::Stopped
        } else {
            request_at(self.protocol(), self.total(), self.position())
        }
    }

    /// The state at the start of a run over `len` elements.
    pub closed spec fn initial(protocol: Protocol, len: nat) -> Adapter {
        Adapter { protocol, len: len as usize, next: 0, phase: Phase::Opening }
    }

    /// The state after the destination has answered the request that was due.
    pub closed spec fn after(self, ok: bool) -> Adapter {
        match self.phase {
            Phase::Complete | Phase::Aborted => self,
            _ if !ok => Adapter { phase: Phase::Aborted, ..self },
            Phase::Opening => if self.len == 0 {
                Adapter { phase: Phase::Closing, ..self }
            } else {
                Adapter { phase: Phase::Writing, ..self }
            },
            Phase::Writing => if self.next + 1 == self.len {
                Adapter { phase: Phase::Closing, next: self.len, ..self }
            } else {
                Adapter { next: (self.next + 1) as usize, ..self }
            },
            Phase::Closing => Adapter { phase: Phase::Complete, ..self },
        }
    }

    /// Starts a run over `len` elements.
    pub fn start(protocol: Protocol, len: usize) -> (a: Adapter)
        ensures
            a == Adapter::initial(protocol, len as nat),
            a.wf(),
            a.protocol() == protocol,
            a.total() == len,
            a.written() == 0,
            a.position() == 0,
            !a.stopped(),
            a.due() == (Request::Open { protocol, hint: len }),
    {
        Adapter { protocol, len, next: 0, phase: Phase::Opening }
    }

    /// Starts the run that emits a container as a sequence. The length hint
    /// is the container's logical length.
    pub fn for_sequence<C: SequenceSource>(source: &C) -> (a: Adapter)
        requires
            source.valid(),
        ensures
            a == Adapter::initial(Protocol::Sequence, source.elements().len()),
            a.wf(),
            a.total() == source.elements().len(),
            a.due() == (Request::Open {
                protocol: Protocol::Sequence,
                hint: source.elements().len() as usize,
            }),
    {
        Adapter::start(Protocol::Sequence, source.length())
    }

    /// Starts the run that emits a container as a map. The length hint is
    /// the container's number of entries.
    pub fn for_map<C: MapSource>(source: &C) -> (a: Adapter)
        requires
            source.valid(),
        ensures
            a == Adapter::initial(Protocol::KeyValue, source.entries().len()),
            a.wf(),
            a.total() == source.entries().len(),
            a.due() == (Request::Open {
                protocol: Protocol::KeyValue,
                hint: source.entries().len() as usize,
            }),
    {
        Adapter::start(Protocol::KeyValue, source.length())
    }

    /// The request to make now.
    pub fn pending(&self) -> (r: Request)
        requires
            self.wf(),
        ensures
            r == self.due(),
            r matches Request::Write { index } ==> index < self.total() && index == self.written(),
    {
        match self.phase {
            Phase::Opening => Request::Open { protocol: self.protocol, hint: self.len },
            Phase::Writing => Request::Write { index: self.next },
            Phase::Closing => Request::Close,
            Phase::Complete => Request::Finished,
            Phase::Aborted => Request::Stopped,
        }
    }

    /// Takes the destination's answer to the pending request. A failure
    /// ends the run and comes back unchanged; a success moves the run on by
    /// one request. Once the run is over the state no longer changes.
    pub fn advance<E>(&mut self, outcome: Result<(), E>) -> (r: Result<(), E>)
        requires
            old(self).wf(),
        ensures
            r == outcome,
            final(self).wf(),
            *final(self) == old(self).after(outcome is Ok),
            final(self).protocol() == old(self).protocol(),
            final(self).total() == old(self).total(),
            old(self).settled() ==> *final(self) == *old(self),
            !old(self).settled() && outcome is Ok ==> {
                &&& !final(self).stopped()
                &&& final(self).position() == old(self).position() + 1
            },
            !old(self).settled() && outcome is Err ==> {
                &&& final(self).stopped()
                &&& final(self).written() == old(self).written()
            },
    {
        match self.phase {
            Phase::Complete | Phase::Aborted => {},
            _ => {
                if outcome.is_err() {
                    self.phase = Phase::Aborted;
                } else {
                    match self.phase {
                        Phase::Opening => {
                            if self.len == 0 {
                                self.phase = Phase::Closing;
                            } else {
                                self.phase = Phase::Writing;
                            }
                        },
                        Phase::Writing => {
                            if self.next + 1 == self.len {
                                self.phase = Phase::Closing;
                                self.next = self.len;
                            } else {
                                self.next = self.next + 1;
                            }
                        },
                        _ => {
                            self.phase = Phase::Complete;
                        },
                    }
                }
            },
        }
        outcome
    }

    /// Whether the run is over.
    pub fn is_settled(&self) -> (b: bool)
        requires
            self.wf(),
        ensures
            b == self.settled(),
    {
        match self.phase {
            Phase::Complete | Phase::Aborted => true,
            _ => false,
        }
    }

    /// Whether the run ended because a request failed.
    pub fn is_stopped(&self) -> (b: bool)
        ensures
            b == self.stopped(),
    {
        match self.phase {
            Phase::Aborted => true,
            _ => false,
        }
    }

    /// The number of writes that the destination accepted so far.
    pub fn writes_accepted(&self) -> (n: usize)
        ensures
            n == self.written(),
    {
        self.next
    }
}

/// From any state that is not settled, a run makes the requests of the
/// script from its position on, up to and including the first that fails.
proof fn lemma_performed_from(a: Adapter, outcomes: Seq<bool>, k: nat)
    requires
        a.wf(),
        !a.settled(),
        k <= outcomes.len(),
        forall|i: int| 0 <= i < k ==> outcomes[i],
        k < outcomes.len() ==> !outcomes[k as int],
    ensures
        performed(a, outcomes) =~= script(a.protocol(), a.total()).subrange(
            a.position() as int,
            vstd::math::min(
                (a.total() + 2) as int,
                a.position() + vstd::math::min((k + 1) as int, outcomes.len() as int),
            ),
        ),
    decreases outcomes.len(),
{
    let s = script(a.protocol(), a.total());
    let p = a.position() as int;
    if outcomes.len() == 0 {
    } else {
        let b = a.after(outcomes[0]);
        let rest = outcomes.drop_first();
        assert(a.due() == s[p]);
        if !outcomes[0] {
            assert(b.settled());
            assert(performed(b, rest) =~= Seq::<Request>::empty());
        } else if b.settled() {
            assert(performed(b, rest) =~= Seq::<Request>::empty());
        } else {
            assert(k >= 1);
            assert forall|i: int| 0 <= i < k - 1 implies rest[i] by {
                assert(rest[i] == outcomes[i + 1]);
            }
            if k < outcomes.len() {
                assert(rest[k - 1] == outcomes[k as int]);
            }
            lemma_performed_from(b, rest, (k - 1) as nat);
        }
    }
}

/// Where the destination accepts everything, a run makes exactly the
/// requests of the script: one open whose hint is the length, one write for
/// each index in increasing order, one close.
pub proof fn law_complete_run(protocol: Protocol, len: usize, outcomes: Seq<bool>)
    requires
        outcomes.len() >= len + 2,
        forall|i: int| 0 <= i < len + 2 ==> outcomes[i],
    ensures
        performed(Adapter::initial(protocol, len as nat), outcomes) == script(protocol, len as nat),
        script(protocol, len as nat).len() == len + 2,
        script(protocol, len as nat)[0] == (Request::Open { protocol, hint: len }),
        forall|i: int|
            0 <= i < len ==> #[trigger] script(protocol, len as nat)[i + 1] == (Request::Write {
                index: i as usize,
            }),
        script(protocol, len as nat)[len + 1] == Request::Close,
{
    let a = Adapter::initial(protocol, len as nat);
    let t = outcomes.take(len + 2);
    lemma_performed_prefix(a, outcomes, (len + 2) as nat);
    assert(t.len() == len + 2);
    lemma_performed_from(a, t, (len + 2) as nat);
}

/// Where the destination fails on the request at position `k` of the
/// script, and on none before it, a run makes the requests up to that one
/// and none after it.
pub proof fn law_fail_fast(protocol: Protocol, len: usize, outcomes: Seq<bool>, k: nat)
    requires
        k < len + 2,
        k < outcomes.len(),
        forall|i: int| 0 <= i < k ==> outcomes[i],
        !outcomes[k as int],
    ensures
        performed(Adapter::initial(protocol, len as nat), outcomes) == script(
            protocol,
            len as nat,
        ).take((k + 1) as int),
{
    let a = Adapter::initial(protocol, len as nat);
    lemma_performed_from(a, outcomes, k);
}

/// Answers beyond the end of the script change nothing.
proof fn lemma_performed_prefix(a: Adapter, outcomes: Seq<bool>, n: nat)
    requires
        a.wf(),
        n <= outcomes.len(),
        a.stopped() || a.position() + n >= a.total() + 2,
        forall|i: int| 0 <= i < n ==> outcomes[i],
    ensures
        performed(a, outcomes) == performed(a, outcomes.take(n as int)),
    decreases n,
{
    let t = outcomes.take(n as int);
    if a.settled() {
    } else {
        assert(n >= 1);
        let b = a.after(outcomes[0]);
        assert(t[0] == outcomes[0]);
        assert(t.drop_first() =~= outcomes.drop_first().take(n - 1));
        assert forall|i: int| 0 <= i < n - 1 implies outcomes.drop_first()[i] by {
            assert(outcomes.drop_first()[i] == outcomes[i + 1]);
        }
        lemma_performed_prefix(b, outcomes.drop_first(), (n - 1) as nat);
    }
}

/// The elements that a run asks to be written, in the order of the
/// requests, where `elements` is the container's traversal.
pub open spec fn visited<T>(elements: Seq<T>, requests: Seq<Request>) -> Seq<T>
    decreases requests.len(),
{
    if requests.len() == 0 {
        Seq::empty()
    } else {
        let before = visited(elements, requests.drop_last());
        match requests.last() {
            Request::Write { index } => if index < elements.len() {
                before.push(elements[index as int])
            } else {
                before
            },
            _ => before,
        }
    }
}

/// How many elements the first `j` requests of the script visit.
pub open spec fn visits_within(len: nat, j: nat) -> nat {
    if j == 0 {
        0
    } else if j - 1 <= len {
        (j - 1) as nat
    } else {
        len
    }
}

proof fn lemma_visited_prefix<T>(elements: Seq<T>, protocol: Protocol, j: nat)
    requires
        elements.len() <= usize::MAX,
        j <= elements.len() + 2,
    ensures
        visited(elements, script(protocol, elements.len()).take(j as int)) =~= elements.take(
            visits_within(elements.len(), j) as int,
        ),
    decreases j,
{
    if j > 0 {
        let s = script(protocol, elements.len());
        let t = s.take(j as int);
        lemma_visited_prefix(elements, protocol, (j - 1) as nat);
        assert(t.drop_last() =~= s.take(j - 1));
        assert(t.last() == s[j - 1]);
        if 2 <= j <= elements.len() + 1 {
            assert(t.last() == Request::Write { index: (j - 2) as usize });
            assert(elements.take(j - 1) =~= elements.take(j - 2).push(elements[j - 2]));
        }
    }
}

/// Where the destination accepts everything, the elements that are written
/// are the container's traversal: as many as it has, each once, in its order.
pub proof fn law_emits_every_element<T>(elements: Seq<T>, protocol: Protocol, outcomes: Seq<bool>)
    requires
        elements.len() <= usize::MAX,
        outcomes.len() >= elements.len() + 2,
        forall|i: int| 0 <= i < elements.len() + 2 ==> outcomes[i],
    ensures
        visited(elements, performed(Adapter::initial(protocol, elements.len()), outcomes))
            == elements,
{
    let n = elements.len();
    law_complete_run(protocol, n as usize, outcomes);
    lemma_visited_prefix(elements, protocol, n + 2);
    assert(script(protocol, n).take((n + 2) as int) =~= script(protocol, n));
    assert(elements.take(n as int) =~= elements);
}

/// Where the destination fails on the request at position `k` of the
/// script, no element behind the failing request is visited: the run has
/// written the first `k - 1` elements and tried the next, or none where the
/// context could not be opened.
pub proof fn law_nothing_after_failure<T>(
    elements: Seq<T>,
    protocol: Protocol,
    outcomes: Seq<bool>,
    k: nat,
)
    requires
        elements.len() <= usize::MAX,
        k < elements.len() + 2,
        k < outcomes.len(),
        forall|i: int| 0 <= i < k ==> outcomes[i],
        !outcomes[k as int],
    ensures
        visited(elements, performed(Adapter::initial(protocol, elements.len()), outcomes))
            == elements.take(visits_within(elements.len(), k + 1) as int),
{
    let n = elements.len();
    law_fail_fast(protocol, n as usize, outcomes, k);
    lemma_visited_prefix(elements, protocol, k + 1);
}

/// Where the destination accepts everything, what is written is the
/// container's content: as many elements as it holds, and each as often as
/// it holds it, whatever the order of its traversal means.
pub proof fn law_content_is_kept<T>(elements: Seq<T>, protocol: Protocol, outcomes: Seq<bool>)
    requires
        elements.len() <= usize::MAX,
        outcomes.len() >= elements.len() + 2,
        forall|i: int| 0 <= i < elements.len() + 2 ==> outcomes[i],
    ensures
        visited(elements, performed(Adapter::initial(protocol, elements.len()), outcomes)).len()
            == elements.len(),
        visited(
            elements,
            performed(Adapter::initial(protocol, elements.len()), outcomes),
        ).to_multiset() == elements.to_multiset(),
{
    law_emits_every_element(elements, protocol, outcomes);
}

/// An empty container is emitted as an empty context: it is opened with a
/// hint of zero and closed, and nothing is written between the two.
pub proof fn law_empty_run<T>(protocol: Protocol, outcomes: Seq<bool>)
    requires
        outcomes.len() >= 2,
        outcomes[0],
        outcomes[1],
    ensures
        performed(Adapter::initial(protocol, 0), outcomes) == seq![
            Request::Open { protocol, hint: 0 },
            Request::Close,
        ],
        visited(Seq::<T>::empty(), performed(Adapter::initial(protocol, 0), outcomes))
            == Seq::<T>::empty(),
{
    law_complete_run(protocol, 0, outcomes);
    law_emits_every_element(Seq::<T>::empty(), protocol, outcomes);
    assert(script(protocol, 0) =~= seq![Request::Open { protocol, hint: 0 }, Request::Close]);
}

} // verus!
