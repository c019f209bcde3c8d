use vstd::prelude::*;

use crate::next_action::{NextAction, NextUrl, WebsiteOutput};

verus! {

/// Capacity of the output channel that the runner drains, shared by all
/// sites of a run.
pub const OUTPUT_CHANNEL_CAPACITY: usize = 16;

/// Per-site set of URL paths already admitted for a visit, backed by a
/// sharded concurrent hash set so that many routing tasks can insert under
/// contention.
#[verifier::external_body]
pub struct DedupSet {
    inner: scc::HashSet<String>,
}

/// The set of paths the dedup set holds.
pub uninterp spec fn dedup_contents(s: DedupSet) -> Set<Seq<char>>;

impl DedupSet {
    /// Relies on scc::HashSet::default: a fresh set holds no key.
    #[verifier::external_body]
    pub(crate) fn new() -> (r: DedupSet)
        ensures
            dedup_contents(r) == Set::<Seq<char>>::empty(),
    {
        DedupSet { inner: scc::HashSet::default() }
    }

    /// Atomic test-and-insert. Relies on scc::HashSet::insert_sync: the key
    /// is added, and an error comes back exactly when the key was already
    /// present.
    #[verifier::external_body]
    pub(crate) fn insert(&mut self, key: String) -> (r: bool)
        ensures
            r == !dedup_contents(*old(self)).contains(key@),
            dedup_contents(*final(self)) == dedup_contents(*old(self)).insert(key@),
    {
        self.inner.insert_sync(key).is_ok()
    }
}

/// What the scheduler decides for one action a handler returned: deliver an
/// output record to the consumer, enqueue a URL on the frontier, or discard.
#[derive(Debug, PartialEq, Eq)]
pub enum RouteDecision<Data, Out> {
    Deliver(Out),
    Enqueue(NextUrl<Data>),
    Discard,
}

/// The per-site scheduling state: the confinement host, the parallelism
/// budget and the permits in use, the bounded frontier of URLs awaiting
/// fetch, and the dedup set of admitted paths. `admitted` records, in order,
/// the paths admitted by routing since seeding; it ties deduplication to the
/// frontier's history.
pub struct SiteState<Data> {
    pub host: String,
    pub limit: usize,
    pub in_flight: usize,
    pub frontier: Vec<NextUrl<Data>>,
    pub seen: DedupSet,
    pub admitted: Ghost<Seq<Seq<char>>>,
}

impl<Data> SiteState<Data> {
    /// The frontier holds at most four URLs per unit of parallelism.
    pub open spec fn capacity(self) -> int {
        4 * self.limit
    }

    /// The scheduling invariant: the budget is positive and small enough
    /// that the frontier capacity fits the machine, at most `limit` fetches
    /// hold permits, the frontier is within its capacity, and the paths
    /// admitted since seeding are pairwise distinct and all recorded in the
    /// dedup set.
    pub open spec fn wf(self) -> bool {
        &&& 1 <= self.limit
        &&& 4 * self.limit <= usize::MAX
        &&& self.in_flight <= self.limit
        &&& self.frontier@.len() <= self.capacity()
        &&& (forall|i: int, j: int|
            0 <= i < j < self.admitted@.len() ==> self.admitted@[i] != self.admitted@[j])
        &&& (forall|i: int|
            0 <= i < self.admitted@.len() ==> dedup_contents(self.seen).contains(
                #[trigger] self.admitted@[i],
            ))
    }

    /// A new site starts with an empty frontier, a cleared dedup set, and
    /// no fetch in flight.
    pub fn new(host: String, limit: usize) -> (r: SiteState<Data>)
        requires
            1 <= limit,
            4 * limit <= usize::MAX,
        ensures
            r.wf(),
            r.host == host,
            r.limit == limit,
            r.in_flight == 0,
            r.frontier@ == Seq::<NextUrl<Data>>::empty(),
            dedup_contents(r.seen) == Set::<Seq<char>>::empty(),
            r.admitted@ == Seq::<Seq<char>>::empty(),
    {
        SiteState {
            host,
            limit,
            in_flight: 0,
            frontier: Vec::new(),
            seen: DedupSet::new(),
            admitted: Ghost(Seq::empty()),
        }
    }

    /// The frontier capacity, as the fetch loop allocates it.
    pub fn frontier_capacity(&self) -> (r: usize)
        requires
            self.wf(),
        ensures
            r == self.capacity(),
    {
        4 * self.limit
    }

    /// Seeds one starting URL. Seeds are admitted unconditionally: they are
    /// not checked against, nor recorded in, the dedup set, which begins to
    /// apply with handler-produced URLs.
    pub fn seed(&mut self, n: NextUrl<Data>)
        requires
            old(self).wf(),
            old(self).frontier@.len() < old(self).capacity(),
        ensures
            final(self).wf(),
            final(self).frontier@ == old(self).frontier@.push(n),
            final(self).host == old(self).host,
            final(self).limit == old(self).limit,
            final(self).in_flight == old(self).in_flight,
            final(self).seen == old(self).seen,
            final(self).admitted == old(self).admitted,
    {
        self.frontier.push(n);
    }

    /// Takes the next URL off the frontier and acquires a permit for its
    /// fetch. Yields nothing while the frontier is empty or all permits are
    /// taken; the bound on concurrent fetches is never exceeded.
    pub fn begin_fetch(&mut self) -> (r: Option<NextUrl<Data>>)
        requires
            old(self).wf(),
        ensures
            final(self).wf(),
            final(self).host == old(self).host,
            final(self).limit == old(self).limit,
            final(self).seen == old(self).seen,
            final(self).admitted == old(self).admitted,
            if old(self).frontier@.len() > 0 && old(self).in_flight < old(self).limit {
                &&& r == Some(old(self).frontier@[0])
                &&& final(self).frontier@ == old(self).frontier@.skip(1)
                &&& final(self).in_flight == old(self).in_flight + 1
            } else {
                &&& r is None
                &&& final(self).frontier@ == old(self).frontier@
                &&& final(self).in_flight == old(self).in_flight
            },
    {
        if self.frontier.len() > 0 && self.in_flight < self.limit {
            let next = self.frontier.remove(0);
            self.in_flight = self.in_flight + 1;
            proof {
                assert(self.frontier@ =~= old(self).frontier@.skip(1));
            }
            Some(next)
        } else {
            None
        }
    }

    /// Releases the permit a finished (or aborted) fetch held.
    pub fn release(&mut self)
        requires
            old(self).wf(),
            old(self).in_flight >= 1,
        ensures
            final(self).wf(),
            final(self).in_flight == old(self).in_flight - 1,
            final(self).host == old(self).host,
            final(self).limit == old(self).limit,
            final(self).frontier@ == old(self).frontier@,
            final(self).seen == old(self).seen,
            final(self).admitted == old(self).admitted,
    {
        self.in_flight = self.in_flight - 1;
    }

    /// Routes one action a handler returned, deciding its effect.
    ///
    /// An output record is delivered exactly when its filter predicate
    /// passes. A proposed visit whose host differs from the host of the
    /// response that produced it is discarded silently; one whose path was
    /// already admitted is discarded by the atomic test-and-insert on the
    /// dedup set; otherwise it is to be enqueued on the frontier. Reserved
    /// actions are ignored.
    pub fn route<Out: WebsiteOutput>(
        &mut self,
        action: NextAction<Data, Out>,
        parent_host: &String,
    ) -> (d: RouteDecision<Data, Out>)
        requires
            old(self).wf(),
        ensures
            final(self).wf(),
            final(self).host == old(self).host,
            final(self).limit == old(self).limit,
            final(self).in_flight == old(self).in_flight,
            final(self).frontier@ == old(self).frontier@,
            (action matches NextAction::PipeOutput(o) ==> ({
                &&& *final(self) == *old(self)
                &&& (o.spec_should_process() ==> d == RouteDecision::<Data, Out>::Deliver(o))
                &&& (!o.spec_should_process() ==> d == RouteDecision::<Data, Out>::Discard)
            })),
            (action matches NextAction::Visit(v) ==> ({
                &&& (v.url.host@ != parent_host@ ==> {
                    &&& d == RouteDecision::<Data, Out>::Discard
                    &&& *final(self) == *old(self)
                })
                &&& (v.url.host@ == parent_host@ ==> {
                    &&& dedup_contents(final(self).seen) == dedup_contents(
                        old(self).seen,
                    ).insert(v.url.path@)
                    &&& (dedup_contents(old(self).seen).contains(v.url.path@) ==> {
                        &&& d == RouteDecision::<Data, Out>::Discard
                        &&& final(self).admitted == old(self).admitted
                    })
                    &&& (!dedup_contents(old(self).seen).contains(v.url.path@) ==> {
                        &&& d == RouteDecision::<Data, Out>::Enqueue(v)
                        &&& final(self).admitted@ == old(self).admitted@.push(v.url.path@)
                    })
                })
            })),
            (action matches NextAction::Ignore ==> ({
                &&& d == RouteDecision::<Data, Out>::Discard
                &&& *final(self) == *old(self)
            })),
    {
        match action {
            NextAction::PipeOutput(o) => {
                if o.should_process() {
                    RouteDecision::Deliver(o)
                } else {
                    RouteDecision::Discard
                }
            },
            NextAction::Visit(v) => {
                if !(v.url.host == *parent_host) {
                    return RouteDecision::Discard;
                }
                let path = v.url.path.clone();
                let fresh = self.seen.insert(path);
                if fresh {
                    proof {
                        let ghost prior = self.admitted@;
                        assert(forall|i: int|
                            0 <= i < prior.len() ==> dedup_contents(self.seen).contains(
                                #[trigger] prior[i],
                            ));
                    }
                    self.admitted = Ghost(self.admitted@.push(v.url.path@));
                    RouteDecision::Enqueue(v)
                } else {
                    RouteDecision::Discard
                }
            },
            NextAction::Ignore => RouteDecision::Discard,
        }
    }

    /// Sends an admitted URL into the frontier. The frontier is a bounded
    /// channel: the send completes only while there is room, which is the
    /// backpressure on handlers that emit many links.
    pub fn enqueue(&mut self, v: NextUrl<Data>)
        requires
            old(self).wf(),
            old(self).frontier@.len() < old(self).capacity(),
        ensures
            final(self).wf(),
            final(self).frontier@ == old(self).frontier@.push(v),
            final(self).host == old(self).host,
            final(self).limit == old(self).limit,
            final(self).in_flight == old(self).in_flight,
            final(self).seen == old(self).seen,
            final(self).admitted == old(self).admitted,
    {
        self.frontier.push(v);
    }
}

/// The output channel of a run: a bounded queue drained by the consumer.
/// Producers complete a send only while there is room; a consumer that
/// pauses therefore bounds the records buffered.
pub struct OutputChannel<Out> {
    pub buf: Vec<Out>,
    pub cap: usize,
}

impl<Out> OutputChannel<Out> {
    pub open spec fn wf(self) -> bool {
        &&& 1 <= self.cap
        &&& self.buf@.len() <= self.cap
    }

    pub fn new(cap: usize) -> (r: OutputChannel<Out>)
        requires
            1 <= cap,
        ensures
            r.wf(),
            r.cap == cap,
            r.buf@ == Seq::<Out>::empty(),
    {
        OutputChannel { buf: Vec::new(), cap }
    }

    /// A send completes only while the buffer has room.
    pub fn send(&mut self, o: Out)
        requires
            old(self).wf(),
            old(self).buf@.len() < old(self).cap,
        ensures
            final(self).wf(),
            final(self).cap == old(self).cap,
            final(self).buf@ == old(self).buf@.push(o),
    {
        self.buf.push(o);
    }

    /// The consumer takes the oldest buffered record, if any.
    pub fn recv(&mut self) -> (r: Option<Out>)
        requires
            old(self).wf(),
        ensures
            final(self).wf(),
            final(self).cap == old(self).cap,
            if old(self).buf@.len() > 0 {
                &&& r == Some(old(self).buf@[0])
                &&& final(self).buf@ == old(self).buf@.skip(1)
            } else {
                &&& r is None
                &&& final(self).buf@ == old(self).buf@
            },
    {
        if self.buf.len() > 0 {
            let first = self.buf.remove(0);
            proof {
                assert(self.buf@ =~= old(self).buf@.skip(1));
            }
            Some(first)
        } else {
            None
        }
    }
}

/// Bounded parallelism: in every well-formed site state, the fetches in
/// flight never exceed the site's parallelism budget.
pub proof fn lemma_bounded_parallelism<Data>(s: SiteState<Data>)
    requires
        s.wf(),
    ensures
        s.in_flight <= s.limit,
{
}

/// Dedup totality: any two URLs admitted to a site's frontier after seeding
/// have distinct paths.
pub proof fn lemma_dedup_total<Data>(s: SiteState<Data>, i: int, j: int)
    requires
        s.wf(),
        0 <= i < s.admitted@.len(),
        0 <= j < s.admitted@.len(),
        i != j,
    ensures
        s.admitted@[i] != s.admitted@[j],
{
}

/// Backpressure: in every well-formed state, the URLs pending in a site's
/// frontier never exceed four per unit of parallelism, and the records
/// buffered in the output channel never exceed its capacity.
pub proof fn lemma_backpressure<Data, Out>(s: SiteState<Data>, out: OutputChannel<Out>)
    requires
        s.wf(),
        out.wf(),
    ensures
        s.frontier@.len() <= 4 * s.limit,
        out.buf@.len() <= out.cap,
{
}

} // verus!
