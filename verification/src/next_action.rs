use vstd::prelude::*;

use crate::crawl_url::CrawlUrl;

verus! {

/// Capability of a site's output records: a boolean predicate that filters
/// empty or degenerate records before they leave the site.
pub trait WebsiteOutput {
    /// What the record's filter predicate decides.
    spec fn spec_should_process(&self) -> bool;

    /// Whether this record should be streamed to the consumer. An
    /// implementation must decide exactly as its specification says.
    fn should_process(&self) -> (r: bool)
        ensures
            r == self.spec_should_process(),
    ;
}

/// One unit of the frontier: a URL to visit together with the context value
/// threaded alongside it.
#[derive(Debug, PartialEq, Eq)]
pub struct NextUrl<Data> {
    pub url: CrawlUrl,
    pub data: Data,
}

impl<Data> NextUrl<Data> {
    pub fn new(url: CrawlUrl, data: Data) -> (r: Self)
        ensures
            r.url == url,
            r.data == data,
    {
        NextUrl { url, data }
    }
}

/// One unit of work a handler schedules: stream a record to the consumer, or
/// propose a URL to visit. Further variants are reserved; the scheduler
/// ignores them.
#[derive(Debug, PartialEq, Eq)]
pub enum NextAction<Data, Out> {
    /// Stream this record to the consumer, subject to its filter predicate.
    PipeOutput(Out),
    /// Propose this URL to the scheduler, subject to host confinement and
    /// deduplication.
    Visit(NextUrl<Data>),
    /// Reserved for future use; routed as "ignore".
    Ignore,
}

/// Conversion of a handler's return value into the uniform action sequence.
/// Each implementation is a total function; a sequence or tuple of
/// convertible values converts to the concatenation of its parts, in order.
pub trait IntoNextActionVec<Data, Out> where Out: WebsiteOutput, Self: Sized {
    /// The action sequence this value stands for.
    spec fn spec_next_actions(self) -> Seq<NextAction<Data, Out>>;

    fn into_next_action_vec(self) -> (r: Vec<NextAction<Data, Out>>)
        ensures
            r@ == self.spec_next_actions(),
    ;
}

impl<Data, Out> IntoNextActionVec<Data, Out> for NextUrl<Data> where Out: WebsiteOutput {
    open spec fn spec_next_actions(self) -> Seq<NextAction<Data, Out>> {
        seq![NextAction::Visit(self)]
    }

    fn into_next_action_vec(self) -> (r: Vec<NextAction<Data, Out>>) {
        let mut r: Vec<NextAction<Data, Out>> = Vec::new();
        r.push(NextAction::Visit(self));
        r
    }
}

/// A bare URL converts to a visit that carries the default context, which for
/// context-free sites is the unit value.
impl<Out> IntoNextActionVec<(), Out> for CrawlUrl where Out: WebsiteOutput {
    open spec fn spec_next_actions(self) -> Seq<NextAction<(), Out>> {
        seq![NextAction::Visit(NextUrl { url: self, data: () })]
    }

    fn into_next_action_vec(self) -> (r: Vec<NextAction<(), Out>>) {
        let mut r: Vec<NextAction<(), Out>> = Vec::new();
        r.push(NextAction::Visit(NextUrl { url: self, data: () }));
        r
    }
}

/// An output record converts to a single emission when it passes its filter
/// predicate, and to nothing otherwise.
impl<Data, Out> IntoNextActionVec<Data, Out> for Out where Out: WebsiteOutput {
    open spec fn spec_next_actions(self) -> Seq<NextAction<Data, Out>> {
        if self.spec_should_process() {
            seq![NextAction::PipeOutput(self)]
        } else {
            Seq::empty()
        }
    }

    fn into_next_action_vec(self) -> (r: Vec<NextAction<Data, Out>>) {
        let mut r: Vec<NextAction<Data, Out>> = Vec::new();
        if self.should_process() {
            r.push(NextAction::PipeOutput(self));
        }
        r
    }
}

impl<Data, Out> IntoNextActionVec<Data, Out> for Option<Out> where Out: WebsiteOutput {
    open spec fn spec_next_actions(self) -> Seq<NextAction<Data, Out>> {
        match self {
            Some(out) => {
                if out.spec_should_process() {
                    seq![NextAction::PipeOutput(out)]
                } else {
                    Seq::empty()
                }
            },
            None => Seq::empty(),
        }
    }

    fn into_next_action_vec(self) -> (r: Vec<NextAction<Data, Out>>) {
        let mut r: Vec<NextAction<Data, Out>> = Vec::new();
        match self {
            Some(out) => {
                if out.should_process() {
                    r.push(NextAction::PipeOutput(out));
                }
            },
            None => {},
        }
        r
    }
}

/// The concatenation, in order, of the action sequences that the items of
/// `items` stand for.
pub open spec fn concat_actions<Data, Out, T>(items: Seq<T>) -> Seq<NextAction<Data, Out>>
    where Out: WebsiteOutput, T: IntoNextActionVec<Data, Out>
    decreases items.len(),
{
    if items.len() == 0 {
        Seq::empty()
    } else {
        items[0].spec_next_actions() + concat_actions(items.skip(1))
    }
}

impl<Data, Out, T> IntoNextActionVec<Data, Out> for Vec<T>
    where Out: WebsiteOutput, T: IntoNextActionVec<Data, Out>
{
    open spec fn spec_next_actions(self) -> Seq<NextAction<Data, Out>> {
        concat_actions(self@)
    }

    fn into_next_action_vec(self) -> (r: Vec<NextAction<Data, Out>>) {
        let ghost whole: Seq<T> = self@;
        let mut items = self;
        let mut r: Vec<NextAction<Data, Out>> = Vec::new();
        while items.len() > 0
            invariant
                r@ + concat_actions(items@) == concat_actions::<Data, Out, T>(whole),
            decreases items@.len(),
        {
            let ghost before: Seq<T> = items@;
            let first = items.remove(0);
            proof {
                assert(items@ =~= before.skip(1));
            }
            let mut part = first.into_next_action_vec();
            r.append(&mut part);
        }
        proof {
            assert(r@ =~= r@ + concat_actions::<Data, Out, T>(items@));
        }
        r
    }
}

impl<Data, Out, T1> IntoNextActionVec<Data, Out> for (T1,)
    where Out: WebsiteOutput, T1: IntoNextActionVec<Data, Out>
{
    open spec fn spec_next_actions(self) -> Seq<NextAction<Data, Out>> {
        self.0.spec_next_actions()
    }

    fn into_next_action_vec(self) -> (r: Vec<NextAction<Data, Out>>) {
        let (t1,) = self;
        t1.into_next_action_vec()
    }
}

impl<Data, Out, T1, T2> IntoNextActionVec<Data, Out> for (T1, T2)
    where
        Out: WebsiteOutput,
        T1: IntoNextActionVec<Data, Out>,
        T2: IntoNextActionVec<Data, Out>,
{
    open spec fn spec_next_actions(self) -> Seq<NextAction<Data, Out>> {
        self.0.spec_next_actions() + self.1.spec_next_actions()
    }

    fn into_next_action_vec(self) -> (r: Vec<NextAction<Data, Out>>) {
        let (t1, t2) = self;
        let mut r = t1.into_next_action_vec();
        let mut part = t2.into_next_action_vec();
        r.append(&mut part);
        r
    }
}

impl<Data, Out, T1, T2, T3> IntoNextActionVec<Data, Out> for (T1, T2, T3)
    where
        Out: WebsiteOutput,
        T1: IntoNextActionVec<Data, Out>,
        T2: IntoNextActionVec<Data, Out>,
        T3: IntoNextActionVec<Data, Out>,
{
    open spec fn spec_next_actions(self) -> Seq<NextAction<Data, Out>> {
        self.0.spec_next_actions() + self.1.spec_next_actions() + self.2.spec_next_actions()
    }

    fn into_next_action_vec(self) -> (r: Vec<NextAction<Data, Out>>) {
        let (t1, t2, t3) = self;
        let mut r = t1.into_next_action_vec();
        let mut part2 = t2.into_next_action_vec();
        r.append(&mut part2);
        let mut part3 = t3.into_next_action_vec();
        r.append(&mut part3);
        r
    }
}

impl<Data, Out, T1, T2, T3, T4> IntoNextActionVec<Data, Out> for (T1, T2, T3, T4)
    where
        Out: WebsiteOutput,
        T1: IntoNextActionVec<Data, Out>,
        T2: IntoNextActionVec<Data, Out>,
        T3: IntoNextActionVec<Data, Out>,
        T4: IntoNextActionVec<Data, Out>,
{
    open spec fn spec_next_actions(self) -> Seq<NextAction<Data, Out>> {
        self.0.spec_next_actions() + self.1.spec_next_actions() + self.2.spec_next_actions()
            + self.3.spec_next_actions()
    }

    fn into_next_action_vec(self) -> (r: Vec<NextAction<Data, Out>>) {
        let (t1, t2, t3, t4) = self;
        let mut r = t1.into_next_action_vec();
        let mut part2 = t2.into_next_action_vec();
        r.append(&mut part2);
        let mut part3 = t3.into_next_action_vec();
        r.append(&mut part3);
        let mut part4 = t4.into_next_action_vec();
        r.append(&mut part4);
        r
    }
}

} // verus!
