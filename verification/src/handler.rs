use vstd::prelude::*;

use crate::next_action::NextAction;
use crate::response::Response;

verus! {

/// A user-supplied handler: invoked once per response with the per-fetch
/// context, it returns the actions it wants scheduled. Implementations
/// usually resolve their extractors first and return nothing when one is
/// absent.
pub trait Handler<Ctx, Out> {
    /// The actions this handler stands for on a given response and context.
    spec fn actions_spec(&self, resp: Response, ctx: Ctx) -> Seq<NextAction<Ctx, Out>>;

    fn handle(&self, resp: &Response, ctx: &Ctx) -> (r: Vec<NextAction<Ctx, Out>>)
        ensures
            r@ == self.actions_spec(*resp, *ctx),
    ;
}

/// The dispatch layer over handlers: a uniform invocation that the fetch
/// loop calls, and a combinator that composes two layers while keeping
/// registration order.
pub trait HandlerWrapper<Ctx, Out> {
    /// The actions this layer stands for on a given response and context.
    spec fn actions_spec(&self, resp: Response, ctx: Ctx) -> Seq<NextAction<Ctx, Out>>;

    fn handle(&self, resp: &Response, ctx: &Ctx) -> (r: Vec<NextAction<Ctx, Out>>)
        ensures
            r@ == self.actions_spec(*resp, *ctx),
    ;
}

/// Two dispatch layers composed; on each response both run, and their action
/// sequences are concatenated in registration order: `first` before
/// `second`.
pub struct HandlerPair<T1, T2> {
    pub first: T1,
    pub second: T2,
}

impl<T1, T2> HandlerPair<T1, T2> {
    /// Composes an earlier-registered dispatch layer with a later one.
    pub fn pair(first: T1, second: T2) -> (r: HandlerPair<T1, T2>)
        ensures
            r.first == first,
            r.second == second,
    {
        HandlerPair { first, second }
    }
}

impl<Ctx, Out, T1, T2> HandlerWrapper<Ctx, Out> for HandlerPair<T1, T2> where
    T1: HandlerWrapper<Ctx, Out>,
    T2: HandlerWrapper<Ctx, Out>,
 {
    open spec fn actions_spec(&self, resp: Response, ctx: Ctx) -> Seq<NextAction<Ctx, Out>> {
        self.first.actions_spec(resp, ctx) + self.second.actions_spec(resp, ctx)
    }

    fn handle(&self, resp: &Response, ctx: &Ctx) -> (r: Vec<NextAction<Ctx, Out>>) {
        let mut r = self.first.handle(resp, ctx);
        let mut part = self.second.handle(resp, ctx);
        r.append(&mut part);
        r
    }
}

/// Adapts one user handler into a dispatch layer.
pub struct HandlerBox<H> {
    pub inner: H,
}

impl<H> HandlerBox<H> {
    pub fn from_handler(h: H) -> (r: HandlerBox<H>)
        ensures
            r.inner == h,
    {
        HandlerBox { inner: h }
    }
}

impl<Ctx, Out, H> HandlerWrapper<Ctx, Out> for HandlerBox<H> where H: Handler<Ctx, Out> {
    open spec fn actions_spec(&self, resp: Response, ctx: Ctx) -> Seq<NextAction<Ctx, Out>> {
        self.inner.actions_spec(resp, ctx)
    }

    fn handle(&self, resp: &Response, ctx: &Ctx) -> (r: Vec<NextAction<Ctx, Out>>) {
        self.inner.handle(resp, ctx)
    }
}

/// Handler isolation: in a composed pair, a handler that contributes nothing
/// (for instance because one of its extractors was absent) leaves the other
/// handler's actions exactly as they are, and they are still delivered.
pub proof fn lemma_handler_isolation<Ctx, Out, T1, T2>(
    p: HandlerPair<T1, T2>,
    resp: Response,
    ctx: Ctx,
) where T1: HandlerWrapper<Ctx, Out>, T2: HandlerWrapper<Ctx, Out>
    ensures
        p.first.actions_spec(resp, ctx) == Seq::<NextAction<Ctx, Out>>::empty()
            ==> p.actions_spec(resp, ctx) == p.second.actions_spec(resp, ctx),
        p.second.actions_spec(resp, ctx) == Seq::<NextAction<Ctx, Out>>::empty()
            ==> p.actions_spec(resp, ctx) == p.first.actions_spec(resp, ctx),
{
    if p.first.actions_spec(resp, ctx) == Seq::<NextAction<Ctx, Out>>::empty() {
        assert(p.actions_spec(resp, ctx) =~= p.second.actions_spec(resp, ctx));
    }
    if p.second.actions_spec(resp, ctx) == Seq::<NextAction<Ctx, Out>>::empty() {
        assert(p.actions_spec(resp, ctx) =~= p.first.actions_spec(resp, ctx));
    }
}

} // verus!
