use vstd::prelude::*;
use core::marker::PhantomData;
use std::sync::Arc;
use crate::message::{Request, Response};

verus! {

/// What a handler holds: something that turns a message into a message.
trait Transform<M>: Send + Sync {
    /// Whether `output` is something that this transform can make of `input`.
    spec fn gives(&self, input: M, output: M) -> bool;

    fn apply(&self, input: M) -> (output: M)
        ensures
            self.gives(input, output),
    ;
}

/// A function from message to message that takes every message.
#[verifier::reject_recursive_types(M)]
struct Total<M, F: Fn(M) -> M> {
    function: F,
    message: PhantomData<M>,
}

impl<M, F: Fn(M) -> M> Total<M, F> {
    #[verifier::type_invariant]
    spec fn takes_every_message(self) -> bool {
        forall|input: M| call_requires(self.function, (input,))
    }
}

impl<M: Send + Sync, F: Fn(M) -> M + Send + Sync> Transform<M> for Total<M, F> {
    spec fn gives(&self, input: M, output: M) -> bool {
        call_ensures(self.function, (input,), output)
    }

    fn apply(&self, input: M) -> (output: M) {
        proof {
            use_type_invariant(self);
        }
        (self.function)(input)
    }
}

/// One registered interceptor: a function from message to message that cannot
/// fail and cannot stop the chain.
#[verifier::reject_recursive_types(M)]
pub struct Handler<M> {
    fulfilled: Arc<Box<dyn Transform<M>>>,
}

/// Calls `Arc::clone`. Trusted: the new pointer leads to the same transform as
/// the one it was made from.
#[verifier::external_body]
fn share<M>(held: &Arc<Box<dyn Transform<M>>>) -> (shared: Arc<Box<dyn Transform<M>>>)
    ensures
        shared == *held,
{
    Arc::clone(held)
}

/// An interceptor of requests on their way out.
pub type RequestHandler = Handler<Request>;

/// An interceptor of replies on their way in.
pub type ResponseHandler = Handler<Response>;

impl<M: Send + Sync + 'static> Handler<M> {
    /// Whether `output` is something that this interceptor can make of
    /// `input`.
    pub closed spec fn yields(&self, input: M, output: M) -> bool {
        self.fulfilled.gives(input, output)
    }

    /// Wraps a function as an interceptor. The function must take every
    /// message.
    pub fn new<F: Fn(M) -> M + Send + Sync + 'static>(fulfilled: F) -> (handler: Handler<M>)
        requires
            forall|input: M| call_requires(fulfilled, (input,)),
        ensures
            forall|input: M, output: M|
                handler.yields(input, output) <==> call_ensures(fulfilled, (input,), output),
    {
        Handler {
            fulfilled: Arc::new(Box::new(Total { function: fulfilled, message: PhantomData })),
        }
    }

    /// Hands `input` to the interceptor and returns what it makes of it.
    pub fn execute(&self, input: M) -> (output: M)
        ensures
            self.yields(input, output),
    {
        self.fulfilled.apply(input)
    }
}

impl<M: Send + Sync + 'static> Clone for Handler<M> {
    /// The same interceptor once more: both hold one function.
    fn clone(&self) -> (copy: Self)
        ensures
            copy == *self,
    {
        Handler { fulfilled: share(&self.fulfilled) }
    }
}

/// A copy of a list of interceptors: the same interceptors in the same order.
fn clone_chain<M: Send + Sync + 'static>(handlers: &Vec<Handler<M>>) -> (copy: Vec<Handler<M>>)
    ensures
        copy@ == handlers@,
{
    let mut copy: Vec<Handler<M>> = Vec::new();
    let mut i: usize = 0;
    while i < handlers.len()
        invariant
            i <= handlers@.len(),
            copy@ == handlers@.take(i as int),
        decreases handlers@.len() - i,
    {
        copy.push(handlers[i].clone());
        proof {
            assert(copy@ =~= handlers@.take(i as int + 1));
        }
        i = i + 1;
    }
    proof {
        assert(copy@ =~= handlers@);
    }
    copy
}

/// Whether `output` can come of `input` when it goes through `handlers` one
/// after the other, from the first to the last, each taking what the one before
/// it made.
pub open spec fn chain_yields<M: Send + Sync + 'static>(
    handlers: Seq<Handler<M>>,
    input: M,
    output: M,
) -> bool
    decreases handlers.len(),
{
    if handlers.len() == 0 {
        output == input
    } else {
        exists|middle: M|
            chain_yields(handlers.drop_last(), input, middle) && #[trigger] handlers.last().yields(
                middle,
                output,
            )
    }
}

/// Hands `input` through `handlers` in order, skipping none.
pub fn run_chain<M: Send + Sync + 'static>(handlers: &Vec<Handler<M>>, input: M) -> (output: M)
    ensures
        chain_yields(handlers@, input, output),
{
    let mut current = input;
    let mut i: usize = 0;
    proof {
        assert(handlers@.take(0) =~= Seq::<Handler<M>>::empty());
    }
    while i < handlers.len()
        invariant
            i <= handlers@.len(),
            chain_yields(handlers@.take(i as int), input, current),
        decreases handlers@.len() - i,
    {
        let ghost before = current;
        current = handlers[i].execute(current);
        proof {
            let done = handlers@.take(i as int + 1);
            assert(done.drop_last() =~= handlers@.take(i as int));
            assert(done.last() == handlers@[i as int]);
            assert(chain_yields(done.drop_last(), input, before) && done.last().yields(
                before,
                current,
            ));
        }
        i = i + 1;
    }
    proof {
        assert(handlers@.take(i as int) =~= handlers@);
    }
    current
}

/// The interceptors of one client: those for requests and those for replies,
/// each list in the order of registration.
pub struct InterceptorManager {
    pub request_handlers: Vec<RequestHandler>,
    pub response_handlers: Vec<ResponseHandler>,
}

impl InterceptorManager {
    /// Creates a manager without interceptors.
    pub fn new() -> (manager: InterceptorManager)
        ensures
            manager.request_handlers@.len() == 0,
            manager.response_handlers@.len() == 0,
    {
        InterceptorManager { request_handlers: Vec::new(), response_handlers: Vec::new() }
    }

    /// Registers an interceptor of requests, behind those registered before.
    /// Registering a function twice makes it run twice.
    pub fn request<F: Fn(Request) -> Request + Send + Sync + 'static>(&mut self, fulfilled: F)
        requires
            forall|input: Request| call_requires(fulfilled, (input,)),
        ensures
            final(self).request_handlers@.len() == old(self).request_handlers@.len() + 1,
            final(self).request_handlers@.drop_last() == old(self).request_handlers@,
            forall|input: Request, output: Request|
                final(self).request_handlers@.last().yields(input, output) <==> call_ensures(
                    fulfilled,
                    (input,),
                    output,
                ),
            final(self).response_handlers@ == old(self).response_handlers@,
    {
        let handler = Handler::new(fulfilled);
        self.request_handlers.push(handler);
        proof {
            assert(self.request_handlers@.drop_last() =~= old(self).request_handlers@);
        }
    }

    /// Registers an interceptor of replies, behind those registered before.
    /// Registering a function twice makes it run twice.
    pub fn response<F: Fn(Response) -> Response + Send + Sync + 'static>(&mut self, fulfilled: F)
        requires
            forall|input: Response| call_requires(fulfilled, (input,)),
        ensures
            final(self).response_handlers@.len() == old(self).response_handlers@.len() + 1,
            final(self).response_handlers@.drop_last() == old(self).response_handlers@,
            forall|input: Response, output: Response|
                final(self).response_handlers@.last().yields(input, output) <==> call_ensures(
                    fulfilled,
                    (input,),
                    output,
                ),
            final(self).request_handlers@ == old(self).request_handlers@,
    {
        let handler = Handler::new(fulfilled);
        self.response_handlers.push(handler);
        proof {
            assert(self.response_handlers@.drop_last() =~= old(self).response_handlers@);
        }
    }

    /// Hands a request through every interceptor of requests, in the order of
    /// registration.
    pub fn apply_request(&self, req: Request) -> (out: Request)
        ensures
            chain_yields(self.request_handlers@, req, out),
    {
        run_chain(&self.request_handlers, req)
    }

    /// Hands a reply through every interceptor of replies, in the order of
    /// registration.
    pub fn apply_response(&self, res: Response) -> (out: Response)
        ensures
            chain_yields(self.response_handlers@, res, out),
    {
        run_chain(&self.response_handlers, res)
    }
}

impl Clone for InterceptorManager {
    /// A manager with the interceptors that this one has now, in the same
    /// order. The two share the functions and nothing else: what is registered
    /// with one of them afterwards is unknown to the other.
    fn clone(&self) -> (copy: Self)
        ensures
            copy.request_handlers@ == self.request_handlers@,
            copy.response_handlers@ == self.response_handlers@,
    {
        InterceptorManager {
            request_handlers: clone_chain(&self.request_handlers),
            response_handlers: clone_chain(&self.response_handlers),
        }
    }
}

impl Default for InterceptorManager {
    fn default() -> (manager: Self)
        ensures
            manager.request_handlers@.len() == 0,
            manager.response_handlers@.len() == 0,
    {
        InterceptorManager::new()
    }
}

/// Without interceptors a message comes out as it went in.
pub proof fn lemma_chain_of_none<M: Send + Sync + 'static>(input: M, output: M)
    ensures
        chain_yields(Seq::<Handler<M>>::empty(), input, output) <==> output == input,
{
}

/// An interceptor registered behind others takes what they made: it runs last.
pub proof fn lemma_chain_push<M: Send + Sync + 'static>(
    handlers: Seq<Handler<M>>,
    last: Handler<M>,
    input: M,
    output: M,
)
    ensures
        chain_yields(handlers.push(last), input, output) <==> exists|middle: M|
            chain_yields(handlers, input, middle) && #[trigger] last.yields(middle, output),
{
    let all = handlers.push(last);
    assert(all.drop_last() =~= handlers);
    assert(all.last() == last);
    if chain_yields(all, input, output) {
        let middle = choose|middle: M|
            chain_yields(all.drop_last(), input, middle) && #[trigger] all.last().yields(
                middle,
                output,
            );
        assert(chain_yields(handlers, input, middle) && last.yields(middle, output));
    }
    if exists|middle: M| chain_yields(handlers, input, middle) && #[trigger] last.yields(
        middle,
        output,
    ) {
        let middle = choose|middle: M|
            chain_yields(handlers, input, middle) && #[trigger] last.yields(middle, output);
        assert(chain_yields(all.drop_last(), input, middle) && all.last().yields(middle, output));
    }
}

/// Of two interceptors the one registered first runs first: the second takes
/// what the first made, never the other way round.
pub proof fn lemma_chain_of_two<M: Send + Sync + 'static>(
    first: Handler<M>,
    second: Handler<M>,
    input: M,
    output: M,
)
    ensures
        chain_yields(seq![first, second], input, output) <==> exists|middle: M|
            first.yields(input, middle) && #[trigger] second.yields(middle, output),
{
    let one = Seq::<Handler<M>>::empty().push(first);
    assert(seq![first, second] =~= one.push(second));
    lemma_chain_push(one, second, input, output);
    assert forall|middle: M| chain_yields(one, input, middle) <==> first.yields(
        input,
        middle,
    ) by {
        lemma_chain_push(Seq::<Handler<M>>::empty(), first, input, middle);
        if first.yields(input, middle) {
            assert(chain_yields(Seq::<Handler<M>>::empty(), input, input));
        }
    }
    if chain_yields(seq![first, second], input, output) {
        let middle = choose|middle: M|
            chain_yields(one, input, middle) && #[trigger] second.yields(middle, output);
        assert(first.yields(input, middle) && second.yields(middle, output));
    }
    if exists|middle: M| first.yields(input, middle) && #[trigger] second.yields(middle, output) {
        let middle = choose|middle: M|
            first.yields(input, middle) && #[trigger] second.yields(middle, output);
        assert(chain_yields(one, input, middle) && second.yields(middle, output));
    }
}

/// Running one list of interceptors and then another is running the two lists
/// joined: the second list starts from what the first one made.
pub proof fn lemma_chain_concat<M: Send + Sync + 'static>(
    first: Seq<Handler<M>>,
    second: Seq<Handler<M>>,
    input: M,
    output: M,
)
    ensures
        chain_yields(first + second, input, output) <==> exists|middle: M|
            chain_yields(first, input, middle) && #[trigger] chain_yields(second, middle, output),
    decreases second.len(),
{
    if second.len() == 0 {
        assert(first + second =~= first);
        if chain_yields(first, input, output) {
            assert(chain_yields(first, input, output) && chain_yields(second, output, output));
        }
    } else {
        let all = first + second;
        let front = second.drop_last();
        let last = second.last();
        assert(all =~= (first + front).push(last));
        assert(second =~= front.push(last));
        lemma_chain_push(first + front, last, input, output);
        if chain_yields(all, input, output) {
            let late = choose|late: M|
                chain_yields(first + front, input, late) && #[trigger] last.yields(late, output);
            lemma_chain_concat(first, front, input, late);
            let middle = choose|middle: M|
                chain_yields(first, input, middle) && #[trigger] chain_yields(front, middle, late);
            lemma_chain_push(front, last, middle, output);
            assert(chain_yields(front, middle, late) && last.yields(late, output));
            assert(chain_yields(first, input, middle) && chain_yields(second, middle, output));
        }
        if exists|middle: M|
            chain_yields(first, input, middle) && #[trigger] chain_yields(second, middle, output) {
            let middle = choose|middle: M|
                chain_yields(first, input, middle) && #[trigger] chain_yields(
                    second,
                    middle,
                    output,
                );
            lemma_chain_push(front, last, middle, output);
            let late = choose|late: M|
                chain_yields(front, middle, late) && #[trigger] last.yields(late, output);
            lemma_chain_concat(first, front, input, late);
            assert(chain_yields(first, input, middle) && chain_yields(front, middle, late));
            assert(chain_yields(first + front, input, late) && last.yields(late, output));
        }
    }
}

} // verus!
