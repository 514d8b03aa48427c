//! The routing of the protocol: which handler takes a request, and what a
//! failure is answered with.

use crate::context::{
    not_implemented, Context, Operation, OperationView, S3Handler, VisitorCons, VisitorNil,
};
use crate::domain::BackendDriver;
use crate::errors::{S3Error, S3ErrorCodeKind, S3ErrorView, S3HTTPError, S3HTTPErrorView};
use crate::handlers::bucket_create::BucketCreateHandler;
use crate::handlers::object_delete::ObjectDeleteHandler;
use crate::handlers::object_get::ObjectGetHandler;
use crate::handlers::object_list_v2::ObjectListHandlerV2;
use crate::handlers::object_put::ObjectPutHandler;
use crate::state::S3State;
use crate::storage::errors::BucketStorageError;
use vstd::prelude::*;

verus! {

/// The chain of the handlers, the one tried first in front.
pub type Handlers = VisitorCons<
    ObjectGetHandler,
    VisitorCons<
        ObjectListHandlerV2,
        VisitorCons<
            ObjectDeleteHandler,
            VisitorCons<ObjectPutHandler, VisitorCons<BucketCreateHandler, VisitorNil>>,
        >,
    >,
>;

/// The chain of the handlers.
pub open spec fn chain() -> Handlers {
    VisitorCons(
        ObjectGetHandler,
        VisitorCons(
            ObjectListHandlerV2,
            VisitorCons(
                ObjectDeleteHandler,
                VisitorCons(ObjectPutHandler, VisitorCons(BucketCreateHandler, VisitorNil)),
            ),
        ),
    )
}

/// A protocol error, told for the resource and the request of `ctx`.
pub open spec fn failed(ctx: &Context, error: S3ErrorView) -> S3HTTPErrorView {
    S3HTTPErrorView {
        ressource: ctx.path.resource_text(),
        request_id: ctx.request_id@,
        kind: error,
    }
}

/// What is asked of the storage for a request, or the failure that the
/// request is answered with.
pub open spec fn routed(ctx: &Context) -> Result<OperationView, S3HTTPErrorView> {
    match chain().asked(ctx) {
        Ok(operation) => Ok(operation),
        Err(error) => Err(failed(ctx, error)),
    }
}

/// What a request was routed to, by its view.
pub open spec fn routed_view(routed: Result<Operation, S3HTTPError>) -> Result<
    OperationView,
    S3HTTPErrorView,
> {
    match routed {
        Ok(operation) => Ok(operation@),
        Err(error) => Err(error@),
    }
}

/// The protocol's side of the application.
pub struct S3Mapping<T: BackendDriver> {
    state: S3State<T>,
}

impl<T: BackendDriver> S3Mapping<T> {
    /// The state that requests are served from.
    pub closed spec fn served(self) -> S3State<T> {
        self.state
    }

    pub fn new(state: S3State<T>) -> (mapping: Self)
        ensures
            mapping.served() == state,
    {
        Self { state }
    }

    /// The state that requests are served from.
    pub fn state(&self) -> (state: &S3State<T>)
        ensures
            *state == self.served(),
    {
        &self.state
    }

    /// The chain of the handlers.
    pub fn handlers() -> (handlers: Handlers)
        ensures
            handlers == chain(),
    {
        VisitorNil.with(BucketCreateHandler).with(ObjectPutHandler).with(ObjectDeleteHandler).with(
            ObjectListHandlerV2,
        ).with(ObjectGetHandler)
    }

    /// Routes a request: the first handler of the chain that takes it says
    /// what to ask of the storage. What it refuses the request with, or what
    /// no handler takes, is a failure told for the request.
    pub fn route(&self, ctx: &Context) -> (routed: Result<Operation, S3HTTPError>)
        ensures
            routed_view(routed) == self::routed(ctx),
    {
        match Self::handlers().handle(ctx) {
            Ok(operation) => Ok(operation),
            Err(error) => Err(
                S3HTTPError::custom(ctx.resource().as_str(), ctx.request_id(), error),
            ),
        }
    }

    /// The failure that a request is answered with when the storage failed:
    /// an internal error, told for the request.
    pub fn fail(&self, ctx: &Context, error: BucketStorageError) -> (failure: S3HTTPError)
        ensures
            failure@ == failed(ctx, S3ErrorView::plain(S3ErrorCodeKind::InternalError)),
    {
        proof {
            crate::errors::lemma_from_storage(error);
        }
        S3HTTPError::custom(ctx.resource().as_str(), ctx.request_id(), S3Error::from(error))
    }
}

/// How many of `flags` hold.
pub open spec fn count(flags: Seq<bool>) -> nat
    decreases flags.len(),
{
    if flags.len() == 0 {
        0
    } else {
        count(flags.drop_last()) + if flags.last() {
            1nat
        } else {
            0nat
        }
    }
}

/// No request is for two handlers: what the handlers take differs in the
/// method or in the shape of the path.
pub proof fn lemma_handlers_exclusive(ctx: &Context)
    ensures
        count(
            seq![
                BucketCreateHandler.matches(ctx),
                ObjectPutHandler.matches(ctx),
                ObjectDeleteHandler.matches(ctx),
                ObjectListHandlerV2.matches(ctx),
                ObjectGetHandler.matches(ctx),
            ],
        ) <= 1,
{
    let flags = seq![
        BucketCreateHandler.matches(ctx),
        ObjectPutHandler.matches(ctx),
        ObjectDeleteHandler.matches(ctx),
        ObjectListHandlerV2.matches(ctx),
        ObjectGetHandler.matches(ctx),
    ];
    reveal_with_fuel(count, 6);
    assert(flags.drop_last() =~= seq![flags[0], flags[1], flags[2], flags[3]]);
    assert(flags.drop_last().drop_last() =~= seq![flags[0], flags[1], flags[2]]);
    assert(flags.drop_last().drop_last().drop_last() =~= seq![flags[0], flags[1]]);
    assert(flags.drop_last().drop_last().drop_last().drop_last() =~= seq![flags[0]]);
}

/// The routing table. A request goes to the handler of its method and of
/// the shape of its path, a `GET` on a bucket only with `list-type=2` among
/// well-read parameters; any other request is refused as not implemented.
pub proof fn lemma_routing_table(ctx: &Context)
    ensures
        chain().matches(ctx) <==> (BucketCreateHandler.matches(ctx) || ObjectPutHandler.matches(ctx)
            || ObjectDeleteHandler.matches(ctx) || ObjectListHandlerV2.matches(ctx)
            || ObjectGetHandler.matches(ctx)),
        BucketCreateHandler.matches(ctx) ==> chain().asked(ctx) == BucketCreateHandler.asked(ctx),
        ObjectPutHandler.matches(ctx) ==> chain().asked(ctx) == ObjectPutHandler.asked(ctx),
        ObjectDeleteHandler.matches(ctx) ==> chain().asked(ctx) == ObjectDeleteHandler.asked(ctx),
        ObjectListHandlerV2.matches(ctx) ==> chain().asked(ctx) == ObjectListHandlerV2.asked(ctx),
        ObjectGetHandler.matches(ctx) ==> chain().asked(ctx) == ObjectGetHandler.asked(ctx),
        !chain().matches(ctx) ==> chain().asked(ctx) == Err::<OperationView, S3ErrorView>(
            not_implemented(),
        ),
{
}

/// The first handler of a chain that takes a request handles it: a chain
/// with `first` in front asks what `first` asks where `first` takes the
/// request, and what the rest of the chain asks where it does not.
pub proof fn lemma_first_match_wins<A: S3Handler, B: S3Handler>(first: A, rest: B, ctx: &Context)
    ensures
        first.matches(ctx) ==> VisitorCons(first, rest).asked(ctx) == first.asked(ctx),
        !first.matches(ctx) ==> VisitorCons(first, rest).asked(ctx) == rest.asked(ctx),
        VisitorCons(first, rest).matches(ctx) == (first.matches(ctx) || rest.matches(ctx)),
        !VisitorNil.matches(ctx),
{
}

} // verus!
