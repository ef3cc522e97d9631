//! The catalog service: its methods, its client stub and its server.

use vstd::prelude::*;
use vstd::pervasive::unreached;
use crate::call::{opens, CallOption, Channel, Client, ClientCall, Wait};
use crate::dispatch::{CallModel, HandlerInput, ServerCall, ServerConfig, Step};
use crate::envelope::Envelope;
use crate::error::RpcError;
use crate::registry::{Entry, Handler, ServiceBuilder, Table};
use crate::service::{answered_once, single, Dispatcher, Response, Responses, RpcContext};
use crate::shape::{wire_identifier, CallSignature, MethodDescriptor, Shape};

verus! {

/// The wire identifier of `Search`.
pub const METHOD_STAC_SERVICE_SEARCH: &'static str =
    "/epl.protobuf.StacService/Search";

/// The wire identifier of `Insert`.
pub const METHOD_STAC_SERVICE_INSERT: &'static str =
    "/epl.protobuf.StacService/Insert";

/// The wire identifier of `Update`.
pub const METHOD_STAC_SERVICE_UPDATE: &'static str =
    "/epl.protobuf.StacService/Update";

/// The wire identifier of `Count`.
pub const METHOD_STAC_SERVICE_COUNT: &'static str =
    "/epl.protobuf.StacService/Count";

/// The wire identifier of `DeleteOne`.
pub const METHOD_STAC_SERVICE_DELETE_ONE: &'static str =
    "/epl.protobuf.StacService/DeleteOne";

/// The wire identifier of `SearchOne`.
pub const METHOD_STAC_SERVICE_SEARCH_ONE: &'static str =
    "/epl.protobuf.StacService/SearchOne";

/// The wire identifier of `InsertOne`.
pub const METHOD_STAC_SERVICE_INSERT_ONE: &'static str =
    "/epl.protobuf.StacService/InsertOne";

/// The wire identifier of `UpdateOne`.
pub const METHOD_STAC_SERVICE_UPDATE_ONE: &'static str =
    "/epl.protobuf.StacService/UpdateOne";

/// The namespace of the service on the wire.
pub const STAC_SERVICE_NAMESPACE: &'static str = "epl.protobuf";

/// The name of the service on the wire.
pub const STAC_SERVICE_NAME: &'static str = "StacService";

/// Each method of the service is named by the wire identifier that its
/// namespace, the service and the method make up.
pub proof fn lemma_stac_wire_identifiers()
    ensures
        METHOD_STAC_SERVICE_SEARCH@ == wire_identifier(
            STAC_SERVICE_NAMESPACE@,
            STAC_SERVICE_NAME@,
            "Search"@,
        ),
        METHOD_STAC_SERVICE_INSERT@ == wire_identifier(
            STAC_SERVICE_NAMESPACE@,
            STAC_SERVICE_NAME@,
            "Insert"@,
        ),
        METHOD_STAC_SERVICE_UPDATE@ == wire_identifier(
            STAC_SERVICE_NAMESPACE@,
            STAC_SERVICE_NAME@,
            "Update"@,
        ),
        METHOD_STAC_SERVICE_COUNT@ == wire_identifier(
            STAC_SERVICE_NAMESPACE@,
            STAC_SERVICE_NAME@,
            "Count"@,
        ),
        METHOD_STAC_SERVICE_DELETE_ONE@ == wire_identifier(
            STAC_SERVICE_NAMESPACE@,
            STAC_SERVICE_NAME@,
            "DeleteOne"@,
        ),
        METHOD_STAC_SERVICE_SEARCH_ONE@ == wire_identifier(
            STAC_SERVICE_NAMESPACE@,
            STAC_SERVICE_NAME@,
            "SearchOne"@,
        ),
        METHOD_STAC_SERVICE_INSERT_ONE@ == wire_identifier(
            STAC_SERVICE_NAMESPACE@,
            STAC_SERVICE_NAME@,
            "InsertOne"@,
        ),
        METHOD_STAC_SERVICE_UPDATE_ONE@ == wire_identifier(
            STAC_SERVICE_NAMESPACE@,
            STAC_SERVICE_NAME@,
            "UpdateOne"@,
        ),
{
    reveal_strlit("epl.protobuf");
    reveal_strlit("StacService");
    reveal_strlit("Search");
    reveal_strlit("/epl.protobuf.StacService/Search");
    assert(METHOD_STAC_SERVICE_SEARCH@ =~= wire_identifier(
        STAC_SERVICE_NAMESPACE@,
        STAC_SERVICE_NAME@,
        "Search"@,
    ));
    reveal_strlit("Insert");
    reveal_strlit("/epl.protobuf.StacService/Insert");
    assert(METHOD_STAC_SERVICE_INSERT@ =~= wire_identifier(
        STAC_SERVICE_NAMESPACE@,
        STAC_SERVICE_NAME@,
        "Insert"@,
    ));
    reveal_strlit("Update");
    reveal_strlit("/epl.protobuf.StacService/Update");
    assert(METHOD_STAC_SERVICE_UPDATE@ =~= wire_identifier(
        STAC_SERVICE_NAMESPACE@,
        STAC_SERVICE_NAME@,
        "Update"@,
    ));
    reveal_strlit("Count");
    reveal_strlit("/epl.protobuf.StacService/Count");
    assert(METHOD_STAC_SERVICE_COUNT@ =~= wire_identifier(
        STAC_SERVICE_NAMESPACE@,
        STAC_SERVICE_NAME@,
        "Count"@,
    ));
    reveal_strlit("DeleteOne");
    reveal_strlit("/epl.protobuf.StacService/DeleteOne");
    assert(METHOD_STAC_SERVICE_DELETE_ONE@ =~= wire_identifier(
        STAC_SERVICE_NAMESPACE@,
        STAC_SERVICE_NAME@,
        "DeleteOne"@,
    ));
    reveal_strlit("SearchOne");
    reveal_strlit("/epl.protobuf.StacService/SearchOne");
    assert(METHOD_STAC_SERVICE_SEARCH_ONE@ =~= wire_identifier(
        STAC_SERVICE_NAMESPACE@,
        STAC_SERVICE_NAME@,
        "SearchOne"@,
    ));
    reveal_strlit("InsertOne");
    reveal_strlit("/epl.protobuf.StacService/InsertOne");
    assert(METHOD_STAC_SERVICE_INSERT_ONE@ =~= wire_identifier(
        STAC_SERVICE_NAMESPACE@,
        STAC_SERVICE_NAME@,
        "InsertOne"@,
    ));
    reveal_strlit("UpdateOne");
    reveal_strlit("/epl.protobuf.StacService/UpdateOne");
    assert(METHOD_STAC_SERVICE_UPDATE_ONE@ =~= wire_identifier(
        STAC_SERVICE_NAMESPACE@,
        STAC_SERVICE_NAME@,
        "UpdateOne"@,
    ));
}

/// The client stub of the catalog service.
#[derive(Clone, Debug)]
pub struct StacServiceClient {
    client: Client,
}

impl View for StacServiceClient {
    type V = Channel;

    closed spec fn view(&self) -> Channel {
        self.client.channel
    }
}

impl StacServiceClient {
    /// A stub that calls the catalog service over `channel`.
    pub fn new(channel: Channel) -> (r: Self)
        ensures
            r@ == channel,
    {
        StacServiceClient { client: Client::new(channel) }
    }

    /// The channel the stub calls over.
    pub fn channel(&self) -> (r: &Channel)
        ensures
            *r == self@,
    {
        &self.client.channel
    }

    /// Opens a call of `Search`: one catalog request, a stream of items. The
    /// responses arrive as a stream.
    pub fn search_opt(&self, req: &[u8], opt: CallOption) -> (r: ClientCall)
        ensures
            opens(
                r,
                METHOD_STAC_SERVICE_SEARCH@,
                Shape::ServerStream,
                Some(req@),
                opt,
                Wait::Suspend,
            ),
    {
        let method = MethodDescriptor::new(
            METHOD_STAC_SERVICE_SEARCH,
            Shape::ServerStream,
        );
        match self.client.server_streaming(&method, req, opt) {
            Ok(call) => call,
            Err(_) => unreached(),
        }
    }

    /// As `search_opt`, with nothing configured.
    pub fn search(&self, req: &[u8]) -> (r: ClientCall)
        ensures
            r.options.is_default(),
            opens(
                r,
                METHOD_STAC_SERVICE_SEARCH@,
                Shape::ServerStream,
                Some(req@),
                r.options,
                Wait::Suspend,
            ),
    {
        self.search_opt(req, CallOption::default())
    }

    /// Opens a call of `Insert`: a stream of items to insert, a stream of
    /// results.
    pub fn insert_opt(&self, opt: CallOption) -> (r: ClientCall)
        ensures
            opens(
                r,
                METHOD_STAC_SERVICE_INSERT@,
                Shape::Duplex,
                None,
                opt,
                Wait::Suspend,
            ),
    {
        let method = MethodDescriptor::new(
            METHOD_STAC_SERVICE_INSERT,
            Shape::Duplex,
        );
        match self.client.duplex_streaming(&method, opt) {
            Ok(call) => call,
            Err(_) => unreached(),
        }
    }

    /// As `insert_opt`, with nothing configured.
    pub fn insert(&self) -> (r: ClientCall)
        ensures
            r.options.is_default(),
            opens(
                r,
                METHOD_STAC_SERVICE_INSERT@,
                Shape::Duplex,
                None,
                r.options,
                Wait::Suspend,
            ),
    {
        self.insert_opt(CallOption::default())
    }

    /// Opens a call of `Update`: a stream of items to update, a stream of
    /// results.
    pub fn update_opt(&self, opt: CallOption) -> (r: ClientCall)
        ensures
            opens(
                r,
                METHOD_STAC_SERVICE_UPDATE@,
                Shape::Duplex,
                None,
                opt,
                Wait::Suspend,
            ),
    {
        let method = MethodDescriptor::new(
            METHOD_STAC_SERVICE_UPDATE,
            Shape::Duplex,
        );
        match self.client.duplex_streaming(&method, opt) {
            Ok(call) => call,
            Err(_) => unreached(),
        }
    }

    /// As `update_opt`, with nothing configured.
    pub fn update(&self) -> (r: ClientCall)
        ensures
            r.options.is_default(),
            opens(
                r,
                METHOD_STAC_SERVICE_UPDATE@,
                Shape::Duplex,
                None,
                r.options,
                Wait::Suspend,
            ),
    {
        self.update_opt(CallOption::default())
    }

    /// Opens a call of `Count`: one catalog request, one result. The caller
    /// blocks until the response is there.
    pub fn count_opt(&self, req: &[u8], opt: CallOption) -> (r: ClientCall)
        ensures
            opens(
                r,
                METHOD_STAC_SERVICE_COUNT@,
                Shape::Unary,
                Some(req@),
                opt,
                Wait::Block,
            ),
    {
        let method = MethodDescriptor::new(
            METHOD_STAC_SERVICE_COUNT,
            Shape::Unary,
        );
        match self.client.unary_call(&method, req, opt) {
            Ok(call) => call,
            Err(_) => unreached(),
        }
    }

    /// As `count_opt`, with nothing configured.
    pub fn count(&self, req: &[u8]) -> (r: ClientCall)
        ensures
            r.options.is_default(),
            opens(
                r,
                METHOD_STAC_SERVICE_COUNT@,
                Shape::Unary,
                Some(req@),
                r.options,
                Wait::Block,
            ),
    {
        self.count_opt(req, CallOption::default())
    }

    /// Opens a call of `Count`: one catalog request, one result. The caller
    /// picks the response up later.
    pub fn count_async_opt(&self, req: &[u8], opt: CallOption) -> (r: ClientCall)
        ensures
            opens(
                r,
                METHOD_STAC_SERVICE_COUNT@,
                Shape::Unary,
                Some(req@),
                opt,
                Wait::Suspend,
            ),
    {
        let method = MethodDescriptor::new(
            METHOD_STAC_SERVICE_COUNT,
            Shape::Unary,
        );
        match self.client.unary_call_async(&method, req, opt) {
            Ok(call) => call,
            Err(_) => unreached(),
        }
    }

    /// As `count_async_opt`, with nothing configured.
    pub fn count_async(&self, req: &[u8]) -> (r: ClientCall)
        ensures
            r.options.is_default(),
            opens(
                r,
                METHOD_STAC_SERVICE_COUNT@,
                Shape::Unary,
                Some(req@),
                r.options,
                Wait::Suspend,
            ),
    {
        self.count_async_opt(req, CallOption::default())
    }

    /// Opens a call of `DeleteOne`: one item to delete, one result. The caller
    /// blocks until the response is there.
    pub fn delete_one_opt(&self, req: &[u8], opt: CallOption) -> (r: ClientCall)
        ensures
            opens(
                r,
                METHOD_STAC_SERVICE_DELETE_ONE@,
                Shape::Unary,
                Some(req@),
                opt,
                Wait::Block,
            ),
    {
        let method = MethodDescriptor::new(
            METHOD_STAC_SERVICE_DELETE_ONE,
            Shape::Unary,
        );
        match self.client.unary_call(&method, req, opt) {
            Ok(call) => call,
            Err(_) => unreached(),
        }
    }

    /// As `delete_one_opt`, with nothing configured.
    pub fn delete_one(&self, req: &[u8]) -> (r: ClientCall)
        ensures
            r.options.is_default(),
            opens(
                r,
                METHOD_STAC_SERVICE_DELETE_ONE@,
                Shape::Unary,
                Some(req@),
                r.options,
                Wait::Block,
            ),
    {
        self.delete_one_opt(req, CallOption::default())
    }

    /// Opens a call of `DeleteOne`: one item to delete, one result. The caller
    /// picks the response up later.
    pub fn delete_one_async_opt(&self, req: &[u8], opt: CallOption) -> (r: ClientCall)
        ensures
            opens(
                r,
                METHOD_STAC_SERVICE_DELETE_ONE@,
                Shape::Unary,
                Some(req@),
                opt,
                Wait::Suspend,
            ),
    {
        let method = MethodDescriptor::new(
            METHOD_STAC_SERVICE_DELETE_ONE,
            Shape::Unary,
        );
        match self.client.unary_call_async(&method, req, opt) {
            Ok(call) => call,
            Err(_) => unreached(),
        }
    }

    /// As `delete_one_async_opt`, with nothing configured.
    pub fn delete_one_async(&self, req: &[u8]) -> (r: ClientCall)
        ensures
            r.options.is_default(),
            opens(
                r,
                METHOD_STAC_SERVICE_DELETE_ONE@,
                Shape::Unary,
                Some(req@),
                r.options,
                Wait::Suspend,
            ),
    {
        self.delete_one_async_opt(req, CallOption::default())
    }

    /// Opens a call of `SearchOne`: one catalog request, one item. The caller
    /// blocks until the response is there.
    pub fn search_one_opt(&self, req: &[u8], opt: CallOption) -> (r: ClientCall)
        ensures
            opens(
                r,
                METHOD_STAC_SERVICE_SEARCH_ONE@,
                Shape::Unary,
                Some(req@),
                opt,
                Wait::Block,
            ),
    {
        let method = MethodDescriptor::new(
            METHOD_STAC_SERVICE_SEARCH_ONE,
            Shape::Unary,
        );
        match self.client.unary_call(&method, req, opt) {
            Ok(call) => call,
            Err(_) => unreached(),
        }
    }

    /// As `search_one_opt`, with nothing configured.
    pub fn search_one(&self, req: &[u8]) -> (r: ClientCall)
        ensures
            r.options.is_default(),
            opens(
                r,
                METHOD_STAC_SERVICE_SEARCH_ONE@,
                Shape::Unary,
                Some(req@),
                r.options,
                Wait::Block,
            ),
    {
        self.search_one_opt(req, CallOption::default())
    }

    /// Opens a call of `SearchOne`: one catalog request, one item. The caller
    /// picks the response up later.
    pub fn search_one_async_opt(&self, req: &[u8], opt: CallOption) -> (r: ClientCall)
        ensures
            opens(
                r,
                METHOD_STAC_SERVICE_SEARCH_ONE@,
                Shape::Unary,
                Some(req@),
                opt,
                Wait::Suspend,
            ),
    {
        let method = MethodDescriptor::new(
            METHOD_STAC_SERVICE_SEARCH_ONE,
            Shape::Unary,
        );
        match self.client.unary_call_async(&method, req, opt) {
            Ok(call) => call,
            Err(_) => unreached(),
        }
    }

    /// As `search_one_async_opt`, with nothing configured.
    pub fn search_one_async(&self, req: &[u8]) -> (r: ClientCall)
        ensures
            r.options.is_default(),
            opens(
                r,
                METHOD_STAC_SERVICE_SEARCH_ONE@,
                Shape::Unary,
                Some(req@),
                r.options,
                Wait::Suspend,
            ),
    {
        self.search_one_async_opt(req, CallOption::default())
    }

    /// Opens a call of `InsertOne`: one item to insert, one result. The caller
    /// blocks until the response is there.
    pub fn insert_one_opt(&self, req: &[u8], opt: CallOption) -> (r: ClientCall)
        ensures
            opens(
                r,
                METHOD_STAC_SERVICE_INSERT_ONE@,
                Shape::Unary,
                Some(req@),
                opt,
                Wait::Block,
            ),
    {
        let method = MethodDescriptor::new(
            METHOD_STAC_SERVICE_INSERT_ONE,
            Shape::Unary,
        );
        match self.client.unary_call(&method, req, opt) {
            Ok(call) => call,
            Err(_) => unreached(),
        }
    }

    /// As `insert_one_opt`, with nothing configured.
    pub fn insert_one(&self, req: &[u8]) -> (r: ClientCall)
        ensures
            r.options.is_default(),
            opens(
                r,
                METHOD_STAC_SERVICE_INSERT_ONE@,
                Shape::Unary,
                Some(req@),
                r.options,
                Wait::Block,
            ),
    {
        self.insert_one_opt(req, CallOption::default())
    }

    /// Opens a call of `InsertOne`: one item to insert, one result. The caller
    /// picks the response up later.
    pub fn insert_one_async_opt(&self, req: &[u8], opt: CallOption) -> (r: ClientCall)
        ensures
            opens(
                r,
                METHOD_STAC_SERVICE_INSERT_ONE@,
                Shape::Unary,
                Some(req@),
                opt,
                Wait::Suspend,
            ),
    {
        let method = MethodDescriptor::new(
            METHOD_STAC_SERVICE_INSERT_ONE,
            Shape::Unary,
        );
        match self.client.unary_call_async(&method, req, opt) {
            Ok(call) => call,
            Err(_) => unreached(),
        }
    }

    /// As `insert_one_async_opt`, with nothing configured.
    pub fn insert_one_async(&self, req: &[u8]) -> (r: ClientCall)
        ensures
            r.options.is_default(),
            opens(
                r,
                METHOD_STAC_SERVICE_INSERT_ONE@,
                Shape::Unary,
                Some(req@),
                r.options,
                Wait::Suspend,
            ),
    {
        self.insert_one_async_opt(req, CallOption::default())
    }

    /// Opens a call of `UpdateOne`: one item to update, one result. The caller
    /// blocks until the response is there.
    pub fn update_one_opt(&self, req: &[u8], opt: CallOption) -> (r: ClientCall)
        ensures
            opens(
                r,
                METHOD_STAC_SERVICE_UPDATE_ONE@,
                Shape::Unary,
                Some(req@),
                opt,
                Wait::Block,
            ),
    {
        let method = MethodDescriptor::new(
            METHOD_STAC_SERVICE_UPDATE_ONE,
            Shape::Unary,
        );
        match self.client.unary_call(&method, req, opt) {
            Ok(call) => call,
            Err(_) => unreached(),
        }
    }

    /// As `update_one_opt`, with nothing configured.
    pub fn update_one(&self, req: &[u8]) -> (r: ClientCall)
        ensures
            r.options.is_default(),
            opens(
                r,
                METHOD_STAC_SERVICE_UPDATE_ONE@,
                Shape::Unary,
                Some(req@),
                r.options,
                Wait::Block,
            ),
    {
        self.update_one_opt(req, CallOption::default())
    }

    /// Opens a call of `UpdateOne`: one item to update, one result. The caller
    /// picks the response up later.
    pub fn update_one_async_opt(&self, req: &[u8], opt: CallOption) -> (r: ClientCall)
        ensures
            opens(
                r,
                METHOD_STAC_SERVICE_UPDATE_ONE@,
                Shape::Unary,
                Some(req@),
                opt,
                Wait::Suspend,
            ),
    {
        let method = MethodDescriptor::new(
            METHOD_STAC_SERVICE_UPDATE_ONE,
            Shape::Unary,
        );
        match self.client.unary_call_async(&method, req, opt) {
            Ok(call) => call,
            Err(_) => unreached(),
        }
    }

    /// As `update_one_async_opt`, with nothing configured.
    pub fn update_one_async(&self, req: &[u8]) -> (r: ClientCall)
        ensures
            r.options.is_default(),
            opens(
                r,
                METHOD_STAC_SERVICE_UPDATE_ONE@,
                Shape::Unary,
                Some(req@),
                r.options,
                Wait::Suspend,
            ),
    {
        self.update_one_async_opt(req, CallOption::default())
    }
}

/// The handlers of the catalog service, one for each method, for the
/// host of the service to implement. A handler returns its responses, or
/// the error with which the call ends.
///
/// Beside each handler stands a relation with which the host may say what
/// the handler does: what it may return on an input, and how it may leave
/// the service. A host that says nothing leaves the relation as it is:
/// it holds of every outcome. The server assumes of a handler only that
/// relation.
pub trait StacService: Sized {
    /// Whether `search`, given `req` in the context `ctx`, may return `answer`
    /// and leave the service as `after`.
    open spec fn search_yields(
        &self,
        ctx: RpcContext,
        req: Vec<u8>,
        after: &Self,
        answer: Responses,
    ) -> bool {
        true
    }

    /// Serves `Search`: answers one request with all matching items.
    fn search(
        &mut self,
        ctx: &RpcContext,
        req: Vec<u8>,
    ) -> (answer: Responses)
        ensures
            old(self).search_yields(*ctx, req, final(self), answer),
    ;

    /// Whether `insert`, given `req` in the context `ctx`, may return `answer`
    /// and leave the service as `after`.
    open spec fn insert_yields(
        &self,
        ctx: RpcContext,
        req: Vec<u8>,
        after: &Self,
        answer: Responses,
    ) -> bool {
        true
    }

    /// Serves `Insert`: called for each item of the stream; returns the results
    /// to send for it.
    fn insert(
        &mut self,
        ctx: &RpcContext,
        req: Vec<u8>,
    ) -> (answer: Responses)
        ensures
            old(self).insert_yields(*ctx, req, final(self), answer),
    ;

    /// Whether `update`, given `req` in the context `ctx`, may return `answer`
    /// and leave the service as `after`.
    open spec fn update_yields(
        &self,
        ctx: RpcContext,
        req: Vec<u8>,
        after: &Self,
        answer: Responses,
    ) -> bool {
        true
    }

    /// Serves `Update`: called for each item of the stream; returns the results
    /// to send for it.
    fn update(
        &mut self,
        ctx: &RpcContext,
        req: Vec<u8>,
    ) -> (answer: Responses)
        ensures
            old(self).update_yields(*ctx, req, final(self), answer),
    ;

    /// Whether `count`, given `req` in the context `ctx`, may return `answer`
    /// and leave the service as `after`.
    open spec fn count_yields(
        &self,
        ctx: RpcContext,
        req: Vec<u8>,
        after: &Self,
        answer: Response,
    ) -> bool {
        true
    }

    /// Serves `Count`: answers one request with one result.
    fn count(
        &mut self,
        ctx: &RpcContext,
        req: Vec<u8>,
    ) -> (answer: Response)
        ensures
            old(self).count_yields(*ctx, req, final(self), answer),
    ;

    /// Whether `delete_one`, given `req` in the context `ctx`, may return
    /// `answer` and leave the service as `after`.
    open spec fn delete_one_yields(
        &self,
        ctx: RpcContext,
        req: Vec<u8>,
        after: &Self,
        answer: Response,
    ) -> bool {
        true
    }

    /// Serves `DeleteOne`: answers one item with one result.
    fn delete_one(
        &mut self,
        ctx: &RpcContext,
        req: Vec<u8>,
    ) -> (answer: Response)
        ensures
            old(self).delete_one_yields(*ctx, req, final(self), answer),
    ;

    /// Whether `search_one`, given `req` in the context `ctx`, may return
    /// `answer` and leave the service as `after`.
    open spec fn search_one_yields(
        &self,
        ctx: RpcContext,
        req: Vec<u8>,
        after: &Self,
        answer: Response,
    ) -> bool {
        true
    }

    /// Serves `SearchOne`: answers one request with one item.
    fn search_one(
        &mut self,
        ctx: &RpcContext,
        req: Vec<u8>,
    ) -> (answer: Response)
        ensures
            old(self).search_one_yields(*ctx, req, final(self), answer),
    ;

    /// Whether `insert_one`, given `req` in the context `ctx`, may return
    /// `answer` and leave the service as `after`.
    open spec fn insert_one_yields(
        &self,
        ctx: RpcContext,
        req: Vec<u8>,
        after: &Self,
        answer: Response,
    ) -> bool {
        true
    }

    /// Serves `InsertOne`: answers one item with one result.
    fn insert_one(
        &mut self,
        ctx: &RpcContext,
        req: Vec<u8>,
    ) -> (answer: Response)
        ensures
            old(self).insert_one_yields(*ctx, req, final(self), answer),
    ;

    /// Whether `update_one`, given `req` in the context `ctx`, may return
    /// `answer` and leave the service as `after`.
    open spec fn update_one_yields(
        &self,
        ctx: RpcContext,
        req: Vec<u8>,
        after: &Self,
        answer: Response,
    ) -> bool {
        true
    }

    /// Serves `UpdateOne`: answers one item with one result.
    fn update_one(
        &mut self,
        ctx: &RpcContext,
        req: Vec<u8>,
    ) -> (answer: Response)
        ensures
            old(self).update_one_yields(*ctx, req, final(self), answer),
    ;
}

/// The methods of the catalog service, each with its shape and the
/// handler that serves it.
pub open spec fn stac_methods() -> Table {
    Map::<Seq<char>, Entry>::empty().insert(
        METHOD_STAC_SERVICE_SEARCH@,
        Entry {
            shape: Shape::ServerStream,
            handler: Handler { signature: CallSignature::ServerStreaming, slot: 0 },
        },
    ).insert(
        METHOD_STAC_SERVICE_INSERT@,
        Entry {
            shape: Shape::Duplex,
            handler: Handler { signature: CallSignature::Duplex, slot: 1 },
        },
    ).insert(
        METHOD_STAC_SERVICE_UPDATE@,
        Entry {
            shape: Shape::Duplex,
            handler: Handler { signature: CallSignature::Duplex, slot: 2 },
        },
    ).insert(
        METHOD_STAC_SERVICE_COUNT@,
        Entry {
            shape: Shape::Unary,
            handler: Handler { signature: CallSignature::Unary, slot: 3 },
        },
    ).insert(
        METHOD_STAC_SERVICE_DELETE_ONE@,
        Entry {
            shape: Shape::Unary,
            handler: Handler { signature: CallSignature::Unary, slot: 4 },
        },
    ).insert(
        METHOD_STAC_SERVICE_SEARCH_ONE@,
        Entry {
            shape: Shape::Unary,
            handler: Handler { signature: CallSignature::Unary, slot: 5 },
        },
    ).insert(
        METHOD_STAC_SERVICE_INSERT_ONE@,
        Entry {
            shape: Shape::Unary,
            handler: Handler { signature: CallSignature::Unary, slot: 6 },
        },
    ).insert(
        METHOD_STAC_SERVICE_UPDATE_ONE@,
        Entry {
            shape: Shape::Unary,
            handler: Handler { signature: CallSignature::Unary, slot: 7 },
        },
    )
}

/// Whether running the handler in `slot` of the service `before` on
/// `input` may return `result` and leave the service as `after`.
///
/// A slot that holds a handler for this kind of input runs that handler on
/// exactly this input; a handler that answers once gives its one response
/// as a run of one. Any other slot runs nothing: the result is
/// `ShapeMismatch` and the service stays as it is.
pub open spec fn stac_invocation<S: StacService>(
    before: S,
    slot: usize,
    ctx: RpcContext,
    input: HandlerInput,
    after: S,
    result: Responses,
) -> bool {
    match input {
        HandlerInput::One(req) => if slot == 0 {
            before.search_yields(ctx, req, &after, result)
        } else if slot == 1 {
            before.insert_yields(ctx, req, &after, result)
        } else if slot == 2 {
            before.update_yields(ctx, req, &after, result)
        } else if slot == 3 {
            exists|answer: Response|
                {
                    &&& #[trigger] before.count_yields(
                        ctx,
                        req,
                        &after,
                        answer,
                    )
                    &&& answered_once(answer, result)
                }
        } else if slot == 4 {
            exists|answer: Response|
                {
                    &&& #[trigger] before.delete_one_yields(
                        ctx,
                        req,
                        &after,
                        answer,
                    )
                    &&& answered_once(answer, result)
                }
        } else if slot == 5 {
            exists|answer: Response|
                {
                    &&& #[trigger] before.search_one_yields(
                        ctx,
                        req,
                        &after,
                        answer,
                    )
                    &&& answered_once(answer, result)
                }
        } else if slot == 6 {
            exists|answer: Response|
                {
                    &&& #[trigger] before.insert_one_yields(
                        ctx,
                        req,
                        &after,
                        answer,
                    )
                    &&& answered_once(answer, result)
                }
        } else if slot == 7 {
            exists|answer: Response|
                {
                    &&& #[trigger] before.update_one_yields(
                        ctx,
                        req,
                        &after,
                        answer,
                    )
                    &&& answered_once(answer, result)
                }
        } else {
            after == before && result == Err::<Vec<Vec<u8>>, RpcError>(RpcError::ShapeMismatch)
        },
        HandlerInput::Many(requests) => {
            after == before && result == Err::<Vec<Vec<u8>>, RpcError>(RpcError::ShapeMismatch)
        },
    }
}

/// The server of the catalog service: its registry and the implementation
/// it runs.
pub struct StacServer<S: StacService> {
    dispatcher: Dispatcher,
    instance: S,
}

impl<S: StacService> StacServer<S> {
    /// The methods the server offers.
    pub closed spec fn table(&self) -> Table {
        self.dispatcher.table()
    }

    /// What the server fixes for every call.
    pub closed spec fn config(&self) -> ServerConfig {
        self.dispatcher.spec_config()
    }

    /// The implementation the server runs.
    pub closed spec fn spec_instance(&self) -> S {
        self.instance
    }

    /// The implementation the server runs.
    pub fn instance(&self) -> (r: &S)
        ensures
            *r == self.spec_instance(),
    {
        &self.instance
    }

    /// Opens the server side of a call of the method `name`: a fresh call
    /// of the registered shape and handler, or `UnknownMethod` where the
    /// service has no such method.
    pub fn accept(&self, name: &str) -> (r: Result<ServerCall, RpcError>)
        ensures
            match r {
                Ok(call) => self.table().contains_key(name@) && call@ == CallModel::fresh(
                    self.table()[name@].shape,
                    self.table()[name@].handler,
                    self.config(),
                ),
                Err(e) => !self.table().contains_key(name@) && e == RpcError::UnknownMethod,
            },
    {
        self.dispatcher.accept(name)
    }

    /// Runs the handler in `slot` on `input` and returns what it returned,
    /// the one response of a handler that answers once as a run of one. A
    /// slot that holds no handler, or an input of the wrong kind for the
    /// handler it holds, gives `ShapeMismatch` and leaves the service as
    /// it is.
    fn invoke(&mut self, slot: usize, ctx: &RpcContext, input: HandlerInput) -> (r: Responses)
        ensures
            final(self).dispatcher == old(self).dispatcher,
            stac_invocation(
                old(self).instance,
                slot,
                *ctx,
                input,
                final(self).instance,
                r,
            ),
    {
        match input {
            HandlerInput::One(req) => {
                if slot == 0 {
                    self.instance.search(ctx, req)
                } else if slot == 1 {
                    self.instance.insert(ctx, req)
                } else if slot == 2 {
                    self.instance.update(ctx, req)
                } else if slot == 3 {
                    let answer = self.instance.count(ctx, req);
                    let ghost given = answer;
                    let responses = single(answer);
                    assert(old(self).instance.count_yields(*ctx, req, &self.instance, given));
                    responses
                } else if slot == 4 {
                    let answer = self.instance.delete_one(ctx, req);
                    let ghost given = answer;
                    let responses = single(answer);
                    assert(old(self).instance.delete_one_yields(*ctx, req, &self.instance, given));
                    responses
                } else if slot == 5 {
                    let answer = self.instance.search_one(ctx, req);
                    let ghost given = answer;
                    let responses = single(answer);
                    assert(old(self).instance.search_one_yields(*ctx, req, &self.instance, given));
                    responses
                } else if slot == 6 {
                    let answer = self.instance.insert_one(ctx, req);
                    let ghost given = answer;
                    let responses = single(answer);
                    assert(old(self).instance.insert_one_yields(*ctx, req, &self.instance, given));
                    responses
                } else if slot == 7 {
                    let answer = self.instance.update_one(ctx, req);
                    let ghost given = answer;
                    let responses = single(answer);
                    assert(old(self).instance.update_one_yields(*ctx, req, &self.instance, given));
                    responses
                } else {
                    Err(RpcError::ShapeMismatch)
                }
            },
            HandlerInput::Many(requests) => {
                Err(RpcError::ShapeMismatch)
            },
        }
    }

    /// Takes one inbound frame of `call`, runs the handler where the frame
    /// asks for it, and returns the frames to transmit.
    ///
    /// Where the handler does not run, the call moves as `on_frame` says.
    /// Where it runs, the call moves as `on_frame` and then `respond` say
    /// for what the handler returned, whatever that was.
    pub fn handle(&mut self, call: &mut ServerCall, ctx: &RpcContext, frame: Envelope) -> (frames:
        Vec<Envelope>)
        ensures
            final(self).table() == old(self).table(),
            final(self).config() == old(self).config(),
            !(old(call)@.verdict(frame) is Invoke) ==> {
                &&& final(call)@ == old(call)@.after(frame)
                &&& frames@ == old(call)@.frames(frame)
                &&& final(self).spec_instance() == old(self).spec_instance()
            },
            old(call)@.verdict(frame) is Invoke ==> exists|result: Responses|
                {
                    &&& final(call)@ == old(call)@.after(frame).responded(result)
                    &&& frames@ == old(call)@.frames(frame) + #[trigger] old(call)@.after(
                        frame,
                    ).response_frames(result)
                },
    {
        let Step { frames, invoke } = call.on_frame(frame);
        match invoke {
            None => frames,
            Some(input) => {
                let slot = call.handler().slot;
                let result = self.invoke(slot, ctx, input);
                let ghost returned = result;
                let mut frames = frames;
                let mut more = call.respond(result);
                frames.append(&mut more);
                assert(frames@ == old(call)@.frames(frame) + old(call)@.after(
                    frame,
                ).response_frames(returned));
                frames
            },
        }
    }
}

/// Builds the server of the catalog service around the implementation `s`:
/// every method of the service is registered, under its wire identifier
/// and with its shape, to the handler of `s` that serves it.
pub fn create_stac_service<S: StacService>(
    s: S,
    config: ServerConfig,
) -> (r: StacServer<S>)
    ensures
        r.table() == stac_methods(),
        r.config() == config,
        r.spec_instance() == s,
{
    proof {
        reveal_strlit("/epl.protobuf.StacService/Search");
        assert(METHOD_STAC_SERVICE_SEARCH@.len() == 32);
        assert(METHOD_STAC_SERVICE_SEARCH@[26] == 'S');
        reveal_strlit("/epl.protobuf.StacService/Insert");
        assert(METHOD_STAC_SERVICE_INSERT@.len() == 32);
        assert(METHOD_STAC_SERVICE_INSERT@[26] == 'I');
        reveal_strlit("/epl.protobuf.StacService/Update");
        assert(METHOD_STAC_SERVICE_UPDATE@.len() == 32);
        assert(METHOD_STAC_SERVICE_UPDATE@[26] == 'U');
        reveal_strlit("/epl.protobuf.StacService/Count");
        assert(METHOD_STAC_SERVICE_COUNT@.len() == 31);
        assert(METHOD_STAC_SERVICE_COUNT@[26] == 'C');
        reveal_strlit("/epl.protobuf.StacService/DeleteOne");
        assert(METHOD_STAC_SERVICE_DELETE_ONE@.len() == 35);
        assert(METHOD_STAC_SERVICE_DELETE_ONE@[26] == 'D');
        reveal_strlit("/epl.protobuf.StacService/SearchOne");
        assert(METHOD_STAC_SERVICE_SEARCH_ONE@.len() == 35);
        assert(METHOD_STAC_SERVICE_SEARCH_ONE@[26] == 'S');
        reveal_strlit("/epl.protobuf.StacService/InsertOne");
        assert(METHOD_STAC_SERVICE_INSERT_ONE@.len() == 35);
        assert(METHOD_STAC_SERVICE_INSERT_ONE@[26] == 'I');
        reveal_strlit("/epl.protobuf.StacService/UpdateOne");
        assert(METHOD_STAC_SERVICE_UPDATE_ONE@.len() == 35);
        assert(METHOD_STAC_SERVICE_UPDATE_ONE@[26] == 'U');
    }
    let mut builder = ServiceBuilder::new();
    let _ = builder.register(
        MethodDescriptor::new(
            METHOD_STAC_SERVICE_SEARCH,
            Shape::ServerStream,
        ),
        Handler { signature: CallSignature::ServerStreaming, slot: 0 },
    );
    let _ = builder.register(
        MethodDescriptor::new(
            METHOD_STAC_SERVICE_INSERT,
            Shape::Duplex,
        ),
        Handler { signature: CallSignature::Duplex, slot: 1 },
    );
    let _ = builder.register(
        MethodDescriptor::new(
            METHOD_STAC_SERVICE_UPDATE,
            Shape::Duplex,
        ),
        Handler { signature: CallSignature::Duplex, slot: 2 },
    );
    let _ = builder.register(
        MethodDescriptor::new(
            METHOD_STAC_SERVICE_COUNT,
            Shape::Unary,
        ),
        Handler { signature: CallSignature::Unary, slot: 3 },
    );
    let _ = builder.register(
        MethodDescriptor::new(
            METHOD_STAC_SERVICE_DELETE_ONE,
            Shape::Unary,
        ),
        Handler { signature: CallSignature::Unary, slot: 4 },
    );
    let _ = builder.register(
        MethodDescriptor::new(
            METHOD_STAC_SERVICE_SEARCH_ONE,
            Shape::Unary,
        ),
        Handler { signature: CallSignature::Unary, slot: 5 },
    );
    let _ = builder.register(
        MethodDescriptor::new(
            METHOD_STAC_SERVICE_INSERT_ONE,
            Shape::Unary,
        ),
        Handler { signature: CallSignature::Unary, slot: 6 },
    );
    let _ = builder.register(
        MethodDescriptor::new(
            METHOD_STAC_SERVICE_UPDATE_ONE,
            Shape::Unary,
        ),
        Handler { signature: CallSignature::Unary, slot: 7 },
    );
    let registry = builder.build();
    StacServer { dispatcher: Dispatcher::new(registry, config), instance: s }
}

} // verus!
