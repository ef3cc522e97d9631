use stac_proto::call::{CallOption, Channel, ClientEvent, Header};
use stac_proto::chunk::ReassemblyLimits;
use stac_proto::dispatch::ServerConfig;
use stac_proto::error::RpcError;
use stac_proto::service::RpcContext;
use stac_proto::stac::{create_stac_service, StacService, StacServiceClient};

const TOKEN: &str = "Bearer local-catalog-token";

/// A catalog that holds three items and answers every search with all of them.
struct Catalog {
    items: Vec<Vec<u8>>,
}

impl Catalog {
    fn authorised(ctx: &RpcContext) -> Result<(), RpcError> {
        if ctx.headers.iter().any(|h| h.key == "Authorization" && h.value == TOKEN) {
            Ok(())
        } else {
            Err(RpcError::TransportError)
        }
    }
}

impl StacService for Catalog {
    fn search(&mut self, ctx: &RpcContext, _req: Vec<u8>) -> Result<Vec<Vec<u8>>, RpcError> {
        Catalog::authorised(ctx)?;
        Ok(self.items.clone())
    }

    fn insert(&mut self, _ctx: &RpcContext, req: Vec<u8>) -> Result<Vec<Vec<u8>>, RpcError> {
        self.items.push(req);
        Ok(vec![b"inserted".to_vec()])
    }

    fn update(&mut self, _ctx: &RpcContext, _req: Vec<u8>) -> Result<Vec<Vec<u8>>, RpcError> {
        Ok(vec![b"updated".to_vec()])
    }

    fn count(&mut self, _ctx: &RpcContext, _req: Vec<u8>) -> Result<Vec<u8>, RpcError> {
        Ok(self.items.len().to_string().into_bytes())
    }

    fn delete_one(&mut self, _ctx: &RpcContext, req: Vec<u8>) -> Result<Vec<u8>, RpcError> {
        self.items.retain(|item| *item != req);
        Ok(b"deleted".to_vec())
    }

    fn search_one(&mut self, _ctx: &RpcContext, _req: Vec<u8>) -> Result<Vec<u8>, RpcError> {
        self.items.first().cloned().ok_or(RpcError::SerializationError)
    }

    fn insert_one(&mut self, _ctx: &RpcContext, req: Vec<u8>) -> Result<Vec<u8>, RpcError> {
        self.items.push(req);
        Ok(b"inserted".to_vec())
    }

    fn update_one(&mut self, _ctx: &RpcContext, _req: Vec<u8>) -> Result<Vec<u8>, RpcError> {
        Ok(b"updated".to_vec())
    }
}

#[test]
fn it_works() -> Result<(), RpcError> {
    // setup
    let channel = Channel::new("api.nearspacelabs.net:9090");
    let client = StacServiceClient::new(channel);
    let mut server = create_stac_service(
        Catalog { items: vec![b"LC80330352017072LGN00".to_vec(), b"item-2".to_vec(), b"item-3".to_vec()] },
        ServerConfig { initial_credit: 16, grant_window: 1, limits: ReassemblyLimits { max_chunk: 0, max_blob: 0 } },
    );

    // headers
    let header = Header::new("Authorization", TOKEN);
    assert_eq!(header, Header::bearer("local-catalog-token"), "unable to set token as an `Authorization` header");
    let opts = CallOption::default().headers(vec![header]);

    let req: Vec<u8> = Vec::default();

    // collect result stream into vec
    let mut call = client.search_opt(&req, opts);
    let ctx = RpcContext::new(&call.method.name, call.options.headers.clone());
    let mut remote = server.accept(&call.method.name)?;
    let mut vec: Vec<Result<Vec<u8>, RpcError>> = Vec::new();
    for frame in call.opening.clone() {
        for answer in server.handle(&mut remote, &ctx, frame) {
            match call.on_frame(answer).event {
                ClientEvent::Response(item) => vec.push(Ok(item)),
                ClientEvent::Failed(e) => vec.push(Err(e)),
                _ => {}
            }
        }
    }

    assert!(!vec.is_empty(), "Failed to retrieve any stac items");
    assert_eq!(vec.len(), 3);
    for item in vec.into_iter() {
        assert!(item.is_ok(), "Erroneous result: {:?}", item);
        println!("stac item ID: {:?}", String::from_utf8(item.unwrap()));
    }

    Ok(())
}

#[test]
fn catalog_search_without_credential_is_refused() {
    let client = StacServiceClient::new(Channel::new("api.nearspacelabs.net:9090"));
    let mut server = create_stac_service(
        Catalog { items: vec![b"item".to_vec()] },
        ServerConfig { initial_credit: 16, grant_window: 1, limits: ReassemblyLimits { max_chunk: 0, max_blob: 0 } },
    );
    let mut call = client.search(b"");
    let ctx = RpcContext::new(&call.method.name, call.options.headers.clone());
    let mut remote = server.accept(&call.method.name).unwrap();
    let mut events = Vec::new();
    for frame in call.opening.clone() {
        for answer in server.handle(&mut remote, &ctx, frame) {
            events.push(call.on_frame(answer).event);
        }
    }
    assert_eq!(events, vec![ClientEvent::Failed(RpcError::TransportError)]);
}

#[test]
fn catalog_unary_methods_answer_once() {
    let client = StacServiceClient::new(Channel::new("localhost:10000"));
    let mut server = create_stac_service(
        Catalog { items: vec![b"a".to_vec(), b"b".to_vec()] },
        ServerConfig { initial_credit: 16, grant_window: 1, limits: ReassemblyLimits { max_chunk: 0, max_blob: 0 } },
    );
    let calls = vec![
        (client.count(b""), b"2".to_vec()),
        (client.search_one(b""), b"a".to_vec()),
        (client.insert_one(b"c"), b"inserted".to_vec()),
        (client.count_async(b""), b"3".to_vec()),
        (client.delete_one(b"a"), b"deleted".to_vec()),
        (client.update_one(b"b"), b"updated".to_vec()),
        (client.search_one_async(b""), b"b".to_vec()),
    ];
    for (mut call, expected) in calls {
        let ctx = RpcContext::new(&call.method.name, Vec::new());
        let mut remote = server.accept(&call.method.name).unwrap();
        let mut events = Vec::new();
        for frame in call.opening.clone() {
            for answer in server.handle(&mut remote, &ctx, frame) {
                events.push(call.on_frame(answer).event);
            }
        }
        assert_eq!(events, vec![ClientEvent::Response(expected), ClientEvent::Completed]);
    }
}

#[test]
fn catalog_streams_answer_per_item() {
    let client = StacServiceClient::new(Channel::new("localhost:10000"));
    let mut server = create_stac_service(
        Catalog { items: Vec::new() },
        ServerConfig { initial_credit: 16, grant_window: 1, limits: ReassemblyLimits { max_chunk: 0, max_blob: 0 } },
    );
    for (mut call, expected) in [(client.insert(), b"inserted".to_vec()), (client.update(), b"updated".to_vec())] {
        let ctx = RpcContext::new(&call.method.name, Vec::new());
        let mut remote = server.accept(&call.method.name).unwrap();
        let mut frames = call.send(b"x".to_vec()).unwrap();
        frames.extend(call.send(b"y".to_vec()).unwrap());
        frames.extend(call.finish());
        let mut events = Vec::new();
        for frame in frames {
            for answer in server.handle(&mut remote, &ctx, frame) {
                events.push(call.on_frame(answer).event);
            }
        }
        assert_eq!(
            events,
            vec![
                ClientEvent::Response(expected.clone()),
                ClientEvent::Response(expected),
                ClientEvent::Completed
            ]
        );
    }
    assert_eq!(server.instance().items, vec![b"x".to_vec(), b"y".to_vec()]);
}
