use edgehog_device_runtime::base16::encode_hex_text;
use edgehog_device_runtime::containers::properties::{
    endpoint, AvailableContainer, AvailableImage, PropertyValue, Publication,
};
use edgehog_device_runtime::containers::resource::{
    Answer, Image, ImageResource, ImageStatus, Plan, ResourceError, Stage, State, Task,
};
use edgehog_device_runtime::forwarder::error::ProtocolError;
use edgehog_device_runtime::forwarder::http_msg::HttpRequest;
use edgehog_device_runtime::forwarder::route::{ClientRequest, UpgradeRequest};
use edgehog_device_runtime::ident::Uuid;

const ID: u128 = 0x3647edbb_6747_4827_a3ef_dbb6239e3326;

fn image(id: Option<&str>) -> Image {
    Image {
        id: id.map(str::to_string),
        reference: "docker.io/library/nginx:stable".to_string(),
    }
}

fn run(mut plan: Plan, answers: Vec<Answer>) -> (Plan, Vec<Task>) {
    let mut tasks = Vec::new();
    for answer in answers {
        tasks.push(plan.task().unwrap());
        plan = plan.advance(answer);
    }
    (plan, tasks)
}

#[test]
fn should_store_image() {
    let id = Uuid::from_u128(ID);
    let image = AvailableImage::new(&id);
    let sent = image.send(true);
    assert_eq!(sent.interface, "io.edgehog.devicemanager.apps.AvailableImages");
    assert_eq!(sent.endpoint, format!("/{}/pulled", id.to_string()));
    assert_eq!(sent.endpoint, "/3647edbb-6747-4827-a3ef-dbb6239e3326/pulled");
    assert_eq!(sent.value, Some(PropertyValue::Flag(true)));
}

#[test]
fn container_status_is_a_text() {
    let id = Uuid::from_u128(ID);
    let container = AvailableContainer::new(&id);
    assert_eq!(
        container.send("Running".to_string()),
        Publication {
            interface: "io.edgehog.devicemanager.apps.AvailableContainers".to_string(),
            endpoint: "/3647edbb-6747-4827-a3ef-dbb6239e3326/status".to_string(),
            value: Some(PropertyValue::Text("Running".to_string())),
        }
    );
    assert_eq!(container.unset().value, None);
    assert_eq!(container.id(), &id);
    assert_eq!(AvailableContainer::field(), "status");
    assert_eq!(
        AvailableContainer::interface(),
        "io.edgehog.devicemanager.apps.AvailableContainers"
    );
}

#[test]
fn should_unset_image() {
    let id = Uuid::from_u128(ID);
    let image = AvailableImage::new(&id);
    assert_eq!(
        image.unset(),
        Publication {
            interface: "io.edgehog.devicemanager.apps.AvailableImages".to_string(),
            endpoint: "/3647edbb-6747-4827-a3ef-dbb6239e3326/pulled".to_string(),
            value: None,
        }
    );
    assert_eq!(image.id(), &id);
    assert_eq!(AvailableImage::interface(), "io.edgehog.devicemanager.apps.AvailableImages");
    assert_eq!(AvailableImage::field(), "pulled");
    assert_eq!(image.send_field("status", false).endpoint, "/3647edbb-6747-4827-a3ef-dbb6239e3326/status");
    assert_eq!(endpoint(&id, "x"), "/3647edbb-6747-4827-a3ef-dbb6239e3326/x");
}

#[test]
fn uuid_text_is_that_of_the_uuid_crate() {
    for value in [0u128, 1, ID, u128::MAX, 0x00010203_0405_0607_0809_0a0b0c0d0e0f] {
        assert_eq!(
            Uuid::from_u128(value).to_string(),
            uuid::Uuid::from_u128(value).to_string()
        );
        assert_eq!(Uuid::from_u128(value).as_u128(), value);
    }
    assert_eq!(
        Uuid::from_u128(0x00010203_0405_0607_0809_0a0b0c0d0e0f).to_string(),
        "00010203-0405-0607-0809-0a0b0c0d0e0f"
    );
}

#[test]
fn hex_text_has_two_digits_for_each_byte() {
    assert_eq!(encode_hex_text(&[]), "");
    assert_eq!(encode_hex_text(&[1, 2, 3, 15, 16]), "0102030f10");
    assert_eq!(encode_hex_text(b"Hello world!"), "48656c6c6f20776f726c6421");
}

#[test]
fn publish_sends_then_stores() {
    let id = Uuid::from_u128(ID);
    let (plan, tasks) = run(ImageResource::publish(id), vec![Answer::Done, Answer::Done]);
    assert_eq!(plan.stage, Stage::Published);
    assert!(plan.is_ended());
    assert!(plan.task().is_none());
    assert_eq!(
        tasks,
        vec![
            Task::Publish(AvailableImage::new(&id).send(false)),
            Task::StoreStatus(ImageStatus::Published)
        ]
    );
}

#[test]
fn publisher_failures_are_swallowed() {
    let id = Uuid::from_u128(ID);
    let failed = || Answer::Failed("offline".to_string());
    let (plan, _) = run(ImageResource::publish(id), vec![failed(), Answer::Done]);
    assert_eq!(plan.stage, Stage::Published);

    let resource = ImageResource::new(image(None));
    let (plan, tasks) = run(
        resource.create(id),
        vec![
            Answer::LocalId(Some("sha256:abc".to_string())),
            Answer::Done,
            failed(),
            Answer::Done,
        ],
    );
    assert_eq!(plan.stage, Stage::Created(ImageResource::new(image(Some("sha256:abc")))));
    assert_eq!(
        tasks,
        vec![
            Task::Pull(image(None)),
            Task::StoreLocalId(Some("sha256:abc".to_string())),
            Task::Publish(AvailableImage::new(&id).send(true)),
            Task::StoreStatus(ImageStatus::Pulled),
        ]
    );

    let (plan, tasks) = run(
        ImageResource::new(image(Some("sha256:abc"))).delete(id),
        vec![Answer::Done, failed(), Answer::Done],
    );
    assert_eq!(plan.stage, Stage::Deleted);
    assert_eq!(
        tasks,
        vec![
            Task::Remove(image(Some("sha256:abc"))),
            Task::Publish(AvailableImage::new(&id).unset()),
            Task::DeleteRecord,
        ]
    );
}

#[test]
fn store_and_runtime_failures_end_the_plan() {
    let id = Uuid::from_u128(ID);
    let failed = || Answer::Failed("broken".to_string());
    let (plan, _) = run(ImageResource::publish(id), vec![Answer::Done, failed()]);
    assert_eq!(plan.stage, Stage::Failed(ResourceError::Store("broken".to_string())));
    assert!(plan.is_ended());
    // nothing moves a plan that has ended
    let plan = plan.advance(Answer::Done);
    assert_eq!(plan.stage, Stage::Failed(ResourceError::Store("broken".to_string())));

    let (plan, _) = run(ImageResource::new(image(None)).create(id), vec![failed()]);
    assert_eq!(plan.stage, Stage::Failed(ResourceError::Runtime("broken".to_string())));
    let (plan, _) = run(
        ImageResource::new(image(None)).create(id),
        vec![Answer::LocalId(Some("x".to_string())), failed()],
    );
    assert_eq!(plan.stage, Stage::Failed(ResourceError::Store("broken".to_string())));
    let (plan, _) = run(ImageResource::new(image(None)).delete(id), vec![failed()]);
    assert_eq!(plan.stage, Stage::Failed(ResourceError::Runtime("broken".to_string())));
    let (plan, _) = run(ImageResource::fetch(id), vec![failed()]);
    assert_eq!(plan.stage, Stage::Failed(ResourceError::Store("broken".to_string())));
}

#[test]
fn fetch_tells_whether_the_runtime_holds_the_image() {
    let id = Uuid::from_u128(ID);
    let (plan, _) = run(ImageResource::fetch(id), vec![Answer::Record(None)]);
    assert_eq!(
        plan.stage,
        Stage::Failed(ResourceError::Missing {
            id,
            resource: "image".to_string()
        })
    );

    let (plan, tasks) = run(
        ImageResource::fetch(id),
        vec![Answer::Record(Some(image(None))), Answer::LocalId(None)],
    );
    assert_eq!(plan.stage, Stage::Fetched(State::Missing, ImageResource::new(image(None))));
    assert_eq!(tasks, vec![Task::Find, Task::Inspect(image(None))]);

    let (plan, tasks) = run(
        ImageResource::fetch(id),
        vec![
            Answer::Record(Some(image(Some("old")))),
            Answer::LocalId(Some("new".to_string())),
            Answer::Done,
        ],
    );
    assert_eq!(
        plan.stage,
        Stage::Fetched(State::Created, ImageResource::new(image(Some("new"))))
    );
    assert_eq!(
        tasks,
        vec![
            Task::Find,
            Task::Inspect(image(Some("old"))),
            Task::StoreLocalId(Some("new".to_string()))
        ]
    );

    // an answer that the stage does not wait for changes nothing
    let plan = ImageResource::fetch(id).advance(Answer::Done);
    assert_eq!(plan.stage, Stage::FetchFind);
}

fn request(headers: http::HeaderMap) -> HttpRequest {
    HttpRequest {
        method: "GET".to_string(),
        path: "remote-terminal".to_string(),
        query_string: "session=abcd".to_string(),
        headers,
        body: Vec::new(),
        port: 7681,
    }
}

#[test]
fn upgrade_is_asked_for_by_its_header() {
    let mut headers = http::HeaderMap::new();
    assert!(!request(headers.clone()).is_upgrade());
    headers.insert(http::header::UPGRADE, http::HeaderValue::from_static("h2c"));
    assert!(!request(headers.clone()).is_upgrade());
    headers.append(http::header::UPGRADE, http::HeaderValue::from_static("websocket"));
    assert!(request(headers.clone()).is_upgrade());
    let mut headers = http::HeaderMap::new();
    headers.insert("connection", http::HeaderValue::from_static("websocket"));
    headers.insert("upgrade", http::HeaderValue::from_static("WebSocket"));
    assert!(!request(headers).is_upgrade());
}

#[test]
fn upgrade_goes_to_the_local_web_socket() {
    let mut headers = http::HeaderMap::new();
    headers.insert("upgrade", http::HeaderValue::from_static("websocket"));
    headers.append(
        "sec-websocket-extensions",
        http::HeaderValue::from_static("permessage-deflate"),
    );
    headers.append(
        "sec-websocket-extensions",
        http::HeaderValue::from_static("client_max_window_bits"),
    );
    headers.insert("sec-websocket-key", http::HeaderValue::from_static("key"));
    let mut kept = http::HeaderMap::new();
    kept.insert("upgrade", http::HeaderValue::from_static("websocket"));
    kept.insert("sec-websocket-key", http::HeaderValue::from_static("key"));

    let mut req = request(headers.clone());
    req.remove_unsupported_ws_ext();
    assert_eq!(req.headers, kept);

    let mut req = request(headers);
    req.body = vec![1];
    assert_eq!(
        req.upgrade().unwrap(),
        UpgradeRequest {
            uri: "ws://localhost:7681/remote-terminal?session=abcd".to_string(),
            method: "GET".to_string(),
            headers: kept,
        }
    );

    let mut req = request(http::HeaderMap::new());
    req.path = "a b".to_string();
    assert!(matches!(req.upgrade(), Err(ProtocolError::InvalidUri(_))));
    let mut req = request(http::HeaderMap::new());
    req.method = "NOT A METHOD".to_string();
    assert!(matches!(req.upgrade(), Err(ProtocolError::InvalidHttpMethod(_))));
}

#[test]
fn request_goes_to_the_local_service() {
    let mut headers = http::HeaderMap::new();
    headers.insert("accept", http::HeaderValue::from_static("*/*"));
    let mut req = request(headers.clone());
    req.port = 0;
    req.body = vec![9];
    assert_eq!(
        req.request_builder().unwrap(),
        ClientRequest {
            url: "http://localhost:0/remote-terminal?session=abcd".to_string(),
            method: "GET".to_string(),
            headers,
            body: vec![9],
        }
    );
    let mut req = request(http::HeaderMap::new());
    req.port = 65535;
    req.path = String::new();
    req.query_string = String::new();
    assert_eq!(req.request_builder().unwrap().url, "http://localhost:65535/?");
    let mut req = request(http::HeaderMap::new());
    req.method = String::new();
    assert!(matches!(
        req.request_builder(),
        Err(ProtocolError::InvalidHttpMethod(_))
    ));
}
