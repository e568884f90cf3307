use edgehog_device_forwarder_proto as proto;
use edgehog_device_forwarder_proto::prost::Message;
use edgehog_device_runtime::forwarder::error::ProtocolError;
use edgehog_device_runtime::forwarder::http_msg::{
    headermap_to_hashmap, Http, HttpMessage, HttpRequest, HttpResponse,
};
use edgehog_device_runtime::forwarder::id::Id;
use edgehog_device_runtime::forwarder::messages::ProtoMessage;
use edgehog_device_runtime::forwarder::wire::{
    ProtobufHttp, ProtobufHttpMessage, ProtobufHttpRequest, ProtobufHttpResponse,
    ProtobufMessage, ProtobufProtocol, ProtobufWebSocket, ProtobufWsClose, ProtobufWsMessage,
};
use edgehog_device_runtime::forwarder::ws_msg::{CloseFrame, WebSocket, WebSocketMessage, WsFrame};
use tokio_tungstenite::tungstenite::protocol::frame::coding::CloseCode;
use tokio_tungstenite::tungstenite::protocol::CloseFrame as TungClose;
use tokio_tungstenite::tungstenite::Message as Tung;

fn http_message_req() -> HttpMessage {
    HttpMessage::Request(HttpRequest {
        method: "GET".to_string(),
        path: String::new(),
        query_string: String::new(),
        headers: http::HeaderMap::new(),
        body: Vec::new(),
        port: 0,
    })
}

fn empty_http(id: &[u8]) -> Http {
    Http {
        request_id: Id::try_from(id.to_vec()).unwrap(),
        http_msg: http_message_req(),
    }
}

fn empty_protobuf_http(id: &[u8]) -> ProtobufHttp {
    ProtobufHttp {
        request_id: id.to_vec(),
        message: Some(ProtobufHttpMessage::Request(ProtobufHttpRequest {
            body: Vec::new(),
            headers: Vec::new(),
            query_string: String::new(),
            path: String::new(),
            method: "GET".to_string(),
            port: 0,
        })),
    }
}

fn empty_protobuf_ws(id: &[u8]) -> ProtobufWebSocket {
    ProtobufWebSocket {
        socket_id: id.to_vec(),
        message: Some(ProtobufWsMessage::Binary(b"test_data".to_vec())),
    }
}

fn sorted(mut pairs: Vec<(String, String)>) -> Vec<(String, String)> {
    pairs.sort();
    pairs
}

fn sample_request() -> HttpRequest {
    let mut headers = http::HeaderMap::new();
    headers.insert("host", http::HeaderValue::from_static("localhost"));
    headers.insert("accept", http::HeaderValue::from_static("text/plain"));
    headers.insert("x-trace", http::HeaderValue::from_static("a b\tc"));
    HttpRequest {
        method: "POST".to_string(),
        path: "remote-terminal".to_string(),
        query_string: "session=abcd".to_string(),
        headers,
        body: vec![0, 1, 2, 255],
        port: 7681,
    }
}

#[test]
fn test_id() {
    // test empty ID
    assert!(matches!(
        Id::try_from(Vec::new()),
        Err(ProtocolError::Empty)
    ));

    let id_binary = b"test_id".to_vec();
    let id = Id::try_from(id_binary.clone()).unwrap();

    // test Display
    let display_id = id.to_string();
    let res = hex::decode(display_id).unwrap();

    assert_eq!(res, id_binary);

    // test Debug
    let debug_id = id.to_debug_string();

    assert_eq!(debug_id, format!("Id({})", id.to_string()));
}

#[test]
fn test_from_protobuf_protocol() {
    // test WebSocket match case
    let id = b"test_id".to_vec();
    let proto = ProtobufProtocol::Ws(empty_protobuf_ws(&id));
    let res = ProtoMessage::try_from(proto).unwrap();

    let exp = ProtoMessage::WebSocket(WebSocket {
        socket_id: Id::try_from(id).unwrap(),
        message: WebSocketMessage::Binary(b"test_data".to_vec()),
    });

    assert_eq!(res, exp);
}

#[test]
fn test_try_from_protobuf_http() {
    // test response ok
    let protobuf_msg = ProtobufHttp {
        request_id: b"test_id".to_vec(),
        message: Some(ProtobufHttpMessage::Response(ProtobufHttpResponse {
            body: Vec::new(),
            headers: Vec::new(),
            status_code: 200,
        })),
    };

    assert!(Http::try_from(protobuf_msg).is_ok());

    // test missing message
    let protobuf_msg = ProtobufHttp {
        request_id: b"test_id".to_vec(),
        message: None,
    };

    assert!(matches!(
        Http::try_from(protobuf_msg),
        Err(ProtocolError::Empty)
    ));
}

#[test]
fn test_from_http() {
    let msg = empty_http(b"test_id");

    let expected = empty_protobuf_http(b"test_id");

    assert_eq!(ProtobufHttp::from(msg), expected);
}

#[test]
fn test_status() {
    let http_res = HttpResponse {
        status_code: 200,
        headers: http::HeaderMap::new(),
        body: Vec::new(),
    };

    assert_eq!(200, http_res.status());
}

#[test]
fn test_try_from_protobuf_websocket() {
    // empty ws message
    let protobuf_msg = ProtobufWebSocket {
        socket_id: b"test_id".to_vec(),
        message: None,
    };

    assert!(matches!(
        WebSocket::try_from(protobuf_msg),
        Err(ProtocolError::Empty)
    ));

    // empty ID message
    let protobuf_msg = ProtobufWebSocket {
        socket_id: Vec::new(),
        message: Some(ProtobufWsMessage::Binary(Vec::new())),
    };

    assert!(matches!(
        WebSocket::try_from(protobuf_msg),
        Err(ProtocolError::Empty)
    ));

    // check all variants
    let protobuf_msgs = [
        (
            ProtobufWsMessage::Text(String::new()),
            WebSocketMessage::Text(String::new()),
        ),
        (
            ProtobufWsMessage::Binary(Vec::new()),
            WebSocketMessage::Binary(Vec::new()),
        ),
        (
            ProtobufWsMessage::Ping(Vec::new()),
            WebSocketMessage::Ping(Vec::new()),
        ),
        (
            ProtobufWsMessage::Pong(Vec::new()),
            WebSocketMessage::Pong(Vec::new()),
        ),
        (
            ProtobufWsMessage::Close(ProtobufWsClose {
                code: 1000,
                reason: String::new(),
            }),
            WebSocketMessage::Close {
                code: 1000,
                reason: None,
            },
        ),
    ]
    .map(|(case, exp)| {
        (
            ProtobufWebSocket {
                socket_id: b"test_id".to_vec(),
                message: Some(case),
            },
            WebSocket {
                socket_id: Id::try_from(b"test_id".to_vec()).unwrap(),
                message: exp,
            },
        )
    });

    for (case, exp) in protobuf_msgs {
        assert_eq!(WebSocket::try_from(case).unwrap(), exp);
    }
}

#[test]
fn test_from_websocket() {
    // check all variants
    let proto_msgs = [
        (
            WebSocketMessage::Text(String::new()),
            ProtobufWsMessage::Text(String::new()),
        ),
        (
            WebSocketMessage::Binary(Vec::new()),
            ProtobufWsMessage::Binary(Vec::new()),
        ),
        (
            WebSocketMessage::Ping(Vec::new()),
            ProtobufWsMessage::Ping(Vec::new()),
        ),
        (
            WebSocketMessage::Pong(Vec::new()),
            ProtobufWsMessage::Pong(Vec::new()),
        ),
        (
            WebSocketMessage::Close {
                code: 1000,
                reason: None,
            },
            ProtobufWsMessage::Close(ProtobufWsClose {
                code: 1000,
                reason: String::new(),
            }),
        ),
    ]
    .map(|(case, exp)| {
        (
            WebSocket {
                socket_id: Id::try_from(b"test_id".to_vec()).unwrap(),
                message: case,
            },
            ProtobufWebSocket {
                socket_id: b"test_id".to_vec(),
                message: Some(exp),
            },
        )
    });

    for (case, exp) in proto_msgs {
        assert_eq!(ProtobufWebSocket::from(case), exp);
    }
}

#[test]
fn id_text_is_lower_case_hex() {
    let id = Id::try_from(vec![0x00, 0x0f, 0xa0, 0xff, 0x7b]).unwrap();
    assert_eq!(id.to_string(), "000fa0ff7b");
    assert_eq!(id.to_debug_string(), "Id(000fa0ff7b)");
    assert_eq!(hex::decode(id.to_string()).unwrap(), vec![0x00, 0x0f, 0xa0, 0xff, 0x7b]);
    assert_eq!(id.as_bytes(), &vec![0x00, 0x0f, 0xa0, 0xff, 0x7b]);
    assert_eq!(id.clone().into_bytes(), vec![0x00, 0x0f, 0xa0, 0xff, 0x7b]);
}

#[test]
fn close_without_frame_is_normal_closure() {
    let msg = WebSocketMessage::try_from(Some(WsFrame::Close(None))).unwrap();
    assert_eq!(
        msg,
        WebSocketMessage::Close {
            code: 1000,
            reason: None
        }
    );
}

#[test]
fn close_with_frame_keeps_code_and_reason() {
    let frame = WsFrame::Close(Some(CloseFrame {
        code: 1001,
        reason: "bye".to_string(),
    }));
    let msg = WebSocketMessage::try_from(Some(frame)).unwrap();
    assert_eq!(
        msg,
        WebSocketMessage::Close {
            code: 1001,
            reason: Some("bye".to_string())
        }
    );
    assert_eq!(
        msg.into_frame(),
        WsFrame::Close(Some(CloseFrame {
            code: 1001,
            reason: "bye".to_string()
        }))
    );
}

#[test]
fn frames_pass_unchanged() {
    let cases = [
        (WsFrame::Text("hello".to_string()), WebSocketMessage::Text("hello".to_string())),
        (WsFrame::Binary(vec![1, 2]), WebSocketMessage::Binary(vec![1, 2])),
        (WsFrame::Ping(vec![3]), WebSocketMessage::Ping(vec![3])),
        (WsFrame::Pong(vec![4]), WebSocketMessage::Pong(vec![4])),
    ];
    for (frame, exp) in cases {
        let msg = WebSocketMessage::try_from(Some(frame.clone())).unwrap();
        assert_eq!(msg, exp);
        assert_eq!(msg.into_frame(), frame);
    }
}

#[test]
fn raw_frame_is_refused() {
    assert!(matches!(
        WebSocketMessage::try_from(None),
        Err(ProtocolError::WrongWsFrame)
    ));
    let id = Id::try_from(vec![1]).unwrap();
    assert!(matches!(
        ProtoMessage::from_frame(id, None),
        Err(ProtocolError::WrongWsFrame)
    ));
}

#[test]
fn close_without_reason_goes_out_with_empty_reason() {
    let msg = WebSocketMessage::close(1000, None);
    assert_eq!(
        msg.into_frame(),
        WsFrame::Close(Some(CloseFrame {
            code: 1000,
            reason: String::new()
        }))
    );
}

#[test]
fn tungstenite_messages_convert_both_ways() {
    let id = Id::try_from(b"sock".to_vec()).unwrap();

    let msg = ProtoMessage::try_from_tung(id.clone(), Tung::Text("abc".to_string())).unwrap();
    assert_eq!(
        msg,
        ProtoMessage::WebSocket(WebSocket {
            socket_id: id.clone(),
            message: WebSocketMessage::Text("abc".to_string())
        })
    );

    let msg = ProtoMessage::try_from_tung(id.clone(), Tung::Close(None)).unwrap();
    assert_eq!(
        msg.into_ws().unwrap().message,
        WebSocketMessage::Close {
            code: 1000,
            reason: None
        }
    );

    let close = Tung::Close(Some(TungClose {
        code: CloseCode::Away,
        reason: "gone".into(),
    }));
    let msg = ProtoMessage::try_from_tung(id.clone(), close.clone()).unwrap();
    let ws = msg.into_ws().unwrap();
    assert_eq!(
        ws.message,
        WebSocketMessage::Close {
            code: 1001,
            reason: Some("gone".to_string())
        }
    );
    assert_eq!(ws.message.into_tung(), close);

    assert_eq!(
        WebSocketMessage::Close {
            code: 1000,
            reason: None
        }
        .into_tung(),
        Tung::Close(Some(TungClose {
            code: CloseCode::Normal,
            reason: "".into()
        }))
    );
    assert_eq!(WebSocketMessage::Ping(vec![9]).into_tung(), Tung::Ping(vec![9]));
}

#[test]
fn close_code_must_fit_sixteen_bits() {
    let msg = ProtobufWebSocket {
        socket_id: b"test_id".to_vec(),
        message: Some(ProtobufWsMessage::Close(ProtobufWsClose {
            code: 65536,
            reason: String::new(),
        })),
    };
    assert!(matches!(
        WebSocket::try_from(msg),
        Err(ProtocolError::InvalidPortNumber(_))
    ));

    let msg = ProtobufWebSocket {
        socket_id: b"test_id".to_vec(),
        message: Some(ProtobufWsMessage::Close(ProtobufWsClose {
            code: 65535,
            reason: "why".to_string(),
        })),
    };
    assert_eq!(
        WebSocket::try_from(msg).unwrap().message,
        WebSocketMessage::Close {
            code: 65535,
            reason: Some("why".to_string())
        }
    );
}

#[test]
fn request_is_checked_field_by_field() {
    let good = ProtobufHttpRequest {
        path: "a".to_string(),
        method: "GET".to_string(),
        query_string: "b=c".to_string(),
        headers: vec![("Content-Type".to_string(), "text/plain".to_string())],
        body: vec![1],
        port: 8080,
    };
    let req = HttpRequest::try_from(good.clone()).unwrap();
    assert_eq!(req.method, "GET");
    assert_eq!(req.path, "a");
    assert_eq!(req.query_string, "b=c");
    assert_eq!(req.body, vec![1]);
    assert_eq!(req.port, 8080);
    assert_eq!(req.headers.len(), 1);
    assert_eq!(req.headers.get("content-type").unwrap().as_bytes(), b"text/plain");

    let mut bad = good.clone();
    bad.method = "GE T".to_string();
    assert!(matches!(
        HttpRequest::try_from(bad),
        Err(ProtocolError::InvalidHttpMethod(_))
    ));

    let mut bad = good.clone();
    bad.method = String::new();
    assert!(matches!(
        HttpRequest::try_from(bad),
        Err(ProtocolError::InvalidHttpMethod(_))
    ));

    let mut bad = good.clone();
    bad.headers = vec![("bad name".to_string(), "v".to_string())];
    assert!(matches!(
        HttpRequest::try_from(bad),
        Err(ProtocolError::Http(_))
    ));

    let mut bad = good.clone();
    bad.headers = vec![("name".to_string(), "line\nbreak".to_string())];
    assert!(matches!(
        HttpRequest::try_from(bad),
        Err(ProtocolError::Http(_))
    ));

    let mut bad = good.clone();
    bad.port = 65536;
    assert!(matches!(
        HttpRequest::try_from(bad),
        Err(ProtocolError::InvalidPortNumber(_))
    ));

    // the method is looked at before the headers, the headers before the port
    let mut bad = good.clone();
    bad.method = "\u{7f}".to_string();
    bad.headers = vec![(String::new(), String::new())];
    bad.port = 70000;
    assert!(matches!(
        HttpRequest::try_from(bad),
        Err(ProtocolError::InvalidHttpMethod(_))
    ));
    let mut bad = good;
    bad.headers = vec![(String::new(), String::new())];
    bad.port = 70000;
    assert!(matches!(
        HttpRequest::try_from(bad),
        Err(ProtocolError::Http(_))
    ));
}

#[test]
fn response_status_is_checked() {
    let response = |status_code: u32| ProtobufHttpResponse {
        status_code,
        headers: vec![("a".to_string(), "\tb".to_string())],
        body: vec![7],
    };
    for ok in [100u32, 200, 599, 999] {
        let res = HttpResponse::try_from(response(ok)).unwrap();
        assert_eq!(u32::from(res.status()), ok);
        assert_eq!(res.body, vec![7]);
        assert_eq!(res.headers.get("a").unwrap().as_bytes(), b"\tb");
    }
    for bad in [0u32, 99, 1000, 65535] {
        assert!(matches!(
            HttpResponse::try_from(response(bad)),
            Err(ProtocolError::InvalidStatusCode(_))
        ));
    }
    assert!(matches!(
        HttpResponse::try_from(response(65536)),
        Err(ProtocolError::InvalidPortNumber(_))
    ));
}

#[test]
fn thousands_of_headers_are_taken_over() {
    let headers: Vec<(String, String)> = (0..6553)
        .map(|i| (format!("x-header-{i}"), format!("value {i}")))
        .collect();
    let request = ProtobufHttpRequest {
        path: String::new(),
        method: "GET".to_string(),
        query_string: String::new(),
        headers: headers.clone(),
        body: Vec::new(),
        port: 80,
    };
    let req = HttpRequest::try_from(request).unwrap();
    assert_eq!(req.headers.len(), 6553);
    assert_eq!(req.headers.get("x-header-6552").unwrap().as_bytes(), b"value 6552");
    assert_eq!(sorted(headermap_to_hashmap(&req.headers)), sorted(headers));
}

#[test]
fn response_without_body_is_empty() {
    let res = HttpResponse::from_parts(204, http::HeaderMap::new(), None);
    assert_eq!(res.status(), 204);
    assert!(res.body.is_empty());
    let res = HttpResponse::from_parts(200, http::HeaderMap::new(), Some(vec![1, 2]));
    assert_eq!(res.body, vec![1, 2]);
}

#[test]
fn http_needs_an_identifier_and_a_message() {
    let mut msg = empty_protobuf_http(b"");
    assert!(matches!(Http::try_from(msg.clone()), Err(ProtocolError::Empty)));
    // the name is looked at first
    msg.message = Some(ProtobufHttpMessage::Request(ProtobufHttpRequest {
        path: String::new(),
        method: String::new(),
        query_string: String::new(),
        headers: Vec::new(),
        body: Vec::new(),
        port: 0,
    }));
    assert!(matches!(Http::try_from(msg), Err(ProtocolError::Empty)));

    let http = Http::try_from(empty_protobuf_http(b"id")).unwrap();
    assert_eq!(http, empty_http(b"id"));
    assert!(http.http_msg.into_req().is_some());
    assert!(http_message_req().into_res().is_none());
    let http = Http::new(Id::try_from(vec![1]).unwrap(), http_message_req());
    assert_eq!(http.request_id.to_string(), "01");
}

#[test]
fn envelope_needs_a_protocol() {
    assert!(matches!(
        ProtoMessage::try_from_message(ProtobufMessage { protocol: None }),
        Err(ProtocolError::Empty)
    ));
    let msg = ProtoMessage::try_from_message(ProtobufMessage {
        protocol: Some(ProtobufProtocol::Http(empty_protobuf_http(b"x"))),
    })
    .unwrap();
    assert_eq!(msg, ProtoMessage::Http(empty_http(b"x")));
    assert_eq!(msg.into_http().unwrap(), empty_http(b"x"));
    assert!(ProtoMessage::Http(empty_http(b"x")).into_ws().is_none());
}

#[test]
fn headers_go_on_the_wire_once_per_name() {
    let mut headers = http::HeaderMap::new();
    headers.append("accept", http::HeaderValue::from_static("a"));
    headers.append("accept", http::HeaderValue::from_static("b"));
    headers.append("host", http::HeaderValue::from_static("h"));
    headers.append("x-bin", http::HeaderValue::from_bytes(&[0xff, 0x41]).unwrap());
    let pairs = sorted(headermap_to_hashmap(&headers));
    assert_eq!(pairs.len(), 3);
    // of the values of one name, the last goes on the wire
    assert_eq!(pairs[0], ("accept".to_string(), "b".to_string()));
    assert_eq!(pairs[1], ("host".to_string(), "h".to_string()));
    assert_eq!(pairs[2], ("x-bin".to_string(), "\u{fffd}A".to_string()));
}

#[test]
fn request_round_trips_through_bytes() {
    let id = Id::try_from(b"3647edbb".to_vec()).unwrap();
    let msg = ProtoMessage::Http(Http::new(id.clone(), HttpMessage::Request(sample_request())));
    let bytes = msg.encode().unwrap();
    assert!(!bytes.is_empty());
    let back = ProtoMessage::decode(&bytes).unwrap();
    assert_eq!(
        back,
        ProtoMessage::Http(Http::new(id, HttpMessage::Request(sample_request())))
    );
}

#[test]
fn response_round_trips_through_bytes() {
    let response = || {
        let mut headers = http::HeaderMap::new();
        headers.insert("content-length", http::HeaderValue::from_static("3"));
        HttpResponse {
            status_code: 404,
            headers,
            body: b"abc".to_vec(),
        }
    };
    let id = Id::try_from(vec![0xde, 0xad]).unwrap();
    let msg = ProtoMessage::Http(Http::new(id.clone(), HttpMessage::Response(response())));
    let back = ProtoMessage::decode(&msg.encode().unwrap()).unwrap();
    assert_eq!(
        back,
        ProtoMessage::Http(Http::new(id, HttpMessage::Response(response())))
    );
}

#[test]
fn web_socket_round_trips_through_bytes() {
    let frames = [
        WebSocketMessage::Text("text".to_string()),
        WebSocketMessage::Binary(vec![0, 255]),
        WebSocketMessage::Ping(vec![1]),
        WebSocketMessage::Pong(Vec::new()),
        WebSocketMessage::Close {
            code: 1000,
            reason: None,
        },
        WebSocketMessage::Close {
            code: 4000,
            reason: Some("done".to_string()),
        },
    ];
    for frame in frames {
        let id = Id::try_from(b"socket".to_vec()).unwrap();
        let msg = ProtoMessage::WebSocket(WebSocket {
            socket_id: id.clone(),
            message: frame.clone(),
        });
        let back = ProtoMessage::decode(&msg.encode().unwrap()).unwrap();
        assert_eq!(
            back,
            ProtoMessage::WebSocket(WebSocket {
                socket_id: id,
                message: frame
            })
        );
    }
}

#[test]
fn close_with_empty_reason_comes_back_without_reason() {
    let id = Id::try_from(b"socket".to_vec()).unwrap();
    let msg = ProtoMessage::WebSocket(WebSocket {
        socket_id: id,
        message: WebSocketMessage::Close {
            code: 1000,
            reason: Some(String::new()),
        },
    });
    let back = ProtoMessage::decode(&msg.encode().unwrap()).unwrap();
    assert_eq!(
        back.into_ws().unwrap().message,
        WebSocketMessage::Close {
            code: 1000,
            reason: None
        }
    );
}

#[test]
fn encoded_bytes_are_those_of_the_schema() {
    let id = Id::try_from(b"id".to_vec()).unwrap();
    let msg = ProtoMessage::WebSocket(WebSocket {
        socket_id: id,
        message: WebSocketMessage::Binary(vec![1, 2, 3]),
    });
    let expected = proto::Message {
        protocol: Some(proto::message::Protocol::Ws(proto::WebSocket {
            socket_id: b"id".to_vec(),
            message: Some(proto::web_socket::Message::Binary(vec![1, 2, 3])),
        })),
    }
    .encode_to_vec();
    assert_eq!(msg.encode().unwrap(), expected);

    let wire = proto::Message {
        protocol: Some(proto::message::Protocol::Http(proto::Http {
            request_id: b"id".to_vec(),
            message: Some(proto::http::Message::Response(proto::http::Response {
                status_code: 200,
                headers: [("content-type".to_string(), "text/html".to_string())]
                    .into_iter()
                    .collect(),
                body: b"<p>".to_vec(),
            })),
        })),
    }
    .encode_to_vec();
    let decoded = ProtoMessage::decode(&wire).unwrap();
    let res = decoded.into_http().unwrap().http_msg.into_res().unwrap();
    assert_eq!(res.status(), 200);
    assert_eq!(res.body, b"<p>".to_vec());
    assert_eq!(res.headers.get("content-type").unwrap().as_bytes(), b"text/html");
}

#[test]
fn bytes_that_are_no_envelope_are_refused() {
    assert!(matches!(
        ProtoMessage::decode(&[0xff, 0xff, 0xff]),
        Err(ProtocolError::Decode(_))
    ));
    // no bytes are an envelope without a protocol
    assert!(matches!(ProtoMessage::decode(&[]), Err(ProtocolError::Empty)));
}

#[test]
fn what_the_protobuf_library_gave_is_handed_on() {
    let bytes = ProtoMessage::encoded(Ok(vec![8, 0, 255])).unwrap();
    assert_eq!(bytes, vec![8, 0, 255]);
    assert_eq!(ProtoMessage::encoded(Ok(Vec::new())).unwrap(), Vec::<u8>::new());

    // a buffer that is too small makes the library fail
    let envelope = proto::Message {
        protocol: Some(proto::message::Protocol::Ws(proto::WebSocket {
            socket_id: b"id".to_vec(),
            message: Some(proto::web_socket::Message::Binary(vec![1, 2, 3])),
        })),
    };
    let mut small = [0u8; 2];
    let mut buf = &mut small[..];
    let failure = envelope.encode(&mut buf).unwrap_err();
    assert!(matches!(
        ProtoMessage::encoded(Err(failure)),
        Err(ProtocolError::Encode(_))
    ));
}

#[test]
fn the_last_value_of_a_name_goes_through_the_bytes() {
    let mut headers = http::HeaderMap::new();
    headers.append("set-cookie", http::HeaderValue::from_static("first"));
    headers.append("host", http::HeaderValue::from_static("h"));
    headers.append("set-cookie", http::HeaderValue::from_static("second"));
    headers.append("set-cookie", http::HeaderValue::from_static("third"));
    let response = HttpResponse {
        status_code: 200,
        headers,
        body: Vec::new(),
    };
    let id = Id::try_from(vec![1]).unwrap();
    let msg = ProtoMessage::Http(Http::new(id, HttpMessage::Response(response)));
    let back = ProtoMessage::decode(&msg.encode().unwrap()).unwrap();
    let response = back.into_http().unwrap().http_msg.into_res().unwrap();
    assert_eq!(
        sorted(headermap_to_hashmap(&response.headers)),
        vec![
            ("host".to_string(), "h".to_string()),
            ("set-cookie".to_string(), "third".to_string())
        ]
    );
}

#[test]
fn encoding_never_fails_and_never_gives_no_bytes() {
    let frames = [
        WebSocketMessage::Text(String::new()),
        WebSocketMessage::Binary(Vec::new()),
        WebSocketMessage::Close {
            code: 0,
            reason: None,
        },
    ];
    for frame in frames {
        let msg = ProtoMessage::WebSocket(WebSocket {
            socket_id: Id::try_from(vec![0]).unwrap(),
            message: frame.clone(),
        });
        let bytes = msg.encode().unwrap();
        assert!(!bytes.is_empty());
        assert_eq!(
            ProtoMessage::decode(&bytes).unwrap().into_ws().unwrap().message,
            frame
        );
    }
}
