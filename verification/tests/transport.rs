use std::sync::Mutex;
use tonapi::error::{TonApiError, TonApiResult};
use tonapi::server::Server;
use tonapi::websocket::{new_websocket_client, ReceiveResult, SubscribeTrace, WebSocketConfig, WebSocketMessage};
use tonapi::ws::{
    frame_to_text, WebSocketFacade, WebSocketFacadeConfig, WebSocketReadFacade,
    WebSocketSplitFacade, WebSocketWriteFacade, WsFrame,
};

struct SilentRead;

impl WebSocketReadFacade for SilentRead {
    fn recv(&mut self) -> TonApiResult<Option<String>> {
        Ok(None)
    }
}

struct DiscardingWrite;

impl WebSocketWriteFacade for DiscardingWrite {
    fn send(&mut self, _message: String) -> TonApiResult<()> {
        Ok(())
    }
}

struct QuietConn;

impl WebSocketFacade for QuietConn {
    fn connect(_config: WebSocketFacadeConfig) -> TonApiResult<Self> {
        Ok(QuietConn)
    }
}

impl WebSocketSplitFacade for QuietConn {
    type Read = SilentRead;
    type Write = DiscardingWrite;

    fn split(self) -> TonApiResult<(Self::Read, Self::Write)> {
        Ok((SilentRead, DiscardingWrite))
    }
}

#[test]
fn id_allocator_issues_consecutive_ids_from_zero() {
    let config = WebSocketConfig { server: Server::Custom("wss://example.test/ws".to_string()) };
    let (_read, mut write) = new_websocket_client::<QuietConn>(config).expect("stub connect");
    assert_eq!(write.id_counter(), 0);
    let mut seen = Vec::new();
    for _ in 0..5 {
        seen.push(write.next_id());
    }
    assert_eq!(seen, vec![0, 1, 2, 3, 4]);
    assert_eq!(write.id_counter(), 5);
}

#[test]
fn read_half_with_zero_frames_returns_none() {
    let config = WebSocketConfig { server: Server::Custom("wss://example.test/ws".to_string()) };
    let (mut read, _write) = new_websocket_client::<QuietConn>(config).expect("stub connect");
    assert!(read.recv().expect("clean end of stream is not an error").is_none());
}

static SENT: Mutex<Vec<String>> = Mutex::new(Vec::new());

struct ScriptedRead {
    frames: Vec<String>,
    next: usize,
}

impl WebSocketReadFacade for ScriptedRead {
    fn recv(&mut self) -> TonApiResult<Option<String>> {
        if self.next < self.frames.len() {
            self.next += 1;
            Ok(Some(self.frames[self.next - 1].clone()))
        } else {
            Ok(None)
        }
    }
}

struct RecordingWrite;

impl WebSocketWriteFacade for RecordingWrite {
    fn send(&mut self, message: String) -> TonApiResult<()> {
        SENT.lock().unwrap().push(message);
        Ok(())
    }
}

struct ScriptedConn;

impl WebSocketFacade for ScriptedConn {
    fn connect(config: WebSocketFacadeConfig) -> TonApiResult<Self> {
        assert_eq!(config.url, "wss://example.test/ws");
        Ok(ScriptedConn)
    }
}

impl WebSocketSplitFacade for ScriptedConn {
    type Read = ScriptedRead;
    type Write = RecordingWrite;

    fn split(self) -> TonApiResult<(Self::Read, Self::Write)> {
        let frames = vec![
            "{\"method\":\"subscribe_trace\",\"id\":0,\"jsonrpc\":\"2.0\",\"result\":\"success\"}"
                .to_string(),
            "{\"unexpected\":\"shape\"}".to_string(),
        ];
        Ok((ScriptedRead { frames, next: 0 }, RecordingWrite))
    }
}

#[test]
fn subscribe_then_receive_ack_and_raw() {
    let config = WebSocketConfig { server: Server::Custom("wss://example.test/ws".to_string()) };
    let (mut read, mut write) = new_websocket_client::<ScriptedConn>(config).expect("stub connect");

    let sub = SubscribeTrace { accounts: vec!["EQabc".to_string()] };
    write.execute(&sub).expect("stub send");
    {
        let sent = SENT.lock().unwrap();
        assert_eq!(
            sent.as_slice(),
            &["{\"id\":0,\"jsonrpc\":\"2.0\",\"method\":\"subscribe_trace\",\"params\":[\"EQabc\"]}"
                .to_string()]
        );
    }

    match read.recv().expect("scripted frame") {
        Some(ReceiveResult::Message(WebSocketMessage::SubscribeTrace { id, jsonrpc, result })) => {
            assert_eq!(id, Some(0));
            assert_eq!(jsonrpc, "2.0");
            assert_eq!(result, "success");
        }
        other => panic!("expected parsed acknowledgment, got {:?}", other),
    }

    match read.recv().expect("scripted frame") {
        Some(ReceiveResult::Raw(text)) => assert_eq!(text, "{\"unexpected\":\"shape\"}"),
        other => panic!("expected raw fallback, got {:?}", other),
    }

    assert!(read.recv().expect("end of stream").is_none());

    write.execute(&sub).expect("stub send");
    {
        let sent = SENT.lock().unwrap();
        assert!(sent[1].starts_with("{\"id\":1,"));
    }
}

struct FailingConn;

impl WebSocketFacade for FailingConn {
    fn connect(_config: WebSocketFacadeConfig) -> TonApiResult<Self> {
        Err(TonApiError::Connection("handshake refused".to_string()))
    }
}

impl WebSocketSplitFacade for FailingConn {
    type Read = SilentRead;
    type Write = DiscardingWrite;

    fn split(self) -> TonApiResult<(Self::Read, Self::Write)> {
        Ok((SilentRead, DiscardingWrite))
    }
}

#[test]
fn connect_failure_propagates_as_connection_error() {
    let config = WebSocketConfig { server: Server::MainNet };
    match new_websocket_client::<FailingConn>(config) {
        Err(e) => assert_eq!(e.describe(), "connection error"),
        Ok(_) => panic!("expected the connection error to propagate"),
    }
}

#[test]
fn server_endpoints_resolve_to_their_urls() {
    assert_eq!(Server::MainNet.url(), "wss://tonapi.io/v2/websocket");
    assert_eq!(Server::TestNet.url(), "wss://testnet.tonapi.io/v2/websocket");
    assert_eq!(Server::Custom("wss://me.example/ws".to_string()).url(), "wss://me.example/ws");
    assert!(matches!(Server::default(), Server::MainNet));
}

#[test]
fn frames_normalize_to_sentinel_text() {
    assert_eq!(frame_to_text(WsFrame::Text("hello".to_string())), "hello");
    assert_eq!(frame_to_text(WsFrame::Binary(vec![1, 2, 3])), "binary");
    assert_eq!(frame_to_text(WsFrame::Ping(Vec::new())), "ping");
    assert_eq!(frame_to_text(WsFrame::Pong(Vec::new())), "pong");
    assert_eq!(frame_to_text(WsFrame::Close), "close");
    assert_eq!(frame_to_text(WsFrame::Frame), "frame");
}

#[test]
fn error_descriptions_name_the_failure_class() {
    assert_eq!(TonApiError::Connection("x".to_string()).describe(), "connection error");
    assert_eq!(TonApiError::Transport("x".to_string()).describe(), "transport error");
    assert_eq!(TonApiError::Serialization("x".to_string()).describe(), "serialization error");
}
