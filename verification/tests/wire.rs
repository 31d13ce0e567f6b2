use obs_mock::wire::{negotiate, WireFormat};

#[test]
fn no_header_means_json_named() {
    assert_eq!(negotiate(None), (WireFormat::Json, true));
}

#[test]
fn json_named_wins_over_msgpack() {
    assert_eq!(negotiate(Some("obswebsocket.msgpack, obswebsocket.json")), (WireFormat::Json, true));
    assert_eq!(negotiate(Some("obswebsocket.json")), (WireFormat::Json, true));
}

#[test]
fn msgpack_only_when_json_is_not_named() {
    assert_eq!(negotiate(Some("obswebsocket.msgpack")), (WireFormat::MsgPack, true));
    assert_eq!(negotiate(Some("chat, obswebsocket.msgpack")), (WireFormat::MsgPack, true));
}

#[test]
fn unknown_subprotocol_is_json_unnamed() {
    assert_eq!(negotiate(Some("chat")), (WireFormat::Json, false));
    assert_eq!(negotiate(Some("")), (WireFormat::Json, false));
    assert_eq!(negotiate(Some("obswebsocket.jso")), (WireFormat::Json, false));
}
