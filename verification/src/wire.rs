//! The choice of wire format from the subprotocols that a client offers.
use vstd::prelude::*;

verus! {

/// How messages are framed on the wire: JSON text or MessagePack bytes.
#[derive(Debug, Clone, Copy, PartialEq, Eq)]
pub enum WireFormat {
    Json,
    MsgPack,
}

/// `p` occurs in `h` as a run of consecutive bytes.
pub open spec fn has_part(h: Seq<u8>, p: Seq<u8>) -> bool {
    exists|i: int| 0 <= i && i + p.len() <= h.len() && #[trigger] h.subrange(i, i + p.len()) == p
}

/// The subprotocol names, as the bytes that the header carries.
pub open spec fn json_name() -> Seq<u8> {
    vstd::utf8::encode_utf8("obswebsocket.json"@)
}

pub open spec fn msgpack_name() -> Seq<u8> {
    vstd::utf8::encode_utf8("obswebsocket.msgpack"@)
}

/// The format and whether its subprotocol is named in the handshake reply,
/// for the `Sec-WebSocket-Protocol` header `header` (its text; absent where
/// the client sent none): JSON and named where there is no header or the
/// header names the JSON subprotocol; MessagePack and named where it names
/// only the MessagePack one; JSON, unnamed, otherwise.
pub open spec fn negotiated(header: Option<Seq<char>>) -> (WireFormat, bool) {
    match header {
        None => (WireFormat::Json, true),
        Some(h) => {
            let b = vstd::utf8::encode_utf8(h);
            if has_part(b, json_name()) {
                (WireFormat::Json, true)
            } else if has_part(b, msgpack_name()) {
                (WireFormat::MsgPack, true)
            } else {
                (WireFormat::Json, false)
            }
        },
    }
}

/// Whether `p` occurs in `h`.
fn bytes_contain(h: &[u8], p: &[u8]) -> (r: bool)
    ensures
        r == has_part(h@, p@),
{
    let n = h.len();
    let m = p.len();
    if m > n {
        return false;
    }
    let mut i: usize = 0;
    while i <= n - m
        invariant
            n == h@.len(),
            m == p@.len(),
            m <= n,
            i <= n - m + 1,
            forall|j: int| 0 <= j < i ==> #[trigger] h@.subrange(j, j + m) != p@,
        decreases n - i,
    {
        let mut k: usize = 0;
        let mut same = true;
        while k < m
            invariant
                n == h@.len(),
                m == p@.len(),
                i + m <= n,
                k <= m,
                same == forall|t: int| 0 <= t < k ==> h@[i + t] == p@[t],
            decreases m - k,
        {
            if h[i + k] != p[k] {
                same = false;
            }
            k = k + 1;
        }
        if same {
            assert(h@.subrange(i as int, i + m) =~= p@);
            return true;
        }
        assert(h@.subrange(i as int, i + m) != p@) by {
            let t = choose|t: int| 0 <= t < m && h@[i + t] != p@[t];
            assert(h@.subrange(i as int, i + m)[t] == h@[i + t]);
        }
        i = i + 1;
    }
    false
}

/// Chooses the wire format as `negotiated` says.
pub fn negotiate(header: Option<&str>) -> (r: (WireFormat, bool))
    ensures
        r == negotiated(
            match header {
                Some(h) => Some(h@),
                None => None,
            },
        ),
{
    match header {
        None => (WireFormat::Json, true),
        Some(h) => {
            let b = h.as_bytes();
            let json = "obswebsocket.json".as_bytes();
            let msgpack = "obswebsocket.msgpack".as_bytes();
            if bytes_contain(b, json) {
                (WireFormat::Json, true)
            } else if bytes_contain(b, msgpack) {
                (WireFormat::MsgPack, true)
            } else {
                (WireFormat::Json, false)
            }
        },
    }
}

} // verus!
