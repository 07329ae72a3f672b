//! The WebSocket path of the reverse proxy: rewriting the target URL to
//! the WebSocket scheme, the upgrade handshake, and the frame-forwarding
//! rule that answers pings locally, swallows pongs, relays data frames
//! verbatim and ends the session on a close.

use vstd::prelude::*;

use crate::proxy::SynthesizedResponse;
use crate::proxy::spec_path_query;
use crate::strutil::spec_starts_with;
use crate::strutil::starts_with_str;

verus! {

/// The upstream URL with the scheme rewritten for WebSocket use:
/// `https` becomes `wss`, `http` becomes `ws`, and a target with
/// neither prefix is used as a `ws` host as it stands.
pub open spec fn spec_ws_target(target: Seq<char>, path: Seq<char>, query: Option<Seq<char>>) -> Seq<
    char,
> {
    if spec_starts_with(target, "https://"@) {
        "wss://"@ + target.skip(8) + spec_path_query(path, query)
    } else if spec_starts_with(target, "http://"@) {
        "ws://"@ + target.skip(7) + spec_path_query(path, query)
    } else {
        "ws://"@ + target + spec_path_query(path, query)
    }
}

/// Rewrite the current target into the WebSocket URL for this request.
pub fn ws_rewrite_target(target: &str, path: &str, query: Option<&str>) -> (r: String)
    ensures
        r@ == spec_ws_target(target@, path@, match query {
            Some(q) => Some(q@),
            None => None,
        }),
{
    proof {
        reveal_strlit("https://");
        reveal_strlit("http://");
    }
    let len = target.unicode_len();
    let mut url: String;
    if starts_with_str(target, "https://") {
        url = String::from_str("wss://");
        let rest = target.substring_char(8, len);
        proof {
            assert(rest@ =~= target@.skip(8));
        }
        url.append(rest);
    } else if starts_with_str(target, "http://") {
        url = String::from_str("ws://");
        let rest = target.substring_char(7, len);
        proof {
            assert(rest@ =~= target@.skip(7));
        }
        url.append(rest);
    } else {
        url = String::from_str("ws://");
        url.append(target);
    }
    url.append(path);
    match query {
        Some(q) => {
            url.append("?");
            url.append(q);
            proof {
                assert(url@ =~= spec_ws_target(target@, path@, Some(q@)));
            }
        },
        None => {
            proof {
                assert(url@ =~= spec_ws_target(target@, path@, None::<Seq<char>>));
            }
        },
    }
    url
}

/// The accept token derived from a `Sec-WebSocket-Key`, as RFC 6455
/// prescribes it.
pub uninterp spec fn accept_key_of(key: Seq<char>) -> Seq<char>;

/// Relies on tungstenite::handshake::derive_accept_key: SHA-1 over the
/// key and the fixed GUID, base64-encoded — a function of the key alone.
#[verifier::external_body]
fn derive_accept(key: &str) -> (r: String)
    ensures
        r@ == accept_key_of(key@),
{
    tungstenite::handshake::derive_accept_key(key.as_bytes())
}

/// The headers of the 101 response that completes the upgrade handshake
/// on the inbound connection.
#[derive(Clone, Debug)]
pub struct WsUpgradeResponse {
    pub status: u16,
    pub upgrade: String,
    pub connection: String,
    pub accept: String,
    pub version: String,
}

/// Build the upgrade response for the inbound connection: a missing
/// `Sec-WebSocket-Key` is a protocol error; otherwise the response is
/// 101 with the derived accept token and the fixed upgrade headers.
pub fn ws_handshake_response(key: Option<&str>) -> (r: Result<WsUpgradeResponse, String>)
    ensures
        r is Ok <==> key is Some,
        key is None ==> (r matches Err(e) && e@ == "Missing Sec-WebSocket-Key header"@),
        key matches Some(k) ==> (r matches Ok(h) && {
            &&& h.status == 101
            &&& h.upgrade@ == "websocket"@
            &&& h.connection@ == "upgrade"@
            &&& h.accept@ == accept_key_of(k@)
            &&& h.version@ == "13"@
        }),
{
    match key {
        Some(k) => Ok(
            WsUpgradeResponse {
                status: 101,
                upgrade: String::from_str("websocket"),
                connection: String::from_str("upgrade"),
                accept: derive_accept(k),
                version: String::from_str("13"),
            },
        ),
        None => Err(String::from_str("Missing Sec-WebSocket-Key header")),
    }
}

/// The 500 answer when the outbound WebSocket connection could not be
/// opened.
pub fn ws_connect_failed_response(error: &str) -> (r: SynthesizedResponse)
    ensures
        r.status == 500,
        r.body@ == "WebSocket connection failed: "@ + error@,
{
    let mut body = String::from_str("WebSocket connection failed: ");
    body.append(error);
    SynthesizedResponse { status: 500, body }
}

/// One WebSocket frame, as the forwarding loops see it.
#[derive(Clone, Debug)]
pub enum WsFrame {
    Text(String),
    Binary(Vec<u8>),
    Ping(Vec<u8>),
    Pong(Vec<u8>),
    Close,
}

/// What a forwarding loop does with one received frame.
#[derive(Clone, Debug)]
pub enum RelayAction {
    /// Answer a ping locally: send this pong onward to the destination
    /// side instead of forwarding the ping itself.
    SendPong(Vec<u8>),
    /// Swallow the frame.
    DropFrame,
    /// End the session.
    EndSession,
    /// Relay the frame verbatim.
    ForwardFrame(WsFrame),
}

/// The forwarding rule: a ping becomes a pong sent onward to the
/// destination side — an upstream ping yields a pong to the client — a
/// pong is swallowed, a close ends the loop, and every other frame is
/// relayed verbatim. Both directions treat frames symmetrically.
pub open spec fn spec_relay_action(f: WsFrame) -> RelayAction {
    match f {
        WsFrame::Ping(d) => RelayAction::SendPong(d),
        WsFrame::Pong(_) => RelayAction::DropFrame,
        WsFrame::Close => RelayAction::EndSession,
        _ => RelayAction::ForwardFrame(f),
    }
}

/// Decide what to do with one received frame.
pub fn relay_action(frame: WsFrame) -> (a: RelayAction)
    ensures
        a == spec_relay_action(frame),
{
    match frame {
        WsFrame::Ping(d) => RelayAction::SendPong(d),
        WsFrame::Pong(_) => RelayAction::DropFrame,
        WsFrame::Close => RelayAction::EndSession,
        other => RelayAction::ForwardFrame(other),
    }
}

/// A received ping is answered with a pong carrying the same payload,
/// and no ping is ever forwarded: whatever is relayed verbatim is the
/// received frame and is neither a ping, a pong nor a close.
pub proof fn lemma_ping_answered_locally(f: WsFrame)
    ensures
        f matches WsFrame::Ping(d) ==> spec_relay_action(f) == RelayAction::SendPong(d),
        spec_relay_action(f) matches RelayAction::ForwardFrame(g) ==> g == f && !(f is Ping) && !(f
            is Pong) && !(f is Close),
{
}

/// The frames one received frame causes to be sent onward: a pong for a
/// ping, nothing for a pong or a close, the frame itself otherwise.
pub open spec fn spec_relay_emit(f: WsFrame) -> Seq<WsFrame> {
    match f {
        WsFrame::Ping(d) => seq![WsFrame::Pong(d)],
        WsFrame::Pong(_) => seq![],
        WsFrame::Close => seq![],
        _ => seq![f],
    }
}

/// Everything a forwarding loop sends for a sequence of received
/// frames: it emits per frame until the first close, which ends the
/// session and emits nothing further.
pub open spec fn spec_relay_sent(frames: Seq<WsFrame>) -> Seq<WsFrame>
    decreases frames.len(),
{
    if frames.len() == 0 {
        seq![]
    } else if frames[0] is Close {
        seq![]
    } else {
        spec_relay_emit(frames[0]) + spec_relay_sent(frames.drop_first())
    }
}

/// How many received frames the loop consumes: everything up to and
/// including the first close, or all of them when no close arrives
/// before the stream ends.
pub open spec fn spec_relay_consumed(frames: Seq<WsFrame>) -> int
    decreases frames.len(),
{
    if frames.len() == 0 {
        0
    } else if frames[0] is Close {
        1
    } else {
        1 + spec_relay_consumed(frames.drop_first())
    }
}

/// What one forwarding direction did for a finished stream of received
/// frames.
pub struct RelayRun {
    /// The frames sent onward, in order.
    pub sent: Vec<WsFrame>,
    /// How many received frames were consumed before the loop ended.
    pub consumed: usize,
}

/// Run one forwarding direction over the frames received until the
/// stream ended: pings are answered with pongs, pongs swallowed, data
/// relayed, and the first close ends the loop at once.
#[verifier::loop_isolation(false)]
pub fn run_relay(frames: Vec<WsFrame>) -> (r: RelayRun)
    ensures
        r.sent@ == spec_relay_sent(frames@),
        r.consumed == spec_relay_consumed(frames@),
{
    let ghost orig = frames@;
    let mut pending = frames;
    let n_total = pending.len();
    let mut sent: Vec<WsFrame> = Vec::new();
    let mut consumed: usize = 0;
    while pending.len() > 0
        invariant
            n_total == orig.len(),
            consumed + pending@.len() == n_total,
            spec_relay_sent(orig) == sent@ + spec_relay_sent(pending@),
            spec_relay_consumed(orig) == consumed + spec_relay_consumed(pending@),
        decreases pending@.len(),
    {
        let ghost before = pending@;
        let frame = pending.remove(0);
        proof {
            assert(before.remove(0) =~= before.drop_first());
            assert(frame == before[0]);
        }
        match relay_action(frame) {
            RelayAction::SendPong(d) => {
                sent.push(WsFrame::Pong(d));
                proof {
                    assert(spec_relay_sent(before) == spec_relay_emit(before[0])
                        + spec_relay_sent(before.drop_first()));
                    assert(sent@ =~= sent@.drop_last() + spec_relay_emit(before[0]));
                }
            },
            RelayAction::DropFrame => {
                proof {
                    assert(spec_relay_sent(before) == spec_relay_emit(before[0])
                        + spec_relay_sent(before.drop_first()));
                    assert(sent@ + spec_relay_sent(pending@) =~= spec_relay_sent(orig));
                }
            },
            RelayAction::EndSession => {
                proof {
                    assert(before[0] is Close);
                    assert(spec_relay_sent(before) =~= seq![]);
                    assert(sent@ + spec_relay_sent(before) =~= sent@);
                    assert(spec_relay_sent(orig) == sent@);
                    assert(spec_relay_consumed(before) == 1);
                    assert(consumed + 1 <= n_total);
                }
                return RelayRun { sent, consumed: consumed + 1 };
            },
            RelayAction::ForwardFrame(g) => {
                sent.push(g);
                proof {
                    assert(spec_relay_sent(before) == spec_relay_emit(before[0])
                        + spec_relay_sent(before.drop_first()));
                    assert(sent@ =~= sent@.drop_last() + spec_relay_emit(before[0]));
                }
            },
        }
        proof {
            assert(sent@ + spec_relay_sent(pending@) =~= spec_relay_sent(orig));
        }
        consumed = consumed + 1;
    }
    proof {
        assert(spec_relay_sent(pending@) =~= seq![]);
        assert(sent@ + spec_relay_sent(pending@) =~= sent@);
    }
    RelayRun { sent, consumed }
}

/// The proxy generates clean traffic: whatever a forwarding loop sends
/// onward, none of it is a ping and none of it is a close — pings are
/// answered locally and a close only ever ends the loop.
pub proof fn lemma_relay_sends_no_control_frames(frames: Seq<WsFrame>)
    ensures
        forall|i: int|
            0 <= i < spec_relay_sent(frames).len() ==> !(#[trigger] spec_relay_sent(frames)[i]
                is Ping) && !(spec_relay_sent(frames)[i] is Close),
    decreases frames.len(),
{
    if frames.len() > 0 && !(frames[0] is Close) {
        lemma_relay_sends_no_control_frames(frames.drop_first());
        let emitted = spec_relay_emit(frames[0]);
        let rest = spec_relay_sent(frames.drop_first());
        assert(forall|i: int|
            0 <= i < emitted.len() ==> !(#[trigger] emitted[i] is Ping) && !(emitted[i] is Close));
        assert(forall|i: int|
            0 <= i < spec_relay_sent(frames).len() ==> spec_relay_sent(frames)[i] == if i
                < emitted.len() {
                emitted[i]
            } else {
                rest[i - emitted.len()]
            });
    }
}

/// A close received from one side ends that forwarding loop within the
/// iteration that receives it: exactly the frames before the close are
/// consumed-and-relayed, and nothing after the close is sent.
pub proof fn lemma_close_ends_relay(frames: Seq<WsFrame>, k: int)
    requires
        0 <= k < frames.len(),
        frames[k] is Close,
        forall|j: int| 0 <= j < k ==> !(frames[j] is Close),
    ensures
        spec_relay_consumed(frames) == k + 1,
        spec_relay_sent(frames) == spec_relay_sent(frames.subrange(0, k)),
    decreases k,
{
    if k == 0 {
        assert(spec_relay_sent(frames.subrange(0, 0)) =~= seq![]);
        assert(spec_relay_sent(frames) =~= seq![]);
    } else {
        let rest = frames.drop_first();
        assert(rest[k - 1] is Close);
        assert(forall|j: int| 0 <= j < k - 1 ==> !(#[trigger] rest[j] is Close));
        lemma_close_ends_relay(rest, k - 1);
        assert(frames.subrange(0, k).drop_first() =~= rest.subrange(0, k - 1));
        assert(frames.subrange(0, k)[0] == frames[0]);
    }
}

} // verus!
