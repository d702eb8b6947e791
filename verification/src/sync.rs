use vstd::prelude::*;
use vstd::string::StringExecFns;

use crate::config::str_eq;
use crate::error::SshError;

verus! {

// The peer sync exchange: two stateless operations over one fixed port and
// one store file. A sender submits the store's bytes in a single request;
// a receiver serves the current bytes on a read and overwrites them whole
// on a write, last writer wins, with no validation of the body. The caller
// moves the bytes; the routing and the wire contract are decided here.

/// The fixed port both sides of the sync exchange use.
pub const SYNC_PORT: u16 = 8080;

/// The method of an inbound sync request, as far as the wire contract
/// distinguishes them.
#[derive(Clone, Copy, Debug, PartialEq, Eq, Structural)]
pub enum SyncMethod {
    Get,
    Post,
    OtherMethod,
}

/// What the receiver answers: a status and a body.
#[derive(Debug)]
pub struct SyncResponse {
    pub status: u16,
    pub body: String,
}

/// The receiver's reply to one request, over the current store text:
/// the status, the response body, and the text that must replace the
/// store's contents, where the request writes.
///
/// A read of `/` answers 200 with the store's bytes; a write to
/// `/receive` replaces the store with the request body, unconditionally,
/// and answers 200 `ok`; anything else is answered 404 and leaves the
/// store alone.
pub open spec fn sync_reply_spec(
    m: SyncMethod,
    url: Seq<char>,
    body: Seq<char>,
    store: Seq<char>,
) -> (u16, Seq<char>, Option<Seq<char>>) {
    if m is Get && url == "/"@ {
        (200u16, store, None::<Seq<char>>)
    } else if m is Post && url == "/receive"@ {
        (200u16, "ok"@, Some(body))
    } else {
        (404u16, "404"@, None::<Seq<char>>)
    }
}

/// Answer one inbound sync request.
///
/// Returns the response and, where the request writes, the text the
/// caller must store as the file's new, entire contents.
pub fn handle_request(method: SyncMethod, url: &str, body: &str, store: &str) -> (r: (
    SyncResponse,
    Option<String>,
))
    ensures
        ({
            let (status, reply, update) = sync_reply_spec(method, url@, body@, store@);
            &&& r.0.status == status
            &&& r.0.body@ == reply
            &&& (match r.1 {
                Some(u) => update == Some(u@),
                None => update is None,
            })
        }),
{
    let is_get_root = matches!(method, SyncMethod::Get) && str_eq(url, "/");
    if is_get_root {
        (SyncResponse { status: 200, body: String::from_str(store) }, None)
    } else {
        let is_post_receive = matches!(method, SyncMethod::Post) && str_eq(url, "/receive");
        if is_post_receive {
            (
                SyncResponse { status: 200, body: String::from_str("ok") },
                Some(String::from_str(body)),
            )
        } else {
            (SyncResponse { status: 404, body: String::from_str("404") }, None)
        }
    }
}

/// Law: sending bytes to a running receiver leaves the store holding
/// exactly those bytes, and a subsequent read of `/` against that
/// receiver returns exactly them.
pub proof fn lemma_sync_round_trip(b: Seq<char>, store: Seq<char>, later_body: Seq<char>)
    ensures
        sync_reply_spec(SyncMethod::Post, "/receive"@, b, store) == (
            200u16,
            "ok"@,
            Some(b),
        ),
        sync_reply_spec(SyncMethod::Get, "/"@, later_body, b) == (
            200u16,
            b,
            None::<Seq<char>>,
        ),
{
}

/// Law: any request other than a read of `/` or a write to `/receive` is
/// answered 404 and leaves the store untouched.
pub proof fn lemma_unknown_request_not_found(
    m: SyncMethod,
    url: Seq<char>,
    body: Seq<char>,
    store: Seq<char>,
)
    requires
        !(m is Get && url == "/"@),
        !(m is Post && url == "/receive"@),
    ensures
        sync_reply_spec(m, url, body, store).0 == 404,
        sync_reply_spec(m, url, body, store).2 is None,
{
}

/// The URL a sender submits the store to: the write endpoint on the
/// target machine at the fixed port.
pub fn receive_url(target_ip: &str) -> (r: String)
    ensures
        r@ == "http://"@ + target_ip@ + ":8080/receive"@,
{
    let mut url = String::from_str("http://");
    url.append(target_ip);
    url.append(":8080/receive");
    url
}

/// Read the peer's answer to a send: an error status is a fatal
/// `SyncRejected` with that status; anything below 400 accepts the store.
pub fn check_sync_status(status: u16) -> (r: Result<(), SshError>)
    ensures
        status >= 400 ==> r == Err::<(), SshError>(SshError::SyncRejected(status)),
        status < 400 ==> r == Ok::<(), SshError>(()),
{
    if status >= 400 {
        Err(SshError::SyncRejected(status))
    } else {
        Ok(())
    }
}

} // verus!
