//! Turning the verification endpoint's reply into a pass or fail with a message.

use vstd::prelude::*;
use vstd::string::*;

verus! {

/// What came back from the verification endpoint for one barcode.
pub enum GatewayReply {
    /// The endpoint answered with an HTTP status; `text` is the status as shown to
    /// people, such as `404 Not Found`.
    Status { code: u16, text: String },
    /// The request never got an answer; `detail` says why.
    TransportError { detail: String },
}

/// Whether the endpoint said yes to a barcode.
pub struct VerificationOutcome {
    pub success: bool,
    /// What to tell the operator.
    pub detail: String,
}

/// Message for a barcode the endpoint accepted.
pub open spec fn accepted_message() -> Seq<char> {
    "扫描成功"@
}

/// Prefix of the message for a status other than 2xx.
pub open spec fn rejected_prefix() -> Seq<char> {
    "外部接口错误: "@
}

/// Prefix of the message for a request that got no answer.
pub open spec fn transport_prefix() -> Seq<char> {
    "请求失败: "@
}

/// A status in the 2xx range is an affirmative answer.
pub open spec fn is_success_status(code: u16) -> bool {
    200 <= code && code <= 299
}

/// The outcome owed for a reply.
pub open spec fn outcome_spec(reply: GatewayReply) -> (bool, Seq<char>) {
    match reply {
        GatewayReply::Status { code, text } => if is_success_status(code) {
            (true, accepted_message())
        } else {
            (false, rejected_prefix() + text@)
        },
        GatewayReply::TransportError { detail } => (false, transport_prefix() + detail@),
    }
}

/// Decides a barcode's fate from the endpoint's reply: success exactly for a 2xx status,
/// with a message that names the status or the transport error otherwise.
pub fn verification_outcome(reply: GatewayReply) -> (r: VerificationOutcome)
    ensures
        (r.success, r.detail@) == outcome_spec(reply),
        r.detail@.len() > 0,
{
    proof {
        reveal_strlit("扫描成功");
        reveal_strlit("外部接口错误: ");
        reveal_strlit("请求失败: ");
    }
    match reply {
        GatewayReply::Status { code, text } => {
            if 200 <= code && code <= 299 {
                VerificationOutcome { success: true, detail: String::from_str("扫描成功") }
            } else {
                let mut detail = String::from_str("外部接口错误: ");
                detail.append(text.as_str());
                VerificationOutcome { success: false, detail }
            }
        },
        GatewayReply::TransportError { detail } => {
            let mut m = String::from_str("请求失败: ");
            m.append(detail.as_str());
            VerificationOutcome { success: false, detail: m }
        },
    }
}

} // verus!
