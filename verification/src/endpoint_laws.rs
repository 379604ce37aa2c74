//! What holds of the things that a node signs.
use crate::crypto::sr25519_verifies;
use crate::encoding::{endpoint_bytes, master_key_apply_bytes};
use crate::endpoint::{
    endpoint_given, endpoint_set, endpoint_signed, master_key_applied, payload_signed,
};
use crate::error::CesealServiceError;
use crate::node_laws::says;
use crate::state::Ceseal;
use crate::types::{
    GetEndpointResponse, GetMasterKeyApplyResponse, SignedContentType, WorkerEndpointPayload,
};
use vstd::prelude::*;

verus! {

/// The signature has 64 bytes and verifies under the key on what `wrap` made of the data as content
/// of the given kind.
pub open spec fn signs<F>(
    wrap: F,
    data: Seq<u8>,
    kind: SignedContentType,
    signature: Seq<u8>,
    public_key: Seq<u8>,
) -> bool where F: Fn(&[u8], SignedContentType) -> Vec<u8> {
    signature.len() == 64 && exists|content: &[u8], wrapped: Vec<u8>|
        content@ == data && #[trigger] call_ensures(wrap, (content, kind), wrapped)
            && sr25519_verifies(signature, wrapped@, public_key)
}

/// The answer shows the endpoint that the node has set, its identity key and the whole time of its
/// block, with a signature of that key on just this.
pub open spec fn shows_own_endpoint<P, F>(
    c: Ceseal<P>,
    wrap: F,
    answer: GetEndpointResponse,
) -> bool where F: Fn(&[u8], SignedContentType) -> Vec<u8> {
    &&& c.system matches Some(s)
    &&& answer.payload matches Some(p)
    &&& answer.signature matches Some(signature)
    &&& p.pubkey@ == s.identity_key.public_bytes()
    &&& p.signing_time == s.now_ms
    &&& same_text(p.endpoint, c.endpoint)
    &&& signs(
        wrap,
        endpoint_bytes(p@),
        SignedContentType::EndpointInfo,
        signature@,
        s.identity_key.public_bytes(),
    )
}

/// Both are the same text, or none.
pub open spec fn same_text(a: Option<String>, b: Option<String>) -> bool {
    match (a, b) {
        (Some(x), Some(y)) => x@ == y@,
        (None, None) => true,
        _ => false,
    }
}

/// The answers agree in every part.
pub open spec fn same_endpoint(a: GetEndpointResponse, b: GetEndpointResponse) -> bool {
    &&& match (a.payload, b.payload) {
        (Some(p), Some(q)) => p.pubkey@ == q.pubkey@ && p.signing_time == q.signing_time
            && same_text(p.endpoint, q.endpoint),
        (None, None) => true,
        _ => false,
    }
    &&& match (a.signature, b.signature) {
        (Some(x), Some(y)) => x@ == y@,
        (None, None) => true,
        _ => false,
    }
}

/// An application for the master key names the identity key, the ECDH key and the whole block time
/// of the node, and is signed with the identity key as what it is; without a system there is none.
pub proof fn law_application_names_the_node<P, F>(
    c: Ceseal<P>,
    wrap: F,
    r: Result<GetMasterKeyApplyResponse, CesealServiceError>,
) where F: Fn(&[u8], SignedContentType) -> Vec<u8>
    requires
        master_key_applied(c, wrap, r),
    ensures
        c.system is None ==> says(r, "Runtime not initialized"@),
        c.system matches Some(s) ==> {
            &&& r matches Ok(answer)
            &&& answer.payload.signing_time == s.now_ms
            &&& answer.payload.pubkey@ == s.identity_key.public_bytes()
            &&& answer.payload.ecdh_pubkey@ == s.ecdh_public_key@
            &&& signs(
                wrap,
                master_key_apply_bytes(answer.payload@),
                SignedContentType::MasterKeyApply,
                answer.signature@,
                s.identity_key.public_bytes(),
            )
        },
{
}

/// Two applications of one node differ in their times just where the times of its blocks differ.
pub proof fn law_applications_tell_times_apart<P, F>(
    a: Ceseal<P>,
    b: Ceseal<P>,
    wrap: F,
    first: GetMasterKeyApplyResponse,
    second: GetMasterKeyApplyResponse,
) where F: Fn(&[u8], SignedContentType) -> Vec<u8>
    requires
        master_key_applied(a, wrap, Ok(first)),
        master_key_applied(b, wrap, Ok(second)),
    ensures
        first.payload.signing_time == second.payload.signing_time <==> a.system->0.now_ms
            == b.system->0.now_ms,
{
}

/// Signing the endpoint answers with, and keeps, the endpoint that is set, under the identity key
/// and the whole time of the block. It fails without a system, and where the endpoint takes more
/// than 512 bytes, and then keeps what was kept.
pub proof fn law_endpoint_is_signed_as_set<P, F>(
    pre: Ceseal<P>,
    wrap: F,
    post: Ceseal<P>,
    r: Result<GetEndpointResponse, CesealServiceError>,
) where F: Fn(&[u8], SignedContentType) -> Vec<u8>
    requires
        endpoint_signed(pre, wrap, post, r),
    ensures
        pre == (Ceseal { signed_endpoint: pre.signed_endpoint, ..post }),
        r is Err ==> post == pre,
        pre.system is None ==> says(r, "Runtime not initialized"@),
        pre.system is Some && r is Err ==> says(r, "Endpoints too large"@),
        r matches Ok(answer) ==> {
            &&& shows_own_endpoint(pre, wrap, answer)
            &&& endpoint_bytes(answer.payload->0@).len() <= 512
            &&& post.signed_endpoint matches Some(kept)
            &&& same_endpoint(kept, answer)
        },
        pre.system is Some ==> forall|p: WorkerEndpointPayload|
            #![trigger p@]
            p.pubkey@ == pre.system->0.identity_key.public_bytes() && p.signing_time
                == pre.system->0.now_ms && same_text(p.endpoint, pre.endpoint) ==> (r is Err
                <==> endpoint_bytes(p@).len() > 512),
{
}

/// Setting an endpoint keeps it, signed or not, and signs that endpoint and no other.
pub proof fn law_endpoint_is_set_and_signed<P, F>(
    pre: Ceseal<P>,
    endpoint: String,
    wrap: F,
    post: Ceseal<P>,
    r: Result<GetEndpointResponse, CesealServiceError>,
) where F: Fn(&[u8], SignedContentType) -> Vec<u8>
    requires
        endpoint_set(pre, endpoint, wrap, post, r),
    ensures
        post.endpoint matches Some(t) && t@ == endpoint@,
        pre == (Ceseal {
            endpoint: pre.endpoint,
            signed_endpoint: pre.signed_endpoint,
            ..post
        }),
        r is Err ==> post.signed_endpoint == pre.signed_endpoint,
        r matches Ok(answer) ==> (pre.system matches Some(s) && answer.payload matches Some(p)
            && p.pubkey@ == s.identity_key.public_bytes() && p.signing_time == s.now_ms && (
        p.endpoint matches Some(t) && t@ == endpoint@)),
{
}

/// Asking for the endpoint gives nothing before one is set, then what is kept, and signs only
/// where nothing is kept.
pub proof fn law_kept_endpoint_is_given<P, F>(
    pre: Ceseal<P>,
    wrap: F,
    post: Ceseal<P>,
    r: Result<GetEndpointResponse, CesealServiceError>,
) where F: Fn(&[u8], SignedContentType) -> Vec<u8>
    requires
        endpoint_given(pre, wrap, post, r),
    ensures
        pre == (Ceseal { signed_endpoint: pre.signed_endpoint, ..post }),
        pre.endpoint is None ==> post == pre && (r matches Ok(answer) && answer.payload is None
            && answer.signature is None),
        pre.endpoint is Some ==> (pre.signed_endpoint matches Some(kept) ==> post == pre && (
        r matches Ok(answer) && same_endpoint(answer, kept))),
        pre.endpoint is Some && pre.signed_endpoint is None ==> {
            &&& pre.system is None ==> says(r, "Runtime not initialized"@)
            &&& pre.system is Some && r is Err ==> says(r, "Endpoints too large"@)
            &&& r is Err ==> post == pre
            &&& r matches Ok(answer) ==> shows_own_endpoint(pre, wrap, answer) && (
            post.signed_endpoint matches Some(kept) && same_endpoint(kept, answer))
        },
{
}

/// A payload is signed just where it takes at most 512 bytes and the node has a system.
pub proof fn law_short_payloads_are_signed<P, F>(
    c: Ceseal<P>,
    payload: WorkerEndpointPayload,
    wrap: F,
    r: Result<Vec<u8>, CesealServiceError>,
) where F: Fn(&[u8], SignedContentType) -> Vec<u8>
    requires
        payload_signed(c, payload, wrap, r),
    ensures
        r is Ok <==> endpoint_bytes(payload@).len() <= 512 && c.system is Some,
        endpoint_bytes(payload@).len() > 512 ==> says(r, "Endpoints too large"@),
        endpoint_bytes(payload@).len() <= 512 && c.system is None ==> says(
            r,
            "Runtime not initialized"@,
        ),
        r matches Ok(signature) ==> signs(
            wrap,
            endpoint_bytes(payload@),
            SignedContentType::EndpointInfo,
            signature@,
            c.system->0.identity_key.public_bytes(),
        ),
{
}

} // verus!
