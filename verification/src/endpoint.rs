//! What the node signs with its identity: its endpoint, and its request for the master key.
use crate::crypto::sr25519_verifies;
use crate::encoding::{endpoint_bytes, master_key_apply_bytes, text_fits};
use crate::error::{app_err, app_error, CesealServiceError};
use crate::scale::MAX_LEN;
use crate::state::{not_initialized, Ceseal};
use crate::types::{
    clone_text, text_view, EndpointPayloadView, EndpointResponseView, GetEndpointResponse,
    GetMasterKeyApplyResponse, MasterKeyApplyPayload, MasterKeyApplyView, PublicKey,
    SignedContentType, WorkerEndpointPayload,
};
use vstd::prelude::*;

verus! {

/// The greatest length of an encoded endpoint.
pub const MAX_PAYLOAD_SIZE: usize = 512;

/// `signature` is one of `public_key` on `data`, wrapped as content of the given kind.
pub open spec fn signed_as<F>(
    wrap: F,
    data: Seq<u8>,
    kind: SignedContentType,
    signature: Seq<u8>,
    public_key: Seq<u8>,
) -> bool where F: Fn(&[u8], SignedContentType) -> Vec<u8> {
    exists|content: &[u8], wrapped: Vec<u8>|
        {
            &&& content@ == data
            &&& #[trigger] call_ensures(wrap, (content, kind), wrapped)
            &&& signature.len() == 64
            &&& sr25519_verifies(signature, wrapped@, public_key)
        }
}

/// `wrap` takes any content, and content that is signed stays short enough for it.
pub open spec fn wraps_all<F>(wrap: F) -> bool where
    F: Fn(&[u8], SignedContentType) -> Vec<u8>,
 {
    &&& forall|content: &[u8], kind: SignedContentType| call_requires(wrap, (content, kind))
    &&& forall|content: &[u8], kind: SignedContentType, wrapped: Vec<u8>|
        content@.len() <= MAX_PAYLOAD_SIZE && #[trigger] call_ensures(
            wrap,
            (content, kind),
            wrapped,
        ) ==> wrapped@.len() <= MAX_LEN
}

/// The node after an endpoint was set.
pub open spec fn with_endpoint<P>(c: Ceseal<P>, endpoint: String) -> Ceseal<P> {
    Ceseal { endpoint: Some(endpoint), ..c }
}

/// The endpoint that the node signs now.
pub open spec fn endpoint_of<P>(c: Ceseal<P>) -> EndpointPayloadView {
    EndpointPayloadView {
        pubkey: c.system->0.identity_key.public_bytes(),
        endpoint: text_view(c.endpoint),
        signing_time: c.system->0.now_ms,
    }
}

/// How an endpoint is signed, unless its encoding is too long.
pub open spec fn payload_signed<P, F>(
    c: Ceseal<P>,
    payload: WorkerEndpointPayload,
    wrap: F,
    r: Result<Vec<u8>, CesealServiceError>,
) -> bool where F: Fn(&[u8], SignedContentType) -> Vec<u8> {
    if endpoint_bytes(payload@).len() > MAX_PAYLOAD_SIZE {
        r matches Err(e) && e@ == app_error("Endpoints too large"@)
    } else {
        match c.system {
            None => r matches Err(e) && e@ == not_initialized(),
            Some(s) => r matches Ok(signature) && signed_as(
                wrap,
                endpoint_bytes(payload@),
                SignedContentType::EndpointInfo,
                signature@,
                s.identity_key.public_bytes(),
            ),
        }
    }
}

/// How the endpoint is signed and kept.
pub open spec fn endpoint_signed<P, F>(
    pre: Ceseal<P>,
    wrap: F,
    post: Ceseal<P>,
    r: Result<GetEndpointResponse, CesealServiceError>,
) -> bool where F: Fn(&[u8], SignedContentType) -> Vec<u8> {
    if pre.system is None {
        post == pre && (r matches Err(e) && e@ == not_initialized())
    } else if endpoint_bytes(endpoint_of(pre)).len() > MAX_PAYLOAD_SIZE {
        post == pre && (r matches Err(e) && e@ == app_error("Endpoints too large"@))
    } else {
        &&& r matches Ok(answer) && answer@.payload == Some(endpoint_of(pre)) && (
        answer@.signature matches Some(signature) && signed_as(
            wrap,
            endpoint_bytes(endpoint_of(pre)),
            SignedContentType::EndpointInfo,
            signature,
            endpoint_of(pre).pubkey,
        ))
        &&& post.signed_endpoint matches Some(kept) && r matches Ok(answer) && kept@ == answer@
        &&& post == (Ceseal { signed_endpoint: post.signed_endpoint, ..pre })
    }
}

/// How an endpoint is set and signed.
pub open spec fn endpoint_set<P, F>(
    pre: Ceseal<P>,
    endpoint: String,
    wrap: F,
    post: Ceseal<P>,
    r: Result<GetEndpointResponse, CesealServiceError>,
) -> bool where F: Fn(&[u8], SignedContentType) -> Vec<u8> {
    endpoint_signed(with_endpoint(pre, endpoint), wrap, post, r)
}

/// How the endpoint is given: nothing before one is set, what is kept if it was signed before,
/// else a new signature.
pub open spec fn endpoint_given<P, F>(
    pre: Ceseal<P>,
    wrap: F,
    post: Ceseal<P>,
    r: Result<GetEndpointResponse, CesealServiceError>,
) -> bool where F: Fn(&[u8], SignedContentType) -> Vec<u8> {
    if pre.endpoint is None {
        &&& post == pre
        &&& r matches Ok(answer) && answer@ == (EndpointResponseView {
            payload: None,
            signature: None,
        })
    } else {
        match pre.signed_endpoint {
            Some(kept) => {
                &&& post == pre
                &&& r matches Ok(answer) && answer@ == kept@
            },
            None => endpoint_signed(pre, wrap, post, r),
        }
    }
}

/// The signed request of a node for the master key.
pub open spec fn master_key_applied<P, F>(
    c: Ceseal<P>,
    wrap: F,
    r: Result<GetMasterKeyApplyResponse, CesealServiceError>,
) -> bool where F: Fn(&[u8], SignedContentType) -> Vec<u8> {
    match c.system {
        None => r matches Err(e) && e@ == not_initialized(),
        Some(s) => {
            let payload = MasterKeyApplyView {
                pubkey: s.identity_key.public_bytes(),
                ecdh_pubkey: s.ecdh_public_key@,
                signing_time: s.now_ms,
            };
            r matches Ok(answer) && answer.payload@ == payload && signed_as(
                wrap,
                master_key_apply_bytes(payload),
                SignedContentType::MasterKeyApply,
                answer.signature@,
                payload.pubkey,
            )
        },
    }
}

impl<Platform> Ceseal<Platform> {
    /// Signs an endpoint, unless its encoding is too long.
    pub fn sign_endpoint_payload<F>(&self, payload: &WorkerEndpointPayload, wrap: F) -> (r: Result<
        Vec<u8>,
        CesealServiceError,
    >) where F: Fn(&[u8], SignedContentType) -> Vec<u8>
        requires
            text_fits(payload@.endpoint),
            wraps_all(wrap),
        ensures
            payload_signed(*self, *payload, wrap, r),
    {
        let data_to_sign: Vec<u8> = payload.encode();
        if data_to_sign.len() > MAX_PAYLOAD_SIZE {
            return Err(app_err("Endpoints too large"));
        }
        let wrapped: Vec<u8> = wrap(data_to_sign.as_slice(), SignedContentType::EndpointInfo);
        match &self.system {
            Some(s) => Ok(s.identity_key.sign(wrapped.as_slice())),
            None => Err(app_err("Runtime not initialized")),
        }
    }

    /// Signs the endpoint as it is set, at the time of the current block, and keeps the result.
    pub fn sign_endpoint<F>(&mut self, wrap: F) -> (r: Result<
        GetEndpointResponse,
        CesealServiceError,
    >) where F: Fn(&[u8], SignedContentType) -> Vec<u8>
        requires
            old(self).system is Some ==> text_fits(text_view(old(self).endpoint)) && wraps_all(
                wrap,
            ),
        ensures
            endpoint_signed(*old(self), wrap, *final(self), r),
    {
        let (pubkey, signing_time): (PublicKey, u64) = match &self.system {
            Some(s) => (s.identity_key.public(), s.now_ms),
            None => {
                return Err(app_err("Runtime not initialized"));
            },
        };
        let endpoint: Option<String> = clone_text(&self.endpoint);
        let payload = WorkerEndpointPayload { pubkey, endpoint, signing_time };
        match self.sign_endpoint_payload(&payload, wrap) {
            Ok(signature) => {
                let resp = GetEndpointResponse {
                    payload: Some(payload),
                    signature: Some(signature),
                };
                self.signed_endpoint = Some(resp.clone());
                Ok(resp)
            },
            Err(e) => Err(e),
        }
    }

    /// Sets the endpoint and signs it. It stays set even if it cannot be signed.
    pub fn set_endpoint<F>(&mut self, endpoint: String, wrap: F) -> (r: Result<
        GetEndpointResponse,
        CesealServiceError,
    >) where F: Fn(&[u8], SignedContentType) -> Vec<u8>
        requires
            old(self).system is Some ==> text_fits(Some(endpoint@)) && wraps_all(wrap),
        ensures
            endpoint_set(*old(self), endpoint, wrap, *final(self), r),
    {
        self.endpoint = Some(endpoint);
        self.sign_endpoint(wrap)
    }

    /// The endpoint with the signature that is kept, or with a new one.
    pub fn get_endpoint_info<F>(&mut self, wrap: F) -> (r: Result<
        GetEndpointResponse,
        CesealServiceError,
    >) where F: Fn(&[u8], SignedContentType) -> Vec<u8>
        requires
            old(self).system is Some && old(self).signed_endpoint is None ==> text_fits(
                text_view(old(self).endpoint),
            ) && wraps_all(wrap),
        ensures
            endpoint_given(*old(self), wrap, *final(self), r),
    {
        if self.endpoint.is_none() {
            return Ok(GetEndpointResponse { payload: None, signature: None });
        }
        match &self.signed_endpoint {
            Some(kept) => {
                return Ok(kept.clone());
            },
            None => {},
        }
        self.sign_endpoint(wrap)
    }

    /// The signed request of the node for the master key, at the time of the current block.
    pub fn get_master_key_apply<F>(&self, wrap: F) -> (r: Result<
        GetMasterKeyApplyResponse,
        CesealServiceError,
    >) where F: Fn(&[u8], SignedContentType) -> Vec<u8>
        requires
            self.system is Some ==> wraps_all(wrap),
        ensures
            master_key_applied(*self, wrap, r),
    {
        match &self.system {
            Some(s) => {
                let payload = MasterKeyApplyPayload {
                    pubkey: s.identity_key.public(),
                    ecdh_pubkey: s.ecdh_public_key,
                    signing_time: s.now_ms,
                };
                let data_to_sign: Vec<u8> = payload.encode();
                let wrapped: Vec<u8> = wrap(
                    data_to_sign.as_slice(),
                    SignedContentType::MasterKeyApply,
                );
                let signature: Vec<u8> = s.identity_key.sign(wrapped.as_slice());
                Ok(GetMasterKeyApplyResponse { payload, signature })
            },
            None => Err(app_err("Runtime not initialized")),
        }
    }
}

/// Once an endpoint was set and signed, asking for it gives the same answer again, whatever time
/// has passed, until it is signed anew.
pub proof fn law_signed_endpoint_is_kept<P, F, G>(
    pre: Ceseal<P>,
    endpoint: String,
    wrap: F,
    between: Ceseal<P>,
    first: GetEndpointResponse,
    other_wrap: G,
    post: Ceseal<P>,
    r: Result<GetEndpointResponse, CesealServiceError>,
) where
    F: Fn(&[u8], SignedContentType) -> Vec<u8>,
    G: Fn(&[u8], SignedContentType) -> Vec<u8>,

    requires
        endpoint_set(pre, endpoint, wrap, between, Ok(first)),
        endpoint_given(between, other_wrap, post, r),
    ensures
        post == between,
        r matches Ok(answer) && answer@ == first@,
{
}

/// An endpoint that is signed names the endpoint that was set, the identity key of the node and
/// the time of its current block.
pub proof fn law_signed_endpoint_names_what_was_set<P, F>(
    pre: Ceseal<P>,
    endpoint: String,
    wrap: F,
    post: Ceseal<P>,
    answer: GetEndpointResponse,
) where F: Fn(&[u8], SignedContentType) -> Vec<u8>
    requires
        endpoint_set(pre, endpoint, wrap, post, Ok(answer)),
    ensures
        pre.system matches Some(s) && answer@.payload == Some(
            EndpointPayloadView {
                pubkey: s.identity_key.public_bytes(),
                endpoint: Some(endpoint@),
                signing_time: s.now_ms,
            },
        ),
        post.endpoint == Some(endpoint),
{
}

} // verus!
