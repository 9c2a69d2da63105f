//! Construction of the fixed request that carries an audio clip to the
//! provider.

use vstd::prelude::*;
use vstd::string::*;

verus! {

/// The fixed endpoint, with the query parameters selecting model, language
/// and punctuation behaviour.
pub open spec fn endpoint_url_view() -> Seq<char> {
    ("https://api.deepgram.com/v1/listen?model=nova-2&language=en&punctuate=true")@
}

/// The authorization header value: the provider's token scheme around the
/// resolved credential.
pub open spec fn auth_header_view(credential: Seq<char>) -> Seq<char> {
    "Token "@ + credential
}

/// The declared media type of the audio payload.
pub open spec fn content_type_view() -> Seq<char> {
    "audio/webm;codecs=opus"@
}

/// Everything the transport needs to send one transcription request; the
/// audio bytes travel beside it, verbatim.
pub struct RequestPlan {
    /// Target URL, query parameters included.
    pub url: String,
    /// Value of the `Authorization` header.
    pub authorization: String,
    /// Value of the `Content-Type` header.
    pub content_type: String,
}

/// Builds the one fixed request shape around the resolved credential.
pub fn build_request(credential: &str) -> (r: RequestPlan)
    ensures
        r.url@ == endpoint_url_view(),
        r.authorization@ == auth_header_view(credential@),
        r.content_type@ == content_type_view(),
{
    let mut auth = "Token ".to_owned();
    auth.append(credential);
    RequestPlan {
        url: ("https://api.deepgram.com/v1/listen?model=nova-2&language=en&punctuate=true")
            .to_owned(),
        authorization: auth,
        content_type: "audio/webm;codecs=opus".to_owned(),
    }
}

} // verus!
