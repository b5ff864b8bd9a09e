//! Assembly of the unsigned request draft from parsed command-line options
//! and the resolved body.

use vstd::prelude::*;

use crate::headers::{headers_view, parse_headers_spec, parse_headers, token_views};
use crate::options::Options;

verus! {

/// The unsigned, fully assembled request description handed to the signer.
/// The region is the name signed for; the URI is the network target actually
/// contacted, so a named region can be signed for while probing any endpoint.
pub struct RequestDraft {
    /// The signing region name.
    pub region: String,
    /// The signing service name.
    pub service: String,
    /// The HTTP method.
    pub method: String,
    /// The target endpoint URI.
    pub uri: String,
    /// Headers in insertion order, duplicates allowed.
    pub headers: Vec<(String, String)>,
    /// The resolved body bytes; absent when no body source was supplied,
    /// which is distinct from an empty body.
    pub body: Option<Vec<u8>>,
}

/// The mathematical shape of a [`RequestDraft`].
pub struct DraftView {
    pub region: Seq<char>,
    pub service: Seq<char>,
    pub method: Seq<char>,
    pub uri: Seq<char>,
    pub headers: Seq<(Seq<char>, Seq<char>)>,
    pub body: Option<Seq<u8>>,
}

impl View for RequestDraft {
    type V = DraftView;

    open spec fn view(&self) -> DraftView {
        DraftView {
            region: self.region@,
            service: self.service@,
            method: self.method@,
            uri: self.uri@,
            headers: headers_view(self.headers@),
            body: match self.body {
                Some(ref b) => Some(b@),
                None => None,
            },
        }
    }
}

/// Assembles the request draft: region, service, method and URI are copied
/// verbatim, the raw header tokens are parsed leniently, and the body the
/// caller resolved is attached as it is. The caller passes `Some` exactly
/// when a body-source string was supplied.
pub fn build_draft(options: Options, body: Option<Vec<u8>>) -> (d: RequestDraft)
    ensures
        d@.region == options.region@,
        d@.service == options.service@,
        d@.method == options.method@,
        d@.uri == options.uri@,
        d@.headers == parse_headers_spec(token_views(options.headers@)),
        body matches Some(b) ==> d@.body == Some(b@),
        body is None ==> d@.body is None,
{
    let parsed = parse_headers(&options.headers);
    RequestDraft {
        region: options.region,
        service: options.service,
        method: options.method,
        uri: options.uri,
        headers: parsed,
        body,
    }
}

} // verus!
