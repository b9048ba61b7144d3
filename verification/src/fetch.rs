//! The fetch op: validating the request, checking network permission
//! against the parsed URL before anything is issued, and storing the
//! response body as a stream resource once the response arrives.

use vstd::prelude::*;

use crate::errors::ErrorKind;
use crate::errors::OpError;
use crate::permissions::host_view;
use crate::permissions::Permissions;
use crate::resources::Resource;
use crate::resources::ResourceTable;

verus! {

#[verifier::external_type_specification]
#[verifier::external_body]
pub struct ExUrl(url::Url);

#[verifier::external_type_specification]
#[verifier::external_body]
pub struct ExMethod(http::Method);

/// Whether a string parses as an absolute URL; that depends on the
/// string alone.
pub uninterp spec fn url_parses(s: Seq<char>) -> bool;

/// The host of the URL a string parses to, when the string parses and
/// the URL has one; a function of the string alone.
pub uninterp spec fn url_host_name(s: Seq<char>) -> Option<Seq<char>>;

/// Whether a string is a valid HTTP method token; that depends on the
/// string alone.
pub uninterp spec fn method_parses(s: Seq<char>) -> bool;

/// Relies on url's `Url::parse` and `Url::host_str`: a string parses to
/// a URL value exactly when it is an absolute URL, and the parsed URL's
/// host comes along as a plain string.
#[verifier::external_body]
fn parse_url(s: &str) -> (r: Option<(url::Url, Option<String>)>)
    ensures
        r is Some <==> url_parses(s@),
        r matches Some(p) ==> host_view(&p.1) == url_host_name(s@),
{
    match url::Url::parse(s) {
        Ok(u) => {
            let host = match u.host_str() {
                Some(h) => Some(h.to_owned()),
                None => None,
            };
            Some((u, host))
        },
        Err(_) => None,
    }
}

/// Relies on http's `Method::from_bytes`: a string parses to a method
/// exactly when it is a valid method token, and the empty string never
/// is one.
#[verifier::external_body]
fn parse_method(s: &str) -> (r: Option<http::Method>)
    ensures
        r is Some <==> method_parses(s@),
        s@.len() == 0 ==> r is None,
{
    match http::Method::from_bytes(s.as_bytes()) {
        Ok(m) => Some(m),
        Err(_) => None,
    }
}

/// The fetch op's decoded arguments; a request body, when there is one,
/// travels in the zero-copy buffer.
pub struct FetchArgs {
    pub method: Option<String>,
    pub url: String,
    pub headers: Vec<(String, String)>,
}

/// A request the permission policy has cleared for issue. The method is
/// carried as the request's own validated token, absent for the default
/// GET; the host derives the wire token from it.
#[derive(Debug)]
pub struct FetchPlan {
    pub method_name: Option<String>,
    pub url: String,
    pub parsed_url: url::Url,
    pub host: Option<String>,
    pub headers: Vec<(String, String)>,
}

/// Validates a fetch request and checks network permission against the
/// parsed URL's host. A plan comes back exactly when the method (if one
/// is named) and the URL parse and the policy allows the URL's host; a
/// parse failure of either is the parse error, a refused host the
/// permission error. Nothing is issued and no resource is created here:
/// a refused request never touches the network or the table.
pub fn op_fetch_begin(perms: &Permissions, args: FetchArgs) -> (r: Result<FetchPlan, OpError>)
    ensures
        r is Ok <==> ((args.method matches Some(m) ==> method_parses(m@)) && url_parses(args.url@)
            && perms.net_allows(url_host_name(args.url@))),
        r matches Err(e) ==> (e.kind == ErrorKind::Parse || e.kind == ErrorKind::PermissionDenied)
            && (e.kind == ErrorKind::Parse <==> ((args.method matches Some(m) && !method_parses(
            m@,
        )) || !url_parses(args.url@))),
        r matches Ok(plan) ==> {
            &&& plan.method_name == args.method
            &&& plan.url == args.url
            &&& plan.headers == args.headers
            &&& host_view(&plan.host) == url_host_name(args.url@)
            &&& perms.net_allows(url_host_name(args.url@))
        },
{
    match &args.method {
        Some(m) => {
            match parse_method(m.as_str()) {
                Some(_) => {},
                None => {
                    return Err(OpError::new(ErrorKind::Parse, "invalid method".to_owned()));
                },
            }
        },
        None => {},
    }
    let (parsed_url, host) = match parse_url(args.url.as_str()) {
        Some(p) => p,
        None => {
            return Err(OpError::new(ErrorKind::Parse, "invalid url".to_owned()));
        },
    };
    match perms.check_net_url(&host) {
        Ok(()) => {},
        Err(e) => {
            return Err(e);
        },
    }
    Ok(
        FetchPlan {
            method_name: args.method,
            url: args.url,
            parsed_url,
            host,
            headers: args.headers,
        },
    )
}

/// The fetch op's reply: the handle of the body stream plus the response
/// status line and headers.
pub struct FetchResponse {
    pub body_rid: u32,
    pub status: u16,
    pub status_text: String,
    pub headers: Vec<(String, String)>,
}

/// Stores an arrived response body as a stream resource under a fresh
/// handle and shapes the reply; no other entry moves.
pub fn fetch_response(
    table: &mut ResourceTable,
    status: u16,
    status_text: String,
    headers: Vec<(String, String)>,
) -> (r: FetchResponse)
    requires
        old(table).wf(),
        old(table).next_rid_spec() < u32::MAX,
    ensures
        final(table).wf(),
        r.body_rid == old(table).next_rid_spec(),
        final(table).lookup(r.body_rid) == Some(Resource::HttpBody),
        forall|r2: u32|
            r2 != r.body_rid ==> #[trigger] final(table).lookup(r2) == old(table).lookup(r2),
        final(table).next_rid_spec() == old(table).next_rid_spec() + 1,
        r.status == status,
        r.status_text == status_text,
        r.headers == headers,
{
    let body_rid = table.add(Resource::HttpBody);
    FetchResponse { body_rid, status, status_text, headers }
}

} // verus!
