use vstd::prelude::*;

verus! {

/// The HTTP methods a request descriptor can carry.
#[derive(Clone, Copy, Debug, PartialEq, Eq, Structural)]
pub enum Method {
    Get,
    Head,
    Post,
    Put,
    Delete,
    Patch,
    Options,
}

/// What the host network layer does when the upstream answers with a redirect.
#[derive(Clone, Copy, Debug, PartialEq, Eq, Structural)]
pub enum RedirectPolicy {
    Follow,
    Error,
    Manual,
}

/// Every failure an exchange can end in.
#[derive(Clone, Copy, Debug, PartialEq, Eq, Structural)]
pub enum FetchError {
    /// The target URL could not be parsed.
    InvalidUrl,
    /// The host could not reach the upstream (refused, DNS, host timeout).
    NetworkError,
    /// The upstream answered with something that is not a valid response.
    ProtocolError,
    /// The response body stream ended abnormally.
    BodyReadError,
    /// No route matches the inbound path.
    NotFound,
}

/// One request header, as a name and a value.
#[derive(Clone, Debug)]
pub struct Header {
    pub name: String,
    pub value: String,
}

impl View for Header {
    type V = (Seq<char>, Seq<char>);

    open spec fn view(&self) -> (Seq<char>, Seq<char>) {
        (self.name@, self.value@)
    }
}

/// An immutable description of one outbound HTTP call.
#[derive(Clone, Debug)]
pub struct RequestDescriptor {
    pub url: String,
    pub method: Method,
    pub headers: Vec<Header>,
    pub redirect: RedirectPolicy,
}

/// The headers of a descriptor, as (name, value) pairs in order.
pub open spec fn headers_view(headers: Seq<Header>) -> Seq<(Seq<char>, Seq<char>)> {
    headers.map_values(|h: Header| h@)
}

/// Whether the URL parser accepts `s` as an absolute URL.
pub uninterp spec fn url_parses(s: Seq<char>) -> bool;

/// Relies on `url::Url::parse` (re-exported by `worker`): it accepts exactly
/// the strings that `url_parses` names; the parsed value is dropped.
#[verifier::external_body]
fn url_is_valid(s: &str) -> (r: bool)
    ensures
        r == url_parses(s@),
{
    worker::Url::parse(s).is_ok()
}

/// Builds a descriptor for `url` with the given method, headers and redirect
/// policy, or fails with `InvalidUrl` when the URL does not parse.
pub fn build(url: &str, method: Method, headers: Vec<Header>, redirect: RedirectPolicy) -> (r: Result<
    RequestDescriptor,
    FetchError,
>)
    ensures
        r is Ok <==> url_parses(url@),
        r is Err ==> r == Err::<RequestDescriptor, FetchError>(FetchError::InvalidUrl),
        r matches Ok(d) ==> {
            &&& d.url@ == url@
            &&& d.method == method
            &&& d.headers@ == headers@
            &&& d.redirect == redirect
        },
{
    if url_is_valid(url) {
        Ok(RequestDescriptor { url: url.to_owned(), method, headers, redirect })
    } else {
        Err(FetchError::InvalidUrl)
    }
}

/// The three ways a handler can describe its outbound call.
#[derive(Clone, Copy, Debug, PartialEq, Eq, Structural)]
pub enum Style {
    /// The URL alone.
    ByUrl,
    /// An explicit request object holding the URL alone.
    ByRequest,
    /// A request object with an explicit method, a custom header and the
    /// follow-redirect policy.
    ByRequestWithInit,
}

/// The headers that a style attaches to its request.
pub open spec fn style_headers(style: Style) -> Seq<(Seq<char>, Seq<char>)> {
    match style {
        Style::ByRequestWithInit => seq![("example-header"@, "example-value"@)],
        _ => Seq::empty(),
    }
}

/// Whether `d` is the request that `style` describes for `url`: a GET that
/// follows redirects and carries the style's headers.
pub open spec fn describes(d: RequestDescriptor, style: Style, url: Seq<char>) -> bool {
    &&& d.url@ == url
    &&& d.method == Method::Get
    &&& headers_view(d.headers@) == style_headers(style)
    &&& d.redirect == RedirectPolicy::Follow
}

/// Builds the request that `style` describes for `url`.
pub fn build_for_style(style: Style, url: &str) -> (r: Result<RequestDescriptor, FetchError>)
    ensures
        r is Ok <==> url_parses(url@),
        r is Err ==> r == Err::<RequestDescriptor, FetchError>(FetchError::InvalidUrl),
        r matches Ok(d) ==> describes(d, style, url@),
{
    let mut headers: Vec<Header> = Vec::new();
    match style {
        Style::ByRequestWithInit => {
            headers.push(
                Header {
                    name: String::from_str("example-header"),
                    value: String::from_str("example-value"),
                },
            );
        },
        _ => {},
    }
    proof {
        assert(headers_view(headers@) =~= style_headers(style));
    }
    build(url, Method::Get, headers, RedirectPolicy::Follow)
}

} // verus!
