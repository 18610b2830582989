//! Building the request that publishes a text secret, and reading what came
//! back for it.

use crate::args::{PPCArgs, PPCArgsView, PPCText, PPCTextView};
use crate::body::{body_of, field_order, fragment, Field, FIELD_COUNT};
use crate::errors::PPCError;
use crate::join::{join, texts};
use crate::percent::percent_encode;
use vstd::prelude::*;
use vstd::string::*;

verus! {

/// The fragments of the first `count` fields of the fixed order.
spec fn fragments_among(text: PPCTextView, count: int) -> Seq<Seq<char>> {
    field_order().take(count).filter(|field: Field| text.is_set(field)).map_values(
        |field: Field| text.fragment_of(field),
    )
}

/// Taking one more field of the fixed order adds that field's fragment if
/// the field is set, and nothing otherwise.
proof fn lemma_fragments_among_next(text: PPCTextView, count: int)
    requires
        0 <= count < field_order().len(),
    ensures
        fragments_among(text, count + 1) == if text.is_set(field_order()[count]) {
            fragments_among(text, count).push(text.fragment_of(field_order()[count]))
        } else {
            fragments_among(text, count)
        },
{
    let is_set = |field: Field| text.is_set(field);
    let before = field_order().take(count);
    let field = field_order()[count];
    assert(field_order().take(count + 1) =~= before.push(field));
    before.lemma_filter_push(field, is_set);
}

/// Appends the fragment for `key` to `args` if `data` holds a value, and
/// leaves `args` as it is otherwise.
fn add_option(args: &mut Vec<String>, key: &str, data: &Option<String>)
    ensures
        texts(final(args)@) == match *data {
            Some(value) => texts(old(args)@).push(fragment(key@, value@)),
            None => texts(old(args)@),
        },
{
    if let Some(value) = data {
        let mut formatted = String::from_str("password[");
        formatted.append(key);
        formatted.append("]=");
        formatted.append(percent_encode(value.as_str()).as_str());
        args.push(formatted);
    }
}

/// Builds the body of the request that publishes `ppc_text`.
///
/// The body holds one `password[<key>]=<value>` fragment for the payload and
/// one for each option that is set, joined by `&`, in the order payload,
/// passphrase, note, expire_after_days, expire_after_views,
/// deletable_by_viewer, retrieval_step. Each value is percent-encoded; the
/// text around it is not. An option that is not set leaves no trace.
pub fn build_body_string(ppc_text: &PPCText) -> (body: String)
    ensures
        body@ == body_of(ppc_text@),
{
    let mut args: Vec<String> = Vec::with_capacity(FIELD_COUNT);
    let mut i: usize = 0;
    while i < FIELD_COUNT
        invariant
            i <= FIELD_COUNT,
            texts(args@) == fragments_among(ppc_text@, i as int),
        decreases FIELD_COUNT - i,
    {
        if let Some(field) = Field::nth(i) {
            proof {
                lemma_fragments_among_next(ppc_text@, i as int);
            }
            add_option(&mut args, field.name(), &ppc_text.rendered(field));
        }
        i += 1;
    }
    assert(field_order().take(FIELD_COUNT as int) =~= field_order());
    join(&args, "&")
}

/// The HTTP method of a request.
#[derive(Debug, Copy, Clone, PartialEq, Eq, Structural)]
pub enum Method {
    /// `POST`: the one method that publishing a secret takes.
    Post,
}

/// One header of a request.
#[derive(Debug)]
pub struct Header {
    /// The header's name.
    pub name: String,
    /// The header's value, sent as it is.
    pub value: String,
}

/// A request to send.
#[derive(Debug)]
pub struct Request {
    /// The method to send it with.
    pub method: Method,
    /// Where the request goes.
    pub url: String,
    /// The headers to attach, in order.
    pub headers: Vec<Header>,
    /// The payload of the request.
    pub body: String,
}

/// A [`Request`] as a mathematical value. A header is a pair of name and
/// value.
pub ghost struct RequestView {
    pub method: Method,
    pub url: Seq<char>,
    pub headers: Seq<(Seq<char>, Seq<char>)>,
    pub body: Seq<char>,
}

impl View for Header {
    type V = (Seq<char>, Seq<char>);

    open spec fn view(&self) -> (Seq<char>, Seq<char>) {
        (self.name@, self.value@)
    }
}

impl View for Request {
    type V = RequestView;

    open spec fn view(&self) -> RequestView {
        RequestView {
            method: self.method,
            url: self.url@,
            headers: self.headers@.map_values(|header: Header| header@),
            body: self.body@,
        }
    }
}

/// What the transport reports once a request was handed to it.
#[derive(Debug)]
pub enum Reply {
    /// The request got no response. Holds the message of the transport's
    /// error.
    NoResponse(String),
    /// A response arrived, but its body could not be read. Holds the status
    /// and the message of the error.
    BodyLost(u16, String),
    /// A response arrived. Holds its status and the text of its body.
    Response(u16, String),
}

/// A [`Reply`] as a mathematical value.
pub ghost enum ReplyView {
    NoResponse(Seq<char>),
    BodyLost(u16, Seq<char>),
    Response(u16, Seq<char>),
}

impl View for Reply {
    type V = ReplyView;

    open spec fn view(&self) -> ReplyView {
        match self {
            Reply::NoResponse(message) => ReplyView::NoResponse(message@),
            Reply::BodyLost(status, message) => ReplyView::BodyLost(*status, message@),
            Reply::Response(status, body) => ReplyView::Response(*status, body@),
        }
    }
}

/// How a command ended.
#[derive(Debug)]
pub enum Outcome {
    /// The service answered. Holds the HTTP status, whichever it is, and the
    /// text of the response's body as it came.
    Success(u16, String),
    /// The service could not be asked, or its answer could not be read.
    Failure(PPCError),
    /// The command names an operation that is not available yet.
    NotSupported,
}

/// An [`Outcome`] as a mathematical value. A failure is its message.
pub ghost enum OutcomeView {
    Success(u16, Seq<char>),
    Failure(Seq<char>),
    NotSupported,
}

impl View for Outcome {
    type V = OutcomeView;

    open spec fn view(&self) -> OutcomeView {
        match self {
            Outcome::Success(status, body) => OutcomeView::Success(*status, body@),
            Outcome::Failure(error) => OutcomeView::Failure(error@),
            Outcome::NotSupported => OutcomeView::NotSupported,
        }
    }
}

/// The URL that takes new text secrets on an instance.
pub open spec fn target_url(args: PPCArgsView) -> Seq<char> {
    args.instance_protocol.scheme() + "://"@ + args.instance_url + "/p.json"@
}

/// The headers that authenticate a request: the email and the token, each as
/// the user gave it, or none where the user gave no credentials.
pub open spec fn credential_headers(args: PPCArgsView) -> Seq<(Seq<char>, Seq<char>)> {
    match (args.email, args.token) {
        (Some(email), Some(token)) => seq![("X-User-Email"@, email), ("X-User-Token"@, token)],
        _ => Seq::empty(),
    }
}

/// The request that publishes `text` on the instance that `args` names.
pub open spec fn text_request(args: PPCArgsView, text: PPCTextView) -> RequestView {
    RequestView {
        method: Method::Post,
        url: target_url(args),
        headers: credential_headers(args),
        body: body_of(text),
    }
}

/// The outcome that a reply of the transport amounts to. Any status is a
/// success; so the caller decides what a status means.
pub open spec fn concluded(reply: ReplyView) -> OutcomeView {
    match reply {
        ReplyView::NoResponse(message) => OutcomeView::Failure(message),
        ReplyView::BodyLost(_, message) => OutcomeView::Failure(message),
        ReplyView::Response(status, body) => OutcomeView::Success(status, body),
    }
}

/// Builds the request that publishes the text secret `ppc_text` on the
/// instance that `args` names. Nothing is sent: the caller hands the request
/// to its transport and the transport's reply to [`conclude`].
///
/// The request is a POST to `<protocol>://<host>/p.json`. It carries the headers
/// `X-User-Email` and `X-User-Token` when `args` holds credentials, and no
/// header otherwise. Its body is that of [`build_body_string`].
pub fn push_text(args: &PPCArgs, ppc_text: &PPCText) -> (request: Request)
    requires
        args@.wf(),
    ensures
        request@ == text_request(args@, ppc_text@),
{
    let mut url = args.instance_protocol.to_string();
    url.append("://");
    url.append(args.instance_url.as_str());
    url.append("/p.json");
    let mut headers: Vec<Header> = Vec::new();
    if let Some(email) = &args.email {
        if let Some(token) = &args.token {
            headers.push(Header { name: "X-User-Email".to_owned(), value: email.clone() });
            headers.push(Header { name: "X-User-Token".to_owned(), value: token.clone() });
        }
    }
    let request =
        Request { method: Method::Post, url, headers, body: build_body_string(ppc_text) };
    assert(request@.headers =~= credential_headers(args@));
    request
}

/// Turns the transport's reply into the outcome of the command.
///
/// A reply that carries a response is a success with that response's status
/// and body, whatever the status. A reply that carries an error is a failure
/// with that error's message.
pub fn conclude(reply: Reply) -> (outcome: Outcome)
    ensures
        outcome@ == concluded(reply@),
{
    match reply {
        Reply::NoResponse(message) => Outcome::Failure(PPCError::from(message)),
        Reply::BodyLost(_, message) => Outcome::Failure(PPCError::from(message)),
        Reply::Response(status, body) => Outcome::Success(status, body),
    }
}

} // verus!
