//! One call from beginning to end: the request is assembled, handed to the
//! transport, and the answer is recorded and classified.

use vstd::prelude::*;
use vstd::string::*;

use crate::apis::configuration::{Configuration, ConfigurationView};
use crate::apis::encoding::{encode_form, form_urlencoded};
use crate::apis::exchange::{Method, Request, RequestView, Response, TransportError};
use crate::apis::json::{is_json, parse_json};
use crate::apis::rate_limit::{record_rate_limit, recorded};
use crate::apis::{ApiError, ErrorEntity, ResponseContent};

verus! {

/// The headers of a request: the user agent, if one is configured; the
/// API key under `Fastly-Key`, if one is configured; and the content type
/// of the form, if the request carries one.
pub open spec fn request_headers(configuration: ConfigurationView, with_form: bool) -> Seq<
    (Seq<char>, Seq<char>),
> {
    let agent = match configuration.user_agent {
        Some(agent) => seq![("user-agent"@, agent)],
        None => Seq::empty(),
    };
    let key = match configuration.api_key {
        Some(key) => seq![("Fastly-Key"@, key.header_value())],
        None => Seq::empty(),
    };
    let kind = if with_form {
        seq![("content-type"@, "application/x-www-form-urlencoded"@)]
    } else {
        Seq::empty()
    };
    agent + key + kind
}

/// The request for `method` on the resource at `path`, with the form
/// fields as its body where there are any to send.
pub open spec fn request_for(
    configuration: ConfigurationView,
    method: Method,
    path: Seq<char>,
    form: Option<Seq<(Seq<char>, Seq<char>)>>,
) -> RequestView {
    RequestView {
        method,
        url: configuration.base_path + path,
        headers: request_headers(configuration, form is Some),
        body: match form {
            Some(fields) => Some(form_urlencoded(fields)),
            None => None,
        },
    }
}

/// Assembles the request for `method` on the resource at `path`.
pub fn build_request(
    configuration: &Configuration,
    method: Method,
    path: &str,
    form: Option<&Vec<(String, String)>>,
) -> (request: Request)
    ensures
        request@ == request_for(configuration@, method, path@, form.deep_view()),
{
    let mut url = configuration.base_path.clone();
    url.append(path);
    let mut headers: Vec<(String, String)> = Vec::new();
    if let Some(agent) = &configuration.user_agent {
        headers.push(("user-agent".to_owned(), agent.clone()));
    }
    if let Some(key) = &configuration.api_key {
        headers.push(("Fastly-Key".to_owned(), key.header_value()));
    }
    let body = match form {
        Some(fields) => {
            headers.push(
                ("content-type".to_owned(), "application/x-www-form-urlencoded".to_owned()),
            );
            Some(encode_form(fields))
        },
        None => None,
    };
    let request = Request { method, url, headers, body };
    assert(request.headers.deep_view() =~= request_headers(configuration@, form is Some));
    request
}

/// Whether a status reports an error: 400 to 599.
pub open spec fn is_error_status(status: u16) -> bool {
    400 <= status <= 599
}

/// How an exchange ended.
pub enum Verdict {
    /// No response arrived, or its body could not be read to the end.
    Failed { message: Seq<char> },
    /// The API reported an error.
    Rejected { status: u16, content: Seq<char> },
    /// The API reported success; the body is the payload.
    Accepted { content: Seq<char> },
}

/// Classifies an exchange by its status alone: 400 to 599 reject, every
/// other status accepts, whatever the body holds.
pub open spec fn verdict(exchange: Result<Response, TransportError>) -> Verdict {
    match exchange {
        Err(failure) => Verdict::Failed { message: failure@ },
        Ok(response) => match response.content {
            Err(failure) => Verdict::Failed { message: failure@ },
            Ok(content) => if is_error_status(response.status) {
                Verdict::Rejected { status: response.status, content: content@ }
            } else {
                Verdict::Accepted { content: content@ }
            },
        },
    }
}

/// The configuration after an exchange: what the response advertises is
/// recorded as soon as its head has arrived, and nothing changes where no
/// response arrived.
pub open spec fn after_exchange(
    configuration: ConfigurationView,
    method: Method,
    exchange: Result<Response, TransportError>,
) -> ConfigurationView {
    match exchange {
        Ok(response) => recorded(configuration, method, response),
        Err(_) => configuration,
    }
}

/// Whether the rate-limit headers of an exchange can be recorded: those
/// that were sent in answer to a counted method hold numbers.
pub open spec fn is_recordable(method: Method, exchange: Result<Response, TransportError>) -> bool {
    exchange matches Ok(response) ==> (method.is_counted() ==> response.advertises_numbers())
}

/// Whether `result` reports the failure that `verdict` describes: the
/// transport's message, or the status and body of the response, with the
/// body's JSON document as the entity exactly where the body is one. An
/// accepted response is no failure, and nothing reports it.
pub open spec fn reports<T, E>(result: Result<T, ApiError<E>>, verdict: Verdict) -> bool {
    match verdict {
        Verdict::Failed { message } => result matches Err(ApiError::Transport(failure))
            && failure@ == message,
        Verdict::Rejected { status, content } => result matches Err(ApiError::ResponseError(found))
            && found.status == status && found.content@ == content && (found.entity is Some
            <==> is_json(content)),
        Verdict::Accepted { .. } => false,
    }
}

/// Whether `outcome` is what [`conclude`] owes for an exchange: the body
/// of an accepted response, unchanged, and a report of every other.
pub open spec fn concludes<E>(
    exchange: Result<Response, TransportError>,
    outcome: Result<String, ApiError<E>>,
) -> bool {
    match verdict(exchange) {
        Verdict::Accepted { content } => outcome matches Ok(body) && body@ == content,
        other => reports(outcome, other),
    }
}

/// A response with a status from 400 to 599 never concludes in success,
/// whatever its body holds: where the body arrived, the outcome is a
/// response error with that status and that body.
pub proof fn lemma_error_status_is_not_concluded<E>(
    response: Response,
    outcome: Result<String, ApiError<E>>,
)
    requires
        is_error_status(response.status),
        concludes(Ok(response), outcome),
    ensures
        outcome is Err,
        response.content matches Ok(body) ==> (outcome matches Err(ApiError::ResponseError(found))
            && found.status == response.status && found.content@ == body@),
{
}

/// Records and classifies what came back from the transport: the rate
/// limit that the response advertises goes into the configuration, the
/// body of a response with a status outside 400 to 599 is handed on, and
/// every other exchange is reported as the error that it is.
pub fn conclude<E: ErrorEntity>(
    configuration: &mut Configuration,
    method: Method,
    exchange: Result<Response, TransportError>,
) -> (outcome: Result<String, ApiError<E>>)
    requires
        is_recordable(method, exchange),
    ensures
        final(configuration)@ == after_exchange(old(configuration)@, method, exchange),
        concludes(exchange, outcome),
{
    match exchange {
        Err(failure) => Err(ApiError::from(failure)),
        Ok(response) => {
            record_rate_limit(configuration, method, &response);
            let status = response.status;
            match response.content {
                Err(failure) => Err(ApiError::from(failure)),
                Ok(content) => {
                    if 400 <= status && status <= 599 {
                        let entity = match parse_json(content.as_str()) {
                            Some(document) => Some(E::from_document(document)),
                            None => None,
                        };
                        Err(ApiError::ResponseError(ResponseContent { status, content, entity }))
                    } else {
                        Ok(content)
                    }
                },
            }
        },
    }
}

/// What a decoder's answer becomes: the payload, or a decode error.
pub open spec fn decoded_as<T, E>(decoded: Result<T, serde_json::Error>) -> Result<
    T,
    ApiError<E>,
> {
    match decoded {
        Ok(payload) => Ok(payload),
        Err(failure) => Err(ApiError::Serde(failure)),
    }
}

/// Whether `result` is what a call owes for an exchange: what `decode`
/// made of the body of an accepted response, and a report of every other.
pub open spec fn settles<T, E, D: FnOnce(&str) -> Result<T, serde_json::Error>>(
    exchange: Result<Response, TransportError>,
    decode: D,
    result: Result<T, ApiError<E>>,
) -> bool {
    match verdict(exchange) {
        Verdict::Accepted { content } => exists|body: &str, decoded: Result<T, serde_json::Error>|
            #![trigger call_ensures(decode, (body,), decoded)]
            body@ == content && call_ensures(decode, (body,), decoded) && result == decoded_as::<
                T,
                E,
            >(decoded),
        other => reports(result, other),
    }
}

/// A response with a status from 400 to 599 is never reported as
/// success, whatever its body holds: the call fails, and where the body
/// arrived the failure carries that status and that body.
pub proof fn lemma_error_status_is_reported<T, E, D: FnOnce(&str) -> Result<T, serde_json::Error>>(
    response: Response,
    decode: D,
    result: Result<T, ApiError<E>>,
)
    requires
        is_error_status(response.status),
        settles(Ok(response), decode, result),
    ensures
        result is Err,
        !(result matches Err(ApiError::Serde(_))),
        response.content matches Ok(body) ==> (result matches Err(ApiError::ResponseError(found))
            && found.status == response.status && found.content@ == body@),
{
}

/// What the decoder reads from the body of a response with a status
/// outside 400 to 599 is returned as it is.
pub proof fn lemma_accepted_payload_is_returned<
    T,
    E,
    D: FnOnce(&str) -> Result<T, serde_json::Error>,
>(response: Response, decode: D, result: Result<T, ApiError<E>>, payload: T)
    requires
        !is_error_status(response.status),
        response.content is Ok,
        settles(Ok(response), decode, result),
        forall|body: &str, decoded: Result<T, serde_json::Error>|
            body@ == response.content->Ok_0@ && call_ensures(decode, (body,), decoded)
                ==> decoded == Ok::<T, serde_json::Error>(payload),
    ensures
        result == Ok::<T, ApiError<E>>(payload),
{
}

/// A call with `GET` or `HEAD` leaves the configuration as it was,
/// however the exchange ended.
pub proof fn lemma_uncounted_methods_change_nothing(
    configuration: ConfigurationView,
    method: Method,
    exchange: Result<Response, TransportError>,
)
    requires
        !method.is_counted(),
    ensures
        after_exchange(configuration, method, exchange) == configuration,
{
}

/// Whether the transport can be handed `request`, and answers a counted
/// method with rate-limit headers that hold numbers.
pub open spec fn is_ready<S: FnOnce(Request) -> Result<Response, TransportError>>(
    send: S,
    request: RequestView,
) -> bool {
    &&& forall|sent: Request| sent@ == request ==> call_requires(send, (sent,))
    &&& forall|sent: Request, exchange: Result<Response, TransportError>|
        call_ensures(send, (sent,), exchange) ==> is_recordable(request.method, exchange)
}

/// Whether a call went as it must: `request` was handed to the transport
/// once, what came back was recorded in the configuration, and `result`
/// is what that exchange settles to.
pub open spec fn performs<
    T,
    E,
    S: FnOnce(Request) -> Result<Response, TransportError>,
    D: FnOnce(&str) -> Result<T, serde_json::Error>,
>(
    before: ConfigurationView,
    after: ConfigurationView,
    request: RequestView,
    send: S,
    decode: D,
    result: Result<T, ApiError<E>>,
) -> bool {
    exists|sent: Request, exchange: Result<Response, TransportError>|
        #![trigger call_ensures(send, (sent,), exchange)]
        sent@ == request && call_ensures(send, (sent,), exchange) && after == after_exchange(
            before,
            request.method,
            exchange,
        ) && settles(exchange, decode, result)
}

/// Performs one call: assembles the request for `method` on the resource
/// at `path`, hands it to `send`, records the rate limit that the answer
/// advertises, and classifies the answer by its status. The body of an
/// accepted answer goes through `decode`.
pub fn execute<T, E, S, D>(
    configuration: &mut Configuration,
    method: Method,
    path: &str,
    form: Option<&Vec<(String, String)>>,
    send: S,
    decode: D,
) -> (result: Result<T, ApiError<E>>) where
    E: ErrorEntity,
    S: FnOnce(Request) -> Result<Response, TransportError>,
    D: FnOnce(&str) -> Result<T, serde_json::Error>,

    requires
        is_ready(send, request_for(old(configuration)@, method, path@, form.deep_view())),
        forall|body: &str| call_requires(decode, (body,)),
    ensures
        performs(
            old(configuration)@,
            final(configuration)@,
            request_for(old(configuration)@, method, path@, form.deep_view()),
            send,
            decode,
            result,
        ),
{
    let request = build_request(configuration, method, path, form);
    let exchange = send(request);
    match conclude(configuration, method, exchange) {
        Ok(body) => match decode(body.as_str()) {
            Ok(payload) => Ok(payload),
            Err(failure) => Err(ApiError::from(failure)),
        },
        Err(error) => Err(error),
    }
}

} // verus!
