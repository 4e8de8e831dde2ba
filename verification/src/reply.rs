//! What goes out to a node, and what is made of what comes back.
use vstd::prelude::*;
use vstd::string::*;

use crate::error::{RpcError, RpcErrorView};
use crate::json::{
    Json, JsonView, empty_object, json_read_bytes, json_text, json_written, parse_json_bytes,
    read_view,
};
use crate::proxy::{ClientPlan, ClientPlanView, ProxyError, ProxyErrorView, opt_span};
use crate::store::texts;
use crate::text::{parse_hex_u64, quantity_value};
use crate::time::Duration;

verus! {

/// What a caller wants of the result of a call.
#[derive(Clone, Copy, Debug, PartialEq, Eq, Structural)]
pub enum Shape {
    /// The result as it is.
    Value,
    /// The result as a text.
    Text,
    /// The number that the result's text spells.
    ChainId,
}

/// The result of a call.
#[derive(Debug, PartialEq, Eq)]
pub enum Answer {
    Value(Json),
    Text(String),
    ChainId(u64),
}

/// What an [`Answer`] says.
#[verifier::ext_equal]
pub enum AnswerView {
    Value(JsonView),
    Text(Seq<char>),
    ChainId(u64),
}

impl View for Answer {
    type V = AnswerView;

    open spec fn view(&self) -> AnswerView {
        match *self {
            Answer::Value(v) => AnswerView::Value(v@),
            Answer::Text(s) => AnswerView::Text(s@),
            Answer::ChainId(n) => AnswerView::ChainId(n),
        }
    }
}

/// The view of what a call came to.
pub open spec fn answer_view(r: Result<Answer, RpcError>) -> Result<AnswerView, RpcErrorView> {
    match r {
        Ok(a) => Ok(a@),
        Err(e) => Err(e@),
    }
}

/// The chain id that a text spells.
pub open spec fn chain_id_of(text: Seq<char>) -> Result<AnswerView, RpcErrorView> {
    match quantity_value(text) {
        Some(n) => Ok(AnswerView::ChainId(n)),
        None => Err(RpcErrorView::Parse("bad chainId: "@ + text)),
    }
}

/// The text of a result: a text as it is, anything else as JSON.
pub open spec fn result_text(v: JsonView) -> Seq<char> {
    match v {
        JsonView::Text(s) => s,
        other => json_written(other),
    }
}

/// A result in the shape that the caller wants.
pub open spec fn shaped(shape: Shape, v: JsonView) -> Result<AnswerView, RpcErrorView> {
    match shape {
        Shape::Value => Ok(AnswerView::Value(v)),
        Shape::Text => Ok(AnswerView::Text(result_text(v))),
        Shape::ChainId => chain_id_of(result_text(v)),
    }
}

/// Reads the chain id that a text spells.
pub fn read_chain_id(text: String) -> (r: Result<Answer, RpcError>)
    ensures
        answer_view(r) == chain_id_of(text@),
{
    match parse_hex_u64(text.as_str()) {
        Some(n) => Ok(Answer::ChainId(n)),
        None => Err(RpcError::Parse(String::from_str("bad chainId: ").concat(text.as_str()))),
    }
}

fn result_str(v: Json) -> (r: String)
    ensures
        r@ == result_text(v@),
{
    match v {
        Json::Text(s) => s,
        other => json_text(&other),
    }
}

/// Puts a result into the shape that the caller wants.
pub fn shape_answer(shape: Shape, v: Json) -> (r: Result<Answer, RpcError>)
    ensures
        answer_view(r) == shaped(shape, v@),
{
    match shape {
        Shape::Value => Ok(Answer::Value(v)),
        Shape::Text => Ok(Answer::Text(result_str(v))),
        Shape::ChainId => read_chain_id(result_str(v)),
    }
}

/// One request to a node.
#[derive(Debug, PartialEq, Eq)]
pub struct PostRequest {
    pub client: ClientPlan,
    pub url: String,
    pub body: Json,
    /// One deadline for the whole exchange, headers and body together.
    pub budget: Option<Duration>,
    pub shape: Shape,
}

/// What a [`PostRequest`] says.
#[verifier::ext_equal]
pub struct PostRequestView {
    pub client: ClientPlanView,
    pub url: Seq<char>,
    pub body: JsonView,
    pub budget: Option<nat>,
    pub shape: Shape,
}

impl View for PostRequest {
    type V = PostRequestView;

    open spec fn view(&self) -> PostRequestView {
        PostRequestView {
            client: self.client@,
            url: self.url@,
            body: self.body@,
            budget: opt_span(self.budget),
            shape: self.shape,
        }
    }
}

/// The JSON-RPC request for a method.
pub open spec fn request_body(method: Seq<char>, params: JsonView) -> JsonView {
    empty_object().with("jsonrpc"@, JsonView::Text("2.0"@)).with("id"@, JsonView::Int(1)).with(
        "method"@,
        JsonView::Text(method),
    ).with("params"@, params)
}

/// Builds the JSON-RPC request for a method.
pub fn build_request(method: &str, params: Json) -> (r: Json)
    ensures
        r@ == request_body(method@, params@),
{
    Json::object().with("jsonrpc", Json::text("2.0")).with("id", Json::Unsigned(1)).with(
        "method",
        Json::text(method),
    ).with("params", params)
}

/// What came of sending a request.
#[derive(Debug, PartialEq, Eq)]
pub enum PostReply {
    /// The whole body of a response.
    Body(Vec<u8>),
    /// No response: whether the time ran out, and the chain of causes, outermost first.
    Failed { timed_out: bool, causes: Vec<String> },
    /// The client could not be built, and nothing was sent.
    Unbuilt(String),
}

/// What a [`PostReply`] says.
#[verifier::ext_equal]
pub enum PostReplyView {
    Body(Seq<u8>),
    Failed { timed_out: bool, causes: Seq<Seq<char>> },
    Unbuilt(Seq<char>),
}

impl View for PostReply {
    type V = PostReplyView;

    open spec fn view(&self) -> PostReplyView {
        match *self {
            PostReply::Body(b) => PostReplyView::Body(b@),
            PostReply::Failed { timed_out, causes } => PostReplyView::Failed {
                timed_out,
                causes: texts(causes@),
            },
            PostReply::Unbuilt(e) => PostReplyView::Unbuilt(e@),
        }
    }
}

/// Causes joined by a colon, outermost first.
pub open spec fn joined(causes: Seq<Seq<char>>) -> Seq<char>
    decreases causes.len(),
{
    if causes.len() == 0 {
        Seq::empty()
    } else if causes.len() == 1 {
        causes[0]
    } else {
        joined(causes.drop_last()) + ": "@ + causes.last()
    }
}

/// The error for a request that got no response. The prose of an expired timeout and of a refused
/// connection is the same, so the kind comes from elsewhere; without a budget there is nothing to
/// name and the chain's own timeout reads as a transport failure.
pub open spec fn transport_error(
    timed_out: bool,
    causes: Seq<Seq<char>>,
    budget: Option<nat>,
) -> RpcErrorView {
    match budget {
        Some(b) => if timed_out {
            RpcErrorView::Timeout { budget_ms: b / 1_000_000, detail: joined(causes) }
        } else {
            RpcErrorView::Http(joined(causes))
        },
        None => RpcErrorView::Http(joined(causes)),
    }
}

fn join(causes: &Vec<String>) -> (r: String)
    ensures
        r@ == joined(texts(causes@)),
{
    let mut s = String::new();
    let ghost all = texts(causes@);
    let mut i: usize = 0;
    while i < causes.len()
        invariant
            i <= causes.len(),
            all == texts(causes@),
            s@ == joined(all.take(i as int)),
        decreases causes.len() - i,
    {
        assert(all.take(i + 1).drop_last() =~= all.take(i as int));
        assert(all.take(i + 1).last() == causes@[i as int]@);
        if i > 0 {
            s.append(": ");
        }
        s.append(causes[i].as_str());
        assert(s@ =~= joined(all.take(i + 1)));
        i = i + 1;
    }
    assert(all.take(i as int) =~= all);
    s
}

/// The error for a request that got no response, with the whole chain of causes.
pub fn http_error(timed_out: bool, causes: &Vec<String>, budget: Option<Duration>) -> (r: RpcError)
    ensures
        r@ == transport_error(timed_out, texts(causes@), opt_span(budget)),
{
    let s = join(causes);
    match (timed_out, budget) {
        (true, Some(b)) => RpcError::Timeout { budget_ms: b.as_millis(), detail: s },
        _ => RpcError::Http(s),
    }
}

/// What is said of a response without a result.
pub const NO_RESULT: &'static str = "response had no `result`";

/// The result that a response carries. A response with an `error` member is an error, whatever else
/// it carries.
pub open spec fn response_result(v: JsonView) -> Result<JsonView, RpcErrorView> {
    match v.get("error"@) {
        Some(err) => Err(
            RpcErrorView::Rpc {
                code: match err.i64_at("code"@) {
                    Some(code) => code,
                    None => 0,
                },
                message: match err.text_at("message"@) {
                    Some(message) => message,
                    None => ""@,
                },
            },
        ),
        None => match v.get("result"@) {
            Some(result) => Ok(result),
            None => Err(RpcErrorView::Parse(NO_RESULT@)),
        },
    }
}

/// Takes the result out of a response.
pub fn read_response(v: &Json) -> (r: Result<Json, RpcError>)
    ensures
        match r {
            Ok(result) => response_result(v@) == Ok::<_, RpcErrorView>(result@),
            Err(e) => response_result(v@) == Err::<JsonView, _>(e@),
        },
{
    if let Some(err) = v.get("error") {
        let code: i64 = match err.i64_at("code") {
            Some(code) => code,
            None => 0,
        };
        let message = match err.text_at("message") {
            Some(message) => message,
            None => "",
        };
        return Err(RpcError::Rpc { code, message: message.to_string() });
    }
    match v.get("result") {
        Some(result) => Ok(result.clone()),
        None => Err(RpcError::Parse(NO_RESULT.to_string())),
    }
}

/// What is made of a body, given what was read out of it.
pub open spec fn body_outcome(
    shape: Shape,
    parsed: Result<JsonView, Seq<char>>,
) -> Result<AnswerView, RpcErrorView> {
    match parsed {
        Err(e) => Err(RpcErrorView::Http("error decoding response body: "@ + e)),
        Ok(v) => match response_result(v) {
            Err(e) => Err(e),
            Ok(result) => shaped(shape, result),
        },
    }
}

/// Makes an answer of what was read out of a body.
pub fn read_body(shape: Shape, parsed: Result<Json, String>) -> (r: Result<Answer, RpcError>)
    ensures
        answer_view(r) == body_outcome(shape, read_view(parsed)),
{
    match parsed {
        Err(e) => Err(
            RpcError::Http(String::from_str("error decoding response body: ").concat(e.as_str())),
        ),
        Ok(v) => match read_response(&v) {
            Err(e) => Err(e),
            Ok(result) => shape_answer(shape, result),
        },
    }
}

impl PostRequestView {
    /// What is made of what came back.
    pub open spec fn outcome(self, reply: PostReplyView) -> Result<AnswerView, RpcErrorView> {
        match reply {
            PostReplyView::Body(body) => body_outcome(self.shape, json_read_bytes(body)),
            PostReplyView::Failed { timed_out, causes } => Err(
                transport_error(timed_out, causes, self.budget),
            ),
            PostReplyView::Unbuilt(e) => Err(
                RpcErrorView::Proxy(ProxyErrorView::Build(e).message()),
            ),
        }
    }
}

impl PostRequest {
    /// Makes an answer of what came back.
    pub fn finish(&self, reply: PostReply) -> (r: Result<Answer, RpcError>)
        ensures
            answer_view(r) == self@.outcome(reply@),
    {
        match reply {
            PostReply::Body(body) => read_body(self.shape, parse_json_bytes(&body)),
            PostReply::Failed { timed_out, causes } => Err(
                http_error(timed_out, &causes, self.budget),
            ),
            PostReply::Unbuilt(e) => Err(RpcError::Proxy(ProxyError::Build(e).message())),
        }
    }
}

/// A request, an answer and what came back say what stands in them.
pub proof fn law_a_request_says_what_stands_in_it(
    request: PostRequest,
    v: Json,
    s: String,
    n: u64,
    body: Vec<u8>,
    timed_out: bool,
    causes: Vec<String>,
    e: RpcError,
    i: int,
)
    ensures
        request@.client == request.client@,
        request@.url == request.url@,
        request@.body == request.body@,
        request@.budget is Some <==> request.budget is Some,
        request.budget is Some ==> request@.budget == Some(request.budget->0@),
        request@.shape == request.shape,
        Answer::Value(v)@ == AnswerView::Value(v@),
        Answer::Text(s)@ == AnswerView::Text(s@),
        Answer::ChainId(n)@ == AnswerView::ChainId(n),
        answer_view(Ok(Answer::Text(s))) == Ok::<_, RpcErrorView>(AnswerView::Text(s@)),
        answer_view(Ok(Answer::Value(v))) == Ok::<_, RpcErrorView>(AnswerView::Value(v@)),
        answer_view(Ok(Answer::ChainId(n))) == Ok::<_, RpcErrorView>(AnswerView::ChainId(n)),
        answer_view(Err(e)) == Err::<AnswerView, _>(e@),
        PostReply::Body(body)@ == PostReplyView::Body(body@),
        PostReply::Unbuilt(s)@ == PostReplyView::Unbuilt(s@),
        (PostReply::Failed { timed_out, causes })@ matches PostReplyView::Failed {
            timed_out: told,
            causes: all,
        } && told == timed_out && all.len() == causes@.len() && (0 <= i < all.len() ==> all[i]
            == causes@[i]@),
{
}

} // verus!
