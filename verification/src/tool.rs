//! What a tool run ends in, shared by both tools.
use vstd::prelude::*;

verus! {

/// The path type of the host; the library only carries such values through.
#[verifier::external_type_specification]
#[verifier::external_body]
pub struct ExPathBuf(std::path::PathBuf);

/// The answer a tool gives to the agent: a flag, the output text, and an
/// error text on failure.
pub struct ToolResult {
    pub success: bool,
    pub output: String,
    pub error: Option<String>,
}

/// A run that could not be completed: the message, and the lower-level
/// error it was raised from, if any.
pub struct Failure {
    pub message: String,
    pub cause: Option<String>,
}

/// The JSON type of a parameter.
#[derive(PartialEq, Eq, Structural)]
pub enum ParamType {
    Str,
    Integer,
}

/// One parameter of a tool, as the agent is told about it.
pub struct ParamSchema {
    pub name: String,
    pub kind: ParamType,
    pub description: String,
    /// The values it may take, when it is an enumeration (else empty).
    pub choices: Vec<String>,
    pub minimum: Option<u64>,
    pub maximum: Option<u64>,
}

/// The parameters of a tool and the names of those that are required.
pub struct ToolSchema {
    pub params: Vec<ParamSchema>,
    pub required: Vec<String>,
}

/// `p` is the parameter described by the other arguments.
pub open spec fn param_is(
    p: ParamSchema,
    name: Seq<char>,
    kind: ParamType,
    description: Seq<char>,
    choices: Seq<Seq<char>>,
    minimum: Option<u64>,
    maximum: Option<u64>,
) -> bool {
    &&& p.name@ == name
    &&& p.kind == kind
    &&& p.description@ == description
    &&& p.choices.deep_view() == choices
    &&& p.minimum == minimum
    &&& p.maximum == maximum
}

/// A parameter description.
pub fn param(
    name: &str,
    kind: ParamType,
    description: &str,
    choices: Vec<String>,
    minimum: Option<u64>,
    maximum: Option<u64>,
) -> (p: ParamSchema)
    ensures
        param_is(p, name@, kind, description@, choices.deep_view(), minimum, maximum),
{
    ParamSchema {
        name: String::from_str(name),
        kind,
        description: String::from_str(description),
        choices,
        minimum,
        maximum,
    }
}

/// The outcome is a refusal with message `msg`: not successful, no output.
pub open spec fn is_refusal(o: Result<ToolResult, Failure>, msg: Seq<char>) -> bool {
    o matches Ok(t) && !t.success && t.output@ == Seq::<char>::empty()
        && t.error.deep_view() == Some(msg)
}

/// The outcome is a success whose output is `out`.
pub open spec fn is_success(o: Result<ToolResult, Failure>, out: Seq<char>) -> bool {
    o matches Ok(t) && t.success && t.output@ == out && t.error is None
}

/// The outcome is an error with message `msg` raised from `cause`.
pub open spec fn is_error(
    o: Result<ToolResult, Failure>,
    msg: Seq<char>,
    cause: Option<Seq<char>>,
) -> bool {
    o matches Err(f) && f.message@ == msg && f.cause.deep_view() == cause
}

/// A refusal carrying `msg`.
pub fn refusal(msg: String) -> (o: Result<ToolResult, Failure>)
    ensures
        is_refusal(o, msg@),
{
    Ok(ToolResult { success: false, output: String::new(), error: Some(msg) })
}

/// A success with output `out`.
pub fn success(out: String) -> (o: Result<ToolResult, Failure>)
    ensures
        is_success(o, out@),
{
    Ok(ToolResult { success: true, output: out, error: None })
}

/// An error with message `msg`, raised from `cause`.
pub fn error_from(msg: &str, cause: String) -> (o: Result<ToolResult, Failure>)
    ensures
        is_error(o, msg@, Some(cause@)),
{
    let c = Some(cause);
    assert(c.deep_view() == Some(cause@));
    Err(Failure { message: String::from_str(msg), cause: c })
}

/// An error with message `msg` and no lower-level cause.
pub fn error_plain(msg: String) -> (o: Result<ToolResult, Failure>)
    ensures
        is_error(o, msg@, None),
{
    Err(Failure { message: msg, cause: None })
}

/// Every outcome that the library builds is one of the three shapes above,
/// and in each of them the result's flag agrees with its error text: a
/// result is successful exactly when it carries no error, and a refusal
/// carries no output.
pub proof fn lemma_outcome_flags(o: Result<ToolResult, Failure>, msg: Seq<char>)
    requires
        is_refusal(o, msg) || is_success(o, msg),
    ensures
        o matches Ok(t) && (t.success <==> t.error is None) && (!t.success ==> t.output@.len()
            == 0),
{
}

} // verus!
