//! The agent-facing side of the disruption oracle: the plasma-state tree an
//! agent reads, and the request dispatch of the Model Context Protocol
//! server (which method, which tool, which error).

use vstd::prelude::*;
use crate::text::{decimal, lemma_parse_decimal, parse_decimal, push_decimal};
use crate::ui::{empty_meta, node_text, tree_text, KindModel, NodeBuilder, NodeModel, UITree};
use crate::widgets::node;

verus! {

/// The heading of the plasma-state tree: `Plasma state — shot #<shot>`.
pub open spec fn plasma_state_heading(shot: nat) -> Seq<char> {
    "Plasma state — shot #"@ + decimal(shot)
}

/// The plasma-state tree: a level-1 heading, the gauge tree in a container,
/// and the metrics line.
pub open spec fn plasma_state_model(shot: nat, gauge: Seq<NodeModel>, metrics: Seq<char>) -> Seq<NodeModel> {
    seq![
        node(KindModel::Heading { level: 1, text: plasma_state_heading(shot) }, empty_meta()),
        node(KindModel::Container { children: gauge }, empty_meta()),
        node(KindModel::Text { content: metrics }, empty_meta()),
    ]
}

/// Builds the tree describing the current plasma state, around a gauge tree
/// and an already formatted metrics line.
pub fn plasma_state_tree(shot: u64, gauge: UITree<()>, metrics: &str) -> (t: UITree<()>)
    ensures
        t@ == plasma_state_model(shot as nat, gauge@, metrics@),
{
    let mut heading: String = String::new();
    heading.append("Plasma state — shot #");
    push_decimal(&mut heading, shot);
    let mut b: NodeBuilder = NodeBuilder::new();
    b.heading(1, heading.as_str());
    b.with(gauge);
    b.text(metrics);
    let t: UITree<()> = UITree::from_builder(b);
    assert(t@ =~~= plasma_state_model(shot as nat, gauge@, metrics@));
    t
}

/// How risky the latest observed state is, as the oracle grades it from the
/// instability score (above 0.6 high, above 0.3 moderate, else stable).
pub enum RiskLevel {
    /// Nothing observed yet.
    Unobserved,
    Stable,
    Moderate,
    High,
}

/// A parameter suggestion: whether to raise an alert, the message, and the
/// control action (the numeric deltas accompany it outside).
pub struct Advice {
    pub alert: bool,
    pub message: String,
    pub action: Option<&'static str>,
}

/// The message of a suggestion for a risk level, with the score and the
/// dominant frequency already formatted.
pub open spec fn advice_message(level: RiskLevel, score: Seq<char>, freq: Seq<char>) -> Seq<char> {
    match level {
        RiskLevel::Unobserved => "No plasma state observed yet."@,
        RiskLevel::High => "High disruption risk (score="@ + score + ", f="@ + freq
            + " Hz): reduce plasma current and increase heating to broaden the profile."@,
        RiskLevel::Moderate => "Moderate MHD activity (score="@ + score + "): hold current, monitor "@ + freq
            + " Hz mode."@,
        RiskLevel::Stable => "Stable discharge: no adjustment required."@,
    }
}

/// The control action for a risk level.
pub open spec fn advice_action(level: RiskLevel) -> Option<Seq<char>> {
    match level {
        RiskLevel::Unobserved => None,
        RiskLevel::High => Some("ramp_down_current"@),
        RiskLevel::Moderate => Some("hold"@),
        RiskLevel::Stable => Some("none"@),
    }
}

/// Suggests control adjustments for the next shot: only a high risk raises
/// an alert; high risk ramps the current down, moderate holds it, a stable
/// discharge needs nothing.
pub fn advise(level: RiskLevel, score_text: &str, freq_text: &str) -> (a: Advice)
    ensures
        a.alert == (level is High),
        a.message@ == advice_message(level, score_text@, freq_text@),
        match a.action {
            Some(s) => advice_action(level) == Some(s@),
            None => advice_action(level) is None,
        },
{
    let mut message: String = String::new();
    match level {
        RiskLevel::Unobserved => {
            message.append("No plasma state observed yet.");
            Advice { alert: false, message, action: None }
        },
        RiskLevel::High => {
            message.append("High disruption risk (score=");
            message.append(score_text);
            message.append(", f=");
            message.append(freq_text);
            message.append(" Hz): reduce plasma current and increase heating to broaden the profile.");
            Advice { alert: true, message, action: Some("ramp_down_current") }
        },
        RiskLevel::Moderate => {
            message.append("Moderate MHD activity (score=");
            message.append(score_text);
            message.append("): hold current, monitor ");
            message.append(freq_text);
            message.append(" Hz mode.");
            Advice { alert: false, message, action: Some("hold") }
        },
        RiskLevel::Stable => {
            message.append("Stable discharge: no adjustment required.");
            Advice { alert: false, message, action: Some("none") }
        },
    }
}

/// The tools the server offers.
pub enum Tool {
    QueryPlasmaState,
    SuggestParameters,
}

/// What the server does with a request.
pub enum McpAction {
    /// Answer `initialize` with the server's capabilities.
    Initialize,
    /// Answer `tools/list` with the tool descriptions.
    ListTools,
    /// Run one of the tools.
    CallTool(Tool),
    /// `tools/call` named no known tool: invalid-params error.
    UnknownTool { message: String },
    /// Any other method: method-not-found error.
    MethodNotFound { message: String },
    /// A notification (a request without an id): no reply at all.
    NoReply,
}

/// The action's view: the same decision with messages as text.
pub enum ActionModel {
    Initialize,
    ListTools,
    CallQueryPlasmaState,
    CallSuggestParameters,
    UnknownTool { message: Seq<char> },
    MethodNotFound { message: Seq<char> },
    NoReply,
}

impl View for McpAction {
    type V = ActionModel;

    open spec fn view(&self) -> ActionModel {
        match self {
            McpAction::Initialize => ActionModel::Initialize,
            McpAction::ListTools => ActionModel::ListTools,
            McpAction::CallTool(Tool::QueryPlasmaState) => ActionModel::CallQueryPlasmaState,
            McpAction::CallTool(Tool::SuggestParameters) => ActionModel::CallSuggestParameters,
            McpAction::UnknownTool { message } => ActionModel::UnknownTool { message: message@ },
            McpAction::MethodNotFound { message } => ActionModel::MethodNotFound { message: message@ },
            McpAction::NoReply => ActionModel::NoReply,
        }
    }
}

/// The dispatch rule: a notification (no `id`) gets no reply; otherwise
/// `initialize` and `tools/list` are answered directly; `tools/call` runs
/// the named tool or fails with `unknown tool: <name>`; every other method
/// fails with `method not found: <method>`.
pub open spec fn dispatch(has_id: bool, method: Seq<char>, tool: Seq<char>) -> ActionModel {
    if !has_id {
        ActionModel::NoReply
    } else if method == "initialize"@ {
        ActionModel::Initialize
    } else if method == "tools/list"@ {
        ActionModel::ListTools
    } else if method == "tools/call"@ {
        if tool == "query_plasma_state"@ {
            ActionModel::CallQueryPlasmaState
        } else if tool == "suggest_parameters"@ {
            ActionModel::CallSuggestParameters
        } else {
            ActionModel::UnknownTool { message: "unknown tool: "@ + tool }
        }
    } else {
        ActionModel::MethodNotFound { message: "method not found: "@ + method }
    }
}

fn same_text(a: &str, b: &str) -> (r: bool)
    ensures
        r == (a@ == b@),
{
    let x: String = a.to_string();
    let y: String = b.to_string();
    x == y
}

/// Decides what to do with a JSON-RPC request given whether it carries an
/// `id`, its `method` and, for `tools/call`, the tool `name` (empty when
/// absent).
pub fn classify_request(has_id: bool, method: &str, tool: &str) -> (a: McpAction)
    ensures
        a@ == dispatch(has_id, method@, tool@),
{
    if !has_id {
        McpAction::NoReply
    } else if same_text(method, "initialize") {
        McpAction::Initialize
    } else if same_text(method, "tools/list") {
        McpAction::ListTools
    } else if same_text(method, "tools/call") {
        if same_text(tool, "query_plasma_state") {
            McpAction::CallTool(Tool::QueryPlasmaState)
        } else if same_text(tool, "suggest_parameters") {
            McpAction::CallTool(Tool::SuggestParameters)
        } else {
            let mut message: String = String::new();
            message.append("unknown tool: ");
            message.append(tool);
            McpAction::UnknownTool { message }
        }
    } else {
        let mut message: String = String::new();
        message.append("method not found: ");
        message.append(method);
        McpAction::MethodNotFound { message }
    }
}

/// The JSON-RPC error code of a failed dispatch: invalid params for an
/// unknown tool, method not found otherwise; `None` for a successful one.
pub open spec fn error_code_of(a: ActionModel) -> Option<i64> {
    match a {
        ActionModel::UnknownTool { .. } => Some(-32602i64),
        ActionModel::MethodNotFound { .. } => Some(-32601i64),
        _ => None,
    }
}

/// The JSON-RPC error code for an action, if it is an error.
pub fn error_code(a: &McpAction) -> (c: Option<i64>)
    ensures
        c == error_code_of(a@),
{
    match a {
        McpAction::UnknownTool { .. } => Some(-32602),
        McpAction::MethodNotFound { .. } => Some(-32601),
        _ => None,
    }
}

/// The JSON-RPC protocol version of every reply.
pub fn jsonrpc_version() -> (v: &'static str)
    ensures
        v@ == "2.0"@,
{
    "2.0"
}

/// What the server reports of itself on `initialize`.
pub struct ServerInfo {
    pub protocol_version: &'static str,
    pub name: &'static str,
    pub version: &'static str,
}

/// The server's `initialize` answer: protocol version `2024-11-05`, name
/// `tpt-oracle`, version `0.1.0`.
pub fn server_info() -> (info: ServerInfo)
    ensures
        info.protocol_version@ == "2024-11-05"@,
        info.name@ == "tpt-oracle"@,
        info.version@ == "0.1.0"@,
{
    ServerInfo { protocol_version: "2024-11-05", name: "tpt-oracle", version: "0.1.0" }
}

/// One entry of the `tools/list` answer.
pub struct ToolDescriptor {
    pub name: &'static str,
    pub description: &'static str,
}

impl View for ToolDescriptor {
    type V = (Seq<char>, Seq<char>);

    open spec fn view(&self) -> (Seq<char>, Seq<char>) {
        (self.name@, self.description@)
    }
}

/// The offered tools, name and description, in `tools/list` order.
pub open spec fn catalog() -> Seq<(Seq<char>, Seq<char>)> {
    seq![
        ("query_plasma_state"@,
            "Return the latest plasma instability report and nearest historical matches."@),
        ("suggest_parameters"@,
            "Suggest control-parameter adjustments for the next shot based on the latest state."@),
    ]
}

/// The `tools/list` answer: the two tools with their descriptions.
pub fn tool_catalog() -> (ts: Vec<ToolDescriptor>)
    ensures
        ts@.map_values(|d: ToolDescriptor| d@) == catalog(),
{
    let mut ts: Vec<ToolDescriptor> = Vec::new();
    ts.push(ToolDescriptor {
        name: "query_plasma_state",
        description: "Return the latest plasma instability report and nearest historical matches.",
    });
    ts.push(ToolDescriptor {
        name: "suggest_parameters",
        description: "Suggest control-parameter adjustments for the next shot based on the latest state.",
    });
    assert(ts@.map_values(|d: ToolDescriptor| d@) =~= catalog());
    ts
}

/// The body of a reply: a result of one of the kinds below, or an error.
pub enum ReplyBody {
    /// `initialize`: what the server reports of itself.
    ServerInfo(ServerInfo),
    /// `tools/list`: the tool descriptions.
    ToolList(Vec<ToolDescriptor>),
    /// `tools/call`: the text that the named tool produces (the tool runs
    /// on the live state, outside).
    ToolResult(Tool),
    /// A JSON-RPC error object.
    Error { code: i64, message: String },
}

/// The reply body's view.
pub enum BodyModel {
    ServerInfo { protocol_version: Seq<char>, name: Seq<char>, version: Seq<char> },
    ToolList { tools: Seq<(Seq<char>, Seq<char>)> },
    QueryPlasmaState,
    SuggestParameters,
    Error { code: i64, message: Seq<char> },
}

impl View for ReplyBody {
    type V = BodyModel;

    open spec fn view(&self) -> BodyModel {
        match self {
            ReplyBody::ServerInfo(info) => BodyModel::ServerInfo {
                protocol_version: info.protocol_version@,
                name: info.name@,
                version: info.version@,
            },
            ReplyBody::ToolList(ts) => BodyModel::ToolList {
                tools: ts@.map_values(|d: ToolDescriptor| d@),
            },
            ReplyBody::ToolResult(Tool::QueryPlasmaState) => BodyModel::QueryPlasmaState,
            ReplyBody::ToolResult(Tool::SuggestParameters) => BodyModel::SuggestParameters,
            ReplyBody::Error { code, message } => BodyModel::Error { code: *code, message: message@ },
        }
    }
}

/// A JSON-RPC response: the protocol version, the request's id echoed
/// back, and the body.
pub struct Reply<I> {
    pub jsonrpc: &'static str,
    pub id: I,
    pub body: ReplyBody,
}

/// The body that answers a dispatch decision; `None` for a notification.
pub open spec fn reply_body_of(a: ActionModel) -> Option<BodyModel> {
    match a {
        ActionModel::NoReply => None,
        ActionModel::Initialize => Some(BodyModel::ServerInfo {
            protocol_version: "2024-11-05"@,
            name: "tpt-oracle"@,
            version: "0.1.0"@,
        }),
        ActionModel::ListTools => Some(BodyModel::ToolList { tools: catalog() }),
        ActionModel::CallQueryPlasmaState => Some(BodyModel::QueryPlasmaState),
        ActionModel::CallSuggestParameters => Some(BodyModel::SuggestParameters),
        ActionModel::UnknownTool { message } => Some(BodyModel::Error { code: -32602i64, message }),
        ActionModel::MethodNotFound { message } => Some(BodyModel::Error { code: -32601i64, message }),
    }
}

/// Answers a dispatch decision: nothing for a notification, otherwise a
/// JSON-RPC 2.0 response that echoes `id` and carries the result or the
/// error for the decision.
pub fn respond<I>(id: I, action: McpAction) -> (r: Option<Reply<I>>)
    ensures
        r is None <==> action@ == ActionModel::NoReply,
        match r {
            Some(rep) => {
                &&& rep.jsonrpc@ == "2.0"@
                &&& rep.id == id
                &&& reply_body_of(action@) == Some(rep.body@)
            },
            None => reply_body_of(action@) is None,
        },
        action matches McpAction::CallTool(t) ==> r matches Some(rep) && rep.body == ReplyBody::ToolResult(t),
{
    let body: ReplyBody = match action {
        McpAction::NoReply => {
            return None;
        },
        McpAction::Initialize => ReplyBody::ServerInfo(server_info()),
        McpAction::ListTools => ReplyBody::ToolList(tool_catalog()),
        McpAction::CallTool(t) => ReplyBody::ToolResult(t),
        McpAction::UnknownTool { message } => ReplyBody::Error { code: -32602, message },
        McpAction::MethodNotFound { message } => ReplyBody::Error { code: -32601, message },
    };
    Some(Reply { jsonrpc: jsonrpc_version(), id, body })
}

/// Law: every tool that `tools/list` announces is callable: a `tools/call`
/// request naming it (with an id) runs that tool and is no error.
pub proof fn law_listed_tools_are_callable(i: int)
    requires
        0 <= i < catalog().len(),
    ensures
        error_code_of(dispatch(true, "tools/call"@, catalog()[i].0)) is None,
        dispatch(true, "tools/call"@, catalog()[i].0) != ActionModel::NoReply,
{
    reveal_strlit("query_plasma_state");
    reveal_strlit("suggest_parameters");
    reveal_strlit("initialize");
    reveal_strlit("tools/list");
    reveal_strlit("tools/call");
    assert("tools/call"@[0] != "initialize"@[0]);
    assert("tools/call"@[6] != "tools/list"@[6]);
    assert("suggest_parameters"@[0] != "query_plasma_state"@[0]);
}

/// Law: a notification is never answered, whatever its method.
pub proof fn law_notifications_get_no_reply(method: Seq<char>, tool: Seq<char>)
    ensures
        dispatch(false, method, tool) == ActionModel::NoReply,
        error_code_of(dispatch(false, method, tool)) is None,
{
}

/// Law: a request that carries an id is always answered, and the answer
/// is an error object exactly when the dispatch decided an error code, with
/// that code.
pub proof fn law_requests_are_answered(method: Seq<char>, tool: Seq<char>)
    ensures
        reply_body_of(dispatch(true, method, tool)) is Some,
        match reply_body_of(dispatch(true, method, tool)) {
            Some(BodyModel::Error { code, .. }) => error_code_of(dispatch(true, method, tool)) == Some(code),
            _ => error_code_of(dispatch(true, method, tool)) is None,
        },
{
}

/// The name of the tool whose result a reply body carries, if it carries
/// one.
pub open spec fn result_tool_name(b: BodyModel) -> Option<Seq<char>> {
    match b {
        BodyModel::QueryPlasmaState => Some("query_plasma_state"@),
        BodyModel::SuggestParameters => Some("suggest_parameters"@),
        _ => None,
    }
}

/// Law: a `tools/call` runs the tool it names and no other: a request (with
/// an id) naming an offered tool is answered with that tool's result, and
/// whenever a reply carries a tool's result, the request was a `tools/call`
/// naming exactly that tool.
pub proof fn law_tool_call_runs_named_tool(method: Seq<char>, tool: Seq<char>)
    ensures
        catalog().map_values(|p: (Seq<char>, Seq<char>)| p.0).contains(tool) ==> (reply_body_of(
            dispatch(true, "tools/call"@, tool),
        ) matches Some(b) && result_tool_name(b) == Some(tool)),
        reply_body_of(dispatch(true, method, tool)) matches Some(b) ==> (result_tool_name(b) is Some
            ==> method == "tools/call"@ && result_tool_name(b) == Some(tool)),
{
    reveal_strlit("query_plasma_state");
    reveal_strlit("suggest_parameters");
    reveal_strlit("initialize");
    reveal_strlit("tools/list");
    reveal_strlit("tools/call");
    assert("tools/call"@[0] != "initialize"@[0]);
    assert("tools/call"@[6] != "tools/list"@[6]);
    assert("suggest_parameters"@[0] != "query_plasma_state"@[0]);
    let names: Seq<Seq<char>> = catalog().map_values(|p: (Seq<char>, Seq<char>)| p.0);
    assert(names =~= seq!["query_plasma_state"@, "suggest_parameters"@]);
    if names.contains(tool) {
        let j: int = choose|j: int| 0 <= j < names.len() && names[j] == tool;
        assert(tool == "query_plasma_state"@ || tool == "suggest_parameters"@);
    }
}

/// Law: the plasma-state text is the heading line naming the shot (whose
/// digits read back as the shot number), then the gauge tree's text
/// unchanged, then the metrics line.
pub proof fn law_plasma_state_text(shot: nat, gauge: Seq<NodeModel>, metrics: Seq<char>)
    ensures
        tree_text(plasma_state_model(shot, gauge, metrics)) == plasma_state_heading(shot).push('\n') + tree_text(
            gauge,
        ) + metrics.push('\n'),
        plasma_state_heading(shot).skip("Plasma state — shot #"@.len() as int) == decimal(shot),
        parse_decimal(decimal(shot)) == shot,
{
    let m: Seq<NodeModel> = plasma_state_model(shot, gauge, metrics);
    let t1: Seq<NodeModel> = m.drop_last().drop_last();
    assert(t1.drop_last() =~= Seq::<NodeModel>::empty());
    assert(tree_text(t1.drop_last()) == Seq::<char>::empty());
    assert(t1.last() == m[0] && m.drop_last().last() == m[1] && m.last() == m[2]);
    assert(node_text(m[0]) == plasma_state_heading(shot).push('\n'));
    assert(node_text(m[1]) == tree_text(gauge));
    assert(node_text(m[2]) == metrics.push('\n'));
    assert(tree_text(t1) =~= plasma_state_heading(shot).push('\n'));
    assert(tree_text(m.drop_last()) == tree_text(t1) + node_text(m[1]));
    assert(tree_text(m) == tree_text(m.drop_last()) + node_text(m[2]));
    assert(plasma_state_heading(shot).skip("Plasma state — shot #"@.len() as int) =~= decimal(shot));
    lemma_parse_decimal(shot);
}

} // verus!
