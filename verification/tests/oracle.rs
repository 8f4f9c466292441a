use tpt_ignis::oracle::{
    advise, classify_request, error_code, jsonrpc_version, plasma_state_tree, respond, server_info, tool_catalog,
    McpAction, ReplyBody, RiskLevel, Tool,
};
use tpt_ignis::ui::{NodeBuilder, UITree};

#[test]
fn dispatch_unknown_method_errors() {
    let a = classify_request(true, "bogus", "");
    assert_eq!(error_code(&a), Some(-32601));
    match a {
        McpAction::MethodNotFound { message } => assert_eq!(message, "method not found: bogus"),
        _ => panic!("expected method-not-found"),
    }
}

#[test]
fn dispatch_known_methods() {
    assert!(matches!(classify_request(true, "initialize", ""), McpAction::Initialize));
    assert!(matches!(classify_request(true, "tools/list", ""), McpAction::ListTools));
    assert!(matches!(
        classify_request(true, "tools/call", "query_plasma_state"),
        McpAction::CallTool(Tool::QueryPlasmaState)
    ));
    assert!(matches!(
        classify_request(true, "tools/call", "suggest_parameters"),
        McpAction::CallTool(Tool::SuggestParameters)
    ));
    assert_eq!(error_code(&classify_request(true, "initialize", "")), None);
}

#[test]
fn dispatch_unknown_tool_is_invalid_params() {
    let a = classify_request(true, "tools/call", "fly");
    assert_eq!(error_code(&a), Some(-32602));
    match a {
        McpAction::UnknownTool { message } => assert_eq!(message, "unknown tool: fly"),
        _ => panic!("expected unknown-tool"),
    }
}

#[test]
fn plasma_state_tree_text() {
    let gauge: UITree<()> = UITree::container(|c: &mut NodeBuilder| {
        c.heading(3, "Instability Score");
    });
    let t = plasma_state_tree(7, gauge, "instability_score=0.400");
    assert_eq!(
        t.text_content(),
        "Plasma state — shot #7\nInstability Score\ninstability_score=0.400\n"
    );
}

#[test]
fn advice_by_risk_level() {
    let high = advise(RiskLevel::High, "0.80", "51.0");
    assert!(high.alert);
    assert_eq!(
        high.message,
        "High disruption risk (score=0.80, f=51.0 Hz): reduce plasma current and increase heating to broaden the profile."
    );
    assert_eq!(high.action, Some("ramp_down_current"));
    let moderate = advise(RiskLevel::Moderate, "0.40", "50.0");
    assert!(!moderate.alert);
    assert_eq!(moderate.message, "Moderate MHD activity (score=0.40): hold current, monitor 50.0 Hz mode.");
    assert_eq!(moderate.action, Some("hold"));
    let stable = advise(RiskLevel::Stable, "0.10", "5.0");
    assert_eq!(stable.message, "Stable discharge: no adjustment required.");
    assert_eq!(stable.action, Some("none"));
    let none = advise(RiskLevel::Unobserved, "", "");
    assert_eq!(none.message, "No plasma state observed yet.");
    assert_eq!(none.action, None);
}

#[test]
fn notification_gets_no_reply() {
    let a = classify_request(false, "notifications/initialized", "");
    assert!(matches!(a, McpAction::NoReply));
    assert_eq!(error_code(&a), None);
    assert!(respond(7u32, a).is_none());
    let b = classify_request(false, "initialize", "");
    assert!(matches!(b, McpAction::NoReply));
}

#[test]
fn server_describes_itself_and_its_tools() {
    assert_eq!(jsonrpc_version(), "2.0");
    let info = server_info();
    assert_eq!(info.protocol_version, "2024-11-05");
    assert_eq!(info.name, "tpt-oracle");
    assert_eq!(info.version, "0.1.0");
    let tools = tool_catalog();
    assert_eq!(tools.len(), 2);
    assert_eq!(tools[0].name, "query_plasma_state");
    assert_eq!(
        tools[0].description,
        "Return the latest plasma instability report and nearest historical matches."
    );
    assert_eq!(tools[1].name, "suggest_parameters");
    assert_eq!(
        tools[1].description,
        "Suggest control-parameter adjustments for the next shot based on the latest state."
    );
}

#[test]
fn replies_echo_the_id_and_carry_result_or_error() {
    let r = respond(5u32, classify_request(true, "bogus", "")).unwrap();
    assert_eq!(r.jsonrpc, "2.0");
    assert_eq!(r.id, 5);
    match r.body {
        ReplyBody::Error { code, message } => {
            assert_eq!(code, -32601);
            assert_eq!(message, "method not found: bogus");
        }
        _ => panic!("expected an error reply"),
    }
    let r = respond("abc", classify_request(true, "tools/call", "fly")).unwrap();
    assert_eq!(r.id, "abc");
    match r.body {
        ReplyBody::Error { code, message } => {
            assert_eq!(code, -32602);
            assert_eq!(message, "unknown tool: fly");
        }
        _ => panic!("expected an error reply"),
    }
    let r = respond(1u32, classify_request(true, "initialize", "")).unwrap();
    match r.body {
        ReplyBody::ServerInfo(info) => assert_eq!(info.name, "tpt-oracle"),
        _ => panic!("expected the server info"),
    }
    let r = respond(2u32, classify_request(true, "tools/list", "")).unwrap();
    match r.body {
        ReplyBody::ToolList(ts) => assert_eq!(ts.len(), 2),
        _ => panic!("expected the tool list"),
    }
    let r = respond(4u32, classify_request(true, "tools/call", "suggest_parameters")).unwrap();
    assert!(matches!(r.body, ReplyBody::ToolResult(Tool::SuggestParameters)));
}

#[test]
fn every_listed_tool_is_callable() {
    for t in tool_catalog() {
        let a = classify_request(true, "tools/call", t.name);
        assert_eq!(error_code(&a), None);
        assert!(matches!(a, McpAction::CallTool(_)));
    }
}
