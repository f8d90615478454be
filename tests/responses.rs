use dlc_draw::response::{
    interpret_draw, interpret_draw_response, interpret_purchase, interpret_purchase_response,
    read_draw_reply, read_status, DrawOutcome, DrawReply, PurchaseOutcome,
};
use serde_json::Value;

fn parse(text: &str) -> Value {
    serde_json::from_str(text).unwrap()
}

fn items(k: usize) -> String {
    let one = "{\"card_item\":{\"card_type_info\":{\"name\":\"card\",\"chance\":\"1%\"}}}";
    vec![one; k].join(",")
}

#[test]
fn success_counts_items() {
    for k in [0usize, 1, 3] {
        let body = parse(&format!(
            "{{\"code\":0,\"data\":{{\"err_code\":0,\"item_list\":[{}]}}}}",
            items(k)
        ));
        let outcome = interpret_draw_response(&body);
        assert!(outcome.is_success());
        assert_eq!(outcome.granted(), k as u64);
    }
}

#[test]
fn success_reads_prize_names() {
    let body = parse(&format!("{{\"code\":0,\"data\":{{\"err_code\":0,\"item_list\":[{}]}}}}", items(1)));
    let reply = read_draw_reply(&body);
    assert_eq!(reply.items.len(), 1);
    assert_eq!(reply.items[0].name.as_deref(), Some("card"));
    assert_eq!(reply.items[0].chance.as_deref(), Some("1%"));
}

#[test]
fn success_without_item_list_grants_nothing() {
    let body = parse("{\"code\":0,\"data\":{\"err_code\":0}}");
    let outcome = interpret_draw_response(&body);
    assert!(outcome.is_success());
    assert_eq!(outcome.granted(), 0);
}

#[test]
fn top_level_failure_ignores_nested_content() {
    let body = parse(&format!(
        "{{\"code\":-101,\"data\":{{\"err_code\":0,\"item_list\":[{}]}}}}",
        items(3)
    ));
    let outcome = interpret_draw_response(&body);
    assert!(matches!(outcome, DrawOutcome::ApplicationFailure(-101)));
    assert_eq!(outcome.granted(), 0);
    let body = parse("{\"code\":7}");
    assert!(matches!(interpret_draw_response(&body), DrawOutcome::ApplicationFailure(7)));
}

#[test]
fn nested_failure_is_application_failure() {
    let body = parse(&format!("{{\"code\":0,\"data\":{{\"err_code\":3,\"item_list\":[{}]}}}}", items(2)));
    let outcome = interpret_draw_response(&body);
    assert!(matches!(outcome, DrawOutcome::ApplicationFailure(3)));
    assert_eq!(outcome.granted(), 0);
}

#[test]
fn missing_status_is_transport_failure() {
    for text in ["{}", "{\"code\":\"0\"}", "[1,2]", "{\"data\":{\"err_code\":0,\"item_list\":[{}]}}"] {
        let outcome = interpret_draw_response(&parse(text));
        assert!(matches!(outcome, DrawOutcome::TransportFailure));
        assert_eq!(outcome.granted(), 0);
    }
}

#[test]
fn missing_nested_status_is_transport_failure() {
    let outcome = interpret_draw_response(&parse("{\"code\":0}"));
    assert!(matches!(outcome, DrawOutcome::TransportFailure));
    let outcome = interpret_draw_response(&parse("{\"code\":0,\"data\":{\"item_list\":[]}}"));
    assert!(matches!(outcome, DrawOutcome::TransportFailure));
}

#[test]
fn interpret_plain_replies() {
    let r = DrawReply { code: None, err_code: Some(0), items: vec![] };
    assert!(matches!(interpret_draw(r), DrawOutcome::TransportFailure));
    let r = DrawReply { code: Some(0), err_code: Some(0), items: vec![] };
    assert!(matches!(interpret_draw(r), DrawOutcome::Success(v) if v.is_empty()));
}

#[test]
fn purchase_status() {
    assert_eq!(interpret_purchase(Some(0)), PurchaseOutcome::Success);
    assert_eq!(interpret_purchase(Some(1)), PurchaseOutcome::Failure(Some(1)));
    assert_eq!(interpret_purchase(None), PurchaseOutcome::Failure(None));
    assert_eq!(interpret_purchase_response(&parse("{\"code\":0}")), PurchaseOutcome::Success);
    assert_eq!(
        interpret_purchase_response(&parse("{\"code\":-400,\"message\":\"x\"}")),
        PurchaseOutcome::Failure(Some(-400))
    );
    assert_eq!(read_status(&parse("{\"message\":\"x\"}")), None);
}

#[test]
fn item_list_that_is_not_an_array_reads_as_none() {
    let body = parse("{\"code\":0,\"data\":{\"err_code\":0,\"item_list\":{\"a\":1}}}");
    let reply = read_draw_reply(&body);
    assert_eq!(reply.code, Some(0));
    assert_eq!(reply.err_code, Some(0));
    assert!(reply.items.is_empty());
}

#[test]
fn item_without_card_fields_reads_as_absent() {
    let body = parse("{\"code\":0,\"data\":{\"err_code\":0,\"item_list\":[{\"card_item\":{}},{}]}}");
    let reply = read_draw_reply(&body);
    assert_eq!(reply.items.len(), 2);
    assert!(reply.items.iter().all(|p| p.name.is_none() && p.chance.is_none()));
    assert_eq!(interpret_draw_response(&body).granted(), 2);
}

#[test]
fn refused_reply_is_not_probed() {
    let reply = read_draw_reply(&parse("{\"code\":5,\"data\":{\"err_code\":0,\"item_list\":[{}]}}"));
    assert_eq!(reply.code, Some(5));
    assert_eq!(reply.err_code, None);
    assert!(reply.items.is_empty());
}
