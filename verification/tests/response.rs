use buffer_contract::msg::ExecuteMsg;
use buffer_contract::results::{
    Attribute, BankMsg, CosmosMsg, Event, ReplyOn, Response, SubMsg, WasmMsg,
};

fn attribute(key: &str, value: &str) -> Attribute {
    Attribute { key: key.to_string(), value: value.to_string() }
}

fn reset_request(id: u64) -> SubMsg {
    SubMsg {
        id,
        msg: CosmosMsg::Wasm(WasmMsg::Execute {
            contract_addr: "c".to_string(),
            msg: ExecuteMsg::Reset {},
            funds: vec![],
        }),
        gas_limit: None,
        reply_on: ReplyOn::Always,
    }
}

#[test]
fn a_new_response_holds_nothing() {
    let response = Response::new();
    assert!(response.messages.is_empty());
    assert!(response.attributes.is_empty());
    assert!(response.events.is_empty());
    assert_eq!(response.data, None);
    assert_eq!(Response::default(), response);
}

#[test]
fn an_event_collects_its_attributes_in_order() {
    let event = Event::new("ty".to_string())
        .add_attribute("a".to_string(), "1".to_string())
        .add_attributes(vec![
            ("b".to_string(), "2".to_string()),
            ("a".to_string(), "3".to_string()),
        ])
        .add_attributes(vec![]);
    assert_eq!(event.ty, "ty");
    assert_eq!(event.attributes, vec![attribute("a", "1"), attribute("b", "2"), attribute("a", "3")]);
}

#[test]
fn the_builders_append_and_the_payload_is_overwritten() {
    let response = Response::new()
        .add_attribute("a".to_string(), "1".to_string())
        .add_event(Event::new("e1".to_string()))
        .set_data(vec![1])
        .add_message(CosmosMsg::Bank(BankMsg::Burn { amount: vec![] }))
        .add_submessage(reset_request(4))
        .add_attribute("b".to_string(), "2".to_string())
        .add_event(Event::new("e2".to_string()))
        .set_data(vec![2, 3]);
    assert_eq!(response.attributes, vec![attribute("a", "1"), attribute("b", "2")]);
    assert_eq!(response.events, vec![Event::new("e1".to_string()), Event::new("e2".to_string())]);
    assert_eq!(response.data, Some(vec![2, 3]));
    assert_eq!(
        response.messages,
        vec![SubMsg::new(CosmosMsg::Bank(BankMsg::Burn { amount: vec![] })), reset_request(4)]
    );
    assert_eq!(response.messages[0].id, 0);
    assert_eq!(response.messages[0].gas_limit, None);
    assert_eq!(response.messages[0].reply_on, ReplyOn::Never);
}

#[test]
fn a_merge_appends_and_the_later_payload_wins() {
    let first = || {
        Response::new()
            .add_attribute("a".to_string(), "1".to_string())
            .add_event(Event::new("e1".to_string()))
            .add_submessage(reset_request(1))
            .set_data(vec![1])
    };
    let second = || {
        Response::new()
            .add_attribute("b".to_string(), "2".to_string())
            .add_event(Event::new("e2".to_string()))
            .add_submessage(reset_request(2))
    };

    let merged = first().merge(second());
    assert_eq!(merged.attributes, vec![attribute("a", "1"), attribute("b", "2")]);
    assert_eq!(merged.events, vec![Event::new("e1".to_string()), Event::new("e2".to_string())]);
    assert_eq!(merged.messages, vec![reset_request(1), reset_request(2)]);
    assert_eq!(merged.data, Some(vec![1]));

    let merged = first().merge(second().set_data(vec![2]));
    assert_eq!(merged.data, Some(vec![2]));

    let merged = second().merge(first());
    assert_eq!(merged.messages, vec![reset_request(2), reset_request(1)]);
    assert_eq!(merged.data, Some(vec![1]));

    assert_eq!(first().merge(Response::new()), first());
    assert_eq!(Response::new().merge(first()), first());
}
