use homeassistant::client::{
    make_client, service_body, BodyField, BodyValue, Client, Config, HaEndpoint, HttpMethod,
    ServiceCall,
};
use homeassistant::error::ToolError;

fn field(key: &str, value: BodyValue) -> BodyField {
    BodyField { key: key.to_string(), value }
}

fn pairs(fields: &[BodyField]) -> Vec<(String, String, bool)> {
    fields
        .iter()
        .map(|f| match &f.value {
            BodyValue::Text(t) => (f.key.clone(), t.clone(), true),
            BodyValue::Json(t) => (f.key.clone(), t.clone(), false),
        })
        .collect()
}

#[test]
fn trailing_slash_in_base_url_is_normalized() {
    let base = format!("{}/", "http://127.0.0.1:8123");
    let req = Client::new(Config::new(&base, "tok")).entity_list(None);
    assert_eq!(req.url, "http://127.0.0.1:8123/api/states");
    assert_eq!(req.method, HttpMethod::Get);
    assert!(req.query.is_empty());
    assert!(req.body.is_none());
}

#[test]
fn base_url_loses_every_trailing_slash() {
    let config = Config::new("http://ha.local:8123///", "t");
    assert_eq!(config.base_url(), "http://ha.local:8123");
    assert_eq!(Config::new("", "t").base_url(), "");
    assert_eq!(Config::new("///", "t").base_url(), "");
}

#[test]
fn auth_header_uses_bearer_token_format() {
    let req = Client::new(Config::new("http://127.0.0.1:1", "secret-token")).entity_list(None);
    assert_eq!(req.authorization, "Bearer secret-token");
}

#[test]
fn domain_filter_is_passed_as_query_param() {
    let req = Client::new(Config::new("http://127.0.0.1:1", "t")).entity_list(Some("switch"));
    assert_eq!(req.url, "http://127.0.0.1:1/api/states");
    assert_eq!(req.query.len(), 1);
    assert_eq!(req.query[0].name, "domain");
    assert_eq!(req.query[0].value, "switch");
}

#[test]
fn automations_are_the_automation_domain() {
    let req = Client::new(Config::new("http://h", "t")).automation_list();
    assert_eq!(req.url, "http://h/api/states");
    assert_eq!(req.query.len(), 1);
    assert_eq!(req.query[0].name, "domain");
    assert_eq!(req.query[0].value, "automation");
}

#[test]
fn entity_state_encodes_entity_id() {
    let client = Client::new(Config::new("http://h/", "t"));
    assert_eq!(client.entity_state("light.living_room").url, "http://h/api/states/light.living_room");
    assert_eq!(client.entity_state("a b/c?d").url, "http://h/api/states/a%20b%2Fc%3Fd");
    assert_eq!(client.entity_state("é").url, "http://h/api/states/%C3%A9");
    assert_eq!(client.entity_state("~x-y_z.0").url, "http://h/api/states/~x-y_z.0");
}

#[test]
fn service_call_merges_entity_id_into_payload() {
    let call = ServiceCall {
        domain: "light".into(),
        service: "turn_on".into(),
        entity_id: Some("light.lr".into()),
        data: vec![field("brightness", BodyValue::Json("200".to_string()))],
    };
    let req = Client::new(Config::new("http://127.0.0.1:9", "t")).service_call(&call);
    assert_eq!(req.method, HttpMethod::Post);
    assert_eq!(req.url, "http://127.0.0.1:9/api/services/light/turn_on");
    assert!(req.query.is_empty());
    let body = req.body.expect("a service call has a body");
    assert_eq!(
        pairs(&body),
        vec![
            ("brightness".to_string(), "200".to_string(), false),
            ("entity_id".to_string(), "light.lr".to_string(), true),
        ]
    );
}

#[test]
fn entity_id_replaces_one_in_data() {
    let data = vec![
        field("entity_id", BodyValue::Text("light.old".to_string())),
        field("transition", BodyValue::Json("2".to_string())),
    ];
    let body = service_body(&data, &Some("light.new".to_string()));
    assert_eq!(
        pairs(&body),
        vec![
            ("transition".to_string(), "2".to_string(), false),
            ("entity_id".to_string(), "light.new".to_string(), true),
        ]
    );
}

#[test]
fn service_call_without_entity_keeps_data() {
    let data = vec![
        field("entity_id", BodyValue::Text("light.a".to_string())),
        field("rgb", BodyValue::Json("[1,2,3]".to_string())),
    ];
    let body = service_body(&data, &None);
    assert_eq!(
        pairs(&body),
        vec![
            ("entity_id".to_string(), "light.a".to_string(), true),
            ("rgb".to_string(), "[1,2,3]".to_string(), false),
        ]
    );
}

#[test]
fn service_tool_defaults_data_to_empty() {
    let call = ServiceCall::from_tool_args("switch".into(), "toggle".into(), None, None);
    assert_eq!(call.domain, "switch");
    assert_eq!(call.service, "toggle");
    assert!(call.entity_id.is_none());
    assert!(call.data.is_empty());
    let req = Client::new(Config::new("http://h", "t")).service_call(&call);
    assert!(req.body.unwrap().is_empty());
}

#[test]
fn make_client_rejects_unregistered_endpoint() {
    match make_client("home", None) {
        Err(e) => {
            assert!(matches!(e, ToolError::EndpointNotRegistered { .. }));
            assert_eq!(e.message(), "home assistant endpoint 'home' not registered");
        }
        Ok(_) => panic!("an unregistered endpoint has no client"),
    }
}

#[test]
fn make_client_rejects_disabled_endpoint() {
    let row = HaEndpoint {
        name: "home".to_string(),
        base_url: "http://h".to_string(),
        token: "t".to_string(),
        enabled: false,
    };
    match make_client("home", Some(row)) {
        Err(e) => assert_eq!(e.message(), "home assistant endpoint 'home' is disabled"),
        Ok(_) => panic!("a disabled endpoint has no client"),
    }
}

#[test]
fn make_client_uses_registered_url_and_token() {
    let row = HaEndpoint {
        name: "home".to_string(),
        base_url: "http://ha.local:8123/".to_string(),
        token: "abc".to_string(),
        enabled: true,
    };
    let client = make_client("home", Some(row)).ok().expect("enabled endpoint");
    assert_eq!(client.config().base_url(), "http://ha.local:8123");
    let req = client.entity_state("sun.sun");
    assert_eq!(req.url, "http://ha.local:8123/api/states/sun.sun");
    assert_eq!(req.authorization, "Bearer abc");
}
