use heimdall::{conf_from_value, conf_to_value, parse_config, probe_url};
use heimdall::{ConfigError, HeimdallRoot, HeimdallRootConf, PROBE_HOST, PROBE_SCHEME};

fn nodes(root: &HeimdallRoot) -> Option<Vec<String>> {
    root.conf().redis_nodes.clone()
}

#[test]
fn payload_replaces_configuration_whole() {
    let mut root = HeimdallRoot::default();
    assert_eq!(nodes(&root), None);
    let r = root.on_configure(Some(br#"{"redis_nodes":["r1:6379"]}"#));
    assert_eq!(r, Ok(Some(r#"#on_configure {"redis_nodes":["r1:6379"]}"#.to_string())));
    assert_eq!(nodes(&root), Some(vec!["r1:6379".to_string()]));
    let r = root.on_configure(Some(b"{}"));
    assert_eq!(r, Ok(Some("#on_configure {}".to_string())));
    assert_eq!(nodes(&root), None);
}

#[test]
fn absent_payload_keeps_configuration() {
    let mut root = HeimdallRoot::default();
    root.on_configure(Some(br#"{"redis_nodes":["a:1","b:2"]}"#)).unwrap();
    assert_eq!(root.on_configure(None), Ok(None));
    assert_eq!(nodes(&root), Some(vec!["a:1".to_string(), "b:2".to_string()]));
}

#[test]
fn refused_payload_keeps_configuration() {
    let mut root = HeimdallRoot::default();
    root.on_configure(Some(br#"{"redis_nodes":["a:1"]}"#)).unwrap();
    assert_eq!(root.on_configure(Some(b"[1]")), Err(ConfigError::Shape));
    assert_eq!(root.on_configure(Some(b"{")), Err(ConfigError::Syntax));
    assert_eq!(root.on_configure(Some(&[0x7b, 0xff, 0x7d])), Err(ConfigError::NotText));
    assert_eq!(nodes(&root), Some(vec!["a:1".to_string()]));
}

#[test]
fn missing_field_is_default() {
    assert_eq!(parse_config(b"{}").unwrap().redis_nodes, None);
    assert_eq!(parse_config(br#"{"other": 1, "x": [true]}"#).unwrap().redis_nodes, None);
    assert_eq!(parse_config(br#"{"redis_nodes": null}"#).unwrap().redis_nodes, None);
}

#[test]
fn unknown_fields_ignored() {
    let c = parse_config(br#"{"a": {"b": 2}, "redis_nodes": ["n1", "n2"], "z": null}"#).unwrap();
    assert_eq!(c.redis_nodes, Some(vec!["n1".to_string(), "n2".to_string()]));
}

#[test]
fn empty_node_list_is_kept() {
    assert_eq!(parse_config(br#"{"redis_nodes": []}"#).unwrap().redis_nodes, Some(Vec::new()));
}

#[test]
fn malformed_payloads_refused() {
    assert_eq!(parse_config(b"not json").unwrap_err(), ConfigError::Syntax);
    assert_eq!(parse_config(b"").unwrap_err(), ConfigError::Syntax);
    assert_eq!(parse_config(b"\"text\"").unwrap_err(), ConfigError::Shape);
    assert_eq!(parse_config(b"[\"r1:6379\"]").unwrap_err(), ConfigError::Shape);
    assert_eq!(parse_config(br#"{"redis_nodes": "r1"}"#).unwrap_err(), ConfigError::Shape);
    assert_eq!(parse_config(br#"{"redis_nodes": 5}"#).unwrap_err(), ConfigError::Shape);
    assert_eq!(parse_config(br#"{"redis_nodes": ["a", 1]}"#).unwrap_err(), ConfigError::Shape);
}

#[test]
fn configuration_round_trip() {
    let confs = vec![
        HeimdallRootConf { redis_nodes: None },
        HeimdallRootConf { redis_nodes: Some(Vec::new()) },
        HeimdallRootConf { redis_nodes: Some(vec!["r1:6379".to_string(), "q\"uote\\d".to_string()]) },
    ];
    for c in confs {
        let value = conf_to_value(&c);
        assert_eq!(conf_from_value(&value).unwrap().redis_nodes, c.redis_nodes);
        let bytes = serde_json::to_vec(&value).unwrap();
        assert_eq!(parse_config(&bytes).unwrap().redis_nodes, c.redis_nodes);
    }
}

#[test]
fn encoding_has_payload_format() {
    let c = HeimdallRootConf { redis_nodes: Some(vec!["h:1".to_string()]) };
    assert_eq!(serde_json::to_string(&conf_to_value(&c)).unwrap(), r#"{"redis_nodes":["h:1"]}"#);
    let d = HeimdallRootConf { redis_nodes: None };
    assert_eq!(serde_json::to_string(&conf_to_value(&d)).unwrap(), r#"{"redis_nodes":null}"#);
}

#[test]
fn probe_falls_back_when_resolution_fails() {
    assert_eq!(probe_url(None), "http://34.203.186.29:80");
    assert_eq!(probe_url(Some(&Vec::new())), "http://34.203.186.29:80");
}

#[test]
fn probe_uses_first_resolved_address() {
    let addrs = vec!["1.2.3.4:80".to_string(), "5.6.7.8:80".to_string()];
    assert_eq!(probe_url(Some(&addrs)), "http://1.2.3.4:80");
    assert_eq!(PROBE_HOST, "httpbin.org");
    assert_eq!(PROBE_SCHEME, "http");
}
