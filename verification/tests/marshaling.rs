//! Tests of the pure marshaling layer: configurations, tokens, inputs,
//! data and the default output rule.

use zenoh_flow_cxx::ConfigMap;
use zenoh_flow_cxx::StrMap;
use zenoh_flow_cxx::Token;
use zenoh_flow_cxx::TokenAction;
use zenoh_flow_cxx::ZFCxxConfigurationMap;
use zenoh_flow_cxx::ZFCxxData;
use zenoh_flow_cxx::ZFCxxOutput;
use zenoh_flow_cxx::ZFCxxToken;
use zenoh_flow_cxx::ZFCxxTokenAction;
use zenoh_flow_cxx::ZFCxxTokenStatus;
use zenoh_flow_cxx::ZFComponentOutput;
use zenoh_flow_cxx::ZFDataMessage;
use zenoh_flow_cxx::ZFDataTrait;
use zenoh_flow_cxx::ZFError;
use zenoh_flow_cxx::ZFSerDeData;
use zenoh_flow_cxx::collect_outputs;
use zenoh_flow_cxx::config_to_boundary;
use zenoh_flow_cxx::default_output_rule;
use zenoh_flow_cxx::inputs_to_boundary;
use zenoh_flow_cxx::map_foreign_err;
use zenoh_flow_cxx::tokens_to_boundary;
use zenoh_flow_cxx::ForeignError;
use zenoh_flow_cxx::ZFCxxInput;

/// A payload whose on-demand serialization always fails.
struct Unserializable;

impl ZFDataTrait for Unserializable {
    // The two specification items are ghost: they are never run, so their
    // bodies are unreachable.
    fn serializable(&self) -> bool {
        unreachable!()
    }

    fn serialized(&self) -> vstd::seq::Seq<u8> {
        unreachable!()
    }

    fn try_serialize(&self) -> Result<Vec<u8>, ZFError> {
        Err(ZFError::SerializationError)
    }
}

#[test]
fn config_round_trip_reconstructs_associations() {
    let mut config = ConfigMap::new();
    config.insert(String::from("alpha"), String::from("1"));
    config.insert(String::from("beta"), String::from("2"));
    config.insert(String::from("gamma"), String::from("3"));

    let mut boundary = ZFCxxConfigurationMap::from(&config);
    // Pair order in the boundary list is arbitrary: reverse it before
    // reading it back.
    boundary.map.reverse();
    let back = boundary.to_map();

    assert_eq!(back.len(), 3);
    assert_eq!(back.get(&String::from("alpha")), Some(&String::from("1")));
    assert_eq!(back.get(&String::from("beta")), Some(&String::from("2")));
    assert_eq!(back.get(&String::from("gamma")), Some(&String::from("3")));
    assert_eq!(back.get(&String::from("delta")), None);
}

#[test]
fn config_empty_round_trip() {
    let config = ConfigMap::new();
    let boundary = ZFCxxConfigurationMap::from(&config);
    assert_eq!(boundary.map.len(), 0);
    let back = boundary.to_map();
    assert_eq!(back.len(), 0);
}

#[test]
fn absent_config_becomes_empty_list() {
    let boundary = config_to_boundary(&None);
    assert_eq!(boundary.map.len(), 0);
}

#[test]
fn present_config_keeps_pairs() {
    let mut config = ConfigMap::new();
    config.insert(String::from("threshold"), String::from("5"));
    let boundary = config_to_boundary(&Some(config));
    assert_eq!(boundary.map.len(), 1);
    assert_eq!(boundary.map[0].key, "threshold");
    assert_eq!(boundary.map[0].value, "5");
}

#[test]
fn not_ready_token_flattens_to_pending_wait() {
    let token: Token<ZFCxxData> = Token::NotReady;
    let b = ZFCxxToken::from_token(&token, "in").unwrap();
    assert_eq!(b.status, ZFCxxTokenStatus::Pending);
    assert_eq!(b.action, ZFCxxTokenAction::Wait);
    assert_eq!(b.port_id, "in");
    assert_eq!(b.data, Vec::<u8>::new());
    assert_eq!(b.timestamp, 0);
}

#[test]
fn ready_token_flattens_to_ready_consume() {
    let token: Token<ZFCxxData> = Token::Ready(ZFDataMessage {
        data: ZFSerDeData::Serialized(vec![1, 2, 3]),
        timestamp: 42,
    });
    let b = ZFCxxToken::from_token(&token, "in").unwrap();
    assert_eq!(b.status, ZFCxxTokenStatus::Ready);
    assert_eq!(b.action, ZFCxxTokenAction::Consume);
    assert_eq!(b.port_id, "in");
    assert_eq!(b.data, vec![1, 2, 3]);
    assert_eq!(b.timestamp, 42);
}

#[test]
fn ready_token_serializes_richer_payload_on_demand() {
    let token: Token<ZFCxxData> = Token::Ready(ZFDataMessage {
        data: ZFSerDeData::Deserialized(ZFCxxData::new(vec![4, 5])),
        timestamp: 7,
    });
    let b = ZFCxxToken::from_token(&token, "p").unwrap();
    assert_eq!(b.status, ZFCxxTokenStatus::Ready);
    assert_eq!(b.action, ZFCxxTokenAction::Consume);
    assert_eq!(b.port_id, "p");
    assert_eq!(b.data, vec![4, 5]);
    assert_eq!(b.timestamp, 7);
}

#[test]
fn failing_payload_aborts_token_marshaling() {
    let token: Token<Unserializable> = Token::Ready(ZFDataMessage {
        data: ZFSerDeData::Deserialized(Unserializable),
        timestamp: 1,
    });
    let r = ZFCxxToken::from_token(&token, "in");
    assert_eq!(r.err(), Some(ZFError::SerializationError));

    let tokens = vec![(String::from("in"), token)];
    let r = tokens_to_boundary(&tokens);
    assert_eq!(r.err(), Some(ZFError::SerializationError));
}

#[test]
fn token_set_converts_pairwise() {
    let tokens: Vec<(String, Token<ZFCxxData>)> = vec![
        (String::from("a"), Token::NotReady),
        (
            String::from("b"),
            Token::Ready(ZFDataMessage {
                data: ZFSerDeData::Serialized(vec![9]),
                timestamp: 3,
            }),
        ),
    ];
    let b = tokens_to_boundary(&tokens).unwrap();
    assert_eq!(b.len(), 2);
    assert_eq!(b[0].port_id, "a");
    assert_eq!(b[0].status, ZFCxxTokenStatus::Pending);
    assert_eq!(b[1].port_id, "b");
    assert_eq!(b[1].status, ZFCxxTokenStatus::Ready);
    assert_eq!(b[1].data, vec![9]);
    assert_eq!(b[1].timestamp, 3);
}

#[test]
fn wrap_then_serialize_is_identity() {
    let bytes = vec![0u8, 255, 7, 7];
    let data = ZFCxxData::new(bytes.clone());
    assert_eq!(data.try_serialize(), Ok(bytes));

    let empty = ZFCxxData::new(Vec::new());
    assert_eq!(empty.try_serialize(), Ok(Vec::new()));
}

#[test]
fn serde_data_returns_held_bytes_verbatim() {
    let held: ZFSerDeData<ZFCxxData> = ZFSerDeData::Serialized(vec![1, 1, 2]);
    assert_eq!(held.serialize(), Ok(vec![1, 1, 2]));

    let richer: ZFSerDeData<ZFCxxData> = ZFSerDeData::Deserialized(ZFCxxData::new(vec![8]));
    assert_eq!(richer.serialize(), Ok(vec![8]));

    let failing: ZFSerDeData<Unserializable> = ZFSerDeData::Deserialized(Unserializable);
    assert_eq!(failing.serialize(), Err(ZFError::SerializationError));
}

#[test]
fn input_set_converts_pairwise() {
    let inputs: Vec<(String, ZFDataMessage<ZFCxxData>)> = vec![(
        String::from("in"),
        ZFDataMessage {
            data: ZFSerDeData::Serialized(vec![9, 9]),
            timestamp: 7,
        },
    )];
    let b = inputs_to_boundary(&inputs).unwrap();
    assert_eq!(b.len(), 1);
    assert_eq!(b[0].port_id, "in");
    assert_eq!(b[0].data, vec![9, 9]);
    assert_eq!(b[0].timestamp, 7);
}

#[test]
fn failing_payload_aborts_input_marshaling() {
    let inputs: Vec<(String, ZFDataMessage<Unserializable>)> = vec![(
        String::from("in"),
        ZFDataMessage {
            data: ZFSerDeData::Deserialized(Unserializable),
            timestamp: 0,
        },
    )];
    let r = inputs_to_boundary(&inputs);
    assert_eq!(r.err(), Some(ZFError::SerializationError));
}

#[test]
fn input_from_data_message_carries_timestamp() {
    let dm: ZFDataMessage<ZFCxxData> = ZFDataMessage {
        data: ZFSerDeData::Deserialized(ZFCxxData::new(vec![6])),
        timestamp: u64::MAX,
    };
    let b = ZFCxxInput::from_data_message("x", &dm).unwrap();
    assert_eq!(b.port_id, "x");
    assert_eq!(b.data, vec![6]);
    assert_eq!(b.timestamp, u64::MAX);
}

#[test]
fn action_conversion_collapses_keep_variants() {
    assert_eq!(ZFCxxTokenAction::from(TokenAction::Consume), ZFCxxTokenAction::Consume);
    assert_eq!(ZFCxxTokenAction::from(TokenAction::Drop), ZFCxxTokenAction::Drop);
    assert_eq!(ZFCxxTokenAction::from(TokenAction::KeepRun), ZFCxxTokenAction::Keep);
    assert_eq!(ZFCxxTokenAction::from(TokenAction::Keep), ZFCxxTokenAction::Keep);
    assert_eq!(ZFCxxTokenAction::from(TokenAction::Wait), ZFCxxTokenAction::Wait);
}

#[test]
fn default_output_rule_is_identity() {
    let outputs = vec![
        (String::from("a"), ZFCxxData::new(vec![1])),
        (String::from("b"), ZFCxxData::new(vec![2, 2])),
    ];
    let r = default_output_rule(outputs);
    assert_eq!(r.len(), 2);
    assert_eq!(r[0].0, "a");
    let ZFComponentOutput::Data(d0) = &r[0].1;
    assert_eq!(d0.bytes, vec![1]);
    assert_eq!(r[1].0, "b");
    let ZFComponentOutput::Data(d1) = &r[1].1;
    assert_eq!(d1.bytes, vec![2, 2]);
}

#[test]
fn collect_outputs_last_write_wins() {
    let outs = vec![
        ZFCxxOutput { port_id: String::from("out"), data: vec![1] },
        ZFCxxOutput { port_id: String::from("out"), data: vec![2] },
    ];
    let m = collect_outputs(outs);
    assert_eq!(m.len(), 1);
    assert_eq!(m.get(&String::from("out")).unwrap().bytes, vec![2]);
}

#[test]
fn strmap_insert_overwrites_and_get_finds() {
    let mut m: StrMap<String> = StrMap::new();
    assert_eq!(m.len(), 0);
    m.insert(String::from("k"), String::from("v1"));
    m.insert(String::from("k"), String::from("v2"));
    m.insert(String::from("other"), String::from("x"));
    assert_eq!(m.len(), 2);
    assert_eq!(m.get(&String::from("k")), Some(&String::from("v2")));
    assert_eq!(m.get(&String::from("other")), Some(&String::from("x")));
    assert_eq!(m.get(&String::from("missing")), None);
}

#[test]
fn foreign_errors_collapse_to_generic() {
    let ok: Result<u32, ForeignError> = Ok(5);
    assert_eq!(map_foreign_err(ok), Ok(5));
    let err: Result<u32, ForeignError> =
        Err(ForeignError { message: String::from("foreign detail") });
    assert_eq!(map_foreign_err(err), Err(ZFError::GenericError));
}
