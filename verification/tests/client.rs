use norgopolis_client::bootstrap::connect_step;
use norgopolis_client::bootstrap::connect_url;
use norgopolis_client::bootstrap::is_ready_token;
use norgopolis_client::bootstrap::make_address;
use norgopolis_client::bootstrap::ConnectAction;
use norgopolis_client::bootstrap::ConnectEvent;
use norgopolis_client::bootstrap::ConnectState;
use norgopolis_client::codec::MessagePack;
use norgopolis_client::errors::ClientError;
use norgopolis_client::invoke::decode_payload;
use norgopolis_client::invoke::decode_payloads;
use norgopolis_client::invoke::Invocation;

fn encode(value: &str) -> MessagePack {
    MessagePack::encode(&value.to_string()).expect("encoding a string must succeed")
}

#[test]
fn encode_decode_round_trip() {
    let payload = encode("hello");
    assert_eq!(payload.decode(), Some("hello".to_string()));
}

#[test]
fn encode_matches_external_encoder() {
    let payload = encode("hello");
    assert_eq!(payload.data, rmp_serde::to_vec(&"hello".to_string()).unwrap());
    assert_ne!(payload.data, b"hello".to_vec());
}

#[test]
fn decode_rejects_invalid_bytes() {
    let payload = MessagePack { data: vec![0xc1] };
    assert_eq!(payload.decode(), None);
}

#[test]
fn decode_rejects_wrong_type() {
    let payload = MessagePack {
        data: rmp_serde::to_vec(&5u32).unwrap(),
    };
    assert_eq!(payload.decode(), None);
}

#[test]
fn invocation_keeps_fields() {
    let args = encode("hello");
    let invocation = Invocation::new(
        "hello-world".to_string(),
        "echo".to_string(),
        Some(args),
    );
    assert_eq!(invocation.module, "hello-world");
    assert_eq!(invocation.function_name, "echo");
    assert!(invocation.args.is_some());
    assert_eq!(
        invocation.args.unwrap().data,
        rmp_serde::to_vec(&"hello".to_string()).unwrap()
    );
}

#[test]
fn collect_single_echo_payload() {
    let payloads = vec![encode("hello")];
    let collected = decode_payloads(&payloads).unwrap();
    assert_eq!(collected, vec!["hello".to_string()]);
}

#[test]
fn collect_empty_stream() {
    let payloads: Vec<MessagePack> = vec![];
    let collected = decode_payloads(&payloads).unwrap();
    assert!(collected.is_empty());
}

#[test]
fn collect_preserves_order_and_length() {
    let payloads = vec![encode("first"), encode("second"), encode("third")];
    let collected = decode_payloads(&payloads).unwrap();
    assert_eq!(
        collected,
        vec![
            "first".to_string(),
            "second".to_string(),
            "third".to_string()
        ]
    );
}

#[test]
fn decode_failure_aborts_collection() {
    let payloads = vec![
        encode("first"),
        MessagePack { data: vec![0xc1] },
        encode("third"),
    ];
    let err = decode_payloads(&payloads).unwrap_err();
    assert_eq!(err, ClientError::Decode { index: 1 });
}

#[test]
fn decode_payload_error_names_position() {
    let payload = MessagePack { data: vec![0xc1] };
    let err = decode_payload(&payload, 7).unwrap_err();
    assert_eq!(err, ClientError::Decode { index: 7 });
}

#[test]
fn ready_token_is_recognized() {
    assert!(is_ready_token(&b"ready".to_vec()));
    assert!(!is_ready_token(&b"error".to_vec()));
    assert!(!is_ready_token(&b"rea".to_vec()));
    assert!(!is_ready_token(&b"ready!".to_vec()));
    assert!(!is_ready_token(&Vec::new()));
}

#[test]
fn addresses_are_combined() {
    let ip = "127.0.0.1".to_string();
    let port = "62020".to_string();
    assert_eq!(make_address(&ip, &port), "127.0.0.1:62020");
    assert_eq!(connect_url(&ip, &port), "http://127.0.0.1:62020");
}

#[test]
fn no_bootstrap_when_disabled() {
    let (state, action) = connect_step(
        false,
        true,
        ConnectState::Connecting,
        ConnectEvent::ConnectFailed {
            message: "connection refused".to_string(),
        },
    );
    assert_eq!(action, ConnectAction::Fail);
    assert_eq!(
        state,
        ConnectState::Failed {
            error: ClientError::Transport {
                message: "connection refused".to_string()
            }
        }
    );
}

#[test]
fn no_bootstrap_for_remote_target() {
    let (state, action) = connect_step(
        true,
        false,
        ConnectState::Connecting,
        ConnectEvent::ConnectFailed {
            message: "connection refused".to_string(),
        },
    );
    assert_eq!(action, ConnectAction::Fail);
    assert_eq!(
        state,
        ConnectState::Failed {
            error: ClientError::Transport {
                message: "connection refused".to_string()
            }
        }
    );
}

#[test]
fn bootstrap_path_spawns_once_and_retries() {
    let original = "connection refused".to_string();
    let (state, action) = connect_step(
        true,
        true,
        ConnectState::Connecting,
        ConnectEvent::ConnectFailed {
            message: original.clone(),
        },
    );
    assert_eq!(action, ConnectAction::Spawn);
    assert_eq!(
        state,
        ConnectState::AwaitingSpawn {
            original: original.clone()
        }
    );

    let (state, action) = connect_step(true, true, state, ConnectEvent::Spawned);
    assert_eq!(action, ConnectAction::ReadToken);
    assert_eq!(
        state,
        ConnectState::AwaitingToken {
            original: original.clone()
        }
    );

    let (state, action) = connect_step(
        true,
        true,
        state,
        ConnectEvent::TokenRead {
            bytes: b"ready".to_vec(),
        },
    );
    assert_eq!(action, ConnectAction::RetryConnect);
    assert_eq!(state, ConnectState::Retrying { original });

    let (state, action) = connect_step(true, true, state, ConnectEvent::RetryConnected);
    assert_eq!(action, ConnectAction::Succeed);
    assert_eq!(state, ConnectState::Connected);
}

#[test]
fn bad_token_surfaces_original_error() {
    let original = "connection refused".to_string();
    let (state, action) = connect_step(
        true,
        true,
        ConnectState::AwaitingToken {
            original: original.clone(),
        },
        ConnectEvent::TokenRead {
            bytes: b"error".to_vec(),
        },
    );
    assert_eq!(action, ConnectAction::Fail);
    assert_eq!(
        state,
        ConnectState::Failed {
            error: ClientError::Transport { message: original }
        }
    );
}

#[test]
fn failed_token_read_surfaces_original_error() {
    let original = "connection refused".to_string();
    let (state, action) = connect_step(
        true,
        true,
        ConnectState::AwaitingToken {
            original: original.clone(),
        },
        ConnectEvent::TokenReadFailed,
    );
    assert_eq!(action, ConnectAction::Fail);
    assert_eq!(
        state,
        ConnectState::Failed {
            error: ClientError::Transport { message: original }
        }
    );
}

#[test]
fn failed_spawn_chains_both_errors() {
    let (state, action) = connect_step(
        true,
        true,
        ConnectState::AwaitingSpawn {
            original: "connection refused".to_string(),
        },
        ConnectEvent::SpawnFailed {
            message: "no such binary".to_string(),
        },
    );
    assert_eq!(action, ConnectAction::Fail);
    assert_eq!(
        state,
        ConnectState::Failed {
            error: ClientError::Bootstrap {
                message: "no such binary".to_string(),
                original: "connection refused".to_string(),
            }
        }
    );
}

#[test]
fn failed_retry_surfaces_its_own_error() {
    let (state, action) = connect_step(
        true,
        true,
        ConnectState::Retrying {
            original: "connection refused".to_string(),
        },
        ConnectEvent::RetryFailed {
            message: "still refused".to_string(),
        },
    );
    assert_eq!(action, ConnectAction::Fail);
    assert_eq!(
        state,
        ConnectState::Failed {
            error: ClientError::Transport {
                message: "still refused".to_string()
            }
        }
    );
}

#[test]
fn unexpected_event_is_ignored() {
    let (state, action) = connect_step(
        true,
        true,
        ConnectState::Connected,
        ConnectEvent::Spawned,
    );
    assert_eq!(action, ConnectAction::Ignore);
    assert_eq!(state, ConnectState::Connected);
}
