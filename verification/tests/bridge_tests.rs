use jsandbox::bridge::reply_text;
use jsandbox::bridge::BridgeAction;
use jsandbox::bridge::BridgeEvent;
use jsandbox::bridge::BridgeStage;
use jsandbox::bridge::CapabilityCall;
use jsandbox::bridge::ReplyValue;
use jsandbox::capability::Capability;
use jsandbox::error::Error;
use jsandbox::error::ErrorKind;

fn encoded(text: &str) -> BridgeEvent {
    BridgeEvent::Encoded(Ok(Some(text.to_string())))
}

#[test]
fn reply_text_is_the_reply_or_empty() {
    assert_eq!(reply_text(Some("{\"ok\":true}".to_string())), "{\"ok\":true}");
    assert_eq!(reply_text(Some(String::new())), "");
    assert_eq!(reply_text(None), "");
}

#[test]
fn call_goes_from_encoding_to_returned() {
    let mut call = CapabilityCall::new(Capability::Fetch, "inv-1");
    assert_eq!(call.stage(), BridgeStage::Encoding);
    assert_eq!(call.capability(), Capability::Fetch);
    assert!(matches!(call.next_action(), BridgeAction::EncodePayload));
    assert_eq!(call.outcome(), None);

    assert!(call.advance(encoded("{\"url\":\"a\"}")));
    assert_eq!(call.stage(), BridgeStage::Calling);
    match call.next_action() {
        BridgeAction::CallHost { capability, invocation_id, payload } => {
            assert_eq!(capability, Capability::Fetch);
            assert_eq!(invocation_id, "inv-1");
            assert_eq!(payload, "{\"url\":\"a\"}");
        }
        _ => panic!("the host is to be called"),
    }

    assert!(call.advance(BridgeEvent::HostReplied(Some("{\"ok\":true}".to_string()))));
    assert_eq!(call.stage(), BridgeStage::Draining);
    assert!(matches!(call.next_action(), BridgeAction::RunPendingJob));
    assert!(call.advance(BridgeEvent::JobRan(true)));
    assert!(call.advance(BridgeEvent::JobRan(true)));
    assert_eq!(call.stage(), BridgeStage::Draining);
    assert!(call.advance(BridgeEvent::JobRan(false)));
    assert_eq!(call.stage(), BridgeStage::Decoding);
    match call.next_action() {
        BridgeAction::DecodeReply { text } => assert_eq!(text, "{\"ok\":true}"),
        _ => panic!("the reply is to be decoded"),
    }
    assert_eq!(call.outcome(), None);

    assert!(call.advance(BridgeEvent::Decoded(Ok(()))));
    assert_eq!(call.stage(), BridgeStage::Returned(ReplyValue::Decoded));
    assert!(matches!(call.next_action(), BridgeAction::Finish));
    assert_eq!(call.outcome(), Some(Ok(ReplyValue::Decoded)));
}

#[test]
fn draining_an_empty_queue_takes_one_report() {
    let mut call = CapabilityCall::new(Capability::Read, "i");
    assert!(call.advance(encoded("1")));
    assert!(call.advance(BridgeEvent::HostReplied(Some("2".to_string()))));
    assert!(call.advance(BridgeEvent::JobRan(false)));
    assert_eq!(call.stage(), BridgeStage::Decoding);
    assert!(!call.advance(BridgeEvent::JobRan(false)));
    assert_eq!(call.stage(), BridgeStage::Decoding);
}

#[test]
fn absent_reply_returns_the_empty_value_without_decoding() {
    let mut call = CapabilityCall::new(Capability::Secrets, "i");
    assert!(call.advance(encoded("null")));
    assert!(call.advance(BridgeEvent::HostReplied(None)));
    assert_eq!(call.stage(), BridgeStage::Draining);
    assert_eq!(call.outcome(), None);
    assert!(call.advance(BridgeEvent::JobRan(true)));
    assert_eq!(call.stage(), BridgeStage::Draining);
    assert!(call.advance(BridgeEvent::JobRan(false)));
    assert_eq!(call.stage(), BridgeStage::Returned(ReplyValue::Default));
    assert!(matches!(call.next_action(), BridgeAction::Finish));
    assert_eq!(call.outcome(), Some(Ok(ReplyValue::Default)));
    assert!(!call.advance(BridgeEvent::Decoded(Err("late".to_string()))));
    assert_eq!(call.outcome(), Some(Ok(ReplyValue::Default)));
}

#[test]
fn empty_reply_text_goes_to_the_decoder() {
    let mut call = CapabilityCall::new(Capability::Secrets, "i");
    assert!(call.advance(encoded("null")));
    assert!(call.advance(BridgeEvent::HostReplied(Some(String::new()))));
    assert!(call.advance(BridgeEvent::JobRan(false)));
    assert_eq!(call.stage(), BridgeStage::Decoding);
    match call.next_action() {
        BridgeAction::DecodeReply { text } => assert_eq!(text, ""),
        _ => panic!("the reply is to be decoded"),
    }
    assert!(call.advance(BridgeEvent::Decoded(Err("unexpected end".to_string()))));
    assert_eq!(call.outcome(), Some(Ok(ReplyValue::Default)));
}

#[test]
fn payload_without_json_text_fails_before_the_host_is_called() {
    let mut call = CapabilityCall::new(Capability::Write, "i");
    assert!(call.advance(BridgeEvent::Encoded(Ok(None))));
    assert_eq!(call.stage(), BridgeStage::Failed(ErrorKind::NotStringifiable));
    assert!(matches!(call.next_action(), BridgeAction::Finish));
    assert_eq!(call.outcome(), Some(Err(Error::new(ErrorKind::NotStringifiable, String::new()))));
    assert!(!call.advance(BridgeEvent::HostReplied(Some("late".to_string()))));
    assert_eq!(call.stage(), BridgeStage::Failed(ErrorKind::NotStringifiable));

    let mut call = CapabilityCall::new(Capability::Write, "i");
    assert!(call.advance(BridgeEvent::Encoded(Err("circular reference".to_string()))));
    assert_eq!(
        call.outcome(),
        Some(Err(Error::new(ErrorKind::NotStringifiable, "circular reference".to_string())))
    );
}

#[test]
fn reply_that_is_not_json_returns_the_empty_value() {
    let mut call = CapabilityCall::new(Capability::Query, "i");
    assert!(call.advance(encoded("{}")));
    assert!(call.advance(BridgeEvent::HostReplied(Some("not json".to_string()))));
    assert!(call.advance(BridgeEvent::JobRan(false)));
    match call.next_action() {
        BridgeAction::DecodeReply { text } => assert_eq!(text, "not json"),
        _ => panic!("the reply is to be decoded"),
    }
    assert!(call.advance(BridgeEvent::Decoded(Err("unexpected token".to_string()))));
    assert_eq!(call.stage(), BridgeStage::Returned(ReplyValue::Default));
    assert_eq!(call.outcome(), Some(Ok(ReplyValue::Default)));
}

#[test]
fn call_never_fails_once_the_host_is_called() {
    let replies = [None, Some(String::new()), Some("x".to_string()), Some("1".to_string())];
    for reply in replies {
        for decoding in [Ok(()), Err("bad".to_string())] {
            let mut call = CapabilityCall::new(Capability::Output, "i");
            assert!(call.advance(encoded("1")));
            let absent = reply.is_none();
            assert!(call.advance(BridgeEvent::HostReplied(reply.clone())));
            assert!(call.advance(BridgeEvent::JobRan(false)));
            assert_eq!(call.advance(BridgeEvent::Decoded(decoding.clone())), !absent);
            let expected = if absent || decoding.is_err() {
                ReplyValue::Default
            } else {
                ReplyValue::Decoded
            };
            assert_eq!(call.outcome(), Some(Ok(expected)));
        }
    }
}

#[test]
fn reports_out_of_turn_are_refused() {
    let mut call = CapabilityCall::new(Capability::Blob, "i");
    assert!(!call.advance(BridgeEvent::HostReplied(Some("early".to_string()))));
    assert!(!call.advance(BridgeEvent::JobRan(false)));
    assert!(!call.advance(BridgeEvent::Decoded(Ok(()))));
    assert_eq!(call.stage(), BridgeStage::Encoding);
    assert!(call.advance(encoded("1")));
    assert!(!call.advance(encoded("2")));
    match call.next_action() {
        BridgeAction::CallHost { payload, .. } => assert_eq!(payload, "1"),
        _ => panic!("the host is to be called"),
    }
    assert!(call.advance(BridgeEvent::HostReplied(Some("a".to_string()))));
    assert!(!call.advance(BridgeEvent::HostReplied(Some("b".to_string()))));
    assert!(call.advance(BridgeEvent::JobRan(false)));
    match call.next_action() {
        BridgeAction::DecodeReply { text } => assert_eq!(text, "a"),
        _ => panic!("the reply is to be decoded"),
    }
    assert!(call.advance(BridgeEvent::Decoded(Ok(()))));
    assert!(!call.advance(BridgeEvent::Decoded(Err("again".to_string()))));
    assert_eq!(call.outcome(), Some(Ok(ReplyValue::Decoded)));
}

#[test]
fn every_capability_is_called_with_id_and_encoded_payload() {
    for capability in Capability::all() {
        let mut call = CapabilityCall::by_name(capability.name(), "inv-3").unwrap();
        assert!(call.advance(encoded("[1]")));
        match call.next_action() {
            BridgeAction::CallHost { capability: bound, invocation_id, payload } => {
                assert_eq!(bound, capability);
                assert_eq!(invocation_id, "inv-3");
                assert_eq!(payload, "[1]");
            }
            _ => panic!("the host is to be called"),
        }
    }
}

#[test]
fn names_outside_the_set_reach_nothing() {
    assert!(CapabilityCall::by_name("eval", "i").is_none());
    assert!(CapabilityCall::by_name("", "i").is_none());
    assert!(CapabilityCall::by_name("fetch_capability", "i").is_none());
    assert!(CapabilityCall::by_name("FETCH", "i").is_none());
}

#[test]
fn only_the_host_call_suspends() {
    let mut call = CapabilityCall::new(Capability::Invoke, "i");
    assert!(!call.next_action().suspends());
    assert!(call.advance(encoded("{}")));
    assert!(call.next_action().suspends());
    assert!(call.advance(BridgeEvent::HostReplied(Some("1".to_string()))));
    assert!(!call.next_action().suspends());
    assert!(call.advance(BridgeEvent::JobRan(false)));
    assert!(!call.next_action().suspends());
    assert!(call.advance(BridgeEvent::Decoded(Ok(()))));
    assert!(!call.next_action().suspends());
}
