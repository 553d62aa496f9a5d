use jsandbox::capability::Capability;
use jsandbox::error::Error;
use jsandbox::error::ErrorKind;
use jsandbox::session::Action;
use jsandbox::session::Event;
use jsandbox::session::ExportLookup;
use jsandbox::session::run_module;
use jsandbox::session::Invocation;
use jsandbox::session::ResultValue;
use jsandbox::session::Session;
use jsandbox::session::Stage;

fn invocation() -> Invocation {
    Invocation {
        invocation_id: "inv-1".to_string(),
        method: "run".to_string(),
        module_name: "main".to_string(),
        peer_modules: vec![
            ("util".to_string(), "export const u = 1;".to_string()),
            ("main".to_string(), "export const self = 1;".to_string()),
        ],
        module_source: "export function run(input) { return input; }".to_string(),
        input_json: "{\"x\":41}".to_string(),
    }
}

fn failure(kind: ErrorKind, detail: &str) -> Option<Result<String, Error>> {
    Some(Err(Error::new(kind, detail.to_string())))
}

fn feed(session: &mut Session, events: Vec<Event>) {
    for event in events {
        assert!(session.advance(event));
    }
}

fn up_to_loader() -> Vec<Event> {
    vec![Event::EngineCreated(Ok(())), Event::ShimsInstalled(Ok(())), Event::LoaderInstalled]
}

fn up_to_drained() -> Vec<Event> {
    let mut events = up_to_loader();
    events.push(Event::Declared(Ok(())));
    events.push(Event::Evaluated(Ok(())));
    events.push(Event::JobRan(false));
    events
}

fn up_to_capabilities() -> Vec<Event> {
    let mut events = up_to_drained();
    events.push(Event::ExportResolved(ExportLookup::Found));
    events.push(Event::InputParsed(Ok(())));
    events.push(Event::CapabilitiesBuilt(Ok(())));
    events
}

#[test]
fn new_session_waits_for_an_engine() {
    let session = Session::new(invocation());
    assert_eq!(session.stage(), Stage::Requested);
    assert!(matches!(session.next_action(), Action::CreateEngine));
    assert!(!session.is_finished());
    assert_eq!(session.outcome(), None);
    assert_eq!(session.invocation().invocation_id, "inv-1");
    assert_eq!(session.invocation().input_json, "{\"x\":41}");
}

#[test]
fn peer_table_is_filled_when_the_session_is_made() {
    let session = Session::new(invocation());
    assert_eq!(session.peers().resolve("util"), Some("export const u = 1;"));
    assert_eq!(session.peers().resolve("util.js"), Some("export const u = 1;"));
    assert_eq!(session.peers().resolve("main"), None);
    assert_eq!(session.peers().resolve("main.js"), None);
}

#[test]
fn plain_value_walks_every_stage_in_order() {
    let mut session = Session::new(invocation());
    assert!(session.advance(Event::EngineCreated(Ok(()))));
    assert_eq!(session.stage(), Stage::Created);
    assert!(matches!(session.next_action(), Action::InstallShims));
    assert!(session.advance(Event::ShimsInstalled(Ok(()))));
    assert_eq!(session.stage(), Stage::ShimsInstalled);
    assert!(matches!(session.next_action(), Action::InstallLoader { .. }));
    assert!(session.advance(Event::LoaderInstalled));
    assert_eq!(session.stage(), Stage::LoaderInstalled);
    match session.next_action() {
        Action::Declare { name, source } => {
            assert_eq!(name, "main");
            assert_eq!(source, "export function run(input) { return input; }");
        }
        _ => panic!("the module is to be declared"),
    }
    assert!(session.advance(Event::Declared(Ok(()))));
    assert_eq!(session.stage(), Stage::Declared);
    assert!(matches!(session.next_action(), Action::Evaluate));
    assert!(session.advance(Event::Evaluated(Ok(()))));
    assert_eq!(session.stage(), Stage::Evaluated);
    assert!(matches!(session.next_action(), Action::RunPendingJob));
    assert!(session.advance(Event::JobRan(true)));
    assert_eq!(session.stage(), Stage::Evaluated);
    assert!(session.advance(Event::JobRan(false)));
    assert_eq!(session.stage(), Stage::JobsDrained);
    match session.next_action() {
        Action::ResolveExport { method } => assert_eq!(method, "run"),
        _ => panic!("the export is to be looked up"),
    }
    assert!(session.advance(Event::ExportResolved(ExportLookup::Found)));
    assert_eq!(session.stage(), Stage::ExportResolved);
    match session.next_action() {
        Action::ParseInput { text } => assert_eq!(text, "{\"x\":41}"),
        _ => panic!("the input is to be parsed"),
    }
    assert!(session.advance(Event::InputParsed(Ok(()))));
    assert_eq!(session.stage(), Stage::InputParsed);
    match session.next_action() {
        Action::BuildCapabilities { invocation_id, capabilities } => {
            assert_eq!(invocation_id, "inv-1");
            assert_eq!(capabilities, Capability::all());
            assert_eq!(capabilities.len(), 10);
        }
        _ => panic!("the capabilities are to be built"),
    }
    assert!(session.advance(Event::CapabilitiesBuilt(Ok(()))));
    assert_eq!(session.stage(), Stage::CapabilitiesBuilt);
    assert!(matches!(session.next_action(), Action::Invoke));
    assert!(session.advance(Event::Invoked(Ok(false))));
    assert_eq!(session.stage(), Stage::Invoked);
    assert!(matches!(session.next_action(), Action::Encode { value: ResultValue::Returned }));
    assert!(session.advance(Event::Encoded(Ok(Some("{\"x\":41}".to_string())))));
    assert_eq!(session.stage(), Stage::Serialized);
    assert!(matches!(session.next_action(), Action::Teardown));
    assert_eq!(session.outcome(), None);
    assert!(!session.is_finished());
    assert!(session.advance(Event::TornDown));
    assert_eq!(session.stage(), Stage::Done);
    assert!(matches!(session.next_action(), Action::Finish));
    assert!(session.is_finished());
    assert_eq!(session.outcome(), Some(Ok("{\"x\":41}".to_string())));
}

#[test]
fn promise_is_drained_awaited_and_drained_again_before_encoding() {
    let mut session = Session::new(invocation());
    feed(&mut session, up_to_capabilities());
    assert!(session.advance(Event::Invoked(Ok(true))));
    assert_eq!(session.stage(), Stage::Invoked);
    assert!(matches!(session.next_action(), Action::RunPendingJob));
    assert!(!session.advance(Event::Encoded(Ok(Some("early".to_string())))));
    assert!(!session.advance(Event::Settled(Ok(()))));
    assert!(session.advance(Event::JobRan(true)));
    assert_eq!(session.stage(), Stage::Invoked);
    assert!(session.advance(Event::JobRan(false)));
    assert_eq!(session.stage(), Stage::Awaiting);
    assert!(matches!(session.next_action(), Action::AwaitSettlement));
    assert!(!session.advance(Event::JobRan(false)));
    assert!(!session.advance(Event::Encoded(Ok(Some("early".to_string())))));
    assert!(session.advance(Event::Settled(Ok(()))));
    assert_eq!(session.stage(), Stage::Awaiting);
    assert!(matches!(session.next_action(), Action::RunPendingJob));
    assert!(!session.advance(Event::Settled(Ok(()))));
    assert!(!session.advance(Event::Encoded(Ok(Some("early".to_string())))));
    assert!(session.advance(Event::JobRan(true)));
    assert!(session.advance(Event::JobRan(true)));
    assert_eq!(session.stage(), Stage::Awaiting);
    assert!(session.advance(Event::JobRan(false)));
    assert_eq!(session.stage(), Stage::Drained);
    assert!(matches!(session.next_action(), Action::Encode { value: ResultValue::Settled }));
    assert!(session.advance(Event::Encoded(Ok(Some("42".to_string())))));
    assert!(session.advance(Event::TornDown));
    assert_eq!(session.outcome(), Some(Ok("42".to_string())));
}

#[test]
fn engine_and_shim_failures_are_engine_errors() {
    let mut session = Session::new(invocation());
    assert!(session.advance(Event::EngineCreated(Err("out of memory".to_string()))));
    assert_eq!(session.stage(), Stage::Failed(ErrorKind::EngineError));
    assert!(matches!(session.next_action(), Action::Finish));
    assert!(!session.advance(Event::TornDown));
    assert_eq!(session.outcome(), failure(ErrorKind::EngineError, "out of memory"));

    let mut session = Session::new(invocation());
    feed(&mut session, vec![Event::EngineCreated(Ok(()))]);
    assert!(session.advance(Event::ShimsInstalled(Err("bad shim".to_string()))));
    assert_eq!(session.stage(), Stage::Failed(ErrorKind::EngineError));
    assert_eq!(session.outcome(), None);
    assert!(session.advance(Event::TornDown));
    assert_eq!(session.outcome(), failure(ErrorKind::EngineError, "bad shim"));
}

#[test]
fn declaration_failure_is_loading() {
    let mut session = Session::new(invocation());
    feed(&mut session, up_to_loader());
    assert!(session.advance(Event::Declared(Err("unexpected token".to_string()))));
    assert_eq!(session.stage(), Stage::Failed(ErrorKind::Loading));
    assert!(!session.is_finished());
    assert_eq!(session.outcome(), None);
    assert!(matches!(session.next_action(), Action::Teardown));
    assert!(session.advance(Event::TornDown));
    assert!(session.is_finished());
    assert!(matches!(session.next_action(), Action::Finish));
    let outcome = session.outcome();
    assert_eq!(outcome, failure(ErrorKind::Loading, "unexpected token"));
    assert_eq!(
        outcome.unwrap().unwrap_err().message(),
        "Error loading module: unexpected token"
    );
}

#[test]
fn evaluation_failure_is_evaluating() {
    let mut session = Session::new(invocation());
    feed(&mut session, up_to_loader());
    feed(&mut session, vec![Event::Declared(Ok(()))]);
    assert!(session.advance(Event::Evaluated(Err("boom".to_string()))));
    assert!(session.advance(Event::TornDown));
    assert_eq!(session.outcome(), failure(ErrorKind::Evaluating, "boom"));
}

#[test]
fn export_lookup_failures_have_their_own_kinds() {
    let mut session = Session::new(invocation());
    feed(&mut session, up_to_drained());
    assert!(session.advance(Event::ExportResolved(ExportLookup::NoNamespace("gone".to_string()))));
    assert!(session.advance(Event::TornDown));
    assert_eq!(session.outcome(), failure(ErrorKind::GettingDefaultExport, "gone"));

    let mut session = Session::new(invocation());
    feed(&mut session, up_to_drained());
    assert!(session
        .advance(Event::ExportResolved(ExportLookup::NotCallable("not a function".to_string()))));
    assert!(session.advance(Event::TornDown));
    assert_eq!(session.outcome(), failure(ErrorKind::GettingDefaultFunction, "not a function"));
}

#[test]
fn input_failure_is_parsing_input_values() {
    let mut session = Session::new(invocation());
    feed(&mut session, up_to_drained());
    feed(&mut session, vec![Event::ExportResolved(ExportLookup::Found)]);
    assert!(session.advance(Event::InputParsed(Err("unexpected end".to_string()))));
    assert!(session.advance(Event::TornDown));
    assert_eq!(session.outcome(), failure(ErrorKind::ParsingInputValues, "unexpected end"));
}

#[test]
fn capabilities_failure_is_calling_module_function_with_its_own_words() {
    let mut session = Session::new(invocation());
    feed(&mut session, up_to_drained());
    feed(&mut session, vec![Event::ExportResolved(ExportLookup::Found), Event::InputParsed(Ok(()))]);
    assert!(session.advance(Event::CapabilitiesBuilt(Err("no memory".to_string()))));
    assert!(session.advance(Event::TornDown));
    let outcome = session.outcome();
    assert_eq!(
        outcome,
        failure(
            ErrorKind::CallingModuleFunction,
            "Error creating capabilities object: no memory"
        )
    );
    assert_eq!(
        outcome.unwrap().unwrap_err().message(),
        "Error creating capabilities object: no memory"
    );
}

#[test]
fn throw_and_rejection_are_calling_module_function() {
    let mut session = Session::new(invocation());
    feed(&mut session, up_to_capabilities());
    assert!(session.advance(Event::Invoked(Err("thrown".to_string()))));
    assert!(session.advance(Event::TornDown));
    assert_eq!(session.outcome(), failure(ErrorKind::CallingModuleFunction, "thrown"));

    let mut session = Session::new(invocation());
    feed(&mut session, up_to_capabilities());
    feed(&mut session, vec![Event::Invoked(Ok(true)), Event::JobRan(false)]);
    assert!(session.advance(Event::Settled(Err("rejected".to_string()))));
    assert!(session.advance(Event::TornDown));
    assert_eq!(session.outcome(), failure(ErrorKind::CallingModuleFunction, "rejected"));
}

#[test]
fn encoder_failures_are_not_stringifiable() {
    let mut session = Session::new(invocation());
    feed(&mut session, up_to_capabilities());
    feed(&mut session, vec![Event::Invoked(Ok(false))]);
    assert!(session.advance(Event::Encoded(Ok(None))));
    assert!(session.advance(Event::TornDown));
    assert_eq!(session.outcome(), failure(ErrorKind::NotStringifiable, ""));

    let mut session = Session::new(invocation());
    feed(&mut session, up_to_capabilities());
    feed(
        &mut session,
        vec![
            Event::Invoked(Ok(true)),
            Event::JobRan(false),
            Event::Settled(Ok(())),
            Event::JobRan(false),
        ],
    );
    assert!(session.advance(Event::Encoded(Err("circular reference".to_string()))));
    assert!(session.advance(Event::TornDown));
    assert_eq!(session.outcome(), failure(ErrorKind::NotStringifiable, "circular reference"));
}

#[test]
fn reports_out_of_turn_change_nothing() {
    let mut session = Session::new(invocation());
    assert!(!session.advance(Event::Declared(Ok(()))));
    assert!(!session.advance(Event::JobRan(false)));
    assert!(!session.advance(Event::TornDown));
    assert!(!session.advance(Event::Encoded(Ok(Some("x".to_string())))));
    assert_eq!(session.stage(), Stage::Requested);
    feed(&mut session, up_to_loader());
    assert!(!session.advance(Event::EngineCreated(Ok(()))));
    assert!(!session.advance(Event::Evaluated(Err("early".to_string()))));
    assert_eq!(session.stage(), Stage::LoaderInstalled);
    assert_eq!(session.outcome(), None);
}

#[test]
fn ended_session_takes_no_further_report() {
    let mut session = Session::new(invocation());
    feed(&mut session, up_to_loader());
    assert!(session.advance(Event::Declared(Err("bad".to_string()))));
    assert!(!session.advance(Event::Declared(Ok(()))));
    assert!(!session.advance(Event::Evaluated(Ok(()))));
    assert!(!session.advance(Event::EngineFailed("late".to_string())));
    assert!(session.advance(Event::TornDown));
    assert!(!session.advance(Event::TornDown));
    assert_eq!(session.outcome(), failure(ErrorKind::Loading, "bad"));

    let mut session = Session::new(invocation());
    feed(&mut session, up_to_capabilities());
    feed(
        &mut session,
        vec![Event::Invoked(Ok(false)), Event::Encoded(Ok(Some("1".to_string()))), Event::TornDown],
    );
    assert!(!session.advance(Event::Encoded(Ok(Some("2".to_string())))));
    assert!(!session.advance(Event::TornDown));
    assert!(!session.advance(Event::EngineFailed("late".to_string())));
    assert_eq!(session.outcome(), Some(Ok("1".to_string())));
}

#[test]
fn draining_an_empty_queue_after_evaluation_takes_one_report() {
    let mut session = Session::new(invocation());
    feed(&mut session, up_to_loader());
    feed(&mut session, vec![Event::Declared(Ok(())), Event::Evaluated(Ok(()))]);
    assert!(session.advance(Event::JobRan(false)));
    assert_eq!(session.stage(), Stage::JobsDrained);
    assert!(!session.advance(Event::JobRan(false)));
    assert_eq!(session.stage(), Stage::JobsDrained);
}

#[test]
fn interpreter_failure_ends_the_invocation_at_any_stage() {
    let mut session = Session::new(invocation());
    assert!(session.advance(Event::EngineFailed("no interpreter".to_string())));
    assert_eq!(session.stage(), Stage::Failed(ErrorKind::EngineError));
    assert!(matches!(session.next_action(), Action::Finish));
    assert_eq!(session.outcome(), failure(ErrorKind::EngineError, "no interpreter"));

    let mut session = Session::new(invocation());
    feed(&mut session, up_to_loader());
    feed(&mut session, vec![Event::Declared(Ok(())), Event::Evaluated(Ok(()))]);
    assert!(session.advance(Event::EngineFailed("job threw".to_string())));
    assert_eq!(session.stage(), Stage::Failed(ErrorKind::EngineError));
    assert!(matches!(session.next_action(), Action::Teardown));
    assert!(session.advance(Event::TornDown));
    let outcome = session.outcome();
    assert_eq!(outcome, failure(ErrorKind::EngineError, "job threw"));
    assert_eq!(outcome.unwrap().unwrap_err().message(), "A QuickJS error occured: job threw");

    let mut session = Session::new(invocation());
    feed(&mut session, up_to_capabilities());
    feed(&mut session, vec![Event::Invoked(Ok(false)), Event::Encoded(Ok(Some("1".to_string())))]);
    assert_eq!(session.stage(), Stage::Serialized);
    assert!(session.advance(Event::EngineFailed("idle failed".to_string())));
    assert!(session.advance(Event::TornDown));
    assert_eq!(session.outcome(), failure(ErrorKind::EngineError, "idle failed"));
}

#[test]
fn run_module_starts_a_session_for_the_given_invocation() {
    let session = run_module(
        "inv-5".to_string(),
        "go".to_string(),
        "target".to_string(),
        vec![("peer".to_string(), "export const p = 1;".to_string())],
        "export function go() {}".to_string(),
        "[1]".to_string(),
    );
    assert_eq!(session.stage(), Stage::Requested);
    assert!(matches!(session.next_action(), Action::CreateEngine));
    assert_eq!(session.outcome(), None);
    let invocation = session.invocation();
    assert_eq!(invocation.invocation_id, "inv-5");
    assert_eq!(invocation.method, "go");
    assert_eq!(invocation.module_name, "target");
    assert_eq!(invocation.module_source, "export function go() {}");
    assert_eq!(invocation.input_json, "[1]");
    assert_eq!(
        invocation.peer_modules,
        vec![("peer".to_string(), "export const p = 1;".to_string())]
    );
    assert_eq!(session.peers().resolve("peer.js"), Some("export const p = 1;"));
}

#[test]
fn only_the_wait_for_the_promise_suspends() {
    let mut session = Session::new(invocation());
    let mut events = up_to_capabilities();
    events.push(Event::Invoked(Ok(true)));
    for event in events {
        assert!(!session.next_action().suspends());
        assert!(session.advance(event));
    }
    assert!(!session.next_action().suspends());
    assert!(session.advance(Event::JobRan(false)));
    assert!(matches!(session.next_action(), Action::AwaitSettlement));
    assert!(session.next_action().suspends());
    assert!(session.advance(Event::Settled(Ok(()))));
    assert!(!session.next_action().suspends());
}
