use khaiii::AnalyzePlan;
use khaiii::EngineAction;
use khaiii::EngineEvent;
use khaiii::Error;
use khaiii::KhaiiiApi;
use khaiii::OpenStep;

/// Drives the open pipeline with the answers a healthy engine would give,
/// ending with the given handle.
fn session_with_handle(handle: i32) -> KhaiiiApi {
    let (flow, _action) = KhaiiiApi::new("/rsc".to_string(), "".to_string(), "warn".to_string());
    let step = flow.on_event(EngineEvent::Status(0));
    let flow = match step {
        OpenStep::Continue(f, _) => f,
        _ => panic!("expected the open call next"),
    };
    let step = flow.on_event(EngineEvent::Handle(handle));
    match step {
        OpenStep::Opened(api) => api,
        _ => panic!("expected an open session"),
    }
}

#[test]
fn version() {
    assert_eq!(KhaiiiApi::version(Some("0.4".to_string())), "0.4");
}

#[test]
fn version_fallback_when_not_decodable() {
    assert_eq!(KhaiiiApi::version(None), "Failed to get version");
}

#[test]
fn open() {
    let (flow, _action) =
        KhaiiiApi::new("/not/existing/dir".to_string(), "".to_string(), "warn".to_string());
    let step = flow.on_event(EngineEvent::Status(0));
    let flow = match step {
        OpenStep::Continue(f, _) => f,
        _ => panic!("expected the open call next"),
    };
    let step = flow.on_event(EngineEvent::Handle(-1));
    let flow = match step {
        OpenStep::Continue(f, _) => f,
        _ => panic!("expected the error fetch next"),
    };
    let step = flow.on_event(EngineEvent::ErrorMessage(Some(
        "resource directory not found: /not/existing/dir".to_string(),
    )));
    let err = match step {
        OpenStep::Failed(e) => e,
        _ => panic!("expected a failed open"),
    };
    assert_eq!(
        err,
        Error::KhaiiiExcept("resource directory not found: /not/existing/dir".to_string())
    );
}

#[test]
fn open_starts_with_log_level() {
    let (flow, action) =
        KhaiiiApi::new("/rsc".to_string(), "".to_string(), "debug".to_string());
    match action {
        EngineAction::SetLogLevel { name, level } => {
            assert_eq!(name, "all");
            assert_eq!(level, "debug");
        }
        _ => panic!("expected the log-level call first"),
    }
    match flow.on_event(EngineEvent::Status(0)) {
        OpenStep::Continue(_, EngineAction::Open { rsc_dir, opt_str }) => {
            assert_eq!(rsc_dir, "/rsc");
            assert_eq!(opt_str, "");
        }
        _ => panic!("expected the open call next"),
    }
}

#[test]
fn open_rejected_log_level_fails_fast() {
    let (flow, _action) = KhaiiiApi::new("/rsc".to_string(), "".to_string(), "bad".to_string());
    let step = flow.on_event(EngineEvent::Status(-1));
    let flow = match step {
        OpenStep::Continue(f, EngineAction::FetchLastError) => f,
        _ => panic!("expected the error fetch next"),
    };
    match flow.on_event(EngineEvent::ErrorMessage(Some("bad log level".to_string()))) {
        OpenStep::Failed(err) => {
            assert_eq!(err, Error::KhaiiiExcept("bad log level".to_string()))
        }
        _ => panic!("expected a failed open"),
    }
}

#[test]
fn open_empty_dir_uses_local_share() {
    let (flow, _action) = KhaiiiApi::new("".to_string(), "".to_string(), "warn".to_string());
    let step = flow.on_event(EngineEvent::Status(0));
    let flow = match step {
        OpenStep::Continue(f, EngineAction::QueryLocalShare) => f,
        _ => panic!("expected the local share query next"),
    };
    match flow.on_event(EngineEvent::LocalShare {
        exists: true,
        path: "/cwd/share/khaiii".to_string(),
    }) {
        OpenStep::Continue(_, EngineAction::Open { rsc_dir, .. }) => {
            assert_eq!(rsc_dir, "/cwd/share/khaiii")
        }
        _ => panic!("expected the open call next"),
    }
}

#[test]
fn open_empty_dir_falls_back_to_system_default() {
    let (flow, _action) = KhaiiiApi::new("".to_string(), "".to_string(), "warn".to_string());
    let step = flow.on_event(EngineEvent::Status(0));
    let flow = match step {
        OpenStep::Continue(f, EngineAction::QueryLocalShare) => f,
        _ => panic!("expected the local share query next"),
    };
    match flow.on_event(EngineEvent::LocalShare {
        exists: false,
        path: "/cwd/share/khaiii".to_string(),
    }) {
        OpenStep::Continue(_, EngineAction::Open { rsc_dir, .. }) => {
            assert_eq!(rsc_dir, "/usr/local/share/khaiii")
        }
        _ => panic!("expected the open call next"),
    }
}

#[test]
fn open_undecodable_error_is_unknown() {
    let (flow, _action) = KhaiiiApi::new("/rsc".to_string(), "".to_string(), "warn".to_string());
    let step = flow.on_event(EngineEvent::Status(0));
    let flow = match step {
        OpenStep::Continue(f, _) => f,
        _ => panic!("expected the open call next"),
    };
    let step = flow.on_event(EngineEvent::Handle(-2));
    let flow = match step {
        OpenStep::Continue(f, EngineAction::FetchLastError) => f,
        _ => panic!("expected the error fetch next"),
    };
    match flow.on_event(EngineEvent::ErrorMessage(None)) {
        OpenStep::Failed(err) => assert_eq!(err, Error::Unknown),
        _ => panic!("expected a failed open"),
    }
}

#[test]
fn analyze_on_closed_session_is_resources_failure() {
    let mut api = session_with_handle(3);
    assert_eq!(api.close(), Some(3));
    let res = api.analyze("\u{c548}\u{b155}".to_string());
    assert_eq!(res.unwrap_err(), Error::ResourcesFailure);
}

#[test]
fn analyze_empty_input_is_empty_and_never_an_error() {
    let api = session_with_handle(0);
    match api.analyze("".to_string()) {
        Ok(AnalyzePlan::Done(words)) => assert_eq!(words.len(), 0),
        _ => panic!("expected an empty result without engine work"),
    }
}

#[test]
fn analyze_plans_engine_call_with_empty_options() {
    let api = session_with_handle(0);
    match api.analyze("abc".to_string()) {
        Ok(AnalyzePlan::CallEngine { input, opt_str }) => {
            assert_eq!(input, "abc");
            assert_eq!(opt_str, "");
        }
        _ => panic!("expected an engine call"),
    }
}

#[test]
fn close_is_idempotent() {
    let mut api = session_with_handle(5);
    assert_eq!(api.handle(), 5);
    assert_eq!(api.close(), Some(5));
    assert_eq!(api.close(), None);
    assert_eq!(api.close(), None);
}

#[test]
fn vendored_is_false() {
    assert!(!khaiii::vendored());
}

#[test]
fn error_messages() {
    assert_eq!(
        Error::KhaiiiExcept("boom".to_string()).message(),
        "Khaiii exception: boom"
    );
    assert_eq!(Error::ResourcesFailure.message(), "Khaiii resources were not loaded");
    assert_eq!(Error::Unknown.message(), "Unknown exception");
}

#[test]
fn error_from_last_error() {
    assert_eq!(
        Error::from_last_error(Some("oops".to_string())),
        Error::KhaiiiExcept("oops".to_string())
    );
    assert_eq!(Error::from_last_error(None), Error::Unknown);
}
