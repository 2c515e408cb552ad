use sifis::discovery::{url_of, Action, DeviceError, DiscoveryEvent, DiscoveryRun};

fn document(title: &str) -> String {
    format!(
        r#"{{"@context": "https://www.w3.org/2019/wot/td/v1", "title": "{}",
            "securityDefinitions": {{}}}}"#,
        title
    )
}

fn resolved(name: &str, address: &str, port: u16) -> DiscoveryEvent {
    DiscoveryEvent::Resolved {
        name: name.to_string(),
        addresses: vec![address.to_string()],
        port,
    }
}

/// Drives a run against a simulated responder: `script` gives, for each
/// event, when it arrives and what fetching its document takes and yields.
fn simulate(
    run: &mut DiscoveryRun,
    script: Vec<(u64, DiscoveryEvent, u64, Result<String, String>)>,
) -> u64 {
    let mut clock: u64 = 0;
    for (at, event, fetch_ms, outcome) in script {
        clock = clock.max(at);
        match run.on_event(event, clock) {
            Action::Fetch { device, .. } => {
                clock += fetch_ms;
                run.on_fetched(device, outcome);
            }
            Action::Wait => {}
            Action::Finish => return clock,
        }
    }
    clock
}

#[test]
fn url_of_device() {
    assert_eq!(url_of("192.168.1.7", 8080), "http://192.168.1.7:8080/");
    assert_eq!(url_of("10.0.0.1", 0), "http://10.0.0.1:0/");
    assert_eq!(url_of("h", 65535), "http://h:65535/");
    assert_eq!(url_of("h", 80), "http://h:80/");
}

#[test]
fn three_devices_within_budget() {
    let mut run = DiscoveryRun::new(Some(2000));
    let script = vec![
        (50, resolved("lamp", "10.0.0.1", 8888), 50, Ok(document("Lamp"))),
        (120, resolved("oven", "10.0.0.2", 8888), 50, Ok(document("Oven"))),
        (200, resolved("fan", "10.0.0.3", 8888), 50, Ok(document("Fan"))),
    ];
    let clock = simulate(&mut run, script);
    assert!(clock < 2000);
    assert!(!run.is_done());
    assert_eq!(run.on_event(DiscoveryEvent::Timeout, 2000), Action::Finish);
    let report = run.finish();
    assert_eq!(report.things.len(), 3);
    assert!(report.failures.is_empty());
    let titles: Vec<&str> = report.things.iter().map(|t| t.title.as_str()).collect();
    assert_eq!(titles, vec!["Lamp", "Oven", "Fan"]);
}

#[test]
fn failed_fetch_is_recorded_not_dropped() {
    let mut run = DiscoveryRun::new(Some(2000));
    let script = vec![
        (10, resolved("lamp", "10.0.0.1", 8888), 50, Ok(document("Lamp"))),
        (20, resolved("oven", "10.0.0.2", 8888), 5, Err("connection refused".to_string())),
        (30, resolved("fan", "10.0.0.3", 8888), 50, Ok(document("Fan"))),
    ];
    simulate(&mut run, script);
    let report = run.finish();
    assert_eq!(report.things.len(), 2);
    assert_eq!(report.failures.len(), 1);
    assert_eq!(report.failures[0].0, "oven");
    assert_eq!(
        report.failures[0].1,
        DeviceError::Fetch("connection refused".to_string())
    );
}

#[test]
fn malformed_document_is_a_parse_failure() {
    let mut run = DiscoveryRun::new(Some(1000));
    run.on_fetched("x".to_string(), Ok("not json".to_string()));
    run.on_fetched("y".to_string(), Ok(r#"{"title": "no context"}"#.to_string()));
    let report = run.finish();
    assert!(report.things.is_empty());
    assert_eq!(report.failures.len(), 2);
    assert!(matches!(report.failures[0].1, DeviceError::Parse(_)));
    assert!(matches!(report.failures[1].1, DeviceError::Parse(_)));
}

#[test]
fn events_after_budget_are_not_acted_on() {
    let mut run = DiscoveryRun::new(Some(2000));
    assert_eq!(run.on_event(DiscoveryEvent::Timeout, 1000), Action::Wait);
    assert_eq!(run.on_event(resolved("late", "10.0.0.9", 1), 2000), Action::Finish);
    assert!(run.is_done());
    assert_eq!(run.on_event(resolved("later", "10.0.0.9", 1), 1500), Action::Finish);
}

#[test]
fn resolved_event_asks_for_fetch_from_first_address() {
    let mut run = DiscoveryRun::new(Some(2000));
    let event = DiscoveryEvent::Resolved {
        name: "lamp".to_string(),
        addresses: vec!["10.0.0.1".to_string(), "10.0.0.2".to_string()],
        port: 8888,
    };
    assert_eq!(
        run.on_event(event, 5),
        Action::Fetch {
            device: "lamp".to_string(),
            url: "http://10.0.0.1:8888/".to_string()
        }
    );
    assert_eq!(run.on_event(DiscoveryEvent::Other, 6), Action::Wait);
}

#[test]
fn resolved_without_address_is_a_failure() {
    let mut run = DiscoveryRun::new(Some(2000));
    let event = DiscoveryEvent::Resolved { name: "ghost".to_string(), addresses: vec![], port: 1 };
    assert_eq!(run.on_event(event, 5), Action::Wait);
    let report = run.finish();
    assert_eq!(report.failures, vec![("ghost".to_string(), DeviceError::NoAddress)]);
}

#[test]
fn unbounded_run_never_finishes_by_itself() {
    let mut run = DiscoveryRun::new(None);
    assert_eq!(run.on_event(DiscoveryEvent::Timeout, u64::MAX), Action::Wait);
    assert!(!run.is_done());
}
