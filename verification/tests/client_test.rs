use std::cell::RefCell;

use fleet::client::{
    accept_destroy, accept_machine_page, accept_unit, accept_unit_page, accept_unit_state_page,
    accept_write,
};
use fleet::codec::parse;
use rustc_serialize::json::Json;
use fleet::{
    poll, Client, ErrorKind, FleetError, JsonValue, Method, PollError, Request, Response, Unit,
    UnitOption, UnitStatePage, UnitStates,
};

const API: &str = "http://localhost:2999/fleet/v1";

struct StoredUnit {
    name: String,
    desired_state: String,
    options: String,
    reads: u32,
}

/// A stand-in for fleetd that lives in memory. A unit gets its machine only
/// once it has been read twice, and the first listing of states is empty.
struct Daemon {
    units: Vec<StoredUnit>,
    state_listings: u32,
    log: Vec<Request>,
}

impl Daemon {
    fn new() -> RefCell<Daemon> {
        RefCell::new(Daemon { units: Vec::new(), state_listings: 0, log: Vec::new() })
    }
}

fn answer(status: u16, body: String) -> Result<Response, String> {
    Ok(Response { status, body: body.into_bytes() })
}

fn failure(status: u16, message: &str) -> Result<Response, String> {
    answer(status, format!("{{\"error\":{{\"code\":{},\"message\":\"{}\"}}}}", status, message))
}

fn unit_json(unit: &StoredUnit) -> String {
    let placed = unit.reads > 2;
    format!(
        "{{\"currentState\":\"{}\",\"desiredState\":\"{}\",{}\"name\":\"{}\",\"options\":{}}}",
        if placed { unit.desired_state.as_str() } else { "inactive" },
        unit.desired_state,
        if placed { "\"machineID\":\"m1\"," } else { "" },
        unit.name,
        unit.options,
    )
}

fn state_json(unit: &StoredUnit) -> String {
    format!(
        "{{\"name\":\"{}\",\"hash\":\"abc123\",\"machineID\":\"m1\",\"systemdLoadState\":\"loaded\",\"systemdActiveState\":\"inactive\",\"systemdSubState\":\"dead\"}}",
        unit.name,
    )
}

fn put_unit(daemon: &mut Daemon, name: &str, body: &str) -> Result<Response, String> {
    if name.is_empty() {
        return failure(404, "");
    }
    let document = match Json::from_str(body) {
        Ok(document) => document,
        Err(_) => return failure(400, "invalid body"),
    };
    let desired_state = match document.find("desiredState").and_then(|state| state.as_string()) {
        Some(state) => state.to_string(),
        None => return failure(400, "invalid desiredState"),
    };
    if let Some(unit) = daemon.units.iter_mut().find(|unit| unit.name == name) {
        unit.desired_state = desired_state;
        return answer(204, String::new());
    }
    let has_options = match document.find("options").and_then(|options| options.as_array()) {
        Some(options) => !options.is_empty(),
        None => false,
    };
    if !has_options {
        return failure(409, "unit does not exist and options field empty");
    }
    let options = document.find("options").unwrap().to_string();
    daemon.units.push(StoredUnit { name: name.to_string(), desired_state, options, reads: 0 });
    answer(201, String::new())
}

fn serve(daemon: &RefCell<Daemon>, request: &Request) -> Result<Response, String> {
    let mut daemon = daemon.borrow_mut();
    daemon.log.push(request.clone());
    let path = match request.url.strip_prefix(API) {
        Some(path) => path.to_string(),
        None => return Err(format!("no route to {}", request.url)),
    };
    if let Some(name) = path.strip_prefix("/units/") {
        return match request.method {
            Method::Put => put_unit(&mut daemon, name, request.body.as_deref().unwrap_or("")),
            Method::Get => match daemon.units.iter_mut().find(|unit| unit.name == name) {
                Some(unit) => {
                    unit.reads += 1;
                    answer(200, unit_json(unit))
                }
                None => failure(404, "unit does not exist"),
            },
            Method::Delete => match daemon.units.iter().position(|unit| unit.name == name) {
                Some(index) => {
                    daemon.units.remove(index);
                    answer(204, String::new())
                }
                None => failure(404, "unit does not exist"),
            },
        };
    }
    match (request.method, path.as_str()) {
        (Method::Get, "/units") => {
            let units: Vec<String> = daemon
                .units
                .iter_mut()
                .map(|unit| {
                    unit.reads += 1;
                    unit_json(unit)
                })
                .collect();
            answer(200, format!("{{\"units\":[{}]}}", units.join(",")))
        }
        (Method::Get, "/state") => {
            daemon.state_listings += 1;
            if daemon.state_listings == 1 {
                return answer(200, "{}".to_string());
            }
            let states: Vec<String> = daemon.units.iter().map(state_json).collect();
            answer(200, format!("{{\"states\":[{}]}}", states.join(",")))
        }
        (Method::Get, "/machines") => answer(
            200,
            "{\"machines\":[{\"id\":\"m1\",\"metadata\":{\"region\":\"us-east-1\"},\"primaryIP\":\"10.0.0.1\"}]}"
                .to_string(),
        ),
        _ => failure(404, "no such resource"),
    }
}

fn unreachable_daemon(_request: &Request) -> Result<Response, String> {
    Err("connection refused".to_string())
}

fn no_pause(_delay: u64) {}

#[test]
fn client_it_can_be_constructed() {
    Client::new("http://localhost", unreachable_daemon).unwrap();
}

#[test]
fn it_returns_an_error_for_invalid_root_urls() {
    assert!(Client::new("asdf", unreachable_daemon).is_err());
}

#[test]
fn an_invalid_root_is_a_config_error_and_nothing_is_sent() {
    let calls = RefCell::new(0u32);
    for root in ["asdf", "", "http://", "http://localhost:99999", "http://[::1", "//localhost"] {
        let result = Client::new(root, |_request: &Request| -> Result<Response, String> {
            *calls.borrow_mut() += 1;
            Err("unused".to_string())
        });
        let error = match result {
            Err(error) => error,
            Ok(client) => panic!("{:?} was taken as {:?}", root, client.root_url()),
        };
        assert_eq!(error.kind, ErrorKind::Config);
        assert_eq!(error.code, None);
        assert!(error.message.is_some());
    }
    assert_eq!(*calls.borrow(), 0);
}

#[test]
fn the_message_of_a_config_error_describes_the_fault() {
    let error = Client::new("asdf", unreachable_daemon).err().unwrap();
    assert_eq!(error.message, Some("relative URL without a base".to_string()));
    assert_eq!(error.to_string(), "0: relative URL without a base");
}

#[test]
fn a_valid_root_is_taken_and_nothing_is_sent() {
    let calls = RefCell::new(0u32);
    for (root, api) in [
        ("http://localhost", "http://localhost/fleet/v1"),
        ("http://localhost/", "http://localhost/fleet/v1"),
        ("http://localhost:2999", "http://localhost:2999/fleet/v1"),
        ("https://10.0.0.1:8080", "https://10.0.0.1:8080/fleet/v1"),
        ("HTTP://Example.COM", "http://example.com/fleet/v1"),
        ("http://localhost:2999/proxy", "http://localhost:2999/proxy/fleet/v1"),
        ("http://localhost:2999/proxy/", "http://localhost:2999/proxy/fleet/v1"),
    ] {
        let client = Client::new(root, |_request: &Request| -> Result<Response, String> {
            *calls.borrow_mut() += 1;
            Err("unused".to_string())
        })
        .unwrap();
        assert_eq!(client.root_url(), api);
        assert_eq!(client.build_url("/units"), format!("{}/units", api));
    }
    assert_eq!(*calls.borrow(), 0);
}

#[test]
fn unit_lifecycle() {
    let daemon = Daemon::new();
    let client =
        Client::new("http://localhost:2999", |request: &Request| serve(&daemon, request)).unwrap();

    // Create unit

    let options = vec![
        UnitOption {
            name: "ExecStart".to_string(),
            section: "Service".to_string(),
            value: "/usr/bin/sleep 3000".to_string(),
        },
    ];

    let create_result = client.create_unit("test.service", UnitStates::Launched, options);

    assert!(create_result.is_ok(), "{}", create_result.err().unwrap().to_string());

    // Get unit

    // fleet takes a second to create the unit, so give it a few tries.
    let unit = poll(5, 500, || {
        client.get_unit("test.service")
    }, |unit: &Unit| {
        unit.machine_id.is_some()
    }, no_pause).ok().unwrap();

    assert_eq!(&unit.name[..], "test.service");

    // Modify unit's desired state

    let modify_result = client.modify_unit("test.service", UnitStates::Loaded);

    assert!(modify_result.is_ok(), "{}", modify_result.err().unwrap().to_string());

    // List units

    let unit_pages = client.list_units(None).ok().unwrap();

    assert_eq!(unit_pages.units.len(), 1);

    let listed_unit = &unit_pages.units[0];

    assert_eq!(listed_unit.name, "test.service");

    // List unit states

    // for some reason GET /state sometimes returns no results even when there should be
    let unit_state_pages = poll(5, 500, || {
        client.list_unit_states(None, None, None)
    }, |unit_state_pages: &UnitStatePage| {
        unit_state_pages.states.len() > 0 &&
            unit_state_pages.states[0].systemd_active_state == "inactive"
    }, no_pause).ok().unwrap();

    let unit_state = &unit_state_pages.states[0];

    assert_eq!(unit_state.name, "test.service");
    assert_eq!(unit_state.machine_id, listed_unit.machine_id);
    assert_eq!(unit_state.systemd_load_state, "loaded");
    assert_eq!(unit_state.systemd_active_state, "inactive");
    assert_eq!(unit_state.systemd_sub_state, "dead");

    // Destroy unit

    let destroy_result = client.destroy_unit("test.service");

    assert!(destroy_result.is_ok(), "{}", destroy_result.err().unwrap().to_string());
}

#[test]
fn create_invalid_unit_missing_name() {
    let daemon = Daemon::new();
    let client =
        Client::new("http://localhost:2999", |request: &Request| serve(&daemon, request)).unwrap();
    let options = vec![];

    let result = client.create_unit("", UnitStates::Launched, options);
    let error = result.err().unwrap();

    assert_eq!(error.to_string(), "404: Error in JSON response from Fleet was empty");
}

#[test]
fn create_invalid_unit_missing_options() {
    let daemon = Daemon::new();
    let client =
        Client::new("http://localhost:2999", |request: &Request| serve(&daemon, request)).unwrap();
    let options = vec![];

    let result = client.create_unit("optionless.service", UnitStates::Launched, options);
    let error = result.err().unwrap();

    assert_eq!(error.to_string(), "409: unit does not exist and options field empty");
}

#[test]
fn list_machines() {
    let daemon = Daemon::new();
    let client =
        Client::new("http://localhost:2999", |request: &Request| serve(&daemon, request)).unwrap();

    let machine_pages = client.list_machines(None).ok().unwrap();

    assert_eq!(machine_pages.machines.len(), 1);
    assert_eq!(machine_pages.machines[0].id, "m1");
    assert_eq!(
        machine_pages.machines[0].metadata,
        vec![("region".to_string(), "us-east-1".to_string())]
    );
    assert_eq!(machine_pages.next_page_token, None);
}

#[test]
fn a_unit_goes_from_creation_to_destruction() {
    let daemon = Daemon::new();
    let client =
        Client::new("http://localhost:2999", |request: &Request| serve(&daemon, request)).unwrap();
    let options = vec![UnitOption {
        name: "ExecStart".to_string(),
        section: "Service".to_string(),
        value: "/usr/bin/sleep 3000".to_string(),
    }];

    assert_eq!(client.create_unit("test.service", UnitStates::Launched, options.clone()), Ok(()));

    let first = client.get_unit("test.service").unwrap();
    assert_eq!(first.machine_id, None);
    assert_eq!(first.current_state, UnitStates::Inactive);
    assert_eq!(first.desired_state, UnitStates::Launched);
    assert_eq!(first.options, options);

    let placed = poll(
        5,
        500,
        || client.get_unit("test.service"),
        |unit: &Unit| unit.machine_id.is_some(),
        no_pause,
    )
    .unwrap();
    assert_eq!(placed.machine_id, Some("m1".to_string()));
    assert_eq!(placed.current_state, UnitStates::Launched);

    assert_eq!(client.modify_unit("test.service", UnitStates::Loaded), Ok(()));
    assert_eq!(client.get_unit("test.service").unwrap().desired_state, UnitStates::Loaded);

    assert_eq!(client.destroy_unit("test.service"), Ok(()));

    let gone = client.get_unit("test.service").unwrap_err();
    assert_eq!(gone.kind, ErrorKind::Api);
    assert_eq!(gone.code, Some(404));
    assert_eq!(gone.message, Some("unit does not exist".to_string()));
    assert_eq!(client.destroy_unit("test.service").unwrap_err().code, Some(404));
}

#[test]
fn every_operation_sends_one_request_of_its_own() {
    let daemon = Daemon::new();
    let client =
        Client::new("http://localhost:2999", |request: &Request| serve(&daemon, request)).unwrap();
    let options = vec![UnitOption {
        name: "ExecStart".to_string(),
        section: "Service".to_string(),
        value: "/usr/bin/sleep 3000".to_string(),
    }];

    let _ = client.create_unit("a.service", UnitStates::Launched, options);
    let _ = client.modify_unit("a.service", UnitStates::Loaded);
    let _ = client.get_unit("a.service");
    let _ = client.list_units(None);
    let _ = client.list_machines(None);
    let _ = client.list_unit_states(None, None, None);
    let _ = client.destroy_unit("a.service");

    let json = "application/json".to_string();
    let bare = |method: Method, path: &str| Request {
        method,
        url: format!("{}{}", API, path),
        content_type: json.clone(),
        body: None,
    };
    let with_body = |path: &str, body: &str| Request {
        method: Method::Put,
        url: format!("{}{}", API, path),
        content_type: json.clone(),
        body: Some(body.to_string()),
    };
    assert_eq!(
        daemon.borrow().log,
        vec![
            with_body(
                "/units/a.service",
                r#"{"desiredState":"launched","options":[{"name":"ExecStart","section":"Service","value":"/usr/bin/sleep 3000"}]}"#,
            ),
            with_body("/units/a.service", r#"{"desiredState":"loaded"}"#),
            bare(Method::Get, "/units/a.service"),
            bare(Method::Get, "/units"),
            bare(Method::Get, "/machines"),
            bare(Method::Get, "/state"),
            bare(Method::Delete, "/units/a.service"),
        ]
    );
}

#[test]
fn filters_and_token_go_into_the_query_in_a_fixed_order() {
    let daemon = Daemon::new();
    let client =
        Client::new("http://localhost:2999", |request: &Request| serve(&daemon, request)).unwrap();

    let _ = client.list_unit_states(Some("m 1"), Some("a&b=c.service"), Some("t/1+2".to_string()));
    let _ = client.list_unit_states(None, Some("a.service"), None);
    let _ = client.list_unit_states(Some("m1"), None, Some("t".to_string()));
    let _ = client.list_units(Some("8fefec2c".to_string()));
    let _ = client.list_machines(Some("caf\u{e9}".to_string()));
    let _ = client.list_units(Some(String::new()));

    let urls: Vec<String> =
        daemon.borrow().log.iter().map(|request| request.url.clone()).collect();
    assert_eq!(
        urls,
        vec![
            format!("{}/state?machineID=m+1&unitName=a%26b%3Dc.service&nextPageToken=t%2F1%2B2", API),
            format!("{}/state?unitName=a.service", API),
            format!("{}/state?machineID=m1&nextPageToken=t", API),
            format!("{}/units?nextPageToken=8fefec2c", API),
            format!("{}/machines?nextPageToken=caf%C3%A9", API),
            format!("{}/units?nextPageToken=", API),
        ]
    );
}

#[test]
fn a_request_that_gets_no_response_is_a_transport_failure() {
    let client = Client::new("http://localhost:2999", unreachable_daemon).unwrap();
    let expected = FleetError {
        kind: ErrorKind::Transport,
        code: None,
        message: Some("connection refused".to_string()),
    };
    assert_eq!(client.get_unit("a"), Err(expected.clone()));
    assert_eq!(client.create_unit("a", UnitStates::Loaded, vec![]), Err(expected.clone()));
    assert_eq!(client.modify_unit("a", UnitStates::Loaded), Err(expected.clone()));
    assert_eq!(client.destroy_unit("a"), Err(expected.clone()));
    assert_eq!(client.list_units(None), Err(expected.clone()));
    assert_eq!(client.list_machines(None), Err(expected.clone()));
    assert_eq!(client.list_unit_states(None, None, None), Err(expected));
}

fn fixed(status: u16, body: &'static str) -> impl Fn(&Request) -> Result<Response, String> {
    move |_request: &Request| Ok(Response { status, body: body.as_bytes().to_vec() })
}

#[test]
fn writes_succeed_on_created_and_on_no_content_only() {
    for (status, accepted) in [(200, false), (201, true), (202, false), (204, true), (404, false)] {
        let client = Client::new("http://localhost", fixed(status, "")).unwrap();
        assert_eq!(client.create_unit("a", UnitStates::Loaded, vec![]).is_ok(), accepted);
        assert_eq!(client.modify_unit("a", UnitStates::Loaded).is_ok(), accepted);
        if !accepted {
            let error = client.modify_unit("a", UnitStates::Loaded).unwrap_err();
            assert_eq!(error.kind, ErrorKind::Api);
            assert_eq!(error.code, Some(status));
            assert_eq!(error.message, Some("could not parse error response".to_string()));
        }
    }
}

#[test]
fn destroying_succeeds_on_no_content_and_on_ok_only() {
    for (status, accepted) in [(200, true), (201, false), (204, true), (404, false), (500, false)] {
        let client = Client::new("http://localhost", fixed(status, "{}")).unwrap();
        let result = client.destroy_unit("a");
        assert_eq!(result.is_ok(), accepted);
        if !accepted {
            assert_eq!(
                result,
                Err(FleetError {
                    kind: ErrorKind::Api,
                    code: Some(status),
                    message: Some("Error parsing JSON response from Fleet".to_string()),
                })
            );
        }
    }
}

#[test]
fn reads_succeed_on_ok_only() {
    let unit = r#"{"currentState":"loaded","desiredState":"loaded","name":"a","options":[]}"#;
    for (status, accepted) in [(200, true), (201, false), (204, false), (404, false)] {
        let client = Client::new("http://localhost", fixed(status, unit)).unwrap();
        let result = client.get_unit("a");
        assert_eq!(result.is_ok(), accepted);
        if !accepted {
            let error = result.unwrap_err();
            assert_eq!(error.kind, ErrorKind::Api);
            assert_eq!(error.code, Some(status));
        }
    }
}

#[test]
fn an_accepted_body_that_cannot_be_read_is_a_mapping_error() {
    let body_fault =
        FleetError { kind: ErrorKind::Mapping, code: None, message: Some("body".to_string()) };
    let client = Client::new("http://localhost", fixed(200, "<html>")).unwrap();
    assert_eq!(client.get_unit("a"), Err(body_fault.clone()));
    assert_eq!(client.list_units(None), Err(body_fault.clone()));
    assert_eq!(client.list_machines(None), Err(body_fault.clone()));
    assert_eq!(client.list_unit_states(None, None, None), Err(body_fault));

    let client = Client::new("http://localhost", fixed(200, r#"{"name":"a"}"#)).unwrap();
    let error = client.get_unit("a").unwrap_err();
    assert_eq!(error.kind, ErrorKind::Mapping);
    assert_eq!(error.message, Some("currentState".to_string()));
}

#[test]
fn the_replies_can_be_decided_on_without_a_client() {
    let reply = |status: u16, body: &str| -> Result<Response, String> {
        Ok(Response { status, body: body.as_bytes().to_vec() })
    };
    assert_eq!(accept_write(reply(201, "")), Ok(()));
    assert_eq!(accept_write(reply(200, "")).unwrap_err().code, Some(200));
    assert_eq!(accept_destroy(reply(200, "")), Ok(()));
    assert_eq!(accept_destroy(reply(201, "")).unwrap_err().code, Some(201));
    assert_eq!(accept_write(Err("timed out".to_string())).unwrap_err().kind, ErrorKind::Transport);
    assert_eq!(
        accept_unit(reply(
            200,
            r#"{"currentState":"loaded","desiredState":"launched","name":"a","options":[]}"#
        ))
        .unwrap()
        .desired_state,
        UnitStates::Launched
    );
    assert_eq!(accept_unit_page(reply(200, "{}")).unwrap().units.len(), 0);
    assert_eq!(accept_machine_page(reply(200, "{}")).unwrap().machines.len(), 0);
    assert_eq!(accept_unit_state_page(reply(200, "{}")).unwrap().states.len(), 0);
    assert_eq!(
        accept_unit_page(reply(503, r#"{"error":{"message":"busy"}}"#)),
        Err(FleetError { kind: ErrorKind::Api, code: Some(503), message: Some("busy".to_string()) })
    );
}

#[test]
fn a_timeout_keeps_the_last_value_read() {
    let daemon = Daemon::new();
    let client =
        Client::new("http://localhost:2999", |request: &Request| serve(&daemon, request)).unwrap();
    let options = vec![UnitOption {
        name: "ExecStart".to_string(),
        section: "Service".to_string(),
        value: "/usr/bin/sleep 3000".to_string(),
    }];
    client.create_unit("slow.service", UnitStates::Launched, options).unwrap();

    let result = poll(
        2,
        500,
        || client.get_unit("slow.service"),
        |unit: &Unit| unit.machine_id.is_some(),
        no_pause,
    );
    match result {
        Err(PollError::TimedOut(last)) => {
            assert_eq!(last.name, "slow.service");
            assert_eq!(last.machine_id, None);
        }
        other => panic!("not a timeout: {:?}", other),
    }

    let missing = poll(
        5,
        500,
        || client.get_unit("other.service"),
        |unit: &Unit| unit.machine_id.is_some(),
        no_pause,
    );
    match missing {
        Err(PollError::Failed(error)) => assert_eq!(error.code, Some(404)),
        other => panic!("not a failed read: {:?}", other),
    }
}

#[test]
fn the_stand_in_daemon_speaks_json() {
    let daemon = Daemon::new();
    let reply = serve(
        &daemon,
        &Request {
            method: Method::Get,
            url: format!("{}/machines", API),
            content_type: "application/json".to_string(),
            body: None,
        },
    )
    .unwrap();
    assert!(matches!(parse(&reply.body), Some(JsonValue::Object(_))));
}

#[test]
fn an_odd_root_is_taken_or_refused() {
    let roots = [
        "http://0x",
        "http://1.2.3.4.",
        "http://1.2.3.4.5",
        "http://4294967296",
        "http://[::]",
        "http://[::ffff:1.2.3.4]:80",
        "file:///",
        "a:",
        "http://ex ample.com",
        "http://xn--",
        "http://\u{2460}.example",
        "http://user:pw@localhost:2999",
        "http://localhost:2999?x=1#y",
        "\u{0}",
        " http://localhost ",
    ];
    for root in roots {
        match Client::new(root, unreachable_daemon) {
            Ok(client) => assert!(client.root_url().ends_with("/fleet/v1"), "{:?}", root),
            Err(error) => {
                assert_eq!(error.kind, ErrorKind::Config, "{:?}", root);
                assert!(error.message.is_some());
            }
        }
    }
}

#[test]
fn the_requests_can_be_had_without_sending_them() {
    let calls = RefCell::new(0u32);
    let client = Client::new("http://localhost:2999", |_request: &Request| -> Result<Response, String> {
        *calls.borrow_mut() += 1;
        Err("unused".to_string())
    })
    .unwrap();
    let json = "application/json".to_string();
    let options = vec![UnitOption {
        name: "ExecStart".to_string(),
        section: "Service".to_string(),
        value: "/usr/bin/sleep 3000".to_string(),
    }];
    assert_eq!(
        client.request_to_create_unit("test.service", UnitStates::Launched, options),
        Request {
            method: Method::Put,
            url: format!("{}/units/test.service", API),
            content_type: json.clone(),
            body: Some(
                r#"{"desiredState":"launched","options":[{"name":"ExecStart","section":"Service","value":"/usr/bin/sleep 3000"}]}"#
                    .to_string()
            ),
        }
    );
    assert_eq!(
        client.request_to_modify_unit("test.service", UnitStates::Inactive),
        Request {
            method: Method::Put,
            url: format!("{}/units/test.service", API),
            content_type: json.clone(),
            body: Some(r#"{"desiredState":"inactive"}"#.to_string()),
        }
    );
    assert_eq!(
        client.request_to_destroy_unit("test.service"),
        Request {
            method: Method::Delete,
            url: format!("{}/units/test.service", API),
            content_type: json.clone(),
            body: None,
        }
    );
    assert_eq!(
        client.request_to_get_unit(""),
        Request {
            method: Method::Get,
            url: format!("{}/units/", API),
            content_type: json.clone(),
            body: None,
        }
    );
    assert_eq!(client.request_to_list_units(None).url, format!("{}/units", API));
    assert_eq!(
        client.request_to_list_units(Some("a b")).url,
        format!("{}/units?nextPageToken=a+b", API)
    );
    assert_eq!(client.request_to_list_machines(None).url, format!("{}/machines", API));
    assert_eq!(
        client.request_to_list_machines(Some("t")).url,
        format!("{}/machines?nextPageToken=t", API)
    );
    assert_eq!(
        client.request_to_list_unit_states(Some("m1"), Some("a.service"), Some("t")),
        Request {
            method: Method::Get,
            url: format!("{}/state?machineID=m1&unitName=a.service&nextPageToken=t", API),
            content_type: json,
            body: None,
        }
    );
    assert_eq!(client.request_to_list_unit_states(None, None, None).url, format!("{}/state", API));
    assert_eq!(*calls.borrow(), 0);
}
