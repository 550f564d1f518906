use fleet::{
    Machine, MachinePage, Unit, UnitOption, UnitPage, UnitState, UnitStatePage, UnitStates,
};

fn example_machine() -> Machine {
    Machine {
        id: "abc123".to_string(),
        metadata: Vec::new(),
        primary_ip: "1.2.3.4".to_string(),
    }
}

fn example_unit() -> Unit {
    Unit {
        current_state: UnitStates::Inactive,
        desired_state: UnitStates::Launched,
        machine_id: Some("abc123".to_string()),
        name: "example.service".to_string(),
        options: vec![],
    }
}

fn example_unit_state() -> UnitState {
    UnitState {
        name: "example.service".to_string(),
        hash: "abc123".to_string(),
        machine_id: Some("123abc".to_string()),
        systemd_load_state: "loaded".to_string(),
        systemd_active_state: "active".to_string(),
        systemd_sub_state: "running".to_string(),
    }
}

#[test]
fn machine_it_can_be_constructed() {
    let machine = Machine {
        id: "abc123".to_string(),
        metadata: Vec::new(),
        primary_ip: "1.2.3.4".to_string(),
    };

    assert_eq!(machine.id, "abc123");
    assert!(machine.metadata.is_empty());
    assert_eq!(machine.primary_ip, "1.2.3.4");
}

#[test]
fn it_can_be_constructed_with_metdata() {
    let mut metadata = Vec::new();

    metadata.push(("region".to_string(), "us-east-1".to_string()));

    let machine = Machine {
        id: "abc123".to_string(),
        metadata: metadata,
        primary_ip: "1.2.3.4".to_string(),
    };

    assert_eq!(machine.metadata, vec![("region".to_string(), "us-east-1".to_string())]);
}

#[test]
fn machine_it_can_be_paginated() {
    let machine = example_machine();

    let page = MachinePage {
        machines: vec![machine],
        next_page_token: Some("8fefec2c".to_string()),
    };

    assert_eq!(page.machines.len(), 1);
    assert_eq!(page.next_page_token, Some("8fefec2c".to_string()));
}

#[test]
fn machine_it_can_have_no_additional_pages() {
    let machine = example_machine();

    let page = MachinePage {
        machines: vec![machine],
        next_page_token: None,
    };

    assert_eq!(page.machines, vec![example_machine()]);
    assert_eq!(page.next_page_token, None);
}

#[test]
fn unit_it_can_be_constructed() {
    let unit_option = UnitOption {
        name: "Description".to_string(),
        section: "Unit".to_string(),
        value: "Example unit".to_string(),
    };

    let unit = Unit {
        current_state: UnitStates::Inactive,
        desired_state: UnitStates::Launched,
        machine_id: Some("abc123".to_string()),
        name: "example.service".to_string(),
        options: vec![unit_option],
    };

    assert_eq!(unit.options[0].name, "Description");
    assert_eq!(unit.options[0].section, "Unit");
    assert_eq!(unit.options[0].value, "Example unit");

    let state = UnitState {
        name: "example.service".to_string(),
        hash: "abc123".to_string(),
        machine_id: Some("123abc".to_string()),
        systemd_load_state: "loaded".to_string(),
        systemd_active_state: "active".to_string(),
        systemd_sub_state: "running".to_string(),
    };

    assert_eq!(state.name, unit.name);
    assert_ne!(state.machine_id, unit.machine_id);
}

#[test]
fn unit_it_can_be_paginated() {
    let unit = example_unit();

    let page = UnitPage {
        units: vec![unit],
        next_page_token: Some("8fefec2c".to_string()),
    };

    assert_eq!(page.units, vec![example_unit()]);
    assert_eq!(page.next_page_token, Some("8fefec2c".to_string()));

    let unit_state = example_unit_state();

    let state_page = UnitStatePage {
        states: vec![unit_state],
        next_page_token: Some("8fefec2c".to_string()),
    };

    assert_eq!(state_page.states, vec![example_unit_state()]);
    assert_eq!(state_page.next_page_token, page.next_page_token);
}

#[test]
fn unit_it_can_have_no_additional_pages() {
    let unit = example_unit();

    let page = UnitPage {
        units: vec![unit],
        next_page_token: None,
    };

    assert_eq!(page.units.len(), 1);
    assert_eq!(page.next_page_token, None);

    let unit_state = example_unit_state();

    let state_page = UnitStatePage {
        states: vec![unit_state],
        next_page_token: None,
    };

    assert_eq!(state_page.states.len(), 1);
    assert_eq!(state_page.next_page_token, None);
}

#[test]
fn state_words_are_read_exactly() {
    assert_eq!(UnitStates::from_str("inactive"), Ok(UnitStates::Inactive));
    assert_eq!(UnitStates::from_str("loaded"), Ok(UnitStates::Loaded));
    assert_eq!(UnitStates::from_str("launched"), Ok(UnitStates::Launched));
    assert_eq!(UnitStates::Inactive.as_str(), "inactive");
    assert_eq!(UnitStates::Loaded.as_str(), "loaded");
    assert_eq!(UnitStates::Launched.as_str(), "launched");
}

#[test]
fn state_words_are_case_sensitive() {
    for word in ["Launched", "LOADED", "", " inactive", "inactive ", "bogus"] {
        let error = UnitStates::from_str(word).unwrap_err();
        assert_eq!(error.kind, fleet::ErrorKind::Mapping);
        assert_eq!(error.code, None);
        assert_eq!(error.message, Some("invalid-state-value".to_string()));
    }
}

#[test]
fn every_state_is_read_back_from_its_word() {
    for state in [UnitStates::Inactive, UnitStates::Loaded, UnitStates::Launched] {
        assert_eq!(UnitStates::from_str(state.as_str()), Ok(state));
        assert_eq!(
            state.to_json(),
            rustc_serialize::json::Json::String(state.as_str().to_string())
        );
    }
}

#[test]
fn an_inactive_unit_is_on_no_machine() {
    let mut unit = example_unit();
    assert!(!unit.placement_is_consistent());
    unit.machine_id = None;
    assert!(unit.placement_is_consistent());
    unit.current_state = UnitStates::Loaded;
    assert!(unit.placement_is_consistent());
    unit.machine_id = Some("abc123".to_string());
    assert!(unit.placement_is_consistent());
    unit.current_state = UnitStates::Launched;
    assert!(unit.placement_is_consistent());
}
