use mic_bridge::devices::{
    check_route_selected, is_virtual_candidate, list_devices, make_device_id, parse_device_id,
    resolve_in_list, validate_route,
};
use mic_bridge::error::AppError;
use mic_bridge::types::{AudioRouteConfig, DeviceDirection};
use mic_bridge::devices::merge_route;

#[test]
fn device_ids_embed_direction_index_and_name() {
    assert_eq!(
        make_device_id(&DeviceDirection::Input, 3, "USB Mic"),
        "in#3#USB Mic"
    );
    assert_eq!(
        make_device_id(&DeviceDirection::Output, 0, "CABLE Input"),
        "out#0#CABLE Input"
    );
    assert_eq!(make_device_id(&DeviceDirection::Input, 1234, "x"), "in#1234#x");
}

#[test]
fn device_id_parse_round_trips() {
    let id = make_device_id(&DeviceDirection::Input, 12, "USB Mic");
    let (idx, name) = parse_device_id(&id).unwrap();
    assert_eq!(idx, 12);
    let name: String = name.into_iter().collect();
    assert_eq!(name, "USB Mic");
}

#[test]
fn device_id_name_may_contain_separators() {
    let (idx, name) = parse_device_id("out#7#Weird#Name#2").unwrap();
    assert_eq!(idx, 7);
    let name: String = name.into_iter().collect();
    assert_eq!(name, "Weird#Name#2");
}

#[test]
fn malformed_device_ids_are_invalid_arguments() {
    for bad in ["", "justaname", "in#", "in#x#Mic", "in#12"] {
        match parse_device_id(bad) {
            Err(AppError::InvalidArgument(m)) => assert!(m.contains("malformed"), "{m}"),
            other => panic!("expected invalid argument for {bad:?}, got {other:?}"),
        }
    }
}

#[test]
fn resolution_prefers_the_remembered_index() {
    let names = vec!["A".to_string(), "B".to_string(), "B".to_string()];
    let wanted: Vec<char> = "B".chars().collect();
    assert_eq!(resolve_in_list(2, &wanted, &names).unwrap(), 2);
}

#[test]
fn resolution_falls_back_to_the_first_name_match() {
    let names = vec!["A".to_string(), "B".to_string(), "B".to_string()];
    let wanted: Vec<char> = "B".chars().collect();
    // The remembered index drifted: position 0 now holds another device.
    assert_eq!(resolve_in_list(0, &wanted, &names).unwrap(), 1);
}

#[test]
fn missing_device_is_reported_by_name() {
    let names = vec!["A".to_string()];
    let wanted: Vec<char> = "Gone".chars().collect();
    match resolve_in_list(0, &wanted, &names) {
        Err(AppError::DeviceNotFound(m)) => assert_eq!(m, "Gone"),
        other => panic!("expected device-not-found, got {other:?}"),
    }
}

#[test]
fn virtual_candidates_are_matched_case_insensitively() {
    assert!(is_virtual_candidate("VB-Audio Virtual Cable"));
    assert!(is_virtual_candidate("CABLE Input"));
    assert!(is_virtual_candidate("my virtual thing"));
    assert!(!is_virtual_candidate("Realtek HD Audio"));
}

#[test]
fn device_list_marks_defaults_and_virtual_candidates() {
    let inputs = vec!["USB Mic".to_string(), "CABLE Output".to_string()];
    let outputs = vec!["Speakers".to_string()];
    let list = list_devices(&inputs, &outputs, "USB Mic", "Speakers");
    assert_eq!(list.inputs.len(), 2);
    assert_eq!(list.outputs.len(), 1);
    assert_eq!(list.inputs[0].id, "in#0#USB Mic");
    assert!(list.inputs[0].is_default);
    assert!(!list.inputs[0].is_virtual_candidate);
    assert!(!list.inputs[1].is_default);
    assert!(list.inputs[1].is_virtual_candidate);
    assert_eq!(list.outputs[0].id, "out#0#Speakers");
    assert_eq!(list.outputs[0].direction, DeviceDirection::Output);
    assert!(list.outputs[0].is_default);
}

#[test]
fn empty_route_passes_validation() {
    let list = list_devices(&vec![], &vec![], "", "");
    let route = AudioRouteConfig::default();
    assert!(validate_route(&route, &list).is_ok());
}

#[test]
fn stale_route_fails_validation() {
    let inputs = vec!["USB Mic".to_string()];
    let outputs = vec!["CABLE Input".to_string()];
    let list = list_devices(&inputs, &outputs, "USB Mic", "CABLE Input");
    let route = AudioRouteConfig {
        input_device_id: "in#0#USB Mic".to_string(),
        bridge_output_device_id: "out#0#Gone".to_string(),
    };
    assert!(matches!(
        validate_route(&route, &list),
        Err(AppError::DeviceNotFound(_))
    ));
    let good = AudioRouteConfig {
        input_device_id: "in#0#USB Mic".to_string(),
        bridge_output_device_id: "out#0#CABLE Input".to_string(),
    };
    assert!(validate_route(&good, &list).is_ok());
}

#[test]
fn unselected_route_cannot_start_the_engine() {
    let route = AudioRouteConfig::default();
    assert!(matches!(
        check_route_selected(&route),
        Err(AppError::InvalidArgument(_))
    ));
    let route = AudioRouteConfig {
        input_device_id: "in#0#Mic".to_string(),
        bridge_output_device_id: "out#0#Cable".to_string(),
    };
    assert!(check_route_selected(&route).is_ok());
}

#[test]
fn merging_a_route_keeps_the_old_bridge_output_when_unset() {
    let old = AudioRouteConfig {
        input_device_id: "in#0#A".to_string(),
        bridge_output_device_id: "out#0#Cable".to_string(),
    };
    let merged = merge_route(
        AudioRouteConfig {
            input_device_id: "in#1#B".to_string(),
            bridge_output_device_id: String::new(),
        },
        &old,
    );
    assert_eq!(merged.input_device_id, "in#1#B");
    assert_eq!(merged.bridge_output_device_id, "out#0#Cable");
    let replaced = merge_route(
        AudioRouteConfig {
            input_device_id: "in#1#B".to_string(),
            bridge_output_device_id: "out#2#Other".to_string(),
        },
        &old,
    );
    assert_eq!(replaced.bridge_output_device_id, "out#2#Other");
}
