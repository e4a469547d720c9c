use midi_monitor::ports::find_port;

fn names(list: &[Option<&str>]) -> Vec<Option<String>> {
    list.iter().map(|n| n.map(|s| s.to_string())).collect()
}

#[test]
fn find_port_gives_the_position_of_the_name() {
    let ports = names(&[Some("Juno"), Some("Clock"), Some("Pads")]);
    assert_eq!(find_port(&ports, &"Juno".to_string()), Some(0));
    assert_eq!(find_port(&ports, &"Clock".to_string()), Some(1));
    assert_eq!(find_port(&ports, &"Pads".to_string()), Some(2));
}

#[test]
fn find_port_gives_the_first_of_equal_names() {
    let ports = names(&[Some("A"), Some("B"), Some("B"), Some("A")]);
    assert_eq!(find_port(&ports, &"B".to_string()), Some(1));
    assert_eq!(find_port(&ports, &"A".to_string()), Some(0));
}

#[test]
fn find_port_wants_the_exact_name() {
    let ports = names(&[Some("Juno 106"), Some("juno"), Some("Juno ")]);
    assert_eq!(find_port(&ports, &"Juno".to_string()), None);
    assert_eq!(find_port(&ports, &"".to_string()), None);
    assert_eq!(find_port(&ports, &"Juno ".to_string()), Some(2));
}

#[test]
fn find_port_passes_over_unreadable_names() {
    let ports = names(&[None, Some("Clock"), None]);
    assert_eq!(find_port(&ports, &"Clock".to_string()), Some(1));
    assert_eq!(find_port(&ports, &"Unknown".to_string()), None);
    let ports = names(&[None, None]);
    assert_eq!(find_port(&ports, &"".to_string()), None);
}

#[test]
fn find_port_finds_nothing_among_no_ports() {
    let ports: Vec<Option<String>> = Vec::new();
    assert_eq!(find_port(&ports, &"Clock".to_string()), None);
}

#[test]
fn find_port_result_indexes_the_ports() {
    let ports = names(&[Some("A"), Some("B")]);
    let labels = vec!["first", "second"];
    let found = find_port(&ports, &"B".to_string()).and_then(|i| labels.get(i));
    assert_eq!(found, Some(&"second"));
}
