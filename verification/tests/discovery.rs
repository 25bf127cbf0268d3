use terralib::discovery::{exactly_one, host_name, Discovered, MdnsInfo, SERVICE_TYPE};

fn device(ip: &str, fullname: &str, hostname: &str) -> MdnsInfo {
    MdnsInfo { ip: ip.to_string(), fullname: fullname.to_string(), hostname: hostname.to_string() }
}

#[test]
fn a_device_is_reported_once() {
    let mut found = Discovered::new();
    assert_eq!(found.len(), 0);
    let first = device("10.0.0.7", "oasis._oasis_terrarium._tcp.local.", "oasis.local");
    assert!(!found.contains(&first));
    assert!(found.insert(first.clone()));
    assert!(found.contains(&first));
    assert!(!found.insert(first.clone()));
    assert!(!found.insert(first.clone()));
    assert_eq!(found.len(), 1);
}

#[test]
fn devices_differ_by_any_of_the_three() {
    let mut found = Discovered::new();
    assert!(found.insert(device("10.0.0.7", "a", "oasis.local")));
    assert!(found.insert(device("10.0.0.8", "a", "oasis.local")));
    assert!(found.insert(device("10.0.0.7", "b", "oasis.local")));
    assert!(found.insert(device("10.0.0.7", "a", "basil.local")));
    assert!(!found.insert(device("10.0.0.8", "a", "oasis.local")));
    assert_eq!(found.len(), 4);
    let one = device("10.0.0.7", "a", "oasis.local");
    assert!(one.same_device(&one.clone()));
    assert!(!one.same_device(&device("10.0.0.7", "a", "oasis.local.")));
}

#[test]
fn host_names_lose_their_last_point() {
    assert_eq!(host_name("oasis.local."), Some("oasis.local".to_string()));
    assert_eq!(host_name("."), Some("".to_string()));
    assert_eq!(host_name("oasis.local"), None);
    assert_eq!(host_name(""), None);
    assert_eq!(host_name("gr\u{fc}n.local.."), Some("gr\u{fc}n.local.".to_string()));
    for name in ["oasis.local.", "oasis", "", "a.."] {
        assert_eq!(host_name(name), name.strip_suffix(".").map(|s| s.to_string()));
    }
}

#[test]
fn one_address_and_no_more() {
    assert_eq!(exactly_one(&vec![]), None);
    assert_eq!(exactly_one(&vec!["10.0.0.7".to_string()]), Some("10.0.0.7".to_string()));
    assert_eq!(exactly_one(&vec!["10.0.0.7".to_string(), "10.0.0.8".to_string()]), None);
    assert_eq!(SERVICE_TYPE, "_oasis_terrarium._tcp.local.");
}
