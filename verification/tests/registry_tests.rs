use sd_proxy::admin::{admin_list, admin_register, admin_unregister};
use sd_proxy::error::ProxyError;
use sd_proxy::registry::{Registry, ServiceClass};

fn addresses(reg: &Registry) -> Vec<String> {
    reg.list(ServiceClass::Image)
}

#[test]
fn select_on_empty_class_fails_with_not_found() {
    let mut reg = Registry::new();
    for _ in 0..3 {
        let r = reg.select(ServiceClass::Image);
        match r {
            Err(ProxyError::NotFound(_)) => (),
            _ => panic!("selection on an empty class must fail with not-found"),
        }
        assert_eq!(addresses(&reg).len(), 0);
    }
}

#[test]
fn select_returns_least_loaded_and_breaks_ties_earliest() {
    let mut reg = Registry::new();
    reg.register(ServiceClass::Image, "http://a".to_string());
    reg.register(ServiceClass::Image, "http://b".to_string());
    reg.register(ServiceClass::Image, "http://c".to_string());
    // all loads are 0: ties go to the earliest-added
    assert_eq!(reg.select(ServiceClass::Image).unwrap(), "http://a");
    // a now has load 1; the tie between b and c goes to b
    assert_eq!(reg.select(ServiceClass::Image).unwrap(), "http://b");
    assert_eq!(reg.select(ServiceClass::Image).unwrap(), "http://c");
    // back to a three-way tie at load 1
    assert_eq!(reg.select(ServiceClass::Image).unwrap(), "http://a");
}

#[test]
fn select_prefers_strictly_smaller_load() {
    let mut reg = Registry::new();
    reg.register(ServiceClass::Image, "http://a".to_string());
    assert_eq!(reg.select(ServiceClass::Image).unwrap(), "http://a");
    assert_eq!(reg.select(ServiceClass::Image).unwrap(), "http://a");
    reg.register(ServiceClass::Image, "http://b".to_string());
    // b was just added with load 0 against a's 2
    assert_eq!(reg.select(ServiceClass::Image).unwrap(), "http://b");
}

#[test]
fn register_appends_at_the_end_preserving_order() {
    let mut reg = Registry::new();
    reg.register(ServiceClass::Image, "http://a".to_string());
    reg.register(ServiceClass::Image, "http://b".to_string());
    assert_eq!(addresses(&reg), vec!["http://a".to_string(), "http://b".to_string()]);
    reg.register(ServiceClass::Image, "http://c".to_string());
    assert_eq!(
        addresses(&reg),
        vec!["http://a".to_string(), "http://b".to_string(), "http://c".to_string()]
    );
}

#[test]
fn unregister_removes_every_occurrence() {
    let mut reg = Registry::new();
    reg.register(ServiceClass::Image, "http://a".to_string());
    reg.register(ServiceClass::Image, "http://b".to_string());
    reg.register(ServiceClass::Image, "http://a".to_string());
    reg.register(ServiceClass::Image, "http://a".to_string());
    let r = reg.unregister(ServiceClass::Image, &"http://a".to_string());
    assert!(r.is_ok());
    assert_eq!(addresses(&reg), vec!["http://b".to_string()]);
}

#[test]
fn unregister_of_absent_address_fails_and_changes_nothing() {
    let mut reg = Registry::new();
    reg.register(ServiceClass::Image, "http://a".to_string());
    let r = reg.unregister(ServiceClass::Image, &"http://missing".to_string());
    match r {
        Err(ProxyError::NotFound(_)) => (),
        _ => panic!("unregistering an absent address must fail with not-found"),
    }
    assert_eq!(addresses(&reg), vec!["http://a".to_string()]);
}

#[test]
fn admin_register_echoes_the_address() {
    let mut reg = Registry::new();
    let body = admin_register(&mut reg, "image", &"http://localhost:1234".to_string()).unwrap();
    assert_eq!(
        String::from_utf8(body).unwrap(),
        "{\"message\":\"URL registered successfully\",\"url\":\"http://localhost:1234\"}"
    );
    assert_eq!(addresses(&reg), vec!["http://localhost:1234".to_string()]);
}

#[test]
fn admin_register_rejects_unknown_class() {
    let mut reg = Registry::new();
    let r = admin_register(&mut reg, "audio", &"http://a".to_string());
    match r {
        Err(e @ ProxyError::Validation(_)) => assert_eq!(e.status(), 400),
        _ => panic!("unknown class must be rejected"),
    }
    assert_eq!(addresses(&reg).len(), 0);
}

#[test]
fn admin_register_rejects_invalid_url() {
    let mut reg = Registry::new();
    let r = admin_register(&mut reg, "image", &"http://exa mple".to_string());
    match r {
        Err(e @ ProxyError::Validation(_)) => assert_eq!(e.status(), 400),
        _ => panic!("an unparsable URL must be rejected"),
    }
    assert_eq!(addresses(&reg).len(), 0);
}

#[test]
fn admin_unregister_reports_not_found_distinctly() {
    let mut reg = Registry::new();
    reg.register(ServiceClass::Image, "http://a".to_string());
    let r = admin_unregister(&mut reg, "image", &"http://b".to_string());
    match r {
        Err(e @ ProxyError::NotFound(_)) => assert_eq!(e.status(), 404),
        _ => panic!("unregistering an absent address must report not-found"),
    }
    let ok = admin_unregister(&mut reg, "image", &"http://a".to_string()).unwrap();
    assert_eq!(
        String::from_utf8(ok).unwrap(),
        "{\"message\":\"URL unregistered successfully\",\"url\":\"http://a\"}"
    );
}

#[test]
fn admin_list_serializes_the_class_listing() {
    let mut reg = Registry::new();
    assert_eq!(String::from_utf8(admin_list(&reg)).unwrap(), "{\"image\":[]}");
    reg.register(ServiceClass::Image, "http://a".to_string());
    reg.register(ServiceClass::Image, "http://b".to_string());
    assert_eq!(
        String::from_utf8(admin_list(&reg)).unwrap(),
        "{\"image\":[\"http://a\",\"http://b\"]}"
    );
}

#[test]
fn not_found_messages_distinguish_selection_from_unregistration() {
    let mut reg = Registry::new();
    let selection = match reg.select(ServiceClass::Image) {
        Err(e @ ProxyError::NotFound(_)) => e.message(),
        _ => panic!("selection on an empty class must fail with not-found"),
    };
    reg.register(ServiceClass::Image, "http://a".to_string());
    let removal = match reg.unregister(ServiceClass::Image, &"http://b".to_string()) {
        Err(e @ ProxyError::NotFound(_)) => e.message(),
        _ => panic!("unregistering an absent address must fail with not-found"),
    };
    assert_eq!(selection, "not found any downstream server");
    assert_eq!(removal, "not found the downstream server to unregister");
    assert_ne!(selection, removal);
}

#[test]
fn load_counter_is_cumulative_across_selections() {
    // the counter is never decremented, so selection order is a fixed
    // round-robin-like pattern over equal histories
    let mut reg = Registry::new();
    reg.register(ServiceClass::Image, "http://a".to_string());
    reg.register(ServiceClass::Image, "http://b".to_string());
    let mut picks = Vec::new();
    for _ in 0..4 {
        picks.push(reg.select(ServiceClass::Image).unwrap());
    }
    assert_eq!(picks, vec!["http://a", "http://b", "http://a", "http://b"]);
}
