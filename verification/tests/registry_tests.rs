use tanoshi::entities::Source;
use tanoshi::errors::SourceError;
use tanoshi::registry::{Handle, SourceBus};

fn source(id: i64, name: &str, version: &str) -> Source {
    Source {
        id,
        name: name.to_string(),
        url: format!("https://repo.example/{name}"),
        version: version.to_string(),
        rustc_version: "X".to_string(),
        lib_version: "Y".to_string(),
        icon: format!("{name}.png"),
        has_update: false,
    }
}

#[test]
fn list_is_ascending_whatever_the_registration_order() {
    let mut bus = SourceBus::new();
    bus.register(source(3, "c", "1.0.0"), Handle { token: 3 }).unwrap();
    bus.register(source(1, "a", "1.0.0"), Handle { token: 1 }).unwrap();
    bus.register(source(2, "b", "1.0.0"), Handle { token: 2 }).unwrap();

    let listed = bus.list();
    let ids: Vec<i64> = listed.iter().map(|s| s.id).collect();
    assert_eq!(ids, vec![1, 2, 3]);
}

#[test]
fn list_is_idempotent_absent_mutation() {
    let mut bus = SourceBus::new();
    bus.register(source(2, "b", "1.0.0"), Handle { token: 2 }).unwrap();
    bus.register(source(1, "a", "1.0.0"), Handle { token: 1 }).unwrap();

    let first = bus.list();
    let second = bus.list();
    assert_eq!(first.len(), second.len());
    for (a, b) in first.iter().zip(second.iter()) {
        assert_eq!(a.id, b.id);
        assert_eq!(a.name, b.name);
        assert_eq!(a.url, b.url);
        assert_eq!(a.version, b.version);
        assert_eq!(a.rustc_version, b.rustc_version);
        assert_eq!(a.lib_version, b.lib_version);
        assert_eq!(a.icon, b.icon);
        assert_eq!(a.has_update, b.has_update);
    }
}

#[test]
fn register_never_overwrites_silently() {
    let mut bus = SourceBus::new();
    bus.register(source(1, "a", "1.0.0"), Handle { token: 1 }).unwrap();
    let err = bus.register(source(1, "other", "9.9.9"), Handle { token: 9 }).unwrap_err();
    assert_eq!(err, SourceError::AlreadyInstalled);

    let info = bus.get_source_info(1).unwrap();
    assert_eq!(info.name, "a");
    assert_eq!(info.version, "1.0.0");
    assert_eq!(bus.resolve(1).unwrap().token, 1);
    assert_eq!(bus.list().len(), 1);
}

#[test]
fn unregister_releases_the_entry() {
    let mut bus = SourceBus::new();
    bus.register(source(1, "a", "1.0.0"), Handle { token: 5 }).unwrap();

    let handle = bus.unregister(1).unwrap();
    assert_eq!(handle.token, 5);
    assert!(!bus.contains(1));
    assert_eq!(bus.unregister(1).unwrap_err(), SourceError::NotFound);
    assert_eq!(bus.get_source_info(1).unwrap_err(), SourceError::NotFound);
    assert_eq!(bus.resolve(1).unwrap_err(), SourceError::NotFound);
}

#[test]
fn lookups_see_exactly_what_is_registered() {
    let mut bus = SourceBus::new();
    assert!(!bus.contains(1));
    bus.register(source(1, "a", "1.2.3"), Handle { token: 1 }).unwrap();
    bus.register(source(7, "g", "0.1.0"), Handle { token: 7 }).unwrap();

    assert!(bus.contains(1));
    assert!(bus.contains(7));
    assert!(!bus.contains(4));
    assert_eq!(bus.get_source_info(7).unwrap().version, "0.1.0");
    assert_eq!(bus.resolve(7).unwrap().token, 7);
}
