use std::collections::HashMap;

use axum_spec::messages::{
    ActivateRequest, AddVersionRequest, AddVersionResponse, GetActivatorResponse,
    GetActiveVersionResponse, GetVersionMetadataResponse,
};
use axum_spec::metadata::{AttachedMetadata, Metadata, User};
use axum_spec::registry::{Registry, RegistryError};
use axum_spec::service;

fn attached(name: &str) -> AttachedMetadata {
    AttachedMetadata { name: name.to_string(), description: format!("about {}", name) }
}

fn user(name: &str) -> User {
    User { id: format!("id-{}", name), name: name.to_string() }
}

fn recorded(name: &str, version: u64) -> Metadata {
    Metadata { attached: attached(name), version }
}

#[test]
fn new_store_is_empty() {
    let registry: Registry<String> = Registry::new();
    assert_eq!(registry.len(), 0);
    assert!(registry.get_versions().is_empty());
    assert_eq!(registry.get_active_version(), None);
    assert_eq!(registry.get_activator(), None);
    assert!(!registry.has_version(0));
    assert!(!registry.has_version(1));
}

#[test]
fn add_activate_list_deactivate() {
    let mut registry: Registry<String> = Registry::new();
    assert_eq!(registry.add_version(attached("p1"), "rule A".to_string()), Ok(1));
    assert_eq!(registry.add_version(attached("p2"), "rule B".to_string()), Ok(2));

    assert_eq!(registry.activate(2, user("alice")), Ok(()));
    assert_eq!(registry.get_active_version(), Some(2));
    assert_eq!(registry.get_activator(), Some(&user("alice")));

    let mut expected: HashMap<u64, Metadata> = HashMap::new();
    expected.insert(1, recorded("p1", 1));
    expected.insert(2, recorded("p2", 2));
    assert_eq!(registry.get_versions(), expected);

    registry.deactivate();
    assert_eq!(registry.get_active_version(), None);
    assert_eq!(registry.get_activator(), None);

    assert_eq!(registry.get_version_content(1), Ok(&"rule A".to_string()));
}

#[test]
fn what_was_added_comes_back() {
    let mut registry: Registry<Vec<u8>> = Registry::new();
    let version = registry.add_version(attached("first"), vec![1, 2, 3]).unwrap();
    assert_eq!(registry.get_version_metadata(version), Ok(&recorded("first", version)));
    assert_eq!(registry.get_version_content(version), Ok(&vec![1, 2, 3]));

    let other = registry.add_version(attached("second"), Vec::new()).unwrap();
    registry.activate(other, user("bob")).unwrap();
    registry.deactivate();
    assert_eq!(registry.get_version_metadata(version), Ok(&recorded("first", version)));
    assert_eq!(registry.get_version_content(version), Ok(&vec![1, 2, 3]));
    assert_eq!(registry.get_version_content(other), Ok(&Vec::new()));
}

#[test]
fn identifiers_are_never_given_twice() {
    let mut registry: Registry<u32> = Registry::new();
    let mut seen: Vec<u64> = Vec::new();
    for i in 0..50u32 {
        let version = registry.add_version(attached("gamma"), i).unwrap();
        assert!(!seen.contains(&version));
        seen.push(version);
        if i % 3 == 0 {
            registry.activate(version, user("carol")).unwrap();
        }
        if i % 7 == 0 {
            registry.deactivate();
        }
    }
    assert_eq!(seen, (1..=50u64).collect::<Vec<u64>>());
    assert_eq!(registry.len(), 50);
}

#[test]
fn activation_names_version_and_user() {
    let mut registry: Registry<String> = Registry::new();
    registry.add_version(attached("alpha"), "a".to_string()).unwrap();
    registry.add_version(attached("beta"), "b".to_string()).unwrap();
    assert_eq!(registry.activate(1, user("alice")), Ok(()));
    assert_eq!(registry.get_active_version(), Some(1));
    assert_eq!(registry.get_activator(), Some(&user("alice")));
    assert_eq!(registry.activate(2, user("bob")), Ok(()));
    assert_eq!(registry.get_active_version(), Some(2));
    assert_eq!(registry.get_activator(), Some(&user("bob")));
    assert_eq!(registry.activate(2, user("alice")), Ok(()));
    assert_eq!(registry.get_active_version(), Some(2));
    assert_eq!(registry.get_activator(), Some(&user("alice")));
}

#[test]
fn activating_an_unknown_version_changes_nothing() {
    let mut registry: Registry<String> = Registry::new();
    assert_eq!(registry.activate(1, user("alice")), Err(RegistryError::NotFound(1)));
    assert_eq!(registry.get_active_version(), None);
    assert_eq!(registry.get_activator(), None);

    registry.add_version(attached("alpha"), "a".to_string()).unwrap();
    registry.activate(1, user("alice")).unwrap();
    assert_eq!(registry.activate(2, user("bob")), Err(RegistryError::NotFound(2)));
    assert_eq!(registry.activate(0, user("bob")), Err(RegistryError::NotFound(0)));
    assert_eq!(registry.activate(u64::MAX, user("bob")), Err(RegistryError::NotFound(u64::MAX)));
    assert_eq!(registry.get_active_version(), Some(1));
    assert_eq!(registry.get_activator(), Some(&user("alice")));
}

#[test]
fn deactivating_twice_is_no_error() {
    let mut registry: Registry<String> = Registry::new();
    registry.deactivate();
    assert_eq!(registry.get_active_version(), None);
    registry.add_version(attached("alpha"), "a".to_string()).unwrap();
    registry.activate(1, user("alice")).unwrap();
    registry.deactivate();
    registry.deactivate();
    assert_eq!(registry.get_active_version(), None);
    assert_eq!(registry.get_activator(), None);
    assert_eq!(registry.len(), 1);
    assert_eq!(registry.get_version_content(1), Ok(&"a".to_string()));
}

#[test]
fn unknown_versions_are_not_found() {
    let mut registry: Registry<String> = Registry::new();
    assert_eq!(registry.get_version_metadata(1), Err(RegistryError::NotFound(1)));
    assert_eq!(registry.get_version_content(1), Err(RegistryError::NotFound(1)));
    registry.add_version(attached("alpha"), "a".to_string()).unwrap();
    assert_eq!(registry.get_version_metadata(0), Err(RegistryError::NotFound(0)));
    assert_eq!(registry.get_version_content(0), Err(RegistryError::NotFound(0)));
    assert_eq!(registry.get_version_metadata(2), Err(RegistryError::NotFound(2)));
    assert_eq!(registry.get_version_content(2), Err(RegistryError::NotFound(2)));
    assert!(registry.has_version(1));
    assert!(!registry.has_version(2));
}

#[test]
fn requests_are_answered_from_the_store() {
    let mut registry: Registry<String> = Registry::new();
    let request = AddVersionRequest { metadata: attached("alpha"), content: "rule A".to_string() };
    assert_eq!(service::add_version(&mut registry, request), Ok(AddVersionResponse { version: 1 }));
    let request = AddVersionRequest { metadata: attached("beta"), content: "rule B".to_string() };
    assert_eq!(service::add_version(&mut registry, request), Ok(AddVersionResponse { version: 2 }));

    assert_eq!(
        service::activate(&mut registry, ActivateRequest { version: 3 }, user("alice")),
        Err(RegistryError::NotFound(3))
    );
    assert_eq!(
        service::get_active_version(&registry),
        GetActiveVersionResponse { version: None }
    );
    assert_eq!(service::get_activator(&registry), GetActivatorResponse { user: None });

    assert_eq!(
        service::activate(&mut registry, ActivateRequest { version: 2 }, user("alice")),
        Ok(())
    );
    assert_eq!(
        service::get_active_version(&registry),
        GetActiveVersionResponse { version: Some(2) }
    );
    assert_eq!(
        service::get_activator(&registry),
        GetActivatorResponse { user: Some(user("alice")) }
    );

    let listed = service::get_versions(&registry);
    assert_eq!(listed.versions.len(), 2);
    assert_eq!(listed.versions.get(&1), Some(&recorded("alpha", 1)));
    assert_eq!(listed.versions.get(&2), Some(&recorded("beta", 2)));

    assert_eq!(
        service::get_version_metadata(&registry, 1),
        Ok(GetVersionMetadataResponse { metadata: recorded("alpha", 1) })
    );
    assert_eq!(
        service::get_version_metadata(&registry, 9),
        Err(RegistryError::NotFound(9))
    );
    let content = service::get_version_content(&registry, 2).unwrap();
    assert_eq!(content.content, "rule B");
    assert!(matches!(
        service::get_version_content(&registry, 0),
        Err(RegistryError::NotFound(0))
    ));

    service::deactivate(&mut registry);
    assert_eq!(
        service::get_active_version(&registry),
        GetActiveVersionResponse { version: None }
    );
    assert_eq!(service::get_activator(&registry), GetActivatorResponse { user: None });
}

#[test]
fn copies_equal_what_they_copy() {
    let someone = user("alice");
    assert_eq!(someone.clone(), someone);
    let meta = recorded("alpha", 4);
    assert_eq!(meta.clone(), meta);
    assert_eq!(meta.attached.clone(), attached("alpha"));
}

#[test]
fn copies_of_bodies_equal_what_they_copy() {
    let request = AddVersionRequest { metadata: attached("alpha"), content: vec![1u8, 2, 3] };
    assert_eq!(request.clone(), request);
    let mut registry: Registry<String> = Registry::new();
    registry.add_version(attached("alpha"), "a".to_string()).unwrap();
    registry.activate(1, user("alice")).unwrap();
    let listed = service::get_versions(&registry);
    assert_eq!(listed.clone(), listed);
    let activator = service::get_activator(&registry);
    assert_eq!(activator.clone(), activator);
    assert_eq!(GetActivatorResponse { user: None }.clone(), GetActivatorResponse { user: None });
    let metadata = service::get_version_metadata(&registry, 1).unwrap();
    assert_eq!(metadata.clone(), metadata);
    let content = service::get_version_content(&registry, 1).unwrap();
    assert_eq!(content.clone(), content);
}
