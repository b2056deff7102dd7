use atlas_os::registry::validate_domain;
use atlas_os::{entity_type_from_name, has_registry_suffix, AtlasRegistry, EntityType, RegistryError};

fn invalid(msg: &str) -> Result<(), RegistryError> {
    Err(RegistryError::InvalidDomainName(msg.to_string()))
}

#[test]
fn test_valid_registration() {
    let mut registry = AtlasRegistry::new();
    let domain = "atlas-corp.usdc";
    let res = registry.register(domain, "owner1", "addr1", EntityType::Corporation);
    assert!(res.is_ok());
    assert_eq!(registry.resolve(domain), Some("addr1".to_string()));
}

#[test]
fn test_invalid_names() {
    let mut registry = AtlasRegistry::new();

    // No .usdc suffix
    assert!(registry.register("invalid", "o", "a", EntityType::Individual).is_err());
    // Too short
    assert!(registry.register("ab.usdc", "o", "a", EntityType::Individual).is_err());
    // Uppercase
    assert!(registry.register("Atlas.usdc", "o", "a", EntityType::Individual).is_err());
    // Starts with hyphen
    assert!(registry.register("-atlas.usdc", "o", "a", EntityType::Individual).is_err());
}

#[test]
fn test_duplicate_registration() {
    let mut registry = AtlasRegistry::new();
    registry.register("atlas.usdc", "o1", "a1", EntityType::Individual).unwrap();
    let res = registry.register("atlas.usdc", "o2", "a2", EntityType::Individual);
    assert_eq!(res, Err(RegistryError::DomainAlreadyExists("atlas.usdc".to_string())));
}

#[test]
fn test_update_target() {
    let mut registry = AtlasRegistry::new();
    let domain = "atlas.usdc";
    registry.register(domain, "owner1", "addr1", EntityType::Individual).unwrap();

    // Unauthorized
    assert!(registry.update_target(domain, "hacker", "addr2").is_err());

    // Success
    registry.update_target(domain, "owner1", "addr2").unwrap();
    assert_eq!(registry.resolve(domain), Some("addr2".to_string()));
}

#[test]
fn test_transfer() {
    let mut registry = AtlasRegistry::new();
    let domain = "atlas.usdc";
    registry.register(domain, "owner1", "addr1", EntityType::Individual).unwrap();

    // Transfer
    registry.transfer(domain, "owner1", "owner2").unwrap();

    // Old owner cannot update
    assert!(registry.update_target(domain, "owner1", "addr2").is_err());

    // New owner can update
    registry.update_target(domain, "owner2", "addr2").unwrap();
    assert_eq!(registry.resolve(domain), Some("addr2".to_string()));
}

#[test]
fn each_naming_rule_has_its_message() {
    assert_eq!(validate_domain("invalid"), invalid("Must end with .usdc"));
    assert_eq!(validate_domain(".usdc"), invalid("Length must be between 3 and 63 characters"));
    assert_eq!(validate_domain("ab.usdc"), invalid("Length must be between 3 and 63 characters"));
    assert_eq!(validate_domain("-atlas.usdc"), invalid("Cannot start or end with a hyphen"));
    assert_eq!(validate_domain("atlas-.usdc"), invalid("Cannot start or end with a hyphen"));
    assert_eq!(
        validate_domain("Atlas.usdc"),
        invalid("Must contain only lowercase alphanumeric characters and hyphens")
    );
    assert_eq!(
        validate_domain("at_las.usdc"),
        invalid("Must contain only lowercase alphanumeric characters and hyphens")
    );
    assert_eq!(validate_domain("abc.usdc"), Ok(()));
    assert_eq!(validate_domain("a-9.usdc"), Ok(()));
    assert_eq!(validate_domain("atlas.USDC"), invalid("Must end with .usdc"));
}

#[test]
fn label_length_is_counted_in_bytes() {
    let l63 = "a".repeat(63) + ".usdc";
    let l64 = "a".repeat(64) + ".usdc";
    assert_eq!(validate_domain(&l63), Ok(()));
    assert_eq!(validate_domain(&l64), invalid("Length must be between 3 and 63 characters"));
    // Two characters, four bytes: long enough, but not lower-case ASCII.
    assert_eq!(
        validate_domain("\u{e9}\u{e9}.usdc"),
        invalid("Must contain only lowercase alphanumeric characters and hyphens")
    );
    // One character of three bytes.
    assert_eq!(
        validate_domain("\u{20ac}.usdc"),
        invalid("Must contain only lowercase alphanumeric characters and hyphens")
    );
    // Thirty-two characters but sixty-four bytes.
    let wide = "\u{e9}".repeat(32) + ".usdc";
    assert_eq!(validate_domain(&wide), invalid("Length must be between 3 and 63 characters"));
}

#[test]
fn refused_registration_changes_nothing() {
    let mut registry = AtlasRegistry::new();
    assert_eq!(
        registry.register("no", "o", "a", EntityType::Vessel),
        invalid("Must end with .usdc")
    );
    assert_eq!(registry.resolve("no"), None);
    registry.register("atlas.usdc", "o1", "a1", EntityType::Vessel).unwrap();
    assert!(registry.register("atlas.usdc", "o2", "a2", EntityType::Vessel).is_err());
    assert_eq!(registry.resolve("atlas.usdc"), Some("a1".to_string()));
    assert!(registry.update_target("atlas.usdc", "o2", "a3").is_err());
    assert_eq!(registry.resolve("atlas.usdc"), Some("a1".to_string()));
}

#[test]
fn unknown_domain_is_not_found() {
    let mut registry = AtlasRegistry::new();
    assert_eq!(registry.resolve("atlas.usdc"), None);
    assert_eq!(
        registry.update_target("atlas.usdc", "o", "a"),
        Err(RegistryError::DomainNotFound("atlas.usdc".to_string()))
    );
    assert_eq!(
        registry.transfer("atlas.usdc", "o", "p"),
        Err(RegistryError::DomainNotFound("atlas.usdc".to_string()))
    );
}

#[test]
fn only_the_owner_may_change_a_domain() {
    let mut registry = AtlasRegistry::new();
    registry.register("atlas.usdc", "owner1", "addr1", EntityType::Government).unwrap();
    assert_eq!(
        registry.update_target("atlas.usdc", "hacker", "x"),
        Err(RegistryError::Unauthorized("Caller is not the owner".to_string()))
    );
    assert_eq!(
        registry.transfer("atlas.usdc", "hacker", "hacker"),
        Err(RegistryError::Unauthorized("Caller is not the owner".to_string()))
    );
    registry.transfer("atlas.usdc", "owner1", "owner2").unwrap();
    assert_eq!(registry.resolve("atlas.usdc"), Some("addr1".to_string()));
    assert!(registry.transfer("atlas.usdc", "owner1", "owner1").is_err());
}

#[test]
fn requests_touch_only_their_domain() {
    let mut registry = AtlasRegistry::new();
    registry.register("first.usdc", "o", "a1", EntityType::Individual).unwrap();
    registry.register("second.usdc", "o", "a2", EntityType::Individual).unwrap();
    registry.update_target("first.usdc", "o", "b1").unwrap();
    assert_eq!(registry.resolve("first.usdc"), Some("b1".to_string()));
    assert_eq!(registry.resolve("second.usdc"), Some("a2".to_string()));
}

#[test]
fn entity_names_and_suffix() {
    assert_eq!(entity_type_from_name("government"), EntityType::Government);
    assert_eq!(entity_type_from_name("corporation"), EntityType::Corporation);
    assert_eq!(entity_type_from_name("vessel"), EntityType::Vessel);
    assert_eq!(entity_type_from_name("individual"), EntityType::Individual);
    assert_eq!(entity_type_from_name("anything"), EntityType::Individual);
    assert!(has_registry_suffix("atlas.usdc"));
    assert!(has_registry_suffix(".usdc"));
    assert!(!has_registry_suffix("atlas.usd"));
    assert!(!has_registry_suffix("usdc"));
}
