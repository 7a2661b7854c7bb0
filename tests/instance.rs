use launchcore::instance::{validate_instance_id, Instance, InstanceIndex, InstanceManager};

#[test]
fn instance_ids_are_validated() {
    assert!(validate_instance_id("abc-123").is_ok());
    assert_eq!(validate_instance_id(""), Err("Instance ID cannot be empty".to_string()));
    assert_eq!(
        validate_instance_id("../etc"),
        Err("Instance ID contains invalid characters".to_string())
    );
    assert!(validate_instance_id("a/b").is_err());
    assert!(validate_instance_id("a.b").is_err());
    assert!(validate_instance_id("é-1").is_ok());
}

#[test]
fn manager_paths() {
    let m = InstanceManager::new("/data");
    assert_eq!(m.instances_dir(), "/data/instances");
    assert_eq!(m.index_path(), "/data/instances.json");
    assert_eq!(m.instance_dir("abc").unwrap(), "/data/instances/abc");
    assert!(m.instance_dir("..").is_err());
}

#[test]
fn index_registration_and_deletion() {
    let m = InstanceManager::new("/data");
    let mut index = InstanceIndex::new();
    let a = Instance::new("a".to_string(), "A".to_string(), "1.20.4".to_string(), 10);
    let b = Instance::new("b".to_string(), "B".to_string(), "1.19".to_string(), 11);
    m.register_instance(&mut index, &a);
    m.register_instance(&mut index, &b);
    assert_eq!(index.instances.len(), 2);
    assert_eq!(m.get_active_instance_id(&index).as_deref(), Some("a"));
    m.delete_instance(&mut index, "a");
    assert_eq!(index.instances.len(), 1);
    assert_eq!(index.active_instance_id.as_deref(), Some("b"));
}

#[test]
fn update_and_activate() {
    let m = InstanceManager::new("/data");
    let mut index = InstanceIndex::new();
    let mut a = Instance::new("a".to_string(), "A".to_string(), "1.20.4".to_string(), 10);
    m.register_instance(&mut index, &a);
    a.name = "Renamed".to_string();
    assert!(m.update_instance(&mut index, &a).is_ok());
    assert_eq!(index.instances[0].name, "Renamed");
    let ghost = Instance::new("zz".to_string(), "Z".to_string(), "1".to_string(), 0);
    assert_eq!(m.update_instance(&mut index, &ghost), Err("Instance zz not found".to_string()));
    assert_eq!(m.set_active_instance(&mut index, Some("q".to_string())), Err("Instance q not found".to_string()));
    assert!(m.set_active_instance(&mut index, None).is_ok());
    assert!(index.active_instance_id.is_none());
}

#[test]
fn duplicate_keeps_settings() {
    let m = InstanceManager::new("/data");
    let mut a = Instance::new("a".to_string(), "A".to_string(), "1.20.4".to_string(), 10);
    a.max_memory = Some(4096);
    a.java_path = Some("/jdk/bin/java".to_string());
    m.update_last_played(&mut a, 50);
    let c = m.duplicate_instance(&a, "c".to_string(), "Copy".to_string(), 60);
    assert_eq!(c.version_id, "1.20.4");
    assert_eq!(c.max_memory, Some(4096));
    assert_eq!(c.java_path.as_deref(), Some("/jdk/bin/java"));
    assert_eq!(c.last_played, None);
    assert_eq!(c.created_at, 60);
    assert_eq!(a.last_played, Some(50));
}
