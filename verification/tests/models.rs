use lsctl::models::{
    fly_database_postgres_cluster_size_default, fly_database_postgres_volume_size_default,
    fly_scaling_count_default, fly_scaling_memory_default, FlyAutoscaling,
    FlyAutoscalingBalanceMethod, FlyDatabasePostgres, FlyScaling, FlyVmSize, StringMap,
};

#[test]
fn balance_method_defaults_to_balanced() {
    assert_eq!(FlyAutoscalingBalanceMethod::default(), FlyAutoscalingBalanceMethod::Balanced);
}

#[test]
fn only_the_static_method_is_static() {
    assert!(FlyAutoscalingBalanceMethod::Static.is_static());
    assert!(!FlyAutoscalingBalanceMethod::Balanced.is_static());
    assert!(!FlyAutoscalingBalanceMethod::Standard.is_static());
}

#[test]
fn balance_methods_have_their_names() {
    assert_eq!(FlyAutoscalingBalanceMethod::Balanced.to_string(), "balanced");
    assert_eq!(FlyAutoscalingBalanceMethod::Standard.to_string(), "standard");
    assert_eq!(FlyAutoscalingBalanceMethod::Static.to_string(), "static");
}

#[test]
fn vm_size_defaults_to_the_smallest() {
    assert_eq!(FlyVmSize::default(), FlyVmSize::SharedCpu1x);
}

#[test]
fn vm_sizes_have_their_names() {
    assert_eq!(FlyVmSize::SharedCpu1x.to_string(), "shared-cpu-1x");
    assert_eq!(FlyVmSize::DedicatedCpu1x.to_string(), "dedicated-cpu-1x");
    assert_eq!(FlyVmSize::DedicatedCpu2x.to_string(), "dedicated-cpu-2x");
    assert_eq!(FlyVmSize::DedicatedCpu4x.to_string(), "dedicated-cpu-4x");
    assert_eq!(FlyVmSize::DedicatedCpu8x.to_string(), "dedicated-cpu-8x");
}

#[test]
fn scaling_defaults() {
    assert_eq!(fly_scaling_count_default(), 1);
    assert_eq!(fly_scaling_memory_default(), 256);
    assert_eq!(fly_database_postgres_cluster_size_default(), 1);
    assert_eq!(fly_database_postgres_volume_size_default(), 0);
    assert_eq!(
        FlyScaling::default(),
        FlyScaling {
            memory: 256,
            vm_size: FlyVmSize::SharedCpu1x,
            min_count: 1,
            max_count: 1,
            balance_method: FlyAutoscalingBalanceMethod::Balanced,
        }
    );
    let bounds = FlyAutoscaling {
        min_count: 1,
        max_count: 3,
        balance_method: FlyAutoscalingBalanceMethod::Standard,
    };
    assert_eq!(bounds.max_count, 3);
    let postgres =
        FlyDatabasePostgres { cluster_size: 1, vm_size: FlyVmSize::default(), volume_size: 0 };
    assert_eq!(postgres.cluster_size, fly_database_postgres_cluster_size_default());
}

#[test]
fn string_map_keeps_the_last_value_of_a_key() {
    let mut map = StringMap::new();
    assert_eq!(map.get("a"), None);
    map.insert("a".to_string(), "1".to_string());
    map.insert("b".to_string(), "2".to_string());
    map.insert("a".to_string(), "3".to_string());
    assert_eq!(map.get("a"), Some(&"3".to_string()));
    assert_eq!(map.get("b"), Some(&"2".to_string()));
    assert_eq!(map.entries.len(), 2);
    let shadowed = StringMap {
        entries: vec![("k".to_string(), "old".to_string()), ("k".to_string(), "new".to_string())],
    };
    assert_eq!(shadowed.get("k"), Some(&"new".to_string()));
}
