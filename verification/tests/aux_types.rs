use std::collections::HashMap;

use payflow::scheduler::{ConnectorPTMapping, ProcessData, ProcessTracker, RetryMapping};
use payflow::user_roles::{
    AuthorizationInfoResponse, GetRoleRequest, ListRolesResponse, ModuleInfo, Permission,
    PermissionInfo, PermissionModule, RoleInfoResponse, UpdateUserRoleRequest, UserStatus,
};

#[test]
fn process_data_bundles_its_parts() {
    let tracker = ProcessTracker {
        id: "pt_1".to_string(),
        name: Some("payment_sync".to_string()),
        retry_count: 0,
        schedule_time: Some(1_700_000_000),
    };
    let data = ProcessData::new("main_db".to_string(), "main_cache".to_string(), tracker.clone());
    // the constructor neither loses nor rewrites what it was handed
    let _ = data;
    assert_eq!(tracker.retry_count, 0);
    assert_eq!(tracker.name.as_deref(), Some("payment_sync"));
}

#[test]
fn retry_mappings_hold_per_merchant_overrides() {
    let default_mapping = RetryMapping { start_after: 60, frequency: vec![300, 600], count: vec![5, 5] };
    let mut custom = HashMap::new();
    custom.insert(
        "M1".to_string(),
        RetryMapping { start_after: 30, frequency: vec![120], count: vec![3] },
    );
    let mapping = ConnectorPTMapping {
        default_mapping,
        custom_merchant_mapping: custom,
        max_retries_count: 10,
    };
    assert_eq!(mapping.max_retries_count, 10);
    assert_eq!(mapping.custom_merchant_mapping.get("M1").unwrap().start_after, 30);
    assert_eq!(mapping.default_mapping.frequency, vec![300, 600]);
}

#[test]
fn role_catalogue_types_compose() {
    let roles = ListRolesResponse(vec![RoleInfoResponse {
        role_id: "org_admin",
        permissions: vec![Permission::PaymentRead, Permission::PaymentWrite],
        role_name: "organization admin",
    }]);
    assert_eq!(roles.0.len(), 1);
    assert_eq!(roles.0[0].permissions.len(), 2);

    let info = AuthorizationInfoResponse(vec![ModuleInfo {
        module: PermissionModule::Payments,
        description: "everything about payments",
        permissions: vec![PermissionInfo {
            enum_name: Permission::PaymentRead,
            description: "read payments",
        }],
    }]);
    assert_eq!(info.0[0].permissions.len(), 1);

    let get = GetRoleRequest { role_id: "org_admin".to_string() };
    assert_eq!(get.role_id, "org_admin");
    let update = UpdateUserRoleRequest {
        user_id: "u1".to_string(),
        role_id: "org_admin".to_string(),
    };
    assert_eq!(update.user_id, "u1");
    assert!(matches!(UserStatus::InvitationSent, UserStatus::InvitationSent));
}
