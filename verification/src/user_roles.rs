//! User-role and permission data model of the administrative API.

use vstd::prelude::*;

verus! {

/// One grantable permission.
#[derive(Clone, Copy, Debug, PartialEq, Eq, Structural)]
pub enum Permission {
    PaymentRead,
    PaymentWrite,
    RefundRead,
    RefundWrite,
    ApiKeyRead,
    ApiKeyWrite,
    MerchantAccountRead,
    MerchantAccountWrite,
    MerchantConnectorAccountRead,
    MerchantConnectorAccountWrite,
    ForexRead,
    RoutingRead,
    RoutingWrite,
    DisputeRead,
    DisputeWrite,
    MandateRead,
    MandateWrite,
    CustomerRead,
    CustomerWrite,
    FileRead,
    FileWrite,
    Analytics,
    ThreeDsDecisionManagerWrite,
    ThreeDsDecisionManagerRead,
    SurchargeDecisionManagerWrite,
    SurchargeDecisionManagerRead,
    UsersRead,
    UsersWrite,
    MerchantAccountCreate,
}

/// The module a group of permissions belongs to.
#[derive(Clone, Copy, Debug, PartialEq, Eq, Structural)]
pub enum PermissionModule {
    Payments,
    Refunds,
    MerchantAccount,
    Forex,
    Connectors,
    Routing,
    Analytics,
    Mandates,
    Customer,
    Disputes,
    Files,
    ThreeDsDecisionManager,
    SurchargeDecisionManager,
    AccountCreate,
}

/// One role, with the permissions it grants.
#[derive(Debug)]
pub struct RoleInfoResponse {
    pub role_id: &'static str,
    pub permissions: Vec<Permission>,
    pub role_name: &'static str,
}

/// The roles the platform offers.
#[derive(Debug)]
pub struct ListRolesResponse(pub Vec<RoleInfoResponse>);

/// A request for one role's details.
#[derive(Debug)]
pub struct GetRoleRequest {
    pub role_id: String,
}

/// One permission with its human-readable description.
#[derive(Debug)]
pub struct PermissionInfo {
    pub enum_name: Permission,
    pub description: &'static str,
}

/// One module's permissions with their descriptions.
#[derive(Debug)]
pub struct ModuleInfo {
    pub module: PermissionModule,
    pub description: &'static str,
    pub permissions: Vec<PermissionInfo>,
}

/// The permission catalogue, module by module.
#[derive(Debug)]
pub struct AuthorizationInfoResponse(pub Vec<ModuleInfo>);

/// A request to move a user to another role.
#[derive(Debug)]
pub struct UpdateUserRoleRequest {
    pub user_id: String,
    pub role_id: String,
}

/// Whether a user of a merchant account is active or still invited.
#[derive(Clone, Copy, Debug, PartialEq, Eq, Structural)]
pub enum UserStatus {
    Active,
    InvitationSent,
}

} // verus!
