//! Names of the well-known context tags.
use vstd::prelude::*;
use vstd::string::*;

use super::opt_string_view;

verus! {

/// Names under which each well-known context tag is submitted; `None` leaves
/// the tag out.
#[derive(Debug)]
pub struct ContextTagKeys {
    /// Application version. Information in the application context fields is always about the application that is sending the telemetry.
    pub application_version: Option<String>,
    /// Unique client device id. Computer name in most cases.
    pub device_id: Option<String>,
    /// Device locale using <language>-<REGION> pattern, following RFC 5646. Example 'en-US'.
    pub device_locale: Option<String>,
    /// Model of the device the end user of the application is using. Used for client scenarios. If this field is empty then it is derived from the user agent.
    pub device_model: Option<String>,
    /// Client device OEM name taken from the browser.
    pub device_oem_name: Option<String>,
    /// Operating system name and version of the device the end user of the application is using. If this field is empty then it is derived from the user agent. Example 'Windows 10 Pro 10.0.10586.0'
    pub device_os_version: Option<String>,
    /// The type of the device the end user of the application is using. Used primarily to distinguish JavaScript telemetry from server side telemetry. Examples: 'PC', 'Phone', 'Browser'. 'PC' is the default value.
    pub device_type: Option<String>,
    /// The IP address of the client device. IPv4 and IPv6 are supported.
    pub location_ip: Option<String>,
    /// The country of the client device.
    pub location_country: Option<String>,
    /// The province/state of the client device.
    pub location_province: Option<String>,
    /// The city of the client device.
    pub location_city: Option<String>,
    /// A unique identifier for the operation instance.
    pub operation_id: Option<String>,
    /// The name (group) of the operation.
    pub operation_name: Option<String>,
    /// The unique identifier of the telemetry item's immediate parent.
    pub operation_parent_id: Option<String>,
    /// Name of synthetic source.
    pub operation_synthetic_source: Option<String>,
    /// The correlation vector is a light weight vector clock which can be used to identify and order related events across clients and services.
    pub operation_correlation_vector: Option<String>,
    /// Session ID - the instance of the user's interaction with the app.
    pub session_id: Option<String>,
    /// Boolean value indicating whether the session identified by ai.session.id is first for the user or not.
    pub session_is_first: Option<String>,
    /// In multi-tenant applications this is the account ID or name which the user is acting with.
    pub user_account_id: Option<String>,
    /// Anonymous user id. Represents the end user of the application.
    pub user_id: Option<String>,
    /// Authenticated user id. The opposite of ai.user.id, this represents the user with a friendly name.
    pub user_auth_user_id: Option<String>,
    /// Name of the role the application is a part of. Maps directly to the role name in azure.
    pub cloud_role: Option<String>,
    /// Version of the role the application is a part of.
    pub cloud_role_ver: Option<String>,
    /// Name of the instance where the application is running. Computer name for on-premisis, instance name for Azure.
    pub cloud_role_instance: Option<String>,
    /// Location of the role the application is a part of.
    pub cloud_location: Option<String>,
    /// SDK version.
    pub internal_sdk_version: Option<String>,
    /// Agent version. Used to indicate the version of StatusMonitor installed on the computer if it is used for data collection.
    pub internal_agent_version: Option<String>,
    /// This is the node name used for billing purposes. Use it to override the standard detection of nodes.
    pub internal_node_name: Option<String>,
}

impl ContextTagKeys {
    /// Create a new [ContextTagKeys] instance with default values set by the schema.
    pub fn new() -> (r: Self)
        ensures
            opt_string_view(r.application_version) == Some("ai.application.ver"@),
            opt_string_view(r.device_id) == Some("ai.device.id"@),
            opt_string_view(r.device_locale) == Some("ai.device.locale"@),
            opt_string_view(r.device_model) == Some("ai.device.model"@),
            opt_string_view(r.device_oem_name) == Some("ai.device.oemName"@),
            opt_string_view(r.device_os_version) == Some("ai.device.osVersion"@),
            opt_string_view(r.device_type) == Some("ai.device.type"@),
            opt_string_view(r.location_ip) == Some("ai.location.ip"@),
            opt_string_view(r.location_country) == Some("ai.location.country"@),
            opt_string_view(r.location_province) == Some("ai.location.province"@),
            opt_string_view(r.location_city) == Some("ai.location.city"@),
            opt_string_view(r.operation_id) == Some("ai.operation.id"@),
            opt_string_view(r.operation_name) == Some("ai.operation.name"@),
            opt_string_view(r.operation_parent_id) == Some("ai.operation.parentId"@),
            opt_string_view(r.operation_synthetic_source) == Some("ai.operation.syntheticSource"@),
            opt_string_view(r.operation_correlation_vector) == Some("ai.operation.correlationVector"@),
            opt_string_view(r.session_id) == Some("ai.session.id"@),
            opt_string_view(r.session_is_first) == Some("ai.session.isFirst"@),
            opt_string_view(r.user_account_id) == Some("ai.user.accountId"@),
            opt_string_view(r.user_id) == Some("ai.user.id"@),
            opt_string_view(r.user_auth_user_id) == Some("ai.user.authUserId"@),
            opt_string_view(r.cloud_role) == Some("ai.cloud.role"@),
            opt_string_view(r.cloud_role_ver) == Some("ai.cloud.roleVer"@),
            opt_string_view(r.cloud_role_instance) == Some("ai.cloud.roleInstance"@),
            opt_string_view(r.cloud_location) == Some("ai.cloud.location"@),
            opt_string_view(r.internal_sdk_version) == Some("ai.internal.sdkVersion"@),
            opt_string_view(r.internal_agent_version) == Some("ai.internal.agentVersion"@),
            opt_string_view(r.internal_node_name) == Some("ai.internal.nodeName"@),
    {
        Self {
            application_version: Some(String::from_str("ai.application.ver")),
            device_id: Some(String::from_str("ai.device.id")),
            device_locale: Some(String::from_str("ai.device.locale")),
            device_model: Some(String::from_str("ai.device.model")),
            device_oem_name: Some(String::from_str("ai.device.oemName")),
            device_os_version: Some(String::from_str("ai.device.osVersion")),
            device_type: Some(String::from_str("ai.device.type")),
            location_ip: Some(String::from_str("ai.location.ip")),
            location_country: Some(String::from_str("ai.location.country")),
            location_province: Some(String::from_str("ai.location.province")),
            location_city: Some(String::from_str("ai.location.city")),
            operation_id: Some(String::from_str("ai.operation.id")),
            operation_name: Some(String::from_str("ai.operation.name")),
            operation_parent_id: Some(String::from_str("ai.operation.parentId")),
            operation_synthetic_source: Some(String::from_str("ai.operation.syntheticSource")),
            operation_correlation_vector: Some(String::from_str("ai.operation.correlationVector")),
            session_id: Some(String::from_str("ai.session.id")),
            session_is_first: Some(String::from_str("ai.session.isFirst")),
            user_account_id: Some(String::from_str("ai.user.accountId")),
            user_id: Some(String::from_str("ai.user.id")),
            user_auth_user_id: Some(String::from_str("ai.user.authUserId")),
            cloud_role: Some(String::from_str("ai.cloud.role")),
            cloud_role_ver: Some(String::from_str("ai.cloud.roleVer")),
            cloud_role_instance: Some(String::from_str("ai.cloud.roleInstance")),
            cloud_location: Some(String::from_str("ai.cloud.location")),
            internal_sdk_version: Some(String::from_str("ai.internal.sdkVersion")),
            internal_agent_version: Some(String::from_str("ai.internal.agentVersion")),
            internal_node_name: Some(String::from_str("ai.internal.nodeName")),
        }
    }

    /// Application version. Information in the application context fields is always about the application that is sending the telemetry.
    pub fn with_application_version(&mut self, application_version: Option<String>) -> (r: &mut Self)
        ensures
            *r == (Self { application_version, ..*old(self) }),
            *final(self) == *final(r),
    {
        self.application_version = application_version;
        self
    }

    /// Unique client device id. Computer name in most cases.
    pub fn with_device_id(&mut self, device_id: Option<String>) -> (r: &mut Self)
        ensures
            *r == (Self { device_id, ..*old(self) }),
            *final(self) == *final(r),
    {
        self.device_id = device_id;
        self
    }

    /// Device locale using <language>-<REGION> pattern, following RFC 5646. Example 'en-US'.
    pub fn with_device_locale(&mut self, device_locale: Option<String>) -> (r: &mut Self)
        ensures
            *r == (Self { device_locale, ..*old(self) }),
            *final(self) == *final(r),
    {
        self.device_locale = device_locale;
        self
    }

    /// Model of the device the end user of the application is using. Used for client scenarios. If this field is empty then it is derived from the user agent.
    pub fn with_device_model(&mut self, device_model: Option<String>) -> (r: &mut Self)
        ensures
            *r == (Self { device_model, ..*old(self) }),
            *final(self) == *final(r),
    {
        self.device_model = device_model;
        self
    }

    /// Client device OEM name taken from the browser.
    pub fn with_device_oem_name(&mut self, device_oem_name: Option<String>) -> (r: &mut Self)
        ensures
            *r == (Self { device_oem_name, ..*old(self) }),
            *final(self) == *final(r),
    {
        self.device_oem_name = device_oem_name;
        self
    }

    /// Operating system name and version of the device the end user of the application is using. If this field is empty then it is derived from the user agent. Example 'Windows 10 Pro 10.0.10586.0'
    pub fn with_device_os_version(&mut self, device_os_version: Option<String>) -> (r: &mut Self)
        ensures
            *r == (Self { device_os_version, ..*old(self) }),
            *final(self) == *final(r),
    {
        self.device_os_version = device_os_version;
        self
    }

    /// The type of the device the end user of the application is using. Used primarily to distinguish JavaScript telemetry from server side telemetry. Examples: 'PC', 'Phone', 'Browser'. 'PC' is the default value.
    pub fn with_device_type(&mut self, device_type: Option<String>) -> (r: &mut Self)
        ensures
            *r == (Self { device_type, ..*old(self) }),
            *final(self) == *final(r),
    {
        self.device_type = device_type;
        self
    }

    /// The IP address of the client device. IPv4 and IPv6 are supported.
    pub fn with_location_ip(&mut self, location_ip: Option<String>) -> (r: &mut Self)
        ensures
            *r == (Self { location_ip, ..*old(self) }),
            *final(self) == *final(r),
    {
        self.location_ip = location_ip;
        self
    }

    /// The country of the client device.
    pub fn with_location_country(&mut self, location_country: Option<String>) -> (r: &mut Self)
        ensures
            *r == (Self { location_country, ..*old(self) }),
            *final(self) == *final(r),
    {
        self.location_country = location_country;
        self
    }

    /// The province/state of the client device.
    pub fn with_location_province(&mut self, location_province: Option<String>) -> (r: &mut Self)
        ensures
            *r == (Self { location_province, ..*old(self) }),
            *final(self) == *final(r),
    {
        self.location_province = location_province;
        self
    }

    /// The city of the client device.
    pub fn with_location_city(&mut self, location_city: Option<String>) -> (r: &mut Self)
        ensures
            *r == (Self { location_city, ..*old(self) }),
            *final(self) == *final(r),
    {
        self.location_city = location_city;
        self
    }

    /// A unique identifier for the operation instance.
    pub fn with_operation_id(&mut self, operation_id: Option<String>) -> (r: &mut Self)
        ensures
            *r == (Self { operation_id, ..*old(self) }),
            *final(self) == *final(r),
    {
        self.operation_id = operation_id;
        self
    }

    /// The name (group) of the operation.
    pub fn with_operation_name(&mut self, operation_name: Option<String>) -> (r: &mut Self)
        ensures
            *r == (Self { operation_name, ..*old(self) }),
            *final(self) == *final(r),
    {
        self.operation_name = operation_name;
        self
    }

    /// The unique identifier of the telemetry item's immediate parent.
    pub fn with_operation_parent_id(&mut self, operation_parent_id: Option<String>) -> (r: &mut Self)
        ensures
            *r == (Self { operation_parent_id, ..*old(self) }),
            *final(self) == *final(r),
    {
        self.operation_parent_id = operation_parent_id;
        self
    }

    /// Name of synthetic source.
    pub fn with_operation_synthetic_source(&mut self, operation_synthetic_source: Option<String>) -> (r: &mut Self)
        ensures
            *r == (Self { operation_synthetic_source, ..*old(self) }),
            *final(self) == *final(r),
    {
        self.operation_synthetic_source = operation_synthetic_source;
        self
    }

    /// The correlation vector is a light weight vector clock which can be used to identify and order related events across clients and services.
    pub fn with_operation_correlation_vector(&mut self, operation_correlation_vector: Option<String>) -> (r: &mut Self)
        ensures
            *r == (Self { operation_correlation_vector, ..*old(self) }),
            *final(self) == *final(r),
    {
        self.operation_correlation_vector = operation_correlation_vector;
        self
    }

    /// Session ID - the instance of the user's interaction with the app.
    pub fn with_session_id(&mut self, session_id: Option<String>) -> (r: &mut Self)
        ensures
            *r == (Self { session_id, ..*old(self) }),
            *final(self) == *final(r),
    {
        self.session_id = session_id;
        self
    }

    /// Boolean value indicating whether the session identified by ai.session.id is first for the user or not.
    pub fn with_session_is_first(&mut self, session_is_first: Option<String>) -> (r: &mut Self)
        ensures
            *r == (Self { session_is_first, ..*old(self) }),
            *final(self) == *final(r),
    {
        self.session_is_first = session_is_first;
        self
    }

    /// In multi-tenant applications this is the account ID or name which the user is acting with.
    pub fn with_user_account_id(&mut self, user_account_id: Option<String>) -> (r: &mut Self)
        ensures
            *r == (Self { user_account_id, ..*old(self) }),
            *final(self) == *final(r),
    {
        self.user_account_id = user_account_id;
        self
    }

    /// Anonymous user id. Represents the end user of the application.
    pub fn with_user_id(&mut self, user_id: Option<String>) -> (r: &mut Self)
        ensures
            *r == (Self { user_id, ..*old(self) }),
            *final(self) == *final(r),
    {
        self.user_id = user_id;
        self
    }

    /// Authenticated user id. The opposite of ai.user.id, this represents the user with a friendly name.
    pub fn with_user_auth_user_id(&mut self, user_auth_user_id: Option<String>) -> (r: &mut Self)
        ensures
            *r == (Self { user_auth_user_id, ..*old(self) }),
            *final(self) == *final(r),
    {
        self.user_auth_user_id = user_auth_user_id;
        self
    }

    /// Name of the role the application is a part of. Maps directly to the role name in azure.
    pub fn with_cloud_role(&mut self, cloud_role: Option<String>) -> (r: &mut Self)
        ensures
            *r == (Self { cloud_role, ..*old(self) }),
            *final(self) == *final(r),
    {
        self.cloud_role = cloud_role;
        self
    }

    /// Version of the role the application is a part of.
    pub fn with_cloud_role_ver(&mut self, cloud_role_ver: Option<String>) -> (r: &mut Self)
        ensures
            *r == (Self { cloud_role_ver, ..*old(self) }),
            *final(self) == *final(r),
    {
        self.cloud_role_ver = cloud_role_ver;
        self
    }

    /// Name of the instance where the application is running. Computer name for on-premisis, instance name for Azure.
    pub fn with_cloud_role_instance(&mut self, cloud_role_instance: Option<String>) -> (r: &mut Self)
        ensures
            *r == (Self { cloud_role_instance, ..*old(self) }),
            *final(self) == *final(r),
    {
        self.cloud_role_instance = cloud_role_instance;
        self
    }

    /// Location of the role the application is a part of.
    pub fn with_cloud_location(&mut self, cloud_location: Option<String>) -> (r: &mut Self)
        ensures
            *r == (Self { cloud_location, ..*old(self) }),
            *final(self) == *final(r),
    {
        self.cloud_location = cloud_location;
        self
    }

    /// SDK version.
    pub fn with_internal_sdk_version(&mut self, internal_sdk_version: Option<String>) -> (r: &mut Self)
        ensures
            *r == (Self { internal_sdk_version, ..*old(self) }),
            *final(self) == *final(r),
    {
        self.internal_sdk_version = internal_sdk_version;
        self
    }

    /// Agent version. Used to indicate the version of StatusMonitor installed on the computer if it is used for data collection.
    pub fn with_internal_agent_version(&mut self, internal_agent_version: Option<String>) -> (r: &mut Self)
        ensures
            *r == (Self { internal_agent_version, ..*old(self) }),
            *final(self) == *final(r),
    {
        self.internal_agent_version = internal_agent_version;
        self
    }

    /// This is the node name used for billing purposes. Use it to override the standard detection of nodes.
    pub fn with_internal_node_name(&mut self, internal_node_name: Option<String>) -> (r: &mut Self)
        ensures
            *r == (Self { internal_node_name, ..*old(self) }),
            *final(self) == *final(r),
    {
        self.internal_node_name = internal_node_name;
        self
    }
}

} // verus!
