//! Context tags of a telemetry item, with helpers for the well-known tags.
use vstd::prelude::*;

use super::string_map::{distinct_keys, entries_map, sorted_keys, StringMap};

verus! {

/// The value a map holds for `key`, if any.
pub open spec fn lookup(m: Map<Seq<char>, Seq<char>>, key: Seq<char>) -> Option<Seq<char>> {
    if m.contains_key(key) {
        Some(m[key])
    } else {
        None
    }
}

/// The text an optional borrowed value holds.
pub open spec fn str_view(r: Option<&str>) -> Option<Seq<char>> {
    match r {
        Some(v) => Some(v@),
        None => None,
    }
}

/// Contains all tags for telemetry to submit.
#[derive(Debug)]
pub struct ContextTags(StringMap);

impl View for ContextTags {
    type V = Map<Seq<char>, Seq<char>>;

    closed spec fn view(&self) -> Map<Seq<char>, Seq<char>> {
        self.0@
    }
}

impl Clone for ContextTags {
    /// A copy of the bag.
    fn clone(&self) -> (r: Self)
        ensures
            r@ == self@,
    {
        ContextTags(self.0.clone())
    }
}

impl Default for ContextTags {
    fn default() -> (r: Self)
        ensures
            r@ == Map::<Seq<char>, Seq<char>>::empty(),
    {
        ContextTags(StringMap::new())
    }
}

impl ContextTags {
    /// An empty bag of tags.
    pub fn new() -> (r: Self)
        ensures
            r@ == Map::<Seq<char>, Seq<char>>::empty(),
    {
        ContextTags(StringMap::new())
    }

    /// Combines all tags from two bags. It can override some tags with values
    /// found in the second tags bag.
    pub fn combine(a: ContextTags, b: ContextTags) -> (r: Self)
        ensures
            r@ == a@.union_prefer_right(b@),
    {
        ContextTags(StringMap::combine(a.0, b.0))
    }

    /// Sets the tag `key`, and gives back the value it replaced.
    pub fn insert(&mut self, key: String, value: String) -> (r: Option<String>)
        ensures
            final(self)@ == old(self)@.insert(key@, value@),
            match r {
                Some(v) => old(self)@.contains_key(key@) && old(self)@[key@] == v@,
                None => !old(self)@.contains_key(key@),
            },
    {
        self.0.insert(key, value)
    }

    /// Takes the tag `key` out, and gives back its value.
    pub fn remove(&mut self, key: &str) -> (r: Option<String>)
        ensures
            final(self)@ == old(self)@.remove(key@),
            match r {
                Some(v) => old(self)@.contains_key(key@) && old(self)@[key@] == v@,
                None => !old(self)@.contains_key(key@),
            },
    {
        self.0.remove(key)
    }

    /// The value of the tag `key`, if it is set.
    pub fn get(&self, key: &str) -> (r: Option<&String>)
        ensures
            match r {
                Some(v) => self@.contains_key(key@) && self@[key@] == v@,
                None => !self@.contains_key(key@),
            },
    {
        self.0.get(key)
    }

    /// Whether the tag `key` is set.
    pub fn contains_key(&self, key: &str) -> (r: bool)
        ensures
            r == self@.contains_key(key@),
    {
        self.0.contains_key(key)
    }

    /// Number of tags set.
    pub fn len(&self) -> (r: usize)
        ensures
            r == self@.len(),
    {
        self.0.len()
    }

    /// Whether no tag is set.
    pub fn is_empty(&self) -> (r: bool)
        ensures
            r == (self@.len() == 0),
    {
        self.0.is_empty()
    }

    /// The tags, each key once, in increasing order of the keys.
    pub fn entries(&self) -> (r: &Vec<(String, String)>)
        ensures
            sorted_keys(r@),
            distinct_keys(r@),
            entries_map(r@) == self@,
    {
        self.0.entries()
    }

    /// Returns tag helper type that provides access to context fields grouped under 'application'.
    pub fn application(&self) -> (r: ApplicationTags<'_>)
        ensures
            r.items() == self@,
    {
        ApplicationTags { items: &self.0 }
    }

    /// Returns tag helper type that changes context fields grouped under 'application'.
    pub fn application_mut(&mut self) -> (r: ApplicationTagsMut<'_>)
        ensures
            r.items@ == old(self)@,
            final(self)@ == final(r.items)@,
    {
        ApplicationTagsMut { items: &mut self.0 }
    }

    /// Returns tag helper type that provides access to context fields grouped under 'device'.
    pub fn device(&self) -> (r: DeviceTags<'_>)
        ensures
            r.items() == self@,
    {
        DeviceTags { items: &self.0 }
    }

    /// Returns tag helper type that changes context fields grouped under 'device'.
    pub fn device_mut(&mut self) -> (r: DeviceTagsMut<'_>)
        ensures
            r.items@ == old(self)@,
            final(self)@ == final(r.items)@,
    {
        DeviceTagsMut { items: &mut self.0 }
    }

    /// Returns tag helper type that provides access to context fields grouped under 'location'.
    pub fn location(&self) -> (r: LocationTags<'_>)
        ensures
            r.items() == self@,
    {
        LocationTags { items: &self.0 }
    }

    /// Returns tag helper type that changes context fields grouped under 'location'.
    pub fn location_mut(&mut self) -> (r: LocationTagsMut<'_>)
        ensures
            r.items@ == old(self)@,
            final(self)@ == final(r.items)@,
    {
        LocationTagsMut { items: &mut self.0 }
    }

    /// Returns tag helper type that provides access to context fields grouped under 'operation'.
    pub fn operation(&self) -> (r: OperationTags<'_>)
        ensures
            r.items() == self@,
    {
        OperationTags { items: &self.0 }
    }

    /// Returns tag helper type that changes context fields grouped under 'operation'.
    pub fn operation_mut(&mut self) -> (r: OperationTagsMut<'_>)
        ensures
            r.items@ == old(self)@,
            final(self)@ == final(r.items)@,
    {
        OperationTagsMut { items: &mut self.0 }
    }

    /// Returns tag helper type that provides access to context fields grouped under 'session'.
    pub fn session(&self) -> (r: SessionTags<'_>)
        ensures
            r.items() == self@,
    {
        SessionTags { items: &self.0 }
    }

    /// Returns tag helper type that changes context fields grouped under 'session'.
    pub fn session_mut(&mut self) -> (r: SessionTagsMut<'_>)
        ensures
            r.items@ == old(self)@,
            final(self)@ == final(r.items)@,
    {
        SessionTagsMut { items: &mut self.0 }
    }

    /// Returns tag helper type that provides access to context fields grouped under 'user'.
    pub fn user(&self) -> (r: UserTags<'_>)
        ensures
            r.items() == self@,
    {
        UserTags { items: &self.0 }
    }

    /// Returns tag helper type that changes context fields grouped under 'user'.
    pub fn user_mut(&mut self) -> (r: UserTagsMut<'_>)
        ensures
            r.items@ == old(self)@,
            final(self)@ == final(r.items)@,
    {
        UserTagsMut { items: &mut self.0 }
    }

    /// Returns tag helper type that provides access to context fields grouped under 'cloud'.
    pub fn cloud(&self) -> (r: CloudTags<'_>)
        ensures
            r.items() == self@,
    {
        CloudTags { items: &self.0 }
    }

    /// Returns tag helper type that changes context fields grouped under 'cloud'.
    pub fn cloud_mut(&mut self) -> (r: CloudTagsMut<'_>)
        ensures
            r.items@ == old(self)@,
            final(self)@ == final(r.items)@,
    {
        CloudTagsMut { items: &mut self.0 }
    }

    /// Returns tag helper type that provides access to context fields grouped under 'internal'.
    pub fn internal(&self) -> (r: InternalTags<'_>)
        ensures
            r.items() == self@,
    {
        InternalTags { items: &self.0 }
    }

    /// Returns tag helper type that changes context fields grouped under 'internal'.
    pub fn internal_mut(&mut self) -> (r: InternalTagsMut<'_>)
        ensures
            r.items@ == old(self)@,
            final(self)@ == final(r.items)@,
    {
        InternalTagsMut { items: &mut self.0 }
    }
}

/// Tag helper type that provides access to context fields grouped under 'application'.
pub struct ApplicationTags<'a> {
    items: &'a StringMap,
}

impl<'a> ApplicationTags<'a> {
    /// The tags this helper reads.
    pub closed spec fn items(&self) -> Map<Seq<char>, Seq<char>> {
        self.items@
    }

    /// Application version. Information in the application context fields is always about the application that is sending the telemetry.
    pub fn version(&self) -> (r: Option<&'a str>)
        ensures
            str_view(r) == lookup(self.items(), "ai.application.ver"@),
    {
        let items: &'a StringMap = self.items;
        match items.get("ai.application.ver") {
            Some(v) => Some(v.as_str()),
            None => None,
        }
    }
}

/// Tag helper type that changes context fields grouped under 'application'.
pub struct ApplicationTagsMut<'a> {
    /// The tags this helper changes.
    pub items: &'a mut StringMap,
}

impl<'a> ApplicationTagsMut<'a> {
    /// Sets: Application version. Information in the application context fields is always about the application that is sending the telemetry.
    pub fn set_version(&mut self, value: String)
        ensures
            final(self).items@ == old(self).items@.insert("ai.application.ver"@, value@),
            *final(final(self).items) == *final(old(self).items),
    {
        self.items.insert("ai.application.ver".to_string(), value);
    }
}

/// Tag helper type that provides access to context fields grouped under 'device'.
pub struct DeviceTags<'a> {
    items: &'a StringMap,
}

impl<'a> DeviceTags<'a> {
    /// The tags this helper reads.
    pub closed spec fn items(&self) -> Map<Seq<char>, Seq<char>> {
        self.items@
    }

    /// Unique client device id. Computer name in most cases.
    pub fn id(&self) -> (r: Option<&'a str>)
        ensures
            str_view(r) == lookup(self.items(), "ai.device.id"@),
    {
        let items: &'a StringMap = self.items;
        match items.get("ai.device.id") {
            Some(v) => Some(v.as_str()),
            None => None,
        }
    }

    /// Device locale using <language>-<REGION> pattern, following RFC 5646. Example 'en-US'.
    pub fn locale(&self) -> (r: Option<&'a str>)
        ensures
            str_view(r) == lookup(self.items(), "ai.device.locale"@),
    {
        let items: &'a StringMap = self.items;
        match items.get("ai.device.locale") {
            Some(v) => Some(v.as_str()),
            None => None,
        }
    }

    /// Model of the device the end user of the application is using. Used for client scenarios. If this field is empty then it is derived from the user agent.
    pub fn model(&self) -> (r: Option<&'a str>)
        ensures
            str_view(r) == lookup(self.items(), "ai.device.model"@),
    {
        let items: &'a StringMap = self.items;
        match items.get("ai.device.model") {
            Some(v) => Some(v.as_str()),
            None => None,
        }
    }

    /// Client device OEM name taken from the browser.
    pub fn oem_name(&self) -> (r: Option<&'a str>)
        ensures
            str_view(r) == lookup(self.items(), "ai.device.oemName"@),
    {
        let items: &'a StringMap = self.items;
        match items.get("ai.device.oemName") {
            Some(v) => Some(v.as_str()),
            None => None,
        }
    }

    /// Operating system name and version of the device the end user of the application is using. If this field is empty then it is derived from the user agent. Example 'Windows 10 Pro 10.0.10586.0'
    pub fn os_version(&self) -> (r: Option<&'a str>)
        ensures
            str_view(r) == lookup(self.items(), "ai.device.osVersion"@),
    {
        let items: &'a StringMap = self.items;
        match items.get("ai.device.osVersion") {
            Some(v) => Some(v.as_str()),
            None => None,
        }
    }

    /// The type of the device the end user of the application is using. Used primarily to distinguish JavaScript telemetry from server side telemetry. Examples: 'PC', 'Phone', 'Browser'. 'PC' is the default value.
    pub fn type_(&self) -> (r: Option<&'a str>)
        ensures
            str_view(r) == lookup(self.items(), "ai.device.type"@),
    {
        let items: &'a StringMap = self.items;
        match items.get("ai.device.type") {
            Some(v) => Some(v.as_str()),
            None => None,
        }
    }
}

/// Tag helper type that changes context fields grouped under 'device'.
pub struct DeviceTagsMut<'a> {
    /// The tags this helper changes.
    pub items: &'a mut StringMap,
}

impl<'a> DeviceTagsMut<'a> {
    /// Sets: Unique client device id. Computer name in most cases.
    pub fn set_id(&mut self, value: String)
        ensures
            final(self).items@ == old(self).items@.insert("ai.device.id"@, value@),
            *final(final(self).items) == *final(old(self).items),
    {
        self.items.insert("ai.device.id".to_string(), value);
    }

    /// Sets: Device locale using <language>-<REGION> pattern, following RFC 5646. Example 'en-US'.
    pub fn set_locale(&mut self, value: String)
        ensures
            final(self).items@ == old(self).items@.insert("ai.device.locale"@, value@),
            *final(final(self).items) == *final(old(self).items),
    {
        self.items.insert("ai.device.locale".to_string(), value);
    }

    /// Sets: Model of the device the end user of the application is using. Used for client scenarios. If this field is empty then it is derived from the user agent.
    pub fn set_model(&mut self, value: String)
        ensures
            final(self).items@ == old(self).items@.insert("ai.device.model"@, value@),
            *final(final(self).items) == *final(old(self).items),
    {
        self.items.insert("ai.device.model".to_string(), value);
    }

    /// Sets: Client device OEM name taken from the browser.
    pub fn set_oem_name(&mut self, value: String)
        ensures
            final(self).items@ == old(self).items@.insert("ai.device.oemName"@, value@),
            *final(final(self).items) == *final(old(self).items),
    {
        self.items.insert("ai.device.oemName".to_string(), value);
    }

    /// Sets: Operating system name and version of the device the end user of the application is using. If this field is empty then it is derived from the user agent. Example 'Windows 10 Pro 10.0.10586.0'
    pub fn set_os_version(&mut self, value: String)
        ensures
            final(self).items@ == old(self).items@.insert("ai.device.osVersion"@, value@),
            *final(final(self).items) == *final(old(self).items),
    {
        self.items.insert("ai.device.osVersion".to_string(), value);
    }

    /// Sets: The type of the device the end user of the application is using. Used primarily to distinguish JavaScript telemetry from server side telemetry. Examples: 'PC', 'Phone', 'Browser'. 'PC' is the default value.
    pub fn set_type(&mut self, value: String)
        ensures
            final(self).items@ == old(self).items@.insert("ai.device.type"@, value@),
            *final(final(self).items) == *final(old(self).items),
    {
        self.items.insert("ai.device.type".to_string(), value);
    }
}

/// Tag helper type that provides access to context fields grouped under 'location'.
pub struct LocationTags<'a> {
    items: &'a StringMap,
}

impl<'a> LocationTags<'a> {
    /// The tags this helper reads.
    pub closed spec fn items(&self) -> Map<Seq<char>, Seq<char>> {
        self.items@
    }

    /// The IP address of the client device. IPv4 and IPv6 are supported.
    pub fn ip(&self) -> (r: Option<&'a str>)
        ensures
            str_view(r) == lookup(self.items(), "ai.location.ip"@),
    {
        let items: &'a StringMap = self.items;
        match items.get("ai.location.ip") {
            Some(v) => Some(v.as_str()),
            None => None,
        }
    }

    /// The country of the client device.
    pub fn country(&self) -> (r: Option<&'a str>)
        ensures
            str_view(r) == lookup(self.items(), "ai.location.country"@),
    {
        let items: &'a StringMap = self.items;
        match items.get("ai.location.country") {
            Some(v) => Some(v.as_str()),
            None => None,
        }
    }

    /// The province/state of the client device.
    pub fn province(&self) -> (r: Option<&'a str>)
        ensures
            str_view(r) == lookup(self.items(), "ai.location.province"@),
    {
        let items: &'a StringMap = self.items;
        match items.get("ai.location.province") {
            Some(v) => Some(v.as_str()),
            None => None,
        }
    }

    /// The city of the client device.
    pub fn city(&self) -> (r: Option<&'a str>)
        ensures
            str_view(r) == lookup(self.items(), "ai.location.city"@),
    {
        let items: &'a StringMap = self.items;
        match items.get("ai.location.city") {
            Some(v) => Some(v.as_str()),
            None => None,
        }
    }
}

/// Tag helper type that changes context fields grouped under 'location'.
pub struct LocationTagsMut<'a> {
    /// The tags this helper changes.
    pub items: &'a mut StringMap,
}

impl<'a> LocationTagsMut<'a> {
    /// Sets: The IP address of the client device. IPv4 and IPv6 are supported.
    pub fn set_ip(&mut self, value: String)
        ensures
            final(self).items@ == old(self).items@.insert("ai.location.ip"@, value@),
            *final(final(self).items) == *final(old(self).items),
    {
        self.items.insert("ai.location.ip".to_string(), value);
    }

    /// Sets: The country of the client device.
    pub fn set_country(&mut self, value: String)
        ensures
            final(self).items@ == old(self).items@.insert("ai.location.country"@, value@),
            *final(final(self).items) == *final(old(self).items),
    {
        self.items.insert("ai.location.country".to_string(), value);
    }

    /// Sets: The province/state of the client device.
    pub fn set_province(&mut self, value: String)
        ensures
            final(self).items@ == old(self).items@.insert("ai.location.province"@, value@),
            *final(final(self).items) == *final(old(self).items),
    {
        self.items.insert("ai.location.province".to_string(), value);
    }

    /// Sets: The city of the client device.
    pub fn set_city(&mut self, value: String)
        ensures
            final(self).items@ == old(self).items@.insert("ai.location.city"@, value@),
            *final(final(self).items) == *final(old(self).items),
    {
        self.items.insert("ai.location.city".to_string(), value);
    }
}

/// Tag helper type that provides access to context fields grouped under 'operation'.
pub struct OperationTags<'a> {
    items: &'a StringMap,
}

impl<'a> OperationTags<'a> {
    /// The tags this helper reads.
    pub closed spec fn items(&self) -> Map<Seq<char>, Seq<char>> {
        self.items@
    }

    /// A unique identifier for the operation instance.
    pub fn id(&self) -> (r: Option<&'a str>)
        ensures
            str_view(r) == lookup(self.items(), "ai.operation.id"@),
    {
        let items: &'a StringMap = self.items;
        match items.get("ai.operation.id") {
            Some(v) => Some(v.as_str()),
            None => None,
        }
    }

    /// The name (group) of the operation.
    pub fn name(&self) -> (r: Option<&'a str>)
        ensures
            str_view(r) == lookup(self.items(), "ai.operation.name"@),
    {
        let items: &'a StringMap = self.items;
        match items.get("ai.operation.name") {
            Some(v) => Some(v.as_str()),
            None => None,
        }
    }

    /// The unique identifier of the telemetry item's immediate parent.
    pub fn parent_id(&self) -> (r: Option<&'a str>)
        ensures
            str_view(r) == lookup(self.items(), "ai.operation.parentId"@),
    {
        let items: &'a StringMap = self.items;
        match items.get("ai.operation.parentId") {
            Some(v) => Some(v.as_str()),
            None => None,
        }
    }

    /// Name of synthetic source.
    pub fn synthetic_source(&self) -> (r: Option<&'a str>)
        ensures
            str_view(r) == lookup(self.items(), "ai.operation.syntheticSource"@),
    {
        let items: &'a StringMap = self.items;
        match items.get("ai.operation.syntheticSource") {
            Some(v) => Some(v.as_str()),
            None => None,
        }
    }

    /// The correlation vector is a light weight vector clock which can be used to identify and order related events across clients and services.
    pub fn correlation_vector(&self) -> (r: Option<&'a str>)
        ensures
            str_view(r) == lookup(self.items(), "ai.operation.correlationVector"@),
    {
        let items: &'a StringMap = self.items;
        match items.get("ai.operation.correlationVector") {
            Some(v) => Some(v.as_str()),
            None => None,
        }
    }
}

/// Tag helper type that changes context fields grouped under 'operation'.
pub struct OperationTagsMut<'a> {
    /// The tags this helper changes.
    pub items: &'a mut StringMap,
}

impl<'a> OperationTagsMut<'a> {
    /// Sets: A unique identifier for the operation instance.
    pub fn set_id(&mut self, value: String)
        ensures
            final(self).items@ == old(self).items@.insert("ai.operation.id"@, value@),
            *final(final(self).items) == *final(old(self).items),
    {
        self.items.insert("ai.operation.id".to_string(), value);
    }

    /// Sets: The name (group) of the operation.
    pub fn set_name(&mut self, value: String)
        ensures
            final(self).items@ == old(self).items@.insert("ai.operation.name"@, value@),
            *final(final(self).items) == *final(old(self).items),
    {
        self.items.insert("ai.operation.name".to_string(), value);
    }

    /// Sets: The unique identifier of the telemetry item's immediate parent.
    pub fn set_parent_id(&mut self, value: String)
        ensures
            final(self).items@ == old(self).items@.insert("ai.operation.parentId"@, value@),
            *final(final(self).items) == *final(old(self).items),
    {
        self.items.insert("ai.operation.parentId".to_string(), value);
    }

    /// Sets: Name of synthetic source.
    pub fn set_synthetic_source(&mut self, value: String)
        ensures
            final(self).items@ == old(self).items@.insert("ai.operation.syntheticSource"@, value@),
            *final(final(self).items) == *final(old(self).items),
    {
        self.items.insert("ai.operation.syntheticSource".to_string(), value);
    }

    /// Sets: The correlation vector is a light weight vector clock which can be used to identify and order related events across clients and services.
    pub fn set_correlation_vector(&mut self, value: String)
        ensures
            final(self).items@ == old(self).items@.insert("ai.operation.correlationVector"@, value@),
            *final(final(self).items) == *final(old(self).items),
    {
        self.items.insert("ai.operation.correlationVector".to_string(), value);
    }
}

/// Tag helper type that provides access to context fields grouped under 'session'.
pub struct SessionTags<'a> {
    items: &'a StringMap,
}

impl<'a> SessionTags<'a> {
    /// The tags this helper reads.
    pub closed spec fn items(&self) -> Map<Seq<char>, Seq<char>> {
        self.items@
    }

    /// Session ID - the instance of the user's interaction with the app.
    pub fn id(&self) -> (r: Option<&'a str>)
        ensures
            str_view(r) == lookup(self.items(), "ai.session.id"@),
    {
        let items: &'a StringMap = self.items;
        match items.get("ai.session.id") {
            Some(v) => Some(v.as_str()),
            None => None,
        }
    }

    /// Boolean value indicating whether the session identified by ai.session.id is first for the user or not.
    pub fn is_first(&self) -> (r: Option<&'a str>)
        ensures
            str_view(r) == lookup(self.items(), "ai.session.isFirst"@),
    {
        let items: &'a StringMap = self.items;
        match items.get("ai.session.isFirst") {
            Some(v) => Some(v.as_str()),
            None => None,
        }
    }
}

/// Tag helper type that changes context fields grouped under 'session'.
pub struct SessionTagsMut<'a> {
    /// The tags this helper changes.
    pub items: &'a mut StringMap,
}

impl<'a> SessionTagsMut<'a> {
    /// Sets: Session ID - the instance of the user's interaction with the app.
    pub fn set_id(&mut self, value: String)
        ensures
            final(self).items@ == old(self).items@.insert("ai.session.id"@, value@),
            *final(final(self).items) == *final(old(self).items),
    {
        self.items.insert("ai.session.id".to_string(), value);
    }

    /// Sets: Boolean value indicating whether the session identified by ai.session.id is first for the user or not.
    pub fn set_is_first(&mut self, value: String)
        ensures
            final(self).items@ == old(self).items@.insert("ai.session.isFirst"@, value@),
            *final(final(self).items) == *final(old(self).items),
    {
        self.items.insert("ai.session.isFirst".to_string(), value);
    }
}

/// Tag helper type that provides access to context fields grouped under 'user'.
pub struct UserTags<'a> {
    items: &'a StringMap,
}

impl<'a> UserTags<'a> {
    /// The tags this helper reads.
    pub closed spec fn items(&self) -> Map<Seq<char>, Seq<char>> {
        self.items@
    }

    /// In multi-tenant applications this is the account ID or name which the user is acting with.
    pub fn account_id(&self) -> (r: Option<&'a str>)
        ensures
            str_view(r) == lookup(self.items(), "ai.user.accountId"@),
    {
        let items: &'a StringMap = self.items;
        match items.get("ai.user.accountId") {
            Some(v) => Some(v.as_str()),
            None => None,
        }
    }

    /// Anonymous user id. Represents the end user of the application.
    pub fn id(&self) -> (r: Option<&'a str>)
        ensures
            str_view(r) == lookup(self.items(), "ai.user.id"@),
    {
        let items: &'a StringMap = self.items;
        match items.get("ai.user.id") {
            Some(v) => Some(v.as_str()),
            None => None,
        }
    }

    /// Authenticated user id. The opposite of ai.user.id, this represents the user with a friendly name.
    pub fn auth_user_id(&self) -> (r: Option<&'a str>)
        ensures
            str_view(r) == lookup(self.items(), "ai.user.authUserId"@),
    {
        let items: &'a StringMap = self.items;
        match items.get("ai.user.authUserId") {
            Some(v) => Some(v.as_str()),
            None => None,
        }
    }
}

/// Tag helper type that changes context fields grouped under 'user'.
pub struct UserTagsMut<'a> {
    /// The tags this helper changes.
    pub items: &'a mut StringMap,
}

impl<'a> UserTagsMut<'a> {
    /// Sets: In multi-tenant applications this is the account ID or name which the user is acting with.
    pub fn set_account_id(&mut self, value: String)
        ensures
            final(self).items@ == old(self).items@.insert("ai.user.accountId"@, value@),
            *final(final(self).items) == *final(old(self).items),
    {
        self.items.insert("ai.user.accountId".to_string(), value);
    }

    /// Sets: Anonymous user id. Represents the end user of the application.
    pub fn set_id(&mut self, value: String)
        ensures
            final(self).items@ == old(self).items@.insert("ai.user.id"@, value@),
            *final(final(self).items) == *final(old(self).items),
    {
        self.items.insert("ai.user.id".to_string(), value);
    }

    /// Sets: Authenticated user id. The opposite of ai.user.id, this represents the user with a friendly name.
    pub fn set_auth_user_id(&mut self, value: String)
        ensures
            final(self).items@ == old(self).items@.insert("ai.user.authUserId"@, value@),
            *final(final(self).items) == *final(old(self).items),
    {
        self.items.insert("ai.user.authUserId".to_string(), value);
    }
}

/// Tag helper type that provides access to context fields grouped under 'cloud'.
pub struct CloudTags<'a> {
    items: &'a StringMap,
}

impl<'a> CloudTags<'a> {
    /// The tags this helper reads.
    pub closed spec fn items(&self) -> Map<Seq<char>, Seq<char>> {
        self.items@
    }

    /// Name of the role the application is a part of. Maps directly to the role name in azure.
    pub fn role(&self) -> (r: Option<&'a str>)
        ensures
            str_view(r) == lookup(self.items(), "ai.cloud.role"@),
    {
        let items: &'a StringMap = self.items;
        match items.get("ai.cloud.role") {
            Some(v) => Some(v.as_str()),
            None => None,
        }
    }

    /// Version of the role the application is a part of.
    pub fn role_ver(&self) -> (r: Option<&'a str>)
        ensures
            str_view(r) == lookup(self.items(), "ai.cloud.roleVer"@),
    {
        let items: &'a StringMap = self.items;
        match items.get("ai.cloud.roleVer") {
            Some(v) => Some(v.as_str()),
            None => None,
        }
    }

    /// Name of the instance where the application is running. Computer name for on-premisis, instance name for Azure.
    pub fn role_instance(&self) -> (r: Option<&'a str>)
        ensures
            str_view(r) == lookup(self.items(), "ai.cloud.roleInstance"@),
    {
        let items: &'a StringMap = self.items;
        match items.get("ai.cloud.roleInstance") {
            Some(v) => Some(v.as_str()),
            None => None,
        }
    }

    /// Location of the role the application is a part of.
    pub fn location(&self) -> (r: Option<&'a str>)
        ensures
            str_view(r) == lookup(self.items(), "ai.cloud.location"@),
    {
        let items: &'a StringMap = self.items;
        match items.get("ai.cloud.location") {
            Some(v) => Some(v.as_str()),
            None => None,
        }
    }
}

/// Tag helper type that changes context fields grouped under 'cloud'.
pub struct CloudTagsMut<'a> {
    /// The tags this helper changes.
    pub items: &'a mut StringMap,
}

impl<'a> CloudTagsMut<'a> {
    /// Sets: Name of the role the application is a part of. Maps directly to the role name in azure.
    pub fn set_role(&mut self, value: String)
        ensures
            final(self).items@ == old(self).items@.insert("ai.cloud.role"@, value@),
            *final(final(self).items) == *final(old(self).items),
    {
        self.items.insert("ai.cloud.role".to_string(), value);
    }

    /// Sets: Version of the role the application is a part of.
    pub fn set_role_ver(&mut self, value: String)
        ensures
            final(self).items@ == old(self).items@.insert("ai.cloud.roleVer"@, value@),
            *final(final(self).items) == *final(old(self).items),
    {
        self.items.insert("ai.cloud.roleVer".to_string(), value);
    }

    /// Sets: Name of the instance where the application is running. Computer name for on-premisis, instance name for Azure.
    pub fn set_role_instance(&mut self, value: String)
        ensures
            final(self).items@ == old(self).items@.insert("ai.cloud.roleInstance"@, value@),
            *final(final(self).items) == *final(old(self).items),
    {
        self.items.insert("ai.cloud.roleInstance".to_string(), value);
    }

    /// Sets: Location of the role the application is a part of.
    pub fn set_location(&mut self, value: String)
        ensures
            final(self).items@ == old(self).items@.insert("ai.cloud.location"@, value@),
            *final(final(self).items) == *final(old(self).items),
    {
        self.items.insert("ai.cloud.location".to_string(), value);
    }
}

/// Tag helper type that provides access to context fields grouped under 'internal'.
pub struct InternalTags<'a> {
    items: &'a StringMap,
}

impl<'a> InternalTags<'a> {
    /// The tags this helper reads.
    pub closed spec fn items(&self) -> Map<Seq<char>, Seq<char>> {
        self.items@
    }

    /// SDK version.
    pub fn sdk_version(&self) -> (r: Option<&'a str>)
        ensures
            str_view(r) == lookup(self.items(), "ai.internal.sdkVersion"@),
    {
        let items: &'a StringMap = self.items;
        match items.get("ai.internal.sdkVersion") {
            Some(v) => Some(v.as_str()),
            None => None,
        }
    }

    /// Agent version. Used to indicate the version of StatusMonitor installed on the computer if it is used for data collection.
    pub fn agent_version(&self) -> (r: Option<&'a str>)
        ensures
            str_view(r) == lookup(self.items(), "ai.internal.agentVersion"@),
    {
        let items: &'a StringMap = self.items;
        match items.get("ai.internal.agentVersion") {
            Some(v) => Some(v.as_str()),
            None => None,
        }
    }

    /// This is the node name used for billing purposes. Use it to override the standard detection of nodes.
    pub fn node_name(&self) -> (r: Option<&'a str>)
        ensures
            str_view(r) == lookup(self.items(), "ai.internal.nodeName"@),
    {
        let items: &'a StringMap = self.items;
        match items.get("ai.internal.nodeName") {
            Some(v) => Some(v.as_str()),
            None => None,
        }
    }
}

/// Tag helper type that changes context fields grouped under 'internal'.
pub struct InternalTagsMut<'a> {
    /// The tags this helper changes.
    pub items: &'a mut StringMap,
}

impl<'a> InternalTagsMut<'a> {
    /// Sets: SDK version.
    pub fn set_sdk_version(&mut self, value: String)
        ensures
            final(self).items@ == old(self).items@.insert("ai.internal.sdkVersion"@, value@),
            *final(final(self).items) == *final(old(self).items),
    {
        self.items.insert("ai.internal.sdkVersion".to_string(), value);
    }

    /// Sets: Agent version. Used to indicate the version of StatusMonitor installed on the computer if it is used for data collection.
    pub fn set_agent_version(&mut self, value: String)
        ensures
            final(self).items@ == old(self).items@.insert("ai.internal.agentVersion"@, value@),
            *final(final(self).items) == *final(old(self).items),
    {
        self.items.insert("ai.internal.agentVersion".to_string(), value);
    }

    /// Sets: This is the node name used for billing purposes. Use it to override the standard detection of nodes.
    pub fn set_node_name(&mut self, value: String)
        ensures
            final(self).items@ == old(self).items@.insert("ai.internal.nodeName"@, value@),
            *final(final(self).items) == *final(old(self).items),
    {
        self.items.insert("ai.internal.nodeName".to_string(), value);
    }
}

/// Law: a tag reads back what its setter wrote, and setting one tag leaves
/// every other tag as it was.
pub proof fn lemma_tag_reads_back(
    m: Map<Seq<char>, Seq<char>>,
    key: Seq<char>,
    value: Seq<char>,
    other: Seq<char>,
)
    ensures
        lookup(m.insert(key, value), key) == Some(value),
        other != key ==> lookup(m.insert(key, value), other) == lookup(m, other),
{
}

} // verus!
