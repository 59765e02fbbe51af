use appinsights::contracts::{
    envelope_name_for, ContextTagKeys, DataKind, TelemetryData, DataBuilder, DataPointType, DomainBuilder, ExceptionDetails,
    SeverityLevel as ContractsSeverityLevel, StackFrame, StackFrameBuilder,
};
use appinsights::telemetry::SeverityLevel;

#[test]
fn context_tag_keys_have_schema_names() {
    let keys = ContextTagKeys::new();
    assert_eq!(keys.application_version.as_deref(), Some("ai.application.ver"));
    assert_eq!(keys.device_oem_name.as_deref(), Some("ai.device.oemName"));
    assert_eq!(keys.operation_correlation_vector.as_deref(), Some("ai.operation.correlationVector"));
    assert_eq!(keys.user_auth_user_id.as_deref(), Some("ai.user.authUserId"));
    assert_eq!(keys.cloud_role_instance.as_deref(), Some("ai.cloud.roleInstance"));
    assert_eq!(keys.internal_node_name.as_deref(), Some("ai.internal.nodeName"));
}

#[test]
fn context_tag_keys_can_be_changed() {
    let mut keys = ContextTagKeys::new();
    keys.with_device_id(None).with_session_id(Some("sid".to_string()));
    assert_eq!(keys.device_id, None);
    assert_eq!(keys.session_id.as_deref(), Some("sid"));
    assert_eq!(keys.device_locale.as_deref(), Some("ai.device.locale"));
}

#[test]
fn stack_frame_builder_builds_what_was_set() {
    let frame = StackFrameBuilder::new(1, "main".to_string())
        .assembly("app.dll".to_string())
        .file_name("main.rs".to_string())
        .line(42)
        .build();
    assert_eq!(frame.level, 1);
    assert_eq!(frame.method, "main");
    assert_eq!(frame.assembly.as_deref(), Some("app.dll"));
    assert_eq!(frame.file_name.as_deref(), Some("main.rs"));
    assert_eq!(frame.line, Some(42));

    let default = StackFrame::default();
    assert_eq!(default.level, 0);
    assert!(default.method.is_empty());
    assert_eq!(default.line, None);
}

#[test]
fn exception_details_default_has_full_stack() {
    let details = ExceptionDetails::default();
    assert_eq!(details.has_full_stack, Some(true));
    assert_eq!(details.id, None);
    assert!(details.typename.is_empty());
}

#[test]
fn data_builder_builds_what_was_set() {
    let data = DataBuilder::new(7u32).base_type(Some("EventData".to_string())).build();
    assert_eq!(data.base_type.as_deref(), Some("EventData"));
    assert_eq!(data.base_data, 7);
    let _ = DomainBuilder::new().build();
    assert_eq!(DataPointType::Aggregation, DataPointType::Aggregation);
}

#[test]
fn envelope_name_with_key() {
    assert_eq!(
        envelope_name_for("EventData", "instrumentation"),
        "Microsoft.ApplicationInsights.instrumentation.Event"
    );
}

#[test]
fn envelope_name_without_key() {
    assert_eq!(envelope_name_for("MessageData", ""), "Microsoft.ApplicationInsights.Message");
}

#[test]
fn severity_levels_convert_by_name() {
    assert_eq!(ContractsSeverityLevel::from(SeverityLevel::Verbose), ContractsSeverityLevel::Verbose);
    assert_eq!(ContractsSeverityLevel::from(SeverityLevel::Information), ContractsSeverityLevel::Information);
    assert_eq!(ContractsSeverityLevel::from(SeverityLevel::Warning), ContractsSeverityLevel::Warning);
    assert_eq!(ContractsSeverityLevel::from(SeverityLevel::Error), ContractsSeverityLevel::Error);
    assert_eq!(ContractsSeverityLevel::from(SeverityLevel::Critical), ContractsSeverityLevel::Critical);
}

#[test]
fn data_kinds_name_their_schema_types() {
    assert_eq!(DataKind::Availability.base_type(), "AvailabilityData");
    assert_eq!(DataKind::Event.base_type(), "EventData");
    assert_eq!(DataKind::Exception.base_type(), "ExceptionData");
    assert_eq!(DataKind::Message.base_type(), "MessageData");
    assert_eq!(DataKind::Metric.base_type(), "MetricData");
    assert_eq!(DataKind::PageView.base_type(), "PageViewData");
    assert_eq!(DataKind::RemoteDependency.base_type(), "RemoteDependencyData");
    assert_eq!(DataKind::Request.base_type(), "RequestData");
}

#[test]
fn data_kinds_name_their_envelopes() {
    assert_eq!(DataKind::Event.envelope_name("key"), "Microsoft.ApplicationInsights.key.Event");
    assert_eq!(DataKind::RemoteDependency.envelope_name(""), "Microsoft.ApplicationInsights.RemoteDependency");
    assert_eq!(DataKind::PageView.envelope_name("k"), "Microsoft.ApplicationInsights.k.PageView");
}

#[test]
fn contracts_clone_field_by_field() {
    let frame = StackFrameBuilder::new(2, "run".to_string()).line(7).build();
    let copy = frame.clone();
    assert_eq!(copy.level, 2);
    assert_eq!(copy.method, "run");
    assert_eq!(copy.line, Some(7));

    let mut details = ExceptionDetails::default();
    details.parsed_stack = Some(frame);
    details.message = "boom".to_string();
    let copy = details.clone();
    assert_eq!(copy.message, "boom");
    assert_eq!(copy.parsed_stack.map(|f| f.method), Some("run".to_string()));

    let data = DataBuilder::new(5u8).base_type(Some("MetricData".to_string())).build();
    let copy = data.clone();
    assert_eq!(copy.base_type.as_deref(), Some("MetricData"));
    assert_eq!(copy.base_data, 5);
}
