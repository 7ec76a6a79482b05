use command_bridge::commands::{HostEnv, double, perform_heavy_computation};
use command_bridge::dispatch::{
    DispatchStep, Handler, build_registry, complete_text, complete_unit, dispatch,
};
use command_bridge::error::{CommandResult, ErrorDescriptor, deliver};
use command_bridge::registry::{Registry, RegistryError};
use command_bridge::value::{Prim, Value};

fn env() -> HostEnv {
    HostEnv { os: "linux".to_string(), arch: "x86_64".to_string() }
}

fn obj(fields: Vec<(&str, Prim)>) -> Value {
    Value::Obj(fields.into_iter().map(|(k, v)| (k.to_string(), v)).collect())
}

fn field(result: &Value, name: &str) -> Prim {
    match result {
        Value::Obj(fields) => fields
            .iter()
            .find(|(k, _)| k == name)
            .map(|(_, v)| v.clone())
            .expect("missing field"),
        _ => panic!("not an object"),
    }
}

#[test]
fn resolve_returns_bound_handler() {
    let registry = build_registry();
    assert_eq!(registry.resolve("get_system_info"), Some(Handler::GetSystemInfo));
    assert_eq!(registry.resolve("create_note"), Some(Handler::CreateNote));
    assert_eq!(
        registry.resolve("perform_heavy_computation"),
        Some(Handler::PerformHeavyComputation)
    );
    assert_eq!(registry.resolve("fetch_api_data"), Some(Handler::FetchApiData));
    assert_eq!(registry.resolve("save_file_content"), Some(Handler::SaveFileContent));
    assert_eq!(registry.resolve("read_file_content"), Some(Handler::ReadFileContent));
}

#[test]
fn resolve_returns_nothing_for_unregistered_name() {
    let registry = build_registry();
    assert_eq!(registry.resolve("double"), None);
    assert_eq!(registry.resolve(""), None);
    assert_eq!(registry.resolve("Get_System_Info"), None);
}

#[test]
fn register_duplicate_name_fails_and_changes_nothing() {
    let mut registry: Registry<Handler> = Registry::new();
    assert_eq!(registry.register("double".to_string(), Handler::Double), Ok(()));
    assert_eq!(
        registry.register("double".to_string(), Handler::GetSystemInfo),
        Err(RegistryError::DuplicateName)
    );
    assert_eq!(registry.resolve("double"), Some(Handler::Double));
}

#[test]
fn dispatch_unknown_command_yields_unknown_command() {
    let registry = build_registry();
    let step = dispatch(
        &registry,
        &env(),
        "unregisteredThing",
        &obj(vec![("anything", Prim::Int(1))]),
    );
    assert_eq!(
        step,
        DispatchStep::Done(CommandResult::Failure(ErrorDescriptor::UnknownCommand))
    );
}

#[test]
fn dispatch_double_returns_success_42() {
    let mut registry = build_registry();
    registry.register("double".to_string(), Handler::Double).unwrap();
    let step = dispatch(&registry, &env(), "double", &obj(vec![("x", Prim::Int(21))]));
    assert_eq!(
        step,
        DispatchStep::Done(CommandResult::Success(Value::Prim(Prim::Int(42))))
    );
}

#[test]
fn dispatch_double_with_string_argument_yields_invalid_arguments() {
    let mut registry = build_registry();
    registry.register("double".to_string(), Handler::Double).unwrap();
    let step = dispatch(
        &registry,
        &env(),
        "double",
        &obj(vec![("x", Prim::Str("not-a-number".to_string()))]),
    );
    assert_eq!(
        step,
        DispatchStep::Done(CommandResult::Failure(ErrorDescriptor::InvalidArguments))
    );
}

#[test]
fn dispatch_double_with_missing_field_yields_invalid_arguments() {
    let mut registry = build_registry();
    registry.register("double".to_string(), Handler::Double).unwrap();
    let step = dispatch(&registry, &env(), "double", &obj(vec![("y", Prim::Int(21))]));
    assert_eq!(
        step,
        DispatchStep::Done(CommandResult::Failure(ErrorDescriptor::InvalidArguments))
    );
}

#[test]
fn dispatch_double_with_huge_unsigned_yields_invalid_arguments() {
    let mut registry = build_registry();
    registry.register("double".to_string(), Handler::Double).unwrap();
    let step = dispatch(
        &registry,
        &env(),
        "double",
        &obj(vec![("x", Prim::UInt(u64::MAX))]),
    );
    assert_eq!(
        step,
        DispatchStep::Done(CommandResult::Failure(ErrorDescriptor::InvalidArguments))
    );
}

#[test]
fn same_command_different_arguments_no_cross_talk() {
    let mut registry = build_registry();
    registry.register("double".to_string(), Handler::Double).unwrap();
    let first = dispatch(&registry, &env(), "double", &obj(vec![("x", Prim::Int(21))]));
    let second = dispatch(&registry, &env(), "double", &obj(vec![("x", Prim::Int(10))]));
    assert_eq!(
        first,
        DispatchStep::Done(CommandResult::Success(Value::Prim(Prim::Int(42))))
    );
    assert_eq!(
        second,
        DispatchStep::Done(CommandResult::Success(Value::Prim(Prim::Int(20))))
    );
}

#[test]
fn double_wraps_at_machine_width() {
    assert_eq!(double(21), 42);
    assert_eq!(double(-5), -10);
    assert_eq!(double(i64::MAX), -2);
}

#[test]
fn heavy_computation_exact_values() {
    assert_eq!(perform_heavy_computation(0), 0);
    assert_eq!(perform_heavy_computation(1), 0);
    assert_eq!(perform_heavy_computation(10), 285);
}

#[test]
fn dispatch_heavy_computation_returns_sum() {
    let registry = build_registry();
    let step = dispatch(
        &registry,
        &env(),
        "perform_heavy_computation",
        &obj(vec![("iterations", Prim::Int(10))]),
    );
    assert_eq!(
        step,
        DispatchStep::Done(CommandResult::Success(Value::Prim(Prim::UInt(285))))
    );
}

#[test]
fn dispatch_heavy_computation_negative_yields_invalid_arguments() {
    let registry = build_registry();
    let step = dispatch(
        &registry,
        &env(),
        "perform_heavy_computation",
        &obj(vec![("iterations", Prim::Int(-1))]),
    );
    assert_eq!(
        step,
        DispatchStep::Done(CommandResult::Failure(ErrorDescriptor::InvalidArguments))
    );
}

#[test]
fn dispatch_get_system_info_reports_host_facts() {
    let registry = build_registry();
    let step = dispatch(&registry, &env(), "get_system_info", &Value::Prim(Prim::Null));
    let result = match step {
        DispatchStep::Done(CommandResult::Success(v)) => v,
        other => panic!("unexpected step: {:?}", other),
    };
    assert_eq!(field(&result, "os"), Prim::Str("linux".to_string()));
    assert_eq!(field(&result, "arch"), Prim::Str("x86_64".to_string()));
    assert_eq!(field(&result, "version"), Prim::Str("1.0.0".to_string()));
    assert_eq!(field(&result, "total_memory"), Prim::UInt(8 * 1024 * 1024 * 1024));
    assert_eq!(field(&result, "used_memory"), Prim::UInt(4 * 1024 * 1024 * 1024));
}

#[test]
fn dispatch_create_note_carries_title_content_and_fresh_id() {
    let registry = build_registry();
    let step = dispatch(
        &registry,
        &env(),
        "create_note",
        &obj(vec![
            ("title", Prim::Str("groceries".to_string())),
            ("content", Prim::Str("milk and eggs".to_string())),
        ]),
    );
    let result = match step {
        DispatchStep::Done(CommandResult::Success(v)) => v,
        other => panic!("unexpected step: {:?}", other),
    };
    assert_eq!(field(&result, "title"), Prim::Str("groceries".to_string()));
    assert_eq!(field(&result, "content"), Prim::Str("milk and eggs".to_string()));
    match field(&result, "id") {
        Prim::Str(id) => assert_eq!(id.chars().count(), 36),
        other => panic!("id is not a string: {:?}", other),
    }
    let created = field(&result, "created_at");
    let updated = field(&result, "updated_at");
    assert_eq!(created, updated);
}

#[test]
fn dispatch_create_note_missing_content_yields_invalid_arguments() {
    let registry = build_registry();
    let step = dispatch(
        &registry,
        &env(),
        "create_note",
        &obj(vec![("title", Prim::Str("groceries".to_string()))]),
    );
    assert_eq!(
        step,
        DispatchStep::Done(CommandResult::Failure(ErrorDescriptor::InvalidArguments))
    );
}

#[test]
fn dispatch_fetch_describes_http_get() {
    let registry = build_registry();
    let step = dispatch(
        &registry,
        &env(),
        "fetch_api_data",
        &obj(vec![("url", Prim::Str("http://example.com/data".to_string()))]),
    );
    assert_eq!(step, DispatchStep::HttpGet("http://example.com/data".to_string()));
}

#[test]
fn dispatch_save_describes_file_write() {
    let registry = build_registry();
    let step = dispatch(
        &registry,
        &env(),
        "save_file_content",
        &obj(vec![
            ("path", Prim::Str("/tmp/out.txt".to_string())),
            ("content", Prim::Str("hello".to_string())),
        ]),
    );
    assert_eq!(
        step,
        DispatchStep::FileWrite("/tmp/out.txt".to_string(), "hello".to_string())
    );
}

#[test]
fn dispatch_read_describes_file_read() {
    let registry = build_registry();
    let step = dispatch(
        &registry,
        &env(),
        "read_file_content",
        &obj(vec![("path", Prim::Str("/tmp/in.txt".to_string()))]),
    );
    assert_eq!(step, DispatchStep::FileRead("/tmp/in.txt".to_string()));
}

#[test]
fn complete_text_wraps_body_and_handler_error() {
    assert_eq!(
        complete_text(Ok("body".to_string())),
        CommandResult::Success(Value::Prim(Prim::Str("body".to_string())))
    );
    assert_eq!(
        complete_text(Err("connection refused".to_string())),
        CommandResult::Failure(ErrorDescriptor::HandlerError("connection refused".to_string()))
    );
}

#[test]
fn complete_unit_wraps_success_and_handler_error() {
    assert_eq!(
        complete_unit(Ok(())),
        CommandResult::Success(Value::Prim(Prim::Null))
    );
    assert_eq!(
        complete_unit(Err("permission denied".to_string())),
        CommandResult::Failure(ErrorDescriptor::HandlerError("permission denied".to_string()))
    );
}

#[test]
fn deliver_reports_unserializable_success_as_serialization_error() {
    let success = CommandResult::Success(Value::Prim(Prim::Int(1)));
    assert_eq!(deliver(success.clone(), true), success);
    assert_eq!(
        deliver(success, false),
        CommandResult::Failure(ErrorDescriptor::SerializationError)
    );
    let failure = CommandResult::Failure(ErrorDescriptor::UnknownCommand);
    assert_eq!(deliver(failure.clone(), false), failure);
}
