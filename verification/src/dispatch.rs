//! The command dispatcher: resolve a named invocation in the registry,
//! check its raw arguments against the handler's expected shape, run what
//! can be run natively to a finished outcome, and describe as a step the
//! outside work (an HTTP fetch, a file read or write) that the host must
//! perform on the async pool. A completion function then turns that
//! work's outcome into the finished result, so every observable result
//! still flows through verified code.

use vstd::prelude::*;
use crate::commands::{
    HostEnv, HostEnvModel, NoteModel, create_note, double, double_model, get_system_info,
    heavy_sum, note_value_model, note_to_value, perform_heavy_computation, system_info_of,
    system_info_to_value, system_info_value_model,
};
use crate::error::{CommandResult, ErrorDescriptor, ErrorModel, ResultModel};
use crate::registry::Registry;
use crate::value::{Prim, PrimModel, Value, ValueModel, field_model, get_field};

verus! {

/// The handlers this application registers at startup, plus the "double"
/// demonstration handler. To the registry and the dispatch pipeline each
/// is an opaque unit of work; the identifier only crosses the wire as a
/// string.
#[derive(Clone, Copy, PartialEq, Eq, Structural, Debug)]
pub enum Handler {
    GetSystemInfo,
    CreateNote,
    PerformHeavyComputation,
    FetchApiData,
    SaveFileContent,
    ReadFileContent,
    Double,
}

/// What one dispatch decides. `Done` carries a finished outcome; the
/// other steps describe the one piece of outside work the resolved
/// handler needs, for the host to perform off the UI thread. The UI
/// thread itself is never blocked: dispatch only decides.
#[derive(PartialEq, Eq, Debug, Clone)]
pub enum DispatchStep {
    /// The outcome is already decided.
    Done(CommandResult),
    /// Fetch the body of this URL.
    HttpGet(String),
    /// Write the second string into the file at the first.
    FileWrite(String, String),
    /// Read the file at this path.
    FileRead(String),
}

/// The mathematical model of a dispatch step.
pub enum StepModel {
    Done(ResultModel),
    HttpGet(Seq<char>),
    FileWrite(Seq<char>, Seq<char>),
    FileRead(Seq<char>),
}

impl View for DispatchStep {
    type V = StepModel;

    open spec fn view(&self) -> StepModel {
        match self {
            DispatchStep::Done(result) => StepModel::Done(result@),
            DispatchStep::HttpGet(url) => StepModel::HttpGet(url@),
            DispatchStep::FileWrite(path, content) => StepModel::FileWrite(path@, content@),
            DispatchStep::FileRead(path) => StepModel::FileRead(path@),
        }
    }
}

/// The step that rejects an invocation whose name resolved to no handler.
pub open spec fn unknown_command_step() -> StepModel {
    StepModel::Done(ResultModel::Failure(ErrorModel::UnknownCommand))
}

/// The step that rejects an invocation whose arguments do not fit the
/// resolved handler's expected shape.
pub open spec fn invalid_arguments_step() -> StepModel {
    StepModel::Done(ResultModel::Failure(ErrorModel::InvalidArguments))
}

/// The arguments "double" expects: an object whose field "x" is an
/// integer in signed 64-bit range.
pub open spec fn decode_double_model(args: ValueModel) -> Option<i64> {
    match args {
        ValueModel::Obj(fields) => match field_model(fields, "x"@) {
            Some(PrimModel::Num(n)) => if i64::MIN <= n <= i64::MAX {
                Some(n as i64)
            } else {
                None
            },
            _ => None,
        },
        _ => None,
    }
}

/// The arguments "perform_heavy_computation" expects: an object whose
/// field "iterations" is an integer in unsigned 64-bit range.
pub open spec fn decode_heavy_model(args: ValueModel) -> Option<u64> {
    match args {
        ValueModel::Obj(fields) => match field_model(fields, "iterations"@) {
            Some(PrimModel::Num(n)) => if 0 <= n <= u64::MAX {
                Some(n as u64)
            } else {
                None
            },
            _ => None,
        },
        _ => None,
    }
}

/// The arguments "create_note" expects: an object with string fields
/// "title" and "content".
pub open spec fn decode_note_model(args: ValueModel) -> Option<(Seq<char>, Seq<char>)> {
    match args {
        ValueModel::Obj(fields) => match (
            field_model(fields, "title"@),
            field_model(fields, "content"@),
        ) {
            (Some(PrimModel::Str(title)), Some(PrimModel::Str(content))) => Some((title, content)),
            _ => None,
        },
        _ => None,
    }
}

/// The arguments "fetch_api_data" expects: an object with a string field
/// "url".
pub open spec fn decode_url_model(args: ValueModel) -> Option<Seq<char>> {
    match args {
        ValueModel::Obj(fields) => match field_model(fields, "url"@) {
            Some(PrimModel::Str(url)) => Some(url),
            _ => None,
        },
        _ => None,
    }
}

/// The arguments "save_file_content" expects: an object with string
/// fields "path" and "content".
pub open spec fn decode_save_model(args: ValueModel) -> Option<(Seq<char>, Seq<char>)> {
    match args {
        ValueModel::Obj(fields) => match (
            field_model(fields, "path"@),
            field_model(fields, "content"@),
        ) {
            (Some(PrimModel::Str(path)), Some(PrimModel::Str(content))) => Some((path, content)),
            _ => None,
        },
        _ => None,
    }
}

/// The arguments "read_file_content" expects: an object with a string
/// field "path".
pub open spec fn decode_read_model(args: ValueModel) -> Option<Seq<char>> {
    match args {
        ValueModel::Obj(fields) => match field_model(fields, "path"@) {
            Some(PrimModel::Str(path)) => Some(path),
            _ => None,
        },
        _ => None,
    }
}

/// Whether raw arguments fit the expected shape of a handler.
pub open spec fn args_well_shaped(handler: Handler, args: ValueModel) -> bool {
    match handler {
        Handler::GetSystemInfo => true,
        Handler::CreateNote => decode_note_model(args) is Some,
        Handler::PerformHeavyComputation => decode_heavy_model(args) is Some,
        Handler::FetchApiData => decode_url_model(args) is Some,
        Handler::SaveFileContent => decode_save_model(args) is Some,
        Handler::ReadFileContent => decode_read_model(args) is Some,
        Handler::Double => decode_double_model(args) is Some,
    }
}

/// The step owed for every handler whose outcome is a function of the
/// invocation alone; "create_note" is the one exception, described by
/// `note_step_ok`.
pub open spec fn step_for(handler: Handler, env: HostEnvModel, args: ValueModel) -> StepModel
    recommends
        handler != Handler::CreateNote,
{
    match handler {
        Handler::GetSystemInfo => StepModel::Done(
            ResultModel::Success(system_info_value_model(system_info_of(env))),
        ),
        Handler::PerformHeavyComputation => match decode_heavy_model(args) {
            Some(n) => StepModel::Done(
                ResultModel::Success(ValueModel::Prim(PrimModel::Num(heavy_sum(n) as int))),
            ),
            None => invalid_arguments_step(),
        },
        Handler::Double => match decode_double_model(args) {
            Some(x) => StepModel::Done(
                ResultModel::Success(ValueModel::Prim(PrimModel::Num(double_model(x) as int))),
            ),
            None => invalid_arguments_step(),
        },
        Handler::FetchApiData => match decode_url_model(args) {
            Some(url) => StepModel::HttpGet(url),
            None => invalid_arguments_step(),
        },
        Handler::SaveFileContent => match decode_save_model(args) {
            Some(pc) => StepModel::FileWrite(pc.0, pc.1),
            None => invalid_arguments_step(),
        },
        Handler::ReadFileContent => match decode_read_model(args) {
            Some(path) => StepModel::FileRead(path),
            None => invalid_arguments_step(),
        },
        Handler::CreateNote => invalid_arguments_step(),
    }
}

/// The successful step of "create_note" for a given identifier, title,
/// content and creation instant.
pub open spec fn note_success_step(
    id: Seq<char>,
    title: Seq<char>,
    content: Seq<char>,
    ts: int,
) -> StepModel {
    StepModel::Done(
        ResultModel::Success(
            note_value_model(
                NoteModel { id, title, content, created_at: ts, updated_at: ts },
            ),
        ),
    )
}

/// What dispatching "create_note" may produce: for well-shaped arguments,
/// a success payload carrying exactly the given title and content, some
/// 36-character identifier and one machine-representable creation
/// instant; otherwise the invalid-arguments rejection. The identifier and
/// the instant come from the outside world, so they are existential here.
pub open spec fn note_step_ok(args: ValueModel, step: StepModel) -> bool {
    match decode_note_model(args) {
        None => step == invalid_arguments_step(),
        Some(tc) => exists|id: Seq<char>, ts: int|
            id.len() == 36 && i64::MIN <= ts <= i64::MAX && step == #[trigger] note_success_step(
                id,
                tc.0,
                tc.1,
                ts,
            ),
    }
}

/// Everything one dispatch promises, over the registry's map, the host
/// facts, the invoked name and the raw arguments: an unregistered name is
/// rejected as `UnknownCommand` before any handler is chosen; a
/// registered handler's step is exactly the one owed for its own
/// arguments.
pub open spec fn dispatch_post(
    reg: Map<Seq<char>, Handler>,
    env: HostEnvModel,
    name: Seq<char>,
    args: ValueModel,
    step: StepModel,
) -> bool {
    &&& !reg.dom().contains(name) ==> step == unknown_command_step()
    &&& reg.dom().contains(name) && reg[name] != Handler::CreateNote ==> step == step_for(
        reg[name],
        env,
        args,
    )
    &&& reg.dom().contains(name) && reg[name] == Handler::CreateNote ==> note_step_ok(args, step)
}

/// Decode the arguments of "double".
pub fn decode_double(args: &Value) -> (r: Option<i64>)
    ensures
        r == decode_double_model(args@),
{
    match args {
        Value::Obj(fields) => match get_field(fields, "x") {
            Some(p) => match p {
                Prim::Int(n) => Some(*n),
                Prim::UInt(n) => {
                    if *n <= i64::MAX as u64 {
                        Some(*n as i64)
                    } else {
                        None
                    }
                },
                _ => None,
            },
            None => None,
        },
        _ => None,
    }
}

/// Decode the arguments of "perform_heavy_computation".
pub fn decode_heavy(args: &Value) -> (r: Option<u64>)
    ensures
        r == decode_heavy_model(args@),
{
    match args {
        Value::Obj(fields) => match get_field(fields, "iterations") {
            Some(p) => match p {
                Prim::Int(n) => {
                    if *n >= 0 {
                        Some(*n as u64)
                    } else {
                        None
                    }
                },
                Prim::UInt(n) => Some(*n),
                _ => None,
            },
            None => None,
        },
        _ => None,
    }
}

/// Decode the arguments of "create_note".
pub fn decode_note(args: &Value) -> (r: Option<(String, String)>)
    ensures
        match r {
            Some(tc) => decode_note_model(args@) == Some((tc.0@, tc.1@)),
            None => decode_note_model(args@) is None,
        },
{
    match args {
        Value::Obj(fields) => {
            let title = match get_field(fields, "title") {
                Some(Prim::Str(s)) => s.clone(),
                _ => {
                    return None;
                },
            };
            let content = match get_field(fields, "content") {
                Some(Prim::Str(s)) => s.clone(),
                _ => {
                    return None;
                },
            };
            Some((title, content))
        },
        _ => None,
    }
}

/// Decode the arguments of "fetch_api_data".
pub fn decode_url(args: &Value) -> (r: Option<String>)
    ensures
        match r {
            Some(url) => decode_url_model(args@) == Some(url@),
            None => decode_url_model(args@) is None,
        },
{
    match args {
        Value::Obj(fields) => match get_field(fields, "url") {
            Some(Prim::Str(s)) => Some(s.clone()),
            _ => None,
        },
        _ => None,
    }
}

/// Decode the arguments of "save_file_content".
pub fn decode_save(args: &Value) -> (r: Option<(String, String)>)
    ensures
        match r {
            Some(pc) => decode_save_model(args@) == Some((pc.0@, pc.1@)),
            None => decode_save_model(args@) is None,
        },
{
    match args {
        Value::Obj(fields) => {
            let path = match get_field(fields, "path") {
                Some(Prim::Str(s)) => s.clone(),
                _ => {
                    return None;
                },
            };
            let content = match get_field(fields, "content") {
                Some(Prim::Str(s)) => s.clone(),
                _ => {
                    return None;
                },
            };
            Some((path, content))
        },
        _ => None,
    }
}

/// Decode the arguments of "read_file_content".
pub fn decode_read(args: &Value) -> (r: Option<String>)
    ensures
        match r {
            Some(path) => decode_read_model(args@) == Some(path@),
            None => decode_read_model(args@) is None,
        },
{
    match args {
        Value::Obj(fields) => match get_field(fields, "path") {
            Some(Prim::Str(s)) => Some(s.clone()),
            _ => None,
        },
        _ => None,
    }
}

/// Dispatch one invocation: resolve the name, check the arguments, and
/// either finish the command natively or describe the one piece of
/// outside work it needs. At most one handler is chosen, and it is chosen
/// at most once per invocation; an unregistered name or ill-shaped
/// arguments are rejected before any handler could run.
pub fn dispatch(registry: &Registry<Handler>, env: &HostEnv, name: &str, args: &Value) -> (step:
    DispatchStep)
    requires
        registry.wf(),
    ensures
        dispatch_post(registry@, env@, name@, args@, step@),
{
    let resolved = registry.resolve(name);
    match resolved {
        None => DispatchStep::Done(CommandResult::Failure(ErrorDescriptor::UnknownCommand)),
        Some(handler) => match handler {
            Handler::GetSystemInfo => {
                let info = get_system_info(env);
                DispatchStep::Done(CommandResult::Success(system_info_to_value(info)))
            },
            Handler::CreateNote => match decode_note(args) {
                None => DispatchStep::Done(
                    CommandResult::Failure(ErrorDescriptor::InvalidArguments),
                ),
                Some((title, content)) => {
                    let ghost title_model = title@;
                    let ghost content_model = content@;
                    let note = create_note(title, content);
                    let payload = note_to_value(note);
                    let step = DispatchStep::Done(CommandResult::Success(payload));
                    proof {
                        let witness = NoteModel {
                            id: note@.id,
                            title: title_model,
                            content: content_model,
                            created_at: note@.created_at,
                            updated_at: note@.created_at,
                        };
                        assert(note@ =~= witness);
                        assert(step@ == note_success_step(
                            note@.id,
                            title_model,
                            content_model,
                            note@.created_at,
                        ));
                    }
                    step
                },
            },
            Handler::PerformHeavyComputation => match decode_heavy(args) {
                None => DispatchStep::Done(
                    CommandResult::Failure(ErrorDescriptor::InvalidArguments),
                ),
                Some(n) => DispatchStep::Done(
                    CommandResult::Success(Value::Prim(Prim::UInt(perform_heavy_computation(n)))),
                ),
            },
            Handler::Double => match decode_double(args) {
                None => DispatchStep::Done(
                    CommandResult::Failure(ErrorDescriptor::InvalidArguments),
                ),
                Some(x) => DispatchStep::Done(
                    CommandResult::Success(Value::Prim(Prim::Int(double(x)))),
                ),
            },
            Handler::FetchApiData => match decode_url(args) {
                None => DispatchStep::Done(
                    CommandResult::Failure(ErrorDescriptor::InvalidArguments),
                ),
                Some(url) => DispatchStep::HttpGet(url),
            },
            Handler::SaveFileContent => match decode_save(args) {
                None => DispatchStep::Done(
                    CommandResult::Failure(ErrorDescriptor::InvalidArguments),
                ),
                Some((path, content)) => DispatchStep::FileWrite(path, content),
            },
            Handler::ReadFileContent => match decode_read(args) {
                None => DispatchStep::Done(
                    CommandResult::Failure(ErrorDescriptor::InvalidArguments),
                ),
                Some(path) => DispatchStep::FileRead(path),
            },
        },
    }
}

/// The bindings the application host registers once at startup: its six
/// commands, each under the name the UI invokes it by.
pub open spec fn app_registry_map() -> Map<Seq<char>, Handler> {
    Map::empty()
        .insert("get_system_info"@, Handler::GetSystemInfo)
        .insert("create_note"@, Handler::CreateNote)
        .insert("perform_heavy_computation"@, Handler::PerformHeavyComputation)
        .insert("fetch_api_data"@, Handler::FetchApiData)
        .insert("save_file_content"@, Handler::SaveFileContent)
        .insert("read_file_content"@, Handler::ReadFileContent)
}

/// Build the application's registry: exactly the six startup bindings,
/// each name bound once. Construction cannot fail because the names are
/// distinct literals.
pub fn build_registry() -> (registry: Registry<Handler>)
    ensures
        registry.wf(),
        registry@ == app_registry_map(),
{
    proof {
        reveal_strlit("get_system_info");
        reveal_strlit("create_note");
        reveal_strlit("perform_heavy_computation");
        reveal_strlit("fetch_api_data");
        reveal_strlit("save_file_content");
        reveal_strlit("read_file_content");
        assert("get_system_info"@.len() == 15);
        assert("create_note"@.len() == 11);
        assert("perform_heavy_computation"@.len() == 25);
        assert("fetch_api_data"@.len() == 14);
        assert("save_file_content"@.len() == 17);
        assert("read_file_content"@.len() == 17);
        assert("save_file_content"@[0] == 's');
        assert("read_file_content"@[0] == 'r');
    }
    let mut registry: Registry<Handler> = Registry::new();
    let _ = registry.register("get_system_info".to_owned(), Handler::GetSystemInfo);
    let _ = registry.register("create_note".to_owned(), Handler::CreateNote);
    let _ = registry.register(
        "perform_heavy_computation".to_owned(),
        Handler::PerformHeavyComputation,
    );
    let _ = registry.register("fetch_api_data".to_owned(), Handler::FetchApiData);
    let _ = registry.register("save_file_content".to_owned(), Handler::SaveFileContent);
    let _ = registry.register("read_file_content".to_owned(), Handler::ReadFileContent);
    registry
}

/// Turn the outcome of a text-producing piece of outside work (an HTTP
/// fetch's body, a file read) into the finished result: the text itself
/// on success, the collaborator's own message as an opaque handler
/// failure otherwise.
pub fn complete_text(outcome: Result<String, String>) -> (r: CommandResult)
    ensures
        outcome matches Ok(text) ==> r@ == ResultModel::Success(
            ValueModel::Prim(PrimModel::Str(text@)),
        ),
        outcome matches Err(message) ==> r@ == ResultModel::Failure(
            ErrorModel::HandlerError(message@),
        ),
{
    match outcome {
        Ok(text) => CommandResult::Success(Value::Prim(Prim::Str(text))),
        Err(message) => CommandResult::Failure(ErrorDescriptor::HandlerError(message)),
    }
}

/// Turn the outcome of a unit-producing piece of outside work (a file
/// write) into the finished result: a null payload on success, the
/// collaborator's own message as an opaque handler failure otherwise.
pub fn complete_unit(outcome: Result<(), String>) -> (r: CommandResult)
    ensures
        outcome is Ok ==> r@ == ResultModel::Success(ValueModel::Prim(PrimModel::Null)),
        outcome matches Err(message) ==> r@ == ResultModel::Failure(
            ErrorModel::HandlerError(message@),
        ),
{
    match outcome {
        Ok(_) => CommandResult::Success(Value::Prim(Prim::Null)),
        Err(message) => CommandResult::Failure(ErrorDescriptor::HandlerError(message)),
    }
}

/// Dispatching an unknown command name yields `UnknownCommand`, invokes
/// no handler and asks the host for no work: the rejection is decided
/// before any handler could be chosen.
pub proof fn lemma_unknown_command(
    reg: Map<Seq<char>, Handler>,
    env: HostEnvModel,
    name: Seq<char>,
    args: ValueModel,
    step: StepModel,
)
    requires
        !reg.dom().contains(name),
        dispatch_post(reg, env, name, args, step),
    ensures
        step == unknown_command_step(),
{
}

/// Dispatching a known command whose raw arguments do not fit its
/// expected shape yields `InvalidArguments`, and the handler is never
/// invoked: the step carries a finished failure and asks the host for no
/// work.
pub proof fn lemma_invalid_arguments(
    reg: Map<Seq<char>, Handler>,
    env: HostEnvModel,
    name: Seq<char>,
    args: ValueModel,
    step: StepModel,
)
    requires
        reg.dom().contains(name),
        !args_well_shaped(reg[name], args),
        dispatch_post(reg, env, name, args, step),
    ensures
        step == invalid_arguments_step(),
{
}

/// No cross-talk, second half: even for "create_note", whose identifier
/// and creation instant come from the outside world, the payload of each
/// dispatch carries exactly its own title and content, whatever any
/// concurrent invocation carried.
pub proof fn lemma_note_own_arguments(
    reg: Map<Seq<char>, Handler>,
    env: HostEnvModel,
    name: Seq<char>,
    args: ValueModel,
    step: StepModel,
    title: Seq<char>,
    content: Seq<char>,
)
    requires
        reg.dom().contains(name),
        reg[name] == Handler::CreateNote,
        decode_note_model(args) == Some((title, content)),
        dispatch_post(reg, env, name, args, step),
    ensures
        exists|id: Seq<char>, ts: int|
            id.len() == 36 && i64::MIN <= ts <= i64::MAX && step == #[trigger] note_success_step(
                id,
                title,
                content,
                ts,
            ),
{
}

/// No cross-talk: for every handler whose outcome is a function of the
/// invocation alone, two dispatches of the same command with different
/// arguments each produce exactly the step owed for their own arguments,
/// whatever the other invocation carried and in whatever order they
/// complete.
pub proof fn lemma_no_cross_talk(
    reg: Map<Seq<char>, Handler>,
    env: HostEnvModel,
    name: Seq<char>,
    args1: ValueModel,
    args2: ValueModel,
    step1: StepModel,
    step2: StepModel,
)
    requires
        reg.dom().contains(name),
        reg[name] != Handler::CreateNote,
        dispatch_post(reg, env, name, args1, step1),
        dispatch_post(reg, env, name, args2, step2),
    ensures
        step1 == step_for(reg[name], env, args1),
        step2 == step_for(reg[name], env, args2),
{
}

} // verus!
