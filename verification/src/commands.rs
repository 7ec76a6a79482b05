//! The native-side command bodies that the bridge can run to completion
//! itself, and the values they produce. Each is an opaque collaborator to
//! the dispatcher: inputs in, a typed value out.

use vstd::prelude::*;
use crate::value::{Prim, PrimModel, Value, ValueModel, fields_model};

verus! {

/// Startup-time facts about the host that the running process cannot
/// change: the operating system and architecture names the host was built
/// for. The application host fills this in once at startup.
#[derive(PartialEq, Eq, Debug, Clone)]
pub struct HostEnv {
    pub os: String,
    pub arch: String,
}

/// The mathematical model of the host facts.
pub struct HostEnvModel {
    pub os: Seq<char>,
    pub arch: Seq<char>,
}

impl View for HostEnv {
    type V = HostEnvModel;

    open spec fn view(&self) -> HostEnvModel {
        HostEnvModel { os: self.os@, arch: self.arch@ }
    }
}

/// What the "get_system_info" command reports.
#[derive(PartialEq, Eq, Debug, Clone)]
pub struct SystemInfo {
    pub os: String,
    pub arch: String,
    pub version: String,
    pub total_memory: u64,
    pub used_memory: u64,
}

/// The mathematical model of a system-information report.
pub struct SystemInfoModel {
    pub os: Seq<char>,
    pub arch: Seq<char>,
    pub version: Seq<char>,
    pub total_memory: int,
    pub used_memory: int,
}

impl View for SystemInfo {
    type V = SystemInfoModel;

    open spec fn view(&self) -> SystemInfoModel {
        SystemInfoModel {
            os: self.os@,
            arch: self.arch@,
            version: self.version@,
            total_memory: self.total_memory as int,
            used_memory: self.used_memory as int,
        }
    }
}

/// The report owed for the host facts: the host's own names, a fixed
/// version string, and fixed placeholder memory figures (8 GiB total,
/// 4 GiB used).
pub open spec fn system_info_of(env: HostEnvModel) -> SystemInfoModel {
    SystemInfoModel {
        os: env.os,
        arch: env.arch,
        version: "1.0.0"@,
        total_memory: 8589934592int,
        used_memory: 4294967296int,
    }
}

/// The "get_system_info" command body: report the host facts it was
/// started with, a fixed version and placeholder memory figures. It cannot
/// fail.
pub fn get_system_info(env: &HostEnv) -> (info: SystemInfo)
    ensures
        info@ == system_info_of(env@),
{
    SystemInfo {
        os: env.os.clone(),
        arch: env.arch.clone(),
        version: "1.0.0".to_owned(),
        total_memory: 8 * 1024 * 1024 * 1024,
        used_memory: 4 * 1024 * 1024 * 1024,
    }
}

/// An unpersisted note, as the "create_note" command returns it. Creation
/// times are milliseconds since the Unix epoch.
#[derive(PartialEq, Eq, Debug, Clone)]
pub struct Note {
    pub id: String,
    pub title: String,
    pub content: String,
    pub created_at: i64,
    pub updated_at: i64,
}

/// The mathematical model of a note.
#[verifier::ext_equal]
pub struct NoteModel {
    pub id: Seq<char>,
    pub title: Seq<char>,
    pub content: Seq<char>,
    pub created_at: int,
    pub updated_at: int,
}

impl View for Note {
    type V = NoteModel;

    open spec fn view(&self) -> NoteModel {
        NoteModel {
            id: self.id@,
            title: self.title@,
            content: self.content@,
            created_at: self.created_at as int,
            updated_at: self.updated_at as int,
        }
    }
}

/// Relies on `uuid::Uuid::new_v4` and the `Display` rendering of `Uuid`: a
/// freshly generated random (version 4) identifier in the hyphenated form,
/// which is always 36 characters long. The identifier itself is random, so
/// nothing more is promised of it.
#[verifier::external_body]
fn fresh_note_id() -> (id: String)
    ensures
        id@.len() == 36,
{
    uuid::Uuid::new_v4().to_string()
}

/// Relies on `chrono::Utc::now` and `DateTime::timestamp_millis`: the
/// current wall-clock time in milliseconds since the Unix epoch. The value
/// depends on the clock, so nothing is promised of it.
#[verifier::external_body]
fn current_time_millis() -> i64 {
    chrono::Utc::now().timestamp_millis()
}

/// Assemble a note from its parts; both timestamps are the one creation
/// instant.
pub fn make_note(id: String, title: String, content: String, timestamp: i64) -> (note: Note)
    ensures
        note@ == (NoteModel {
            id: id@,
            title: title@,
            content: content@,
            created_at: timestamp as int,
            updated_at: timestamp as int,
        }),
{
    Note { id, title, content, created_at: timestamp, updated_at: timestamp }
}

/// The "create_note" command body: a note carrying the given title and
/// content, a fresh 36-character identifier, and one creation instant in
/// both timestamps. The identifier and the instant come from the outside
/// world, so only their shape is promised.
pub fn create_note(title: String, content: String) -> (note: Note)
    ensures
        note@.title == title@,
        note@.content == content@,
        note@.created_at == note@.updated_at,
        note@.id.len() == 36,
        i64::MIN <= note@.created_at <= i64::MAX,
{
    let id = fresh_note_id();
    let now = current_time_millis();
    make_note(id, title, content, now)
}

/// One term of the busy-loop computation: the square of the index, wrapped
/// at the machine width, reduced below one million.
pub open spec fn heavy_term(i: u64) -> u64 {
    vstd::wrapping::u64_specs::wrapping_mul(i, i) % 1000000
}

/// The busy-loop computation's value after `n` iterations: the wrapping
/// sum of the first `n` terms.
pub open spec fn heavy_sum(n: u64) -> u64
    decreases n,
{
    if n == 0 {
        0u64
    } else {
        vstd::wrapping::u64_specs::wrapping_add(heavy_sum((n - 1) as u64), heavy_term((n - 1) as u64))
    }
}

/// The "perform_heavy_computation" command body: a CPU-bound busy loop
/// whose value is exactly the wrapping sum of the squares of the first
/// `iterations` indices, each reduced below one million. It cannot fail.
pub fn perform_heavy_computation(iterations: u64) -> (result: u64)
    ensures
        result == heavy_sum(iterations),
{
    let mut result: u64 = 0;
    let mut i: u64 = 0;
    while i < iterations
        invariant
            0 <= i <= iterations,
            result == heavy_sum(i),
        decreases iterations - i,
    {
        result = result.wrapping_add(i.wrapping_mul(i) % 1000000);
        i = i + 1;
    }
    result
}

/// What the "double" command returns for `x`: twice `x`, wrapped at the
/// machine width.
pub open spec fn double_model(x: i64) -> i64 {
    vstd::wrapping::i64_specs::wrapping_mul(x, 2)
}

/// The "double" command body.
pub fn double(x: i64) -> (r: i64)
    ensures
        r == double_model(x),
{
    x.wrapping_mul(2)
}

/// The payload shape of a note on the wire.
pub open spec fn note_value_model(n: NoteModel) -> ValueModel {
    ValueModel::Obj(
        seq![
            ("id"@, PrimModel::Str(n.id)),
            ("title"@, PrimModel::Str(n.title)),
            ("content"@, PrimModel::Str(n.content)),
            ("created_at"@, PrimModel::Num(n.created_at)),
            ("updated_at"@, PrimModel::Num(n.updated_at)),
        ],
    )
}

/// Encode a note as its boundary payload.
pub fn note_to_value(note: Note) -> (v: Value)
    ensures
        v@ == note_value_model(note@),
{
    let ghost model = note@;
    let Note { id, title, content, created_at, updated_at } = note;
    let mut fields: Vec<(String, Prim)> = Vec::new();
    fields.push(("id".to_owned(), Prim::Str(id)));
    fields.push(("title".to_owned(), Prim::Str(title)));
    fields.push(("content".to_owned(), Prim::Str(content)));
    fields.push(("created_at".to_owned(), Prim::Int(created_at)));
    fields.push(("updated_at".to_owned(), Prim::Int(updated_at)));
    let v = Value::Obj(fields);
    proof {
        let fs = fields_model(fields@);
        assert(fs[0] == ("id"@, PrimModel::Str(model.id)));
        assert(fs[1] == ("title"@, PrimModel::Str(model.title)));
        assert(fs[2] == ("content"@, PrimModel::Str(model.content)));
        assert(fs[3] == ("created_at"@, PrimModel::Num(model.created_at)));
        assert(fs[4] == ("updated_at"@, PrimModel::Num(model.updated_at)));
        assert(fs =~= note_value_model(model)->Obj_0);
    }
    v
}

/// The payload shape of a system-information report on the wire.
pub open spec fn system_info_value_model(info: SystemInfoModel) -> ValueModel {
    ValueModel::Obj(
        seq![
            ("os"@, PrimModel::Str(info.os)),
            ("arch"@, PrimModel::Str(info.arch)),
            ("version"@, PrimModel::Str(info.version)),
            ("total_memory"@, PrimModel::Num(info.total_memory)),
            ("used_memory"@, PrimModel::Num(info.used_memory)),
        ],
    )
}

/// Encode a system-information report as its boundary payload.
pub fn system_info_to_value(info: SystemInfo) -> (v: Value)
    ensures
        v@ == system_info_value_model(info@),
{
    let ghost model = info@;
    let SystemInfo { os, arch, version, total_memory, used_memory } = info;
    let mut fields: Vec<(String, Prim)> = Vec::new();
    fields.push(("os".to_owned(), Prim::Str(os)));
    fields.push(("arch".to_owned(), Prim::Str(arch)));
    fields.push(("version".to_owned(), Prim::Str(version)));
    fields.push(("total_memory".to_owned(), Prim::UInt(total_memory)));
    fields.push(("used_memory".to_owned(), Prim::UInt(used_memory)));
    let v = Value::Obj(fields);
    proof {
        let fs = fields_model(fields@);
        assert(fs[0] == ("os"@, PrimModel::Str(model.os)));
        assert(fs[1] == ("arch"@, PrimModel::Str(model.arch)));
        assert(fs[2] == ("version"@, PrimModel::Str(model.version)));
        assert(fs[3] == ("total_memory"@, PrimModel::Num(model.total_memory)));
        assert(fs[4] == ("used_memory"@, PrimModel::Num(model.used_memory)));
        assert(fs =~= system_info_value_model(model)->Obj_0);
    }
    v
}

} // verus!
