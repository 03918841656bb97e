//! The trusted boundary around the embedded script engine (`mlua`).
//!
//! Everything the library asks of the interpreter goes through the small
//! wrappers here. Each wrapper makes one call into `mlua` and converts its
//! arguments and result; the rest of the library is verified against the
//! wrappers' contracts. A session's values (tables, functions) are opaque
//! to the verified code: it moves them, stores registry keys to them, and
//! decides from the outcome of each call, but never promises anything a
//! script could break.

use vstd::prelude::*;

use std::cell::RefCell;
use std::rc::Rc;

use crate::records::LogBuffer;

verus! {

#[verifier::external_type_specification]
#[verifier::external_body]
pub struct ExLua(mlua::Lua);

#[verifier::external_type_specification]
#[verifier::external_body]
pub struct ExTable<'lua>(mlua::Table<'lua>);

#[verifier::external_type_specification]
#[verifier::external_body]
pub struct ExFunction<'lua>(mlua::Function<'lua>);

#[verifier::external_type_specification]
#[verifier::external_body]
pub struct ExRegistryKey(mlua::RegistryKey);

#[verifier::external_type_specification]
#[verifier::external_body]
pub struct ExLuaError(mlua::Error);

#[verifier::external_type_specification]
#[verifier::external_body]
#[verifier::reject_recursive_types(T)]
pub struct ExRefCell<T: ?Sized>(RefCell<T>);

/// Relies on `mlua::Lua::new_with`: with the restricted standard-library
/// set used here (math, string, utf8, table, package — no io, os or
/// debug), its only error path (the unsafe `debug` module) is never taken,
/// so it always returns a fresh session.
#[verifier::external_body]
pub(crate) fn new_session() -> mlua::Lua {
    let libs = mlua::StdLib::MATH | mlua::StdLib::STRING | mlua::StdLib::UTF8
        | mlua::StdLib::TABLE | mlua::StdLib::PACKAGE;
    mlua::Lua::new_with(libs, mlua::LuaOptions::default())
        .expect("a safe standard-library set cannot be refused")
}

/// Relies on `mlua::Lua::create_function` and `mlua::Table::set`: installs
/// a `print` global that concatenates its arguments into one `Print`
/// record on `sink` (the closure only converts and calls the library's
/// `LogBuffer::append_print`). It takes the sink with `try_borrow_mut`: a
/// print from script code that runs while the host holds the sink cannot
/// panic the host — such a print is dropped instead.
#[verifier::external_body]
pub(crate) fn install_print(lua: &mlua::Lua, sink: &Rc<RefCell<LogBuffer>>) -> Result<
    (),
    mlua::Error,
> {
    let sink = Rc::clone(sink);
    let f = lua.create_function(move |_, parts: mlua::Variadic<String>| {
        let parts: Vec<String> = parts.into_iter().collect();
        if let Ok(mut records) = sink.try_borrow_mut() {
            records.append_print(&parts);
        }
        Ok(())
    })?;
    lua.globals().set("print", f)
}

/// Relies on `mlua::Table::raw_set` on the globals table: removes the
/// global named `name`. The interpreter's base library pre-defines a
/// `load` global; clearing it lets the hook lookup see only a binding the
/// plugin's own chunk made.
#[verifier::external_body]
pub(crate) fn clear_global(lua: &mlua::Lua, name: &str) -> Result<(), mlua::Error> {
    lua.globals().raw_set(name, mlua::Value::Nil)
}

/// Relies on `mlua::Lua::load` and `mlua::Chunk::exec`: runs `source` as
/// one top-level chunk; a syntax or runtime error comes back as `Err`.
#[verifier::external_body]
pub(crate) fn exec_chunk(lua: &mlua::Lua, source: &str) -> Result<(), mlua::Error> {
    lua.load(source).exec()
}

/// Relies on `mlua::Table::get` on the globals table: yields the global
/// named `name` if it currently holds a function, and `None` otherwise.
#[verifier::external_body]
pub(crate) fn get_global_function<'lua>(lua: &'lua mlua::Lua, name: &str) -> Option<
    mlua::Function<'lua>,
> {
    match lua.globals().get::<_, Option<mlua::Function>>(name) {
        Ok(f) => f,
        Err(_) => None,
    }
}

/// Relies on `mlua::Function::call`: invokes the function with no
/// arguments, discarding any returned values; a raised error comes back as
/// `Err`.
#[verifier::external_body]
pub(crate) fn call_function_no_args(f: &mlua::Function) -> Result<(), mlua::Error> {
    f.call::<_, ()>(())
}

/// Relies on `mlua::Lua::create_registry_value`: stores the table in the
/// session's registry by reference and yields its key, so that later reads
/// observe mutations the script makes to the same table.
#[verifier::external_body]
pub(crate) fn registry_slot<'lua>(lua: &'lua mlua::Lua, table: mlua::Table<'lua>) -> Result<
    mlua::RegistryKey,
    mlua::Error,
> {
    lua.create_registry_value(table)
}

/// Relies on `mlua::Lua::registry_value`: resolves a registry key back to
/// the table it was created from; `None` if the key does not refer to a
/// table of this session.
#[verifier::external_body]
pub(crate) fn resolve_slot_table<'lua>(lua: &'lua mlua::Lua, slot: &mlua::RegistryKey) -> Option<
    mlua::Table<'lua>,
> {
    lua.registry_value::<mlua::Table>(slot).ok()
}

/// Relies on `mlua::Table::get`: yields the string under `field`, `None`
/// when the field is absent or holds no string-coercible value.
#[verifier::external_body]
pub(crate) fn table_text_field(table: &mlua::Table, field: &str) -> Option<String> {
    match table.get::<_, Option<String>>(field) {
        Ok(v) => v,
        Err(_) => None,
    }
}

/// Relies on `mlua::Table::get`: yields the function under `field`, `None`
/// when the field is absent or holds no function.
#[verifier::external_body]
pub(crate) fn table_function_field<'lua>(table: &mlua::Table<'lua>, field: &str) -> Option<
    mlua::Function<'lua>,
> {
    match table.get::<_, Option<mlua::Function>>(field) {
        Ok(v) => v,
        Err(_) => None,
    }
}

/// Relies on `mlua::Error`'s `Debug` impl: renders the error as text for a
/// log record.
#[verifier::external_body]
pub(crate) fn format_error(e: &mlua::Error) -> String {
    format!("{:?}", e)
}

/// Relies on `std::cell::RefCell::replace`: swaps the shared sink's
/// contents for the given buffer and yields what was there. Only the host
/// calls it, at frame end, when no borrow of the sink is live.
#[verifier::external_body]
pub(crate) fn swap_sink(sink: &Rc<RefCell<LogBuffer>>, replacement: LogBuffer) -> LogBuffer {
    sink.replace(replacement)
}

} // verus!
