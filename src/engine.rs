//! The sandboxed-execution engine: wasmtime's engine, linker, components,
//! stores and instances, reached through the trusted items below.
use crate::contract::WitValue;
use vstd::prelude::*;
use wasmtime::component::{Component, ComponentExportIndex, Instance, Linker, Val};
use wasmtime::{Config, Engine, Store};

verus! {

/// Data every store of the host carries; plugins get no host functions, so
/// there is nothing in it.
pub struct App {}

impl Default for App {
    fn default() -> (r: Self)
        ensures
            r == (App {  }),
    {
        App {  }
    }
}

#[verifier::external_type_specification]
#[verifier::external_body]
pub struct ExEngine(Engine);

#[verifier::external_type_specification]
#[verifier::external_body]
#[verifier::reject_recursive_types(T)]
pub struct ExLinker<T: 'static>(Linker<T>);

#[verifier::external_type_specification]
#[verifier::external_body]
#[verifier::reject_recursive_types(T)]
pub struct ExStore<T: 'static>(Store<T>);

#[verifier::external_type_specification]
#[verifier::external_body]
pub struct ExComponent(Component);

#[verifier::external_type_specification]
#[verifier::external_body]
pub struct ExInstance(Instance);

#[verifier::external_type_specification]
#[verifier::external_body]
pub struct ExComponentExportIndex(ComponentExportIndex);

#[verifier::external_type_specification]
#[verifier::external_body]
pub struct ExVal(Val);

/// Relies on `wasmtime::Engine::new` over `Config::new()` (which has the
/// component model on) with the sizes of address space that a linear memory
/// reserves set by `Config::memory_reservation`,
/// `Config::memory_reservation_for_growth` and `Config::memory_guard_size`;
/// its error is handed back as text.
#[verifier::external_body]
pub(crate) fn create_engine(reservation: u64, growth: u64, guard: u64) -> (r: Result<Engine, String>) {
    let mut config = Config::new();
    config.memory_reservation(reservation);
    config.memory_reservation_for_growth(growth);
    config.memory_guard_size(guard);
    Engine::new(&config).map_err(|e| format!("{e:#}"))
}

/// Relies on `wasmtime::component::Linker::new`: a linker with no host
/// functions defined.
#[verifier::external_body]
pub(crate) fn create_linker(engine: &Engine) -> (r: Linker<App>) {
    Linker::new(engine)
}

/// Relies on `wasmtime::component::Linker::engine`: the engine the linker
/// was made for.
#[verifier::external_body]
pub(crate) fn linker_engine(linker: &Linker<App>) -> (r: &Engine) {
    linker.engine()
}

/// Relies on `wasmtime::component::Component::new`: validates and compiles a
/// component from its binary (or text) form, failing on anything else.
#[verifier::external_body]
pub(crate) fn compile_component(engine: &Engine, bytes: &[u8]) -> (r: Result<Component, String>) {
    Component::new(engine, bytes).map_err(|e| format!("{e:#}"))
}

/// Relies on `wasmtime::Store::try_new`: a fresh store, failing (rather than
/// panicking as `Store::new` does) when memory runs out.
#[verifier::external_body]
pub(crate) fn create_store(engine: &Engine, data: App) -> (r: Result<Store<App>, String>) {
    Store::try_new(engine, data).map_err(|e| format!("{e:#}"))
}

/// Relies on `wasmtime::component::Linker::instantiate`: runs the
/// component's start-up inside `store`, failing on unmet imports, on a
/// component compiled by another engine, or on a trap. The store must be
/// made from the linker's engine.
#[verifier::external_body]
pub(crate) fn instantiate_in(
    linker: &Linker<App>,
    store: &mut Store<App>,
    component: &Component,
) -> (r: Result<Instance, String>) {
    linker.instantiate(store, component).map_err(|e| format!("{e:#}"))
}

/// Converts a wasmtime value into the host's own value type, case for case;
/// the shapes the contract does not use become `Other`.
#[verifier::external_body]
pub(crate) fn lift_val(v: Val) -> (r: WitValue) {
    match v {
        Val::U32(n) => WitValue::U32(n),
        Val::String(s) => WitValue::Str(s),
        Val::List(items) => WitValue::List(items.into_iter().map(lift_val).collect()),
        Val::Record(fs) => WitValue::Record(fs.into_iter().map(|(k, x)| (k, lift_val(x))).collect()),
        Val::Enum(case) => WitValue::Enum(case),
        Val::Option(x) => WitValue::Opt(x.map(lift_box)),
        Val::Result(x) => WitValue::Res(x.map(|o| o.map(lift_box)).map_err(|o| o.map(lift_box))),
        _ => WitValue::Other,
    }
}

/// Converts a boxed wasmtime value, as `lift_val` does.
#[verifier::external_body]
fn lift_box(b: Box<Val>) -> (r: Box<WitValue>) {
    Box::new(lift_val(*b))
}

} // verus!
