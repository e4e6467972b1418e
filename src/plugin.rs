//! Loaded plugins (module handles) and their single-use execution instances.
use crate::contract::{
    answer_gives, decode_match_answer, decode_plugin_info, is_info_answer, spec_match_answer,
    MatchResult, PluginError, PluginInfo, WitValue,
};
use crate::engine::{compile_component, create_store, instantiate_in, lift_val, linker_engine, App};
use vstd::prelude::*;
use wasmtime::component::{Component, ComponentExportIndex, Instance, Linker, Val};
use wasmtime::Store;

verus! {

/// Failure of one call into a plugin instance.
#[derive(Clone, Debug, PartialEq, Eq)]
pub enum CallError {
    /// The instance lacks the contract's interface or function.
    MissingExport,
    /// The call trapped or was refused by the engine.
    Failed(String),
    /// The answer does not have the shape the contract gives it.
    BadAnswer,
}

/// Why a module file could not be loaded.
#[derive(Clone, Debug, PartialEq, Eq)]
pub enum LoadError {
    /// Not a valid component binary.
    Format(String),
    /// A sandbox for the component could not be set up.
    Instantiate(String),
    /// The identity query failed.
    Identity(CallError),
    /// The module does not export the contract's `match-url`.
    Interface,
}

/// Name of the interface every plugin exports.
pub const INTERFACE: &'static str = "recorder-plugin";

/// The identity query: `get-info` with no arguments.
pub fn info_request() -> (r: (&'static str, Vec<String>))
    ensures
        r.0@ == "get-info"@,
        r.1@.len() == 0,
{
    ("get-info", Vec::new())
}

/// The classification request for `url`: `match-url` with `url` as its only
/// argument.
pub fn match_request(url: &str) -> (r: (&'static str, Vec<String>))
    ensures
        r.0@ == "match-url"@,
        r.1@.len() == 1,
        r.1@[0]@ == url@,
{
    let mut args: Vec<String> = Vec::new();
    args.push(url.to_string());
    ("match-url", args)
}

/// What the identity query gives, from the raw outcome of the call.
pub fn info_from_answer(answer: Result<WitValue, CallError>) -> (r: Result<PluginInfo, CallError>)
    ensures
        match answer {
            Err(e) => r == Err::<PluginInfo, CallError>(e),
            Ok(v) => match r {
                Ok(info) => is_info_answer(v) && answer_gives(v, info) && info.wf(),
                Err(e) => !is_info_answer(v) && e == CallError::BadAnswer,
            },
        },
{
    match answer {
        Err(e) => Err(e),
        Ok(v) => match decode_plugin_info(&v) {
            Some(info) => Ok(info),
            None => Err(CallError::BadAnswer),
        },
    }
}

/// What a URL classification gives, from the raw outcome of the call.
pub fn match_from_answer(answer: Result<WitValue, CallError>) -> (r: Result<
    Result<MatchResult, PluginError>,
    CallError,
>)
    ensures
        match answer {
            Err(e) => r == Err::<Result<MatchResult, PluginError>, CallError>(e),
            Ok(v) => match spec_match_answer(v) {
                Some(m) => r == Ok::<Result<MatchResult, PluginError>, CallError>(m),
                None => r == Err::<Result<MatchResult, PluginError>, CallError>(
                    CallError::BadAnswer,
                ),
            },
        },
{
    match answer {
        Err(e) => Err(e),
        Ok(v) => match decode_match_answer(&v) {
            Some(m) => Ok(m),
            None => Err(CallError::BadAnswer),
        },
    }
}

/// A module that loaded: its compiled component and the identity it
/// reported when it was loaded. Designed for use by one thread.
pub struct PluginObject {
    info: PluginInfo,
    component: Component,
}

impl PluginObject {
    /// The identity reported at load time.
    pub closed spec fn spec_info(&self) -> PluginInfo {
        self.info
    }

    /// What loading makes of a compiled component, given whether it exports
    /// `match-url` and the raw outcome of its identity query: a handle
    /// keeping exactly the decoded identity, or the error of the first step
    /// that failed.
    pub fn from_parts(
        component: Component,
        has_match_url: bool,
        answer: Result<WitValue, CallError>,
    ) -> (r: Result<PluginObject, LoadError>)
        ensures
            !has_match_url ==> r == Err::<PluginObject, LoadError>(LoadError::Interface),
            has_match_url ==> match answer {
                Err(e) => r == Err::<PluginObject, LoadError>(LoadError::Identity(e)),
                Ok(v) => match r {
                    Ok(p) => is_info_answer(v) && answer_gives(v, p.spec_info())
                        && p.spec_info().wf(),
                    Err(e) => !is_info_answer(v) && e == LoadError::Identity(CallError::BadAnswer),
                },
            },
    {
        if !has_match_url {
            return Err(LoadError::Interface);
        }
        match info_from_answer(answer) {
            Ok(info) => Ok(PluginObject { info, component }),
            Err(e) => Err(LoadError::Identity(e)),
        }
    }

    /// Loads a module from the contents of its file: compiles it with the
    /// linker's engine (`Format` on failure), runs it in a sandbox of its own
    /// that is dropped afterwards (`Instantiate`), checks that it exports
    /// `match-url` (`Interface`) and asks it for its identity (`Identity`).
    /// A handle keeps the decoded answer of that query.
    pub fn from_file(linker: &Linker<App>, contents: &[u8]) -> (r: Result<
        PluginObject,
        LoadError,
    >)
        ensures
            r matches Ok(p) ==> p.spec_info().wf() && exists|v: WitValue|
                is_info_answer(v) && #[trigger] answer_gives(v, p.spec_info()),
    {
        let component = match compile_component(linker_engine(linker), contents) {
            Ok(c) => c,
            Err(m) => {
                return Err(LoadError::Format(m));
            },
        };
        let mut probe = match instance_of(linker, &component) {
            Ok(i) => i,
            Err(e) => {
                return Err(e);
            },
        };
        let has_match_url = probe.exports_function(match_request("").0);
        let (name, args) = info_request();
        let answer = probe.call_export(name, args);
        let ghost raw = answer;
        let r = PluginObject::from_parts(component, has_match_url, answer);
        proof {
            if r is Ok {
                assert(is_info_answer(raw->Ok_0) && answer_gives(raw->Ok_0, r->Ok_0.spec_info()));
            }
        }
        r
    }

    /// The identity reported at load time.
    pub fn info(&self) -> (r: &PluginInfo)
        ensures
            *r == self.spec_info(),
    {
        &self.info
    }

    /// A fresh instance of this module, sharing no state with any other.
    /// The linker must be the one the module was loaded with; another one
    /// gives an error.
    pub fn get_instance(&self, linker: &Linker<App>) -> (r: Result<PluginInstance, LoadError>)
        ensures
            r matches Err(e) ==> e is Instantiate,
    {
        instance_of(linker, &self.component)
    }
}

/// A fresh store of the linker's engine with the component instantiated
/// in it.
fn instance_of(linker: &Linker<App>, component: &Component) -> (r: Result<
    PluginInstance,
    LoadError,
>)
    ensures
        r matches Err(e) ==> e is Instantiate,
{
    let mut store = match create_store(linker_engine(linker), App::default()) {
        Ok(s) => s,
        Err(m) => {
            return Err(LoadError::Instantiate(m));
        },
    };
    match instantiate_in(linker, &mut store, component) {
        Ok(instance) => Ok(PluginInstance { store, instance }),
        Err(m) => Err(LoadError::Instantiate(m)),
    }
}

/// One sandboxed execution context of a module, for one interaction. The
/// instance lives in this store and the two are never parted: the trusted
/// items below take the pair, so wasmtime always gets the store that owns
/// the instance.
pub struct PluginInstance {
    store: Store<App>,
    instance: Instance,
}

/// Relies on `wasmtime::component::Instance::get_export_index`, called with
/// the instance's own store: the export `name`, below `parent` where one is
/// given; `None` where there is none (an index of another component finds
/// nothing).
#[verifier::external_body]
fn export_index(
    inst: &mut PluginInstance,
    parent: Option<&ComponentExportIndex>,
    name: &str,
) -> (r: Option<ComponentExportIndex>) {
    inst.instance.get_export_index(&mut inst.store, parent, name)
}

/// Relies on `wasmtime::component::Instance::get_func` and
/// `wasmtime::component::Func::call`, both with the instance's own store, so
/// that the function looked up cannot reach another store: `None` where the
/// export is not a function; else the outcome of calling it with string
/// arguments for one result, where a trap, wrong argument types or a result
/// count other than one are an error.
#[verifier::external_body]
fn call_at(
    inst: &mut PluginInstance,
    index: &ComponentExportIndex,
    args: Vec<String>,
) -> (r: Option<Result<WitValue, String>>) {
    let func = inst.instance.get_func(&mut inst.store, index)?;
    let params: Vec<Val> = args.into_iter().map(Val::String).collect();
    let mut results = vec![Val::Bool(false)];
    Some(match func.call(&mut inst.store, &params, &mut results) {
        Ok(()) => Ok(lift_val(results.remove(0))),
        Err(e) => Err(format!("{e:#}")),
    })
}

impl PluginInstance {
    /// Index of `name` in the contract's interface.
    fn lookup(&mut self, name: &str) -> (r: Option<ComponentExportIndex>) {
        let interface = match export_index(self, None, INTERFACE) {
            Some(i) => i,
            None => {
                return None;
            },
        };
        export_index(self, Some(&interface), name)
    }

    /// Whether the contract's interface exports `name`.
    fn exports_function(&mut self, name: &str) -> (r: bool) {
        self.lookup(name).is_some()
    }

    /// Calls `name` of the contract's interface with string arguments.
    fn call_export(&mut self, name: &str, args: Vec<String>) -> (r: Result<WitValue, CallError>) {
        let index = match self.lookup(name) {
            Some(i) => i,
            None => {
                return Err(CallError::MissingExport);
            },
        };
        match call_at(self, &index, args) {
            None => Err(CallError::MissingExport),
            Some(Ok(v)) => Ok(v),
            Some(Err(m)) => Err(CallError::Failed(m)),
        }
    }

    /// Asks the plugin for its identity, sending `info_request()`.
    pub fn get_info(&mut self) -> (r: Result<PluginInfo, CallError>)
        ensures
            r matches Ok(info) ==> info.wf() && exists|v: WitValue|
                is_info_answer(v) && #[trigger] answer_gives(v, info),
    {
        let (name, args) = info_request();
        let answer = self.call_export(name, args);
        info_from_answer(answer)
    }

    /// Asks the plugin to classify `url`, sending `match_request(url)`; the
    /// inner result is the plugin's own verdict.
    pub fn match_url(&mut self, url: &str) -> (r: Result<Result<MatchResult, PluginError>, CallError>)
        ensures
            r matches Ok(m) ==> exists|v: WitValue| #[trigger] spec_match_answer(v) == Some(m),
    {
        let (name, args) = match_request(url);
        let answer = self.call_export(name, args);
        match_from_answer(answer)
    }
}

} // verus!
