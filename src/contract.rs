//! The capability contract every plugin implements, and the decoding of the
//! dynamic values a plugin hands back into the host's own types.
//!
//! A plugin is a component that exports the instance `recorder-plugin` with
//! two functions:
//!
//! ```text
//! record version { major: u32, minor: u32, build: u32 }
//! record plugin-info {
//!     name: string,
//!     author: option<string>,
//!     description: option<string>,
//!     version: option<version>,
//!     arguments: option<list<string>>,
//! }
//! enum match-result { video }
//! get-info: func() -> plugin-info
//! match-url: func(url: string) -> result<match-result>
//! ```
use vstd::prelude::*;
use vstd::string::*;

verus! {

/// Version triple a plugin reports about itself.
#[derive(Clone, Copy, Debug, PartialEq, Eq, Structural)]
pub struct Version {
    pub major: u32,
    pub minor: u32,
    pub build: u32,
}

/// Identity metadata of a plugin.
#[derive(Clone, Debug)]
pub struct PluginInfo {
    pub name: String,
    pub author: Option<String>,
    pub description: Option<String>,
    pub version: Option<Version>,
    pub arguments: Option<Vec<String>>,
}

impl PluginInfo {
    /// The name is required and non-empty.
    pub open spec fn wf(&self) -> bool {
        self.name@.len() > 0
    }

    /// A copy holding the same values.
    pub fn duplicate(&self) -> (r: PluginInfo)
        ensures
            same_info(r, *self),
    {
        let arguments = match &self.arguments {
            None => None,
            Some(args) => {
                let mut out: Vec<String> = Vec::new();
                let mut i: usize = 0;
                while i < args.len()
                    invariant
                        i <= args@.len(),
                        out@ == args@.take(i as int),
                    decreases args@.len() - i,
                {
                    out.push(args[i].clone());
                    i = i + 1;
                    assert(out@ =~= args@.take(i as int));
                }
                assert(out@ =~= args@);
                Some(out)
            },
        };
        let r = PluginInfo {
            name: self.name.clone(),
            author: copy_opt_string(&self.author),
            description: copy_opt_string(&self.description),
            version: self.version,
            arguments,
        };
        r
    }
}

/// `a` and `b` hold the same values (the argument lists compared by
/// their items).
pub open spec fn same_info(a: PluginInfo, b: PluginInfo) -> bool {
    &&& a.name == b.name
    &&& a.author == b.author
    &&& a.description == b.description
    &&& a.version == b.version
    &&& match (a.arguments, b.arguments) {
        (None, None) => true,
        (Some(x), Some(y)) => x@ == y@,
        _ => false,
    }
}

/// Two sequences of identities that agree item by item.
pub open spec fn same_infos(a: Seq<PluginInfo>, b: Seq<PluginInfo>) -> bool {
    a.len() == b.len() && forall|i: int| 0 <= i < a.len() ==> same_info(#[trigger] a[i], b[i])
}

fn copy_opt_string(s: &Option<String>) -> (r: Option<String>)
    ensures
        r == *s,
{
    match s {
        None => None,
        Some(x) => Some(x.clone()),
    }
}

/// Kind of content a plugin recognises behind a URL.
#[derive(Clone, Copy, Debug, PartialEq, Eq, Structural)]
pub enum MatchResult {
    Video,
}

/// Failure reported by a plugin's own URL classification.
#[derive(Clone, Copy, Debug, PartialEq, Eq, Structural)]
pub struct PluginError {}

/// A component-model value as handed back by a sandboxed call, limited to
/// the shapes the contract uses; every other shape is `Other`.
#[derive(Debug)]
pub enum WitValue {
    U32(u32),
    Str(String),
    List(Vec<WitValue>),
    Record(Vec<(String, WitValue)>),
    Enum(String),
    Opt(Option<Box<WitValue>>),
    Res(Result<Option<Box<WitValue>>, Option<Box<WitValue>>>),
    Other,
}

/// `option<string>`: `Some(None)` for an absent value, `Some(Some(s))` for a
/// present one, `None` when the value has another shape.
pub open spec fn spec_opt_string(v: WitValue) -> Option<Option<String>> {
    match v {
        WitValue::Opt(None) => Some(None),
        WitValue::Opt(Some(b)) => match *b {
            WitValue::Str(s) => Some(Some(s)),
            _ => None,
        },
        _ => None,
    }
}

/// `record version { major: u32, minor: u32, build: u32 }`, fields in order
/// and named so.
pub open spec fn spec_version(v: WitValue) -> Option<Version> {
    match v {
        WitValue::Record(fs) => if fs@.len() == 3 && fs@[0].0@ == "major"@ && fs@[1].0@ == "minor"@
            && fs@[2].0@ == "build"@ {
            match (fs@[0].1, fs@[1].1, fs@[2].1) {
                (WitValue::U32(a), WitValue::U32(b), WitValue::U32(c)) => Some(
                    Version { major: a, minor: b, build: c },
                ),
                _ => None,
            }
        } else {
            None
        },
        _ => None,
    }
}

/// `option<version>`.
pub open spec fn spec_opt_version(v: WitValue) -> Option<Option<Version>> {
    match v {
        WitValue::Opt(None) => Some(None),
        WitValue::Opt(Some(b)) => match spec_version(*b) {
            Some(ver) => Some(Some(ver)),
            None => None,
        },
        _ => None,
    }
}

/// Every item of the list is a string.
pub open spec fn all_strings(items: Seq<WitValue>) -> bool {
    forall|i: int| 0 <= i < items.len() ==> (#[trigger] items[i]) is Str
}

/// `option<list<string>>` is well shaped.
pub open spec fn is_opt_string_list(v: WitValue) -> bool {
    match v {
        WitValue::Opt(None) => true,
        WitValue::Opt(Some(b)) => match *b {
            WitValue::List(items) => all_strings(items@),
            _ => false,
        },
        _ => false,
    }
}

/// `args` holds exactly what the well-shaped `option<list<string>>` `v` holds.
pub open spec fn gives_string_list(v: WitValue, args: Option<Vec<String>>) -> bool {
    match v {
        WitValue::Opt(None) => args is None,
        WitValue::Opt(Some(b)) => match *b {
            WitValue::List(items) => match args {
                Some(a) => a@.len() == items@.len() && forall|i: int|
                    0 <= i < a@.len() ==> items@[i] == WitValue::Str(#[trigger] a@[i]),
                None => false,
            },
            _ => false,
        },
        _ => false,
    }
}

/// The fields of a `plugin-info` record carry their declared names, in
/// declaration order.
pub open spec fn info_fields_named(fs: Seq<(String, WitValue)>) -> bool {
    &&& fs[0].0@ == "name"@
    &&& fs[1].0@ == "author"@
    &&& fs[2].0@ == "description"@
    &&& fs[3].0@ == "version"@
    &&& fs[4].0@ == "arguments"@
}

/// Whether a record field carries the name `name`.
fn field_named(field: &(String, WitValue), name: &str) -> (r: bool)
    ensures
        r == (field.0@ == name@),
{
    field.0 == String::from_str(name)
}

/// The answer of `get-info` is a record of five fields in declaration order
/// (name, author, description, version, arguments), named so, of the right
/// shapes,
/// and the name is not empty.
pub open spec fn is_info_answer(v: WitValue) -> bool {
    match v {
        WitValue::Record(fs) => fs@.len() == 5 && info_fields_named(fs@) && match fs@[0].1 {
            WitValue::Str(name) => name@.len() > 0,
            _ => false,
        } && spec_opt_string(fs@[1].1) is Some && spec_opt_string(fs@[2].1) is Some
            && spec_opt_version(fs@[3].1) is Some && is_opt_string_list(fs@[4].1),
        _ => false,
    }
}

/// `info` holds exactly the fields of the answer `v`.
pub open spec fn answer_gives(v: WitValue, info: PluginInfo) -> bool {
    match v {
        WitValue::Record(fs) => fs@.len() == 5 && fs@[0].1 == WitValue::Str(info.name)
            && spec_opt_string(fs@[1].1) == Some(info.author) && spec_opt_string(fs@[2].1)
            == Some(info.description) && spec_opt_version(fs@[3].1) == Some(info.version)
            && gives_string_list(fs@[4].1, info.arguments),
        _ => false,
    }
}

fn decode_opt_string(v: &WitValue) -> (r: Option<Option<String>>)
    ensures
        r == spec_opt_string(*v),
{
    match v {
        WitValue::Opt(None) => Some(None),
        WitValue::Opt(Some(b)) => match &**b {
            WitValue::Str(s) => Some(Some(s.clone())),
            _ => None,
        },
        _ => None,
    }
}

fn decode_version(v: &WitValue) -> (r: Option<Version>)
    ensures
        r == spec_version(*v),
{
    match v {
        WitValue::Record(fs) => {
            if fs.len() == 3 && field_named(&fs[0], "major") && field_named(&fs[1], "minor")
                && field_named(&fs[2], "build") {
                match (&fs[0].1, &fs[1].1, &fs[2].1) {
                    (WitValue::U32(a), WitValue::U32(b), WitValue::U32(c)) => Some(
                        Version { major: *a, minor: *b, build: *c },
                    ),
                    _ => None,
                }
            } else {
                None
            }
        },
        _ => None,
    }
}

fn decode_opt_version(v: &WitValue) -> (r: Option<Option<Version>>)
    ensures
        r == spec_opt_version(*v),
{
    match v {
        WitValue::Opt(None) => Some(None),
        WitValue::Opt(Some(b)) => match decode_version(&**b) {
            Some(ver) => Some(Some(ver)),
            None => None,
        },
        _ => None,
    }
}

fn decode_string_list(v: &WitValue) -> (r: Option<Option<Vec<String>>>)
    ensures
        r is Some <==> is_opt_string_list(*v),
        r matches Some(a) ==> gives_string_list(*v, a),
{
    match v {
        WitValue::Opt(None) => Some(None),
        WitValue::Opt(Some(b)) => match &**b {
            WitValue::List(items) => {
                let mut out: Vec<String> = Vec::new();
                let mut i: usize = 0;
                while i < items.len()
                    invariant
                        i <= items@.len(),
                        out@.len() == i,
                        is_opt_string_list(*v) == all_strings(items@),
                        forall|a: Option<Vec<String>>|
                            gives_string_list(*v, a) == (a matches Some(x) && x@.len()
                                == items@.len() && forall|j: int|
                                0 <= j < x@.len() ==> items@[j] == WitValue::Str(#[trigger] x@[j])),
                        forall|j: int| 0 <= j < i ==> items@[j] == WitValue::Str(#[trigger] out@[j]),
                    decreases items@.len() - i,
                {
                    match &items[i] {
                        WitValue::Str(s) => {
                            out.push(s.clone());
                        },
                        _ => {
                            assert(!all_strings(items@)) by {
                                assert(!(items@[i as int] is Str));
                            }
                            return None;
                        },
                    }
                    i = i + 1;
                }
                assert(all_strings(items@)) by {
                    assert forall|j: int| 0 <= j < items@.len() implies (#[trigger] items@[j]) is Str by {
                        assert(items@[j] == WitValue::Str(out@[j]));
                    }
                }
                Some(Some(out))
            },
            _ => None,
        },
        _ => None,
    }
}

/// Reads the answer of `get-info`; `None` when it breaks the contract.
pub fn decode_plugin_info(v: &WitValue) -> (r: Option<PluginInfo>)
    ensures
        r is Some <==> is_info_answer(*v),
        r matches Some(info) ==> answer_gives(*v, info) && info.wf(),
{
    match v {
        WitValue::Record(fs) => {
            if fs.len() != 5 {
                return None;
            }
            if !(field_named(&fs[0], "name") && field_named(&fs[1], "author") && field_named(
                &fs[2],
                "description",
            ) && field_named(&fs[3], "version") && field_named(&fs[4], "arguments")) {
                return None;
            }
            let name = match &fs[0].1 {
                WitValue::Str(s) => s.clone(),
                _ => {
                    return None;
                },
            };
            if name.as_str().unicode_len() == 0 {
                return None;
            }
            let author = match decode_opt_string(&fs[1].1) {
                Some(a) => a,
                None => {
                    return None;
                },
            };
            let description = match decode_opt_string(&fs[2].1) {
                Some(d) => d,
                None => {
                    return None;
                },
            };
            let version = match decode_opt_version(&fs[3].1) {
                Some(ver) => ver,
                None => {
                    return None;
                },
            };
            let arguments = match decode_string_list(&fs[4].1) {
                Some(a) => a,
                None => {
                    return None;
                },
            };
            Some(PluginInfo { name, author, description, version, arguments })
        },
        _ => None,
    }
}

/// The answer of `match-url`: `result<match-result, error>` with the
/// classification an enum case; `None` when the answer breaks the contract.
pub open spec fn spec_match_answer(v: WitValue) -> Option<Result<MatchResult, PluginError>> {
    match v {
        WitValue::Res(Ok(Some(b))) => match *b {
            WitValue::Enum(case) => if case@ == "video"@ {
                Some(Ok(MatchResult::Video))
            } else {
                None
            },
            _ => None,
        },
        WitValue::Res(Err(_)) => Some(Err(PluginError {})),
        _ => None,
    }
}

/// Reads the answer of `match-url`.
pub fn decode_match_answer(v: &WitValue) -> (r: Option<Result<MatchResult, PluginError>>)
    ensures
        r == spec_match_answer(*v),
{
    match v {
        WitValue::Res(Ok(Some(b))) => match &**b {
            WitValue::Enum(case) => {
                if *case == String::from_str("video") {
                    Some(Ok(MatchResult::Video))
                } else {
                    None
                }
            },
            _ => None,
        },
        WitValue::Res(Err(_)) => Some(Err(PluginError {})),
        _ => None,
    }
}

} // verus!
