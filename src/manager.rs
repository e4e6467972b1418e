//! The plugin registry: discovery of module files, the loaded modules in
//! discovery order, and the selection of the plugin that answers a URL.
use crate::contract::{same_info, same_infos, MatchResult, PluginError, PluginInfo};
use crate::engine::{create_engine, create_linker, App};
use crate::plugin::{CallError, LoadError, PluginObject};
use vstd::prelude::*;
use wasmtime::component::Linker;

verus! {

/// What one plugin answered to a URL: its classification, its own refusal,
/// or a failure of the call.
pub type Answer = Result<Result<MatchResult, PluginError>, CallError>;

/// A path names a module file: its last component has the extension `wasm`
/// (`.wasm` alone is a name without extension).
pub open spec fn is_plugin_path_spec(p: Seq<char>) -> bool {
    &&& p.len() > 5
    &&& p.subrange(p.len() - 5, p.len() as int) == seq!['.', 'w', 'a', 's', 'm']
    &&& p[p.len() - 6] != '/'
}

/// Whether `path` names a module file.
pub fn is_plugin_path(path: &str) -> (r: bool)
    ensures
        r == is_plugin_path_spec(path@),
{
    let n = path.unicode_len();
    if n <= 5 {
        return false;
    }
    let tail_ok = path.get_char(n - 5) == '.' && path.get_char(n - 4) == 'w' && path.get_char(n - 3)
        == 'a' && path.get_char(n - 2) == 's' && path.get_char(n - 1) == 'm';
    let r = tail_ok && path.get_char(n - 6) != '/';
    proof {
        let p = path@;
        let tail = p.subrange(n - 5, n as int);
        assert(tail =~= seq![p[n - 5], p[n - 4], p[n - 3], p[n - 2], p[n - 1]]);
        if tail == seq!['.', 'w', 'a', 's', 'm'] {
            assert(tail[0] == '.' && tail[1] == 'w' && tail[2] == 'a' && tail[3] == 's' && tail[4]
                == 'm');
        }
    }
    r
}

/// A file found by the walk of the plugin directory, with its contents or
/// the reason they could not be read.
#[derive(Debug)]
pub struct Candidate {
    pub path: String,
    pub contents: Result<Vec<u8>, String>,
}

/// What became of one candidate.
#[derive(Debug)]
pub enum Outcome {
    /// Not a module file; left alone.
    Skipped,
    /// A module file whose contents could not be read.
    Unreadable(String),
    /// A module file that did not load.
    Failed(LoadError),
    /// A module that loaded, with the identity it reported.
    Loaded(PluginInfo),
}

/// The outcome for the candidate at `path`.
#[derive(Debug)]
pub struct LoadReport {
    pub path: String,
    pub outcome: Outcome,
}

/// The identities of the loaded modules among `reports`, in order.
pub open spec fn loaded_infos(reports: Seq<LoadReport>) -> Seq<PluginInfo>
    decreases reports.len(),
{
    if reports.len() == 0 {
        Seq::empty()
    } else {
        let rest = loaded_infos(reports.drop_last());
        match reports.last().outcome {
            Outcome::Loaded(info) => rest.push(info),
            _ => rest,
        }
    }
}

/// Number of reports whose module did not load (skipped, unreadable or
/// failed).
pub open spec fn not_loaded_count(reports: Seq<LoadReport>) -> nat
    decreases reports.len(),
{
    if reports.len() == 0 {
        0
    } else {
        not_loaded_count(reports.drop_last()) + if reports.last().outcome is Loaded {
            0nat
        } else {
            1nat
        }
    }
}

proof fn lemma_reports_push(reports: Seq<LoadReport>, r: LoadReport)
    ensures
        loaded_infos(reports.push(r)) == (match r.outcome {
            Outcome::Loaded(info) => loaded_infos(reports).push(info),
            _ => loaded_infos(reports),
        }),
        not_loaded_count(reports.push(r)) == not_loaded_count(reports) + if r.outcome is Loaded {
            0nat
        } else {
            1nat
        },
{
    assert(reports.push(r).drop_last() =~= reports);
}

/// Of a discovery's reports, the loaded ones and the others together make
/// up all of them: every candidate either becomes a handle or is left out.
pub proof fn lemma_discovery_partition(reports: Seq<LoadReport>)
    ensures
        loaded_infos(reports).len() + not_loaded_count(reports) == reports.len(),
    decreases reports.len(),
{
    if reports.len() > 0 {
        lemma_discovery_partition(reports.drop_last());
    }
}

/// The loaded identities of two runs of reports, one after the other, are
/// those of the first run followed by those of the second.
pub proof fn lemma_loaded_infos_concat(a: Seq<LoadReport>, b: Seq<LoadReport>)
    ensures
        loaded_infos(a + b) == loaded_infos(a) + loaded_infos(b),
    decreases b.len(),
{
    if b.len() == 0 {
        assert(a + b =~= a);
        assert(loaded_infos(a) + loaded_infos(b) =~= loaded_infos(a));
    } else {
        lemma_loaded_infos_concat(a, b.drop_last());
        assert((a + b).drop_last() =~= a + b.drop_last());
        assert((a + b).last() == b.last());
        match b.last().outcome {
            Outcome::Loaded(info) => {
                assert(loaded_infos(a) + loaded_infos(b.drop_last()).push(info) =~= (loaded_infos(a)
                    + loaded_infos(b.drop_last())).push(info));
            },
            _ => {},
        }
    }
}

/// A candidate that did not load (not a module file, unreadable, or a
/// module that failed, for instance by trapping when asked for its
/// identity) changes nothing in the registry, wherever it stands among the
/// others.
pub proof fn lemma_failure_is_contained(a: Seq<LoadReport>, r: LoadReport, b: Seq<LoadReport>)
    requires
        !(r.outcome is Loaded),
    ensures
        loaded_infos(a.push(r) + b) == loaded_infos(a + b),
{
    lemma_loaded_infos_concat(a.push(r), b);
    lemma_loaded_infos_concat(a, b);
    lemma_reports_push(a, r);
}

/// Address space a plugin's linear memory reserves up front, in bytes.
pub const MEMORY_RESERVATION: u64 = 16777216;

/// Address space reserved beyond a linear memory for it to grow into.
pub const MEMORY_GROWTH_RESERVATION: u64 = 16777216;

/// Unmapped guard region after a linear memory.
pub const MEMORY_GUARD: u64 = 65536;

/// The registry of loaded plugins, with the linker (and through it the
/// engine) they run on.
pub struct PluginManager {
    linker: Linker<App>,
    plugins: Vec<PluginObject>,
}

impl PluginManager {
    /// The identities of the loaded modules, in discovery order.
    pub closed spec fn infos(&self) -> Seq<PluginInfo> {
        self.plugins@.map_values(|p: PluginObject| p.spec_info())
    }

    /// Every loaded module reported a name.
    pub open spec fn wf(&self) -> bool {
        forall|i: int| 0 <= i < self.infos().len() ==> (#[trigger] self.infos()[i]).wf()
    }

    /// An empty registry over a new engine.
    pub fn new() -> (r: Result<PluginManager, String>)
        ensures
            r matches Ok(pm) ==> pm.infos().len() == 0 && pm.wf(),
    {
        let engine = match create_engine(MEMORY_RESERVATION, MEMORY_GROWTH_RESERVATION, MEMORY_GUARD) {
            Ok(e) => e,
            Err(m) => {
                return Err(m);
            },
        };
        let linker = create_linker(&engine);
        let pm = PluginManager { linker, plugins: Vec::new() };
        assert(pm.infos() =~= Seq::<PluginInfo>::empty());
        Ok(pm)
    }

    /// Number of loaded modules.
    pub fn plugin_count(&self) -> (r: usize)
        ensures
            r == self.infos().len(),
    {
        self.plugins.len()
    }

    /// The module loaded `i`-th.
    pub fn plugin(&self, i: usize) -> (r: &PluginObject)
        requires
            i < self.infos().len(),
        ensures
            r.spec_info() == self.infos()[i as int],
    {
        &self.plugins[i]
    }

    /// The linker the modules are instantiated with.
    pub fn linker(&self) -> &Linker<App> {
        &self.linker
    }

    /// Loads one module from its file's contents and appends it on success;
    /// on failure the registry is unchanged.
    pub fn load_plugin(&mut self, contents: &[u8]) -> (r: Result<PluginInfo, LoadError>)
        requires
            old(self).wf(),
        ensures
            final(self).wf(),
            match r {
                Ok(info) => {
                    &&& info.wf()
                    &&& final(self).infos().len() == old(self).infos().len() + 1
                    &&& final(self).infos().drop_last() == old(self).infos()
                    &&& same_info(final(self).infos().last(), info)
                },
                Err(_) => final(self).infos() == old(self).infos(),
            },
    {
        match PluginObject::from_file(&self.linker, contents) {
            Ok(p) => {
                let info = p.info().duplicate();
                self.plugins.push(p);
                assert(self.infos() =~= old(self).infos().push(p.spec_info()));
                assert(self.infos().drop_last() =~= old(self).infos());
                Ok(info)
            },
            Err(e) => Err(e),
        }
    }

    /// Goes through the candidates in order: a module file is loaded and,
    /// if it loads, appended; anything else is reported and left out. No
    /// failure stops the walk.
    pub fn discover(&mut self, candidates: &Vec<Candidate>) -> (reports: Vec<LoadReport>)
        requires
            old(self).wf(),
        ensures
            final(self).wf(),
            reports@.len() == candidates@.len(),
            forall|i: int|
                0 <= i < reports@.len() ==> {
                    let c = candidates@[i];
                    let o = (#[trigger] reports@[i]).outcome;
                    &&& reports@[i].path == c.path
                    &&& (o is Skipped <==> !is_plugin_path_spec(c.path@))
                    &&& (is_plugin_path_spec(c.path@) ==> match c.contents {
                        Err(m) => o == Outcome::Unreadable(m),
                        Ok(_) => o is Failed || o is Loaded,
                    })
                    &&& (o matches Outcome::Loaded(info) ==> info.wf())
                },
            same_infos(final(self).infos(), old(self).infos() + loaded_infos(reports@)),
    {
        let mut reports: Vec<LoadReport> = Vec::new();
        let mut i: usize = 0;
        while i < candidates.len()
            invariant
                i <= candidates@.len(),
                self.wf(),
                reports@.len() == i,
                forall|k: int|
                    0 <= k < i ==> {
                        let c = candidates@[k];
                        let o = (#[trigger] reports@[k]).outcome;
                        &&& reports@[k].path == c.path
                        &&& (o is Skipped <==> !is_plugin_path_spec(c.path@))
                        &&& (is_plugin_path_spec(c.path@) ==> match c.contents {
                            Err(m) => o == Outcome::Unreadable(m),
                            Ok(_) => o is Failed || o is Loaded,
                        })
                        &&& (o matches Outcome::Loaded(info) ==> info.wf())
                    },
                same_infos(self.infos(), old(self).infos() + loaded_infos(reports@)),
            decreases candidates@.len() - i,
        {
            let c = &candidates[i];
            let ghost before = self.infos();
            let outcome = if !is_plugin_path(c.path.as_str()) {
                Outcome::Skipped
            } else {
                match &c.contents {
                    Err(m) => Outcome::Unreadable(m.clone()),
                    Ok(bytes) => match self.load_plugin(bytes.as_slice()) {
                        Ok(info) => Outcome::Loaded(info),
                        Err(e) => Outcome::Failed(e),
                    },
                }
            };
            let report = LoadReport { path: c.path.clone(), outcome };
            proof {
                lemma_reports_push(reports@, report);
                let prev = old(self).infos() + loaded_infos(reports@);
                if report.outcome is Loaded {
                    let now = old(self).infos() + loaded_infos(reports@.push(report));
                    assert(now =~= prev.push(report.outcome->Loaded_0));
                    assert forall|k: int| 0 <= k < now.len() implies same_info(
                        #[trigger] self.infos()[k],
                        now[k],
                    ) by {
                        if k < prev.len() {
                            assert(self.infos()[k] == before[k]);
                        }
                    }
                } else {
                    assert(old(self).infos() + loaded_infos(reports@.push(report)) =~= prev);
                }
            }
            reports.push(report);
            i = i + 1;
        }
        reports
    }
}

/// `r` is the selection over `answers`, given in registry order: the
/// earliest answer that is a classification wins.
pub open spec fn selects(answers: Seq<Answer>, r: Option<(usize, MatchResult)>) -> bool {
    match r {
        Some((i, m)) => {
            &&& i < answers.len()
            &&& answers[i as int] == Answer::Ok(Ok(m))
            &&& forall|j: int| 0 <= j < i ==> !(#[trigger] answers[j] matches Ok(Ok(_)))
        },
        None => forall|j: int| 0 <= j < answers.len() ==> !(#[trigger] answers[j] matches Ok(Ok(_))),
    }
}

/// The first plugin, in registry order, whose answer is a classification,
/// with that classification.
pub fn first_match(answers: &Vec<Answer>) -> (r: Option<(usize, MatchResult)>)
    ensures
        selects(answers@, r),
{
    let mut i: usize = 0;
    while i < answers.len()
        invariant
            i <= answers@.len(),
            forall|j: int| 0 <= j < i ==> !(#[trigger] answers@[j] matches Ok(Ok(_))),
        decreases answers@.len() - i,
    {
        match &answers[i] {
            Ok(Ok(m)) => {
                return Some((i, *m));
            },
            _ => {},
        }
        i = i + 1;
    }
    None
}

/// The selection is unique: the same answers never select two different
/// plugins or classifications.
pub proof fn lemma_selection_unique(
    answers: Seq<Answer>,
    a: Option<(usize, MatchResult)>,
    b: Option<(usize, MatchResult)>,
)
    requires
        selects(answers, a),
        selects(answers, b),
    ensures
        a == b,
{
    match (a, b) {
        (Some((i, m)), Some((j, n))) => {
            if i < j {
                assert(answers[i as int] matches Ok(Ok(_)));
            } else if j < i {
                assert(answers[j as int] matches Ok(Ok(_)));
            }
        },
        (Some((i, m)), None) => {
            assert(answers[i as int] matches Ok(Ok(_)));
        },
        (None, Some((j, n))) => {
            assert(answers[j as int] matches Ok(Ok(_)));
        },
        (None, None) => {},
    }
}

/// Why the host does not start.
#[derive(Clone, Copy, Debug, PartialEq, Eq, Structural)]
pub enum StartError {
    /// No module loaded: the host has no work to do.
    NoPlugins,
}

impl StartError {
    /// The message shown for the error.
    pub fn message(&self) -> (r: &'static str)
        ensures
            r@ == "no plugin exists"@,
    {
        match self {
            StartError::NoPlugins => "no plugin exists",
        }
    }
}

/// The outward-facing host: owns the registry for the life of the process.
pub struct Server {
    pm: PluginManager,
}

impl Server {
    pub closed spec fn manager_spec(&self) -> PluginManager {
        self.pm
    }

    /// Starts the host over a discovered registry; refuses to start when no
    /// module loaded.
    pub fn new(pm: PluginManager) -> (r: Result<Server, StartError>)
        ensures
            r is Err <==> pm.infos().len() == 0,
            r matches Err(e) ==> e == StartError::NoPlugins,
            r matches Ok(s) ==> s.manager_spec() == pm,
    {
        if pm.plugin_count() < 1 {
            return Err(StartError::NoPlugins);
        }
        Ok(Server { pm })
    }

    /// The registry.
    pub fn manager(&self) -> (r: &PluginManager)
        ensures
            *r == self.manager_spec(),
    {
        &self.pm
    }

    /// The answer of the `i`-th plugin to `url`, from a fresh instance of it;
    /// an instance that cannot be made is a failed call.
    pub fn ask(&self, i: usize, url: &str) -> (r: Answer)
        requires
            i < self.manager_spec().infos().len(),
    {
        match self.pm.plugin(i).get_instance(&self.pm.linker) {
            Ok(mut instance) => instance.match_url(url),
            Err(LoadError::Instantiate(m)) => Err(CallError::Failed(m)),
            Err(_) => vstd::pervasive::unreached(),
        }
    }

    /// Asks the plugins in registry order, each through `ask`, until one
    /// classifies `url`. Returns the selection together with the answers
    /// received: it stops right after the first classification, and when
    /// nothing matched every plugin was asked.
    pub fn dispatch(&self, url: &str) -> (r: (Option<(usize, MatchResult)>, Vec<Answer>))
        ensures
            selects(r.1@, r.0),
            r.1@.len() <= self.manager_spec().infos().len(),
            r.0 is None ==> r.1@.len() == self.manager_spec().infos().len(),
            r.0 matches Some((i, _)) ==> r.1@.len() == i + 1,
    {
        let n = self.pm.plugin_count();
        let mut answers: Vec<Answer> = Vec::new();
        let mut found = false;
        while !found && answers.len() < n
            invariant
                n == self.manager_spec().infos().len(),
                answers@.len() <= n,
                found ==> answers@.len() >= 1 && answers@.last() matches Ok(Ok(_)),
                forall|j: int|
                    0 <= j < answers@.len() - (if found { 1int } else { 0int }) ==> !(
                    #[trigger] answers@[j] matches Ok(Ok(_))),
            decreases n - answers@.len() + (if found { 0int } else { 1int }),
        {
            let answer = self.ask(answers.len(), url);
            found = answer matches Ok(Ok(_));
            answers.push(answer);
        }
        let r = first_match(&answers);
        proof {
            let len = answers@.len();
            if found {
                let m = answers@[len - 1]->Ok_0->Ok_0;
                assert(selects(answers@, Some(((len - 1) as usize, m))));
                lemma_selection_unique(answers@, r, Some(((len - 1) as usize, m)));
            } else {
                assert(selects(answers@, None));
                lemma_selection_unique(answers@, r, None);
            }
        }
        (r, answers)
    }
}

} // verus!
