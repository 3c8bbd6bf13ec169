//! The plugin load protocol.
//!
//! Loading a plugin is a fixed conversation with the platform: open the
//! library, bind the `name` symbol and invoke it, bind `version` and invoke
//! it, then bind `start` and `stop` without invoking them. [`LoadState`]
//! records how far that conversation has come; [`LoadState::next_action`]
//! says what the host must attempt next, and [`LoadState::step`] consumes the
//! outcome of that attempt as a [`LoadEvent`]. The first failure ends the
//! protocol with the matching [`PluginLoadError`], so no partially
//! initialized [`Plugin`] is ever observable: a `Plugin` only comes out of
//! [`Plugin::new`] on a state that went through all seven steps.
//!
//! The platform work itself (opening files, resolving addresses, calling
//! foreign code) cannot be checked here and stays with the host binary; this
//! module pins down every decision the host makes about its outcomes.

use vstd::prelude::*;
use vstd::string::StringExecFns;
use crate::errors::PluginLoadError;

verus! {

/// The four symbols every plugin must export.
#[derive(Clone, Copy, PartialEq, Eq, Structural, Debug)]
pub enum SymbolKind {
    Name,
    Version,
    Start,
    Stop,
}

/// The export name under which a required symbol is resolved.
pub open spec fn symbol_name(k: SymbolKind) -> Seq<char> {
    match k {
        SymbolKind::Name => "name"@,
        SymbolKind::Version => "version"@,
        SymbolKind::Start => "start"@,
        SymbolKind::Stop => "stop"@,
    }
}

/// The export name of a required symbol, as text.
pub fn symbol_str(k: SymbolKind) -> (r: &'static str)
    ensures
        r@ == symbol_name(k),
{
    match k {
        SymbolKind::Name => "name",
        SymbolKind::Version => "version",
        SymbolKind::Start => "start",
        SymbolKind::Stop => "stop",
    }
}

/// What the host must attempt next to move a load forward.
#[derive(Clone, Copy, PartialEq, Eq, Structural, Debug)]
pub enum LoadAction {
    /// Open the shared library file.
    OpenLibrary,
    /// Resolve this export in the opened library.
    BindSymbol(SymbolKind),
    /// Invoke this bound text-returning export and decode its result.
    ReadText(SymbolKind),
    /// Nothing is left to attempt: the state is ready.
    Done,
}

/// The outcome of one attempted [`LoadAction`], as the host reports it.
/// Failure payloads carry the platform's report as text.
#[derive(Debug, PartialEq)]
pub enum LoadEvent {
    Opened,
    OpenFailed(String),
    Bound,
    BindFailed(String),
    TextRead(String),
    TextFailed(String),
}

/// How far the load protocol has come, with the texts read so far.
#[derive(Debug, PartialEq)]
pub enum LoadState {
    /// The library file is not open yet.
    Opening,
    /// The library is open; `name` is not bound yet.
    BindingName,
    /// `name` is bound and must be invoked.
    ReadingName,
    /// `name` was read; `version` is not bound yet.
    BindingVersion { name: String },
    /// `version` is bound and must be invoked.
    ReadingVersion { name: String },
    /// Both texts were read; `start` is not bound yet.
    BindingStart { name: String, version: String },
    /// `start` is bound; `stop` is not bound yet.
    BindingStop { name: String, version: String },
    /// All four symbols resolved and both texts read.
    Ready { name: String, version: String },
}

/// The action a state calls for.
pub open spec fn spec_next_action(s: LoadState) -> LoadAction {
    match s {
        LoadState::Opening => LoadAction::OpenLibrary,
        LoadState::BindingName => LoadAction::BindSymbol(SymbolKind::Name),
        LoadState::ReadingName => LoadAction::ReadText(SymbolKind::Name),
        LoadState::BindingVersion { .. } => LoadAction::BindSymbol(SymbolKind::Version),
        LoadState::ReadingVersion { .. } => LoadAction::ReadText(SymbolKind::Version),
        LoadState::BindingStart { .. } => LoadAction::BindSymbol(SymbolKind::Start),
        LoadState::BindingStop { .. } => LoadAction::BindSymbol(SymbolKind::Stop),
        LoadState::Ready { .. } => LoadAction::Done,
    }
}

/// Whether an event is a possible outcome of the action state `s` calls for.
pub open spec fn expects(s: LoadState, ev: LoadEvent) -> bool {
    match spec_next_action(s) {
        LoadAction::OpenLibrary => ev is Opened || ev is OpenFailed,
        LoadAction::BindSymbol(_) => ev is Bound || ev is BindFailed,
        LoadAction::ReadText(_) => ev is TextRead || ev is TextFailed,
        LoadAction::Done => false,
    }
}

/// The transition table of the load protocol. A successful outcome advances
/// to the next step of the fixed order open, `name`, `version`, `start`,
/// `stop`; a failed outcome ends the load with the matching error. An event
/// that answers some other action leaves the state as it was; exec callers
/// are held to [`expects`] and never present one.
pub open spec fn spec_step(s: LoadState, ev: LoadEvent) -> Result<LoadState, PluginLoadError> {
    match (s, ev) {
        (LoadState::Opening, LoadEvent::Opened) => Ok(LoadState::BindingName),
        (LoadState::Opening, LoadEvent::OpenFailed(e)) => Err(
            PluginLoadError::LibraryLoadFailed(e),
        ),
        (LoadState::BindingName, LoadEvent::Bound) => Ok(LoadState::ReadingName),
        (LoadState::BindingName, LoadEvent::BindFailed(e)) => Err(
            PluginLoadError::SymbolResolutionFailed(SymbolKind::Name, e),
        ),
        (LoadState::ReadingName, LoadEvent::TextRead(t)) => Ok(
            (LoadState::BindingVersion { name: t }),
        ),
        (LoadState::ReadingName, LoadEvent::TextFailed(e)) => Err(
            PluginLoadError::TextDecodeFailed(e),
        ),
        (LoadState::BindingVersion { name }, LoadEvent::Bound) => Ok(
            (LoadState::ReadingVersion { name }),
        ),
        (LoadState::BindingVersion { .. }, LoadEvent::BindFailed(e)) => Err(
            PluginLoadError::SymbolResolutionFailed(SymbolKind::Version, e),
        ),
        (LoadState::ReadingVersion { name }, LoadEvent::TextRead(t)) => Ok(
            (LoadState::BindingStart { name, version: t }),
        ),
        (LoadState::ReadingVersion { .. }, LoadEvent::TextFailed(e)) => Err(
            PluginLoadError::TextDecodeFailed(e),
        ),
        (LoadState::BindingStart { name, version }, LoadEvent::Bound) => Ok(
            (LoadState::BindingStop { name, version }),
        ),
        (LoadState::BindingStart { .. }, LoadEvent::BindFailed(e)) => Err(
            PluginLoadError::SymbolResolutionFailed(SymbolKind::Start, e),
        ),
        (LoadState::BindingStop { name, version }, LoadEvent::Bound) => Ok(
            (LoadState::Ready { name, version }),
        ),
        (LoadState::BindingStop { .. }, LoadEvent::BindFailed(e)) => Err(
            PluginLoadError::SymbolResolutionFailed(SymbolKind::Stop, e),
        ),
        (other, _) => Ok(other),
    }
}

impl LoadState {
    /// The state a load begins in: nothing is open or bound yet.
    pub fn init() -> (r: LoadState)
        ensures
            r == (LoadState::Opening),
    {
        LoadState::Opening
    }

    /// What the host must attempt next.
    pub fn next_action(&self) -> (r: LoadAction)
        ensures
            r == spec_next_action(*self),
    {
        match self {
            LoadState::Opening => LoadAction::OpenLibrary,
            LoadState::BindingName => LoadAction::BindSymbol(SymbolKind::Name),
            LoadState::ReadingName => LoadAction::ReadText(SymbolKind::Name),
            LoadState::BindingVersion { .. } => LoadAction::BindSymbol(SymbolKind::Version),
            LoadState::ReadingVersion { .. } => LoadAction::ReadText(SymbolKind::Version),
            LoadState::BindingStart { .. } => LoadAction::BindSymbol(SymbolKind::Start),
            LoadState::BindingStop { .. } => LoadAction::BindSymbol(SymbolKind::Stop),
            LoadState::Ready { .. } => LoadAction::Done,
        }
    }

    /// Whether `ev` answers the action this state calls for. Hosts check
    /// this before calling [`LoadState::step`].
    pub fn accepts(&self, ev: &LoadEvent) -> (r: bool)
        ensures
            r == expects(*self, *ev),
    {
        match self.next_action() {
            LoadAction::OpenLibrary => match ev {
                LoadEvent::Opened => true,
                LoadEvent::OpenFailed(_) => true,
                _ => false,
            },
            LoadAction::BindSymbol(_) => match ev {
                LoadEvent::Bound => true,
                LoadEvent::BindFailed(_) => true,
                _ => false,
            },
            LoadAction::ReadText(_) => match ev {
                LoadEvent::TextRead(_) => true,
                LoadEvent::TextFailed(_) => true,
                _ => false,
            },
            LoadAction::Done => false,
        }
    }

    /// Whether every step of the protocol has succeeded.
    pub fn is_ready(&self) -> (r: bool)
        ensures
            r == (*self is Ready),
    {
        match self {
            LoadState::Ready { .. } => true,
            _ => false,
        }
    }

    /// Consumes the outcome of the attempted action: advances on success,
    /// ends the load with the matching error on failure.
    pub fn step(self, ev: LoadEvent) -> (r: Result<LoadState, PluginLoadError>)
        requires
            expects(self, ev),
        ensures
            r == spec_step(self, ev),
    {
        match (self, ev) {
            (LoadState::Opening, LoadEvent::Opened) => Ok(LoadState::BindingName),
            (LoadState::Opening, LoadEvent::OpenFailed(e)) => Err(
                PluginLoadError::LibraryLoadFailed(e),
            ),
            (LoadState::BindingName, LoadEvent::Bound) => Ok(LoadState::ReadingName),
            (LoadState::BindingName, LoadEvent::BindFailed(e)) => Err(
                PluginLoadError::SymbolResolutionFailed(SymbolKind::Name, e),
            ),
            (LoadState::ReadingName, LoadEvent::TextRead(t)) => Ok(
                LoadState::BindingVersion { name: t },
            ),
            (LoadState::ReadingName, LoadEvent::TextFailed(e)) => Err(
                PluginLoadError::TextDecodeFailed(e),
            ),
            (LoadState::BindingVersion { name }, LoadEvent::Bound) => Ok(
                LoadState::ReadingVersion { name },
            ),
            (LoadState::BindingVersion { .. }, LoadEvent::BindFailed(e)) => Err(
                PluginLoadError::SymbolResolutionFailed(SymbolKind::Version, e),
            ),
            (LoadState::ReadingVersion { name }, LoadEvent::TextRead(t)) => Ok(
                LoadState::BindingStart { name, version: t },
            ),
            (LoadState::ReadingVersion { .. }, LoadEvent::TextFailed(e)) => Err(
                PluginLoadError::TextDecodeFailed(e),
            ),
            (LoadState::BindingStart { name, version }, LoadEvent::Bound) => Ok(
                LoadState::BindingStop { name, version },
            ),
            (LoadState::BindingStart { .. }, LoadEvent::BindFailed(e)) => Err(
                PluginLoadError::SymbolResolutionFailed(SymbolKind::Start, e),
            ),
            (LoadState::BindingStop { name, version }, LoadEvent::Bound) => Ok(
                LoadState::Ready { name, version },
            ),
            (LoadState::BindingStop { .. }, LoadEvent::BindFailed(e)) => Err(
                PluginLoadError::SymbolResolutionFailed(SymbolKind::Stop, e),
            ),
            (other, _) => Ok(other),
        }
    }
}

/// The state a whole run of the protocol ends in: the events are consumed in
/// order until the first failure, whose error is the run's result.
pub open spec fn spec_run(s: LoadState, evs: Seq<LoadEvent>) -> Result<
    LoadState,
    PluginLoadError,
>
    decreases evs.len(),
{
    if evs.len() == 0 {
        Ok(s)
    } else {
        match spec_step(s, evs[0]) {
            Ok(s2) => spec_run(s2, evs.drop_first()),
            Err(e) => Err(e),
        }
    }
}

/// The outcomes a fully conforming library produces: it opens, every bind
/// succeeds, `name` reads as `n` and `version` reads as `v`.
pub open spec fn successful_load_events(n: String, v: String) -> Seq<LoadEvent> {
    seq![
        LoadEvent::Opened,
        LoadEvent::Bound,
        LoadEvent::TextRead(n),
        LoadEvent::Bound,
        LoadEvent::TextRead(v),
        LoadEvent::Bound,
        LoadEvent::Bound,
    ]
}

/// A library that opens and exports all four required symbols loads
/// successfully, and the resulting state carries exactly the texts its
/// `name` and `version` exports produced; [`Plugin::new`] then yields a
/// plugin whose `get_name` and `get_version` return exactly those texts.
pub proof fn lemma_valid_library_loads(n: String, v: String)
    ensures
        spec_run(LoadState::Opening, successful_load_events(n, v)) == Ok::<
            LoadState,
            PluginLoadError,
        >((LoadState::Ready { name: n, version: v })),
{
    reveal_with_fuel(spec_run, 8);
    let evs = successful_load_events(n, v);
    assert(evs.drop_first() =~= seq![
        LoadEvent::Bound,
        LoadEvent::TextRead(n),
        LoadEvent::Bound,
        LoadEvent::TextRead(v),
        LoadEvent::Bound,
        LoadEvent::Bound,
    ]);
    assert(spec_run(LoadState::Opening, evs) == Ok::<LoadState, PluginLoadError>(
        (LoadState::Ready { name: n, version: v }),
    ));
}

/// A path whose file does not open never yields a plugin: the run fails at
/// once with `LibraryLoadFailed` carrying the platform's report.
pub proof fn lemma_missing_file_fails(e: String)
    ensures
        spec_run(LoadState::Opening, seq![LoadEvent::OpenFailed(e)]) == Err::<
            LoadState,
            PluginLoadError,
        >(PluginLoadError::LibraryLoadFailed(e)),
{
    reveal_with_fuel(spec_run, 2);
}

/// The outcomes of a library that opens but lacks the export `k`: every
/// step up to the bind of `k` succeeds (reading `n` and `v` where those
/// reads come first), then that bind fails with the platform's report `e`.
pub open spec fn missing_symbol_events(k: SymbolKind, n: String, v: String, e: String) -> Seq<
    LoadEvent,
> {
    match k {
        SymbolKind::Name => seq![LoadEvent::Opened, LoadEvent::BindFailed(e)],
        SymbolKind::Version => seq![
            LoadEvent::Opened,
            LoadEvent::Bound,
            LoadEvent::TextRead(n),
            LoadEvent::BindFailed(e),
        ],
        SymbolKind::Start => seq![
            LoadEvent::Opened,
            LoadEvent::Bound,
            LoadEvent::TextRead(n),
            LoadEvent::Bound,
            LoadEvent::TextRead(v),
            LoadEvent::BindFailed(e),
        ],
        SymbolKind::Stop => seq![
            LoadEvent::Opened,
            LoadEvent::Bound,
            LoadEvent::TextRead(n),
            LoadEvent::Bound,
            LoadEvent::TextRead(v),
            LoadEvent::Bound,
            LoadEvent::BindFailed(e),
        ],
    }
}

/// A library missing any one of the four required symbols fails to load
/// with `SymbolResolutionFailed` naming exactly that symbol.
pub proof fn lemma_missing_symbol_fails(k: SymbolKind, n: String, v: String, e: String)
    ensures
        spec_run(LoadState::Opening, missing_symbol_events(k, n, v, e)) == Err::<
            LoadState,
            PluginLoadError,
        >(PluginLoadError::SymbolResolutionFailed(k, e)),
{
    reveal_with_fuel(spec_run, 8);
    let evs = missing_symbol_events(k, n, v, e);
    match k {
        SymbolKind::Name => {
            assert(evs.drop_first() =~= seq![LoadEvent::BindFailed(e)]);
        },
        SymbolKind::Version => {
            assert(evs.drop_first() =~= seq![
                LoadEvent::Bound,
                LoadEvent::TextRead(n),
                LoadEvent::BindFailed(e),
            ]);
        },
        SymbolKind::Start => {
            assert(evs.drop_first() =~= seq![
                LoadEvent::Bound,
                LoadEvent::TextRead(n),
                LoadEvent::Bound,
                LoadEvent::TextRead(v),
                LoadEvent::BindFailed(e),
            ]);
        },
        SymbolKind::Stop => {
            assert(evs.drop_first() =~= seq![
                LoadEvent::Bound,
                LoadEvent::TextRead(n),
                LoadEvent::Bound,
                LoadEvent::TextRead(v),
                LoadEvent::Bound,
                LoadEvent::BindFailed(e),
            ]);
        },
    }
    assert(spec_run(LoadState::Opening, evs) == Err::<LoadState, PluginLoadError>(
        PluginLoadError::SymbolResolutionFailed(k, e),
    ));
}

/// The mathematical identity of a loaded plugin.
#[verifier::ext_equal]
pub struct PluginView {
    pub name: Seq<char>,
    pub version: Seq<char>,
}

/// One successfully loaded plugin: its display name and version, read from
/// the library's own exports. A value of this type attests that the load
/// protocol ran to the end: all four required symbols resolved and both
/// texts decoded.
#[derive(Debug)]
pub struct Plugin {
    name: String,
    version: String,
}

impl View for Plugin {
    type V = PluginView;

    closed spec fn view(&self) -> PluginView {
        PluginView { name: self.name@, version: self.version@ }
    }
}

impl DeepView for Plugin {
    type V = PluginView;

    open spec fn deep_view(&self) -> PluginView {
        self.view()
    }
}

/// The display identity of a plugin: its name, a space, a `v`, its version.
pub open spec fn spec_display_id(p: PluginView) -> Seq<char> {
    p.name + " v"@ + p.version
}

impl Plugin {
    /// Turns a finished load into a plugin. Only a state that went through
    /// the whole protocol yields one; anything earlier yields nothing, so no
    /// partially initialized plugin is observable.
    pub fn new(state: LoadState) -> (r: Option<Plugin>)
        ensures
            (state matches LoadState::Ready { name, version } ==> r matches Some(p) && p@.name
                == name@ && p@.version == version@),
            !(state is Ready) ==> r is None,
    {
        match state {
            LoadState::Ready { name, version } => Some(Plugin { name, version }),
            _ => None,
        }
    }

    /// The display name the plugin's `name` export produced. Reading it
    /// changes nothing: the result is the same on every call.
    pub fn get_name(&self) -> (r: &String)
        ensures
            r@ == self@.name,
    {
        &self.name
    }

    /// The version text the plugin's `version` export produced. Reading it
    /// changes nothing: the result is the same on every call.
    pub fn get_version(&self) -> (r: &String)
        ensures
            r@ == self@.version,
    {
        &self.version
    }

    /// The plugin's display identity, `{name} v{version}`.
    pub fn display_id(&self) -> (r: String)
        ensures
            r@ == spec_display_id(self@),
    {
        let mut out: String = self.name.clone();
        out.append(" v");
        out.append(self.version.as_str());
        out
    }
}

} // verus!
