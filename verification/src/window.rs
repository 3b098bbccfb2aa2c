use vstd::prelude::*;

use crate::task::TaskError;
use vstd::pervasive::unreached;

verus! {

/// The browser's `window.location`, as a plain value: the full serialized URL
/// and the fragment (including its leading `#`, or empty when there is none).
/// Immutable once built; a fresh one is produced for every navigation event.
#[derive(Debug)]
pub struct Location {
    /// The full absolute URL, in the serialization the parser produced.
    pub href: String,
    /// The fragment, `#`-prefixed, or empty.
    pub hash: String,
}

/// The mathematical value of a [`Location`].
pub struct LocationModel {
    pub href: Seq<char>,
    pub hash: Seq<char>,
}

impl View for Location {
    type V = LocationModel;

    open spec fn view(&self) -> LocationModel {
        LocationModel { href: self.href@, hash: self.hash@ }
    }
}

impl Clone for Location {
    fn clone(&self) -> (r: Self)
        ensures
            r@ == self@,
    {
        Location { href: self.href.clone(), hash: self.hash.clone() }
    }
}

/// What parsing a string as an absolute URL yields: `None` when the string is
/// not an absolute URL, otherwise the canonical serialization and fragment.
/// The result depends on the input string alone.
pub uninterp spec fn parsed_url(s: Seq<char>) -> Option<LocationModel>;

/// What replacing the fragment of the URL parsed from `href` by `frag`
/// yields; `None` exactly when `href` is not an absolute URL. The result
/// depends on the arguments alone.
pub uninterp spec fn url_with_fragment(href: Seq<char>, frag: Option<Seq<char>>) -> Option<
    LocationModel,
>;

/// The serialized origin of the URL parsed from `s` (scheme, host and port
/// for the special schemes; opaque origins serialize to `"null"`). The result
/// depends on the input string alone.
pub uninterp spec fn origin_of(s: Seq<char>) -> Seq<char>;

/// The view of an optional borrowed string.
pub open spec fn opt_view(s: Option<&str>) -> Option<Seq<char>> {
    match s {
        Some(h) => Some(h@),
        None => None,
    }
}

/// Relies on `url::Url::parse`, reading the result back through
/// `Url::as_str` and `Url::fragment`. Parsing is deterministic; the
/// serialization a parse produces parses back to itself; a fragment read
/// back is `#`-prefixed here, as `window.location.hash` is.
#[verifier::external_body]
fn parse_absolute_url(s: &str) -> (r: Option<Location>)
    ensures
        r matches Some(l) ==> parsed_url(s@) == Some(l@),
        (r is None) ==> parsed_url(s@) is None,
        r matches Some(l) ==> parsed_url(l@.href) == Some(l@),
        r matches Some(l) ==> (l@.hash.len() == 0 || l@.hash[0] == '#'),
{
    match url::Url::parse(s) {
        Ok(u) => {
            let hash = match u.fragment() {
                Some(f) => format!("#{}", f),
                None => String::new(),
            };
            Some(Location { href: u.as_str().to_string(), hash })
        },
        Err(_) => None,
    }
}

/// Relies on `url::Url::parse` and `url::Url::set_fragment`. Setting a
/// fragment succeeds whenever the parse does; it touches only the fragment,
/// so the origin is unchanged, and the new serialization parses back to
/// itself. A `None` fragment removes the `#` part entirely.
#[verifier::external_body]
fn replace_fragment(href: &str, frag: Option<&str>) -> (r: Option<Location>)
    ensures
        r matches Some(l) ==> url_with_fragment(href@, opt_view(frag)) == Some(l@),
        (r is Some) <==> (parsed_url(href@) is Some),
        r matches Some(l) ==> parsed_url(l@.href) == Some(l@),
        r matches Some(l) ==> origin_of(l@.href) == origin_of(href@),
        r matches Some(l) ==> (l@.hash.len() == 0 || l@.hash[0] == '#'),
        r matches Some(l) ==> (frag is None ==> l@.hash.len() == 0),
{
    match url::Url::parse(href) {
        Ok(mut u) => {
            u.set_fragment(frag);
            let hash = match u.fragment() {
                Some(f) => format!("#{}", f),
                None => String::new(),
            };
            Some(Location { href: u.as_str().to_string(), hash })
        },
        Err(_) => None,
    }
}

/// Relies on `url::Url::origin` and `url::Origin::ascii_serialization`: the
/// serialized origin of a parsed URL depends on the URL text alone (an opaque
/// origin serializes to `"null"`).
#[verifier::external_body]
fn urls_same_origin(a: &str, b: &str) -> (r: bool)
    ensures
        r == (parsed_url(a@) is Some && parsed_url(b@) is Some && origin_of(a@) == origin_of(
            b@,
        )),
{
    match (url::Url::parse(a), url::Url::parse(b)) {
        (Ok(ua), Ok(ub)) => {
            ua.origin().ascii_serialization() == ub.origin().ascii_serialization()
        },
        _ => false,
    }
}

/// Parses a URL string into a [`Location`]: `None` exactly when the string is
/// not an absolute URL. The `href` of the result is the canonical
/// serialization, which parses back to the same value.
pub fn parse_location(s: &str) -> (r: Option<Location>)
    ensures
        r matches Some(l) ==> parsed_url(s@) == Some(l@),
        (r is None) ==> parsed_url(s@) is None,
        r matches Some(l) ==> parsed_url(l@.href) == Some(l@),
        r matches Some(l) ==> (l@.hash.len() == 0 || l@.hash[0] == '#'),
{
    parse_absolute_url(s)
}

/// An application-supplied value attached to a history entry. This layer
/// imposes no structure on it: it is either absent or an opaque serialized
/// blob whose format is the owning application's concern.
#[derive(Debug, PartialEq, Eq)]
pub enum OpaqueState {
    /// No state was attached.
    Null,
    /// The application's serialized state.
    Blob(String),
}

/// The mathematical value of an [`OpaqueState`].
pub enum StateModel {
    Null,
    Blob(Seq<char>),
}

impl View for OpaqueState {
    type V = StateModel;

    open spec fn view(&self) -> StateModel {
        match self {
            OpaqueState::Null => StateModel::Null,
            OpaqueState::Blob(s) => StateModel::Blob(s@),
        }
    }
}

impl Clone for OpaqueState {
    fn clone(&self) -> (r: Self)
        ensures
            r@ == self@,
    {
        match self {
            OpaqueState::Null => OpaqueState::Null,
            OpaqueState::Blob(s) => OpaqueState::Blob(s.clone()),
        }
    }
}

/// One entry the application has written to the session history.
#[derive(Debug)]
pub struct HistoryEntry {
    /// The application-supplied opaque state attached to the entry.
    pub state: OpaqueState,
    /// The title the entry was written with.
    pub title: String,
    /// The location the entry points at.
    pub location: Location,
}

/// The mathematical value of a [`HistoryEntry`].
pub struct HistoryEntryModel {
    pub state: StateModel,
    pub title: Seq<char>,
    pub location: LocationModel,
}

impl View for HistoryEntry {
    type V = HistoryEntryModel;

    open spec fn view(&self) -> HistoryEntryModel {
        HistoryEntryModel { state: self.state@, title: self.title@, location: self.location@ }
    }
}

/// The window after a programmatic history write: the location moves to the
/// target and one entry is appended. Nothing else changes; in particular no
/// pop-state notification exists in this value at all.
pub open spec fn window_after_push(
    w: WindowModel,
    state: StateModel,
    title: Seq<char>,
    target: LocationModel,
) -> WindowModel {
    WindowModel {
        location: target,
        history: w.history.push(HistoryEntryModel { state, title, location: target }),
    }
}

/// The browser's location/history surface, as a value.
///
/// The live browser owns the real one; the hosting layer mirrors it here and
/// feeds navigation events through it, so that everything a task decides from
/// it is a function of plain values.
pub struct Window {
    location: Location,
    history: Vec<HistoryEntry>,
}

/// The mathematical value of a [`Window`]: the current location and the
/// entries written programmatically, oldest first.
pub struct WindowModel {
    pub location: LocationModel,
    pub history: Seq<HistoryEntryModel>,
}

impl View for Window {
    type V = WindowModel;

    closed spec fn view(&self) -> WindowModel {
        WindowModel {
            location: self.location@,
            history: self.history@.map_values(|e: HistoryEntry| e@),
        }
    }
}

/// Whether a history write from `cur` to `target` is accepted: the target
/// must be an absolute URL of the same origin as the current location.
pub open spec fn push_allowed(cur: LocationModel, target: LocationModel) -> bool {
    &&& parsed_url(cur.href) is Some
    &&& parsed_url(target.href) is Some
    &&& origin_of(target.href) == origin_of(cur.href)
}

impl Window {
    #[verifier::type_invariant]
    spec fn wf(self) -> bool {
        parsed_url(self.location@.href) is Some
    }

    /// Acquires the location/history surface. `href` is the current location
    /// as the host reports it, or `None` in a context with no location object
    /// at all; either an absent or an unparseable location fails
    /// initialization.
    pub fn new(href: Option<&str>) -> (r: Result<Window, TaskError>)
        ensures
            match opt_view(href) {
                Some(s) => match parsed_url(s) {
                    Some(l) => r matches Ok(w) && w@ == (WindowModel {
                        location: l,
                        history: Seq::empty(),
                    }),
                    None => r == Err::<Window, TaskError>(TaskError::Initialization),
                },
                None => r == Err::<Window, TaskError>(TaskError::Initialization),
            },
    {
        match href {
            Some(s) => match parse_location(s) {
                Some(loc) => {
                    let w = Window { location: loc, history: Vec::new() };
                    proof {
                        assert(w@.history =~= Seq::<HistoryEntryModel>::empty());
                    }
                    Ok(w)
                },
                None => Err(TaskError::Initialization),
            },
            None => Err(TaskError::Initialization),
        }
    }

    /// The current location, read live.
    pub fn location(&self) -> (r: &Location)
        ensures
            r@ == self@.location,
    {
        &self.location
    }

    /// How many entries have been written programmatically.
    pub fn history_len(&self) -> (n: usize)
        ensures
            n == self@.history.len(),
    {
        self.history.len()
    }

    /// The entries written programmatically, oldest first.
    pub fn history(&self) -> (r: &Vec<HistoryEntry>)
        ensures
            r@.len() == self@.history.len(),
            forall|i: int| 0 <= i < r@.len() ==> r@[i]@ == self@.history[i],
    {
        &self.history
    }

    /// The browser moved to a new location on its own (back/forward traversal
    /// or a load): the location changes, the written entries do not. Reports
    /// whether `href` was an absolute URL; otherwise nothing changes.
    pub fn navigate(&mut self, href: &str) -> (r: bool)
        ensures
            r == (parsed_url(href@) is Some),
            match parsed_url(href@) {
                Some(l) => final(self)@ == (WindowModel {
                    location: l,
                    history: old(self)@.history,
                }),
                None => final(self)@ == old(self)@,
            },
    {
        match parse_location(href) {
            Some(loc) => {
                self.location = loc;
                true
            },
            None => false,
        }
    }

    /// The current location with its fragment replaced (`None` removes it).
    /// This never fails: the window's location is always a parsed URL, and a
    /// fragment change keeps both the parse and the origin intact.
    pub fn with_fragment(&self, frag: Option<&str>) -> (r: Location)
        ensures
            url_with_fragment(self@.location.href, opt_view(frag)) == Some(r@),
            parsed_url(self@.location.href) is Some,
            parsed_url(r@.href) is Some,
            origin_of(r@.href) == origin_of(self@.location.href),
    {
        proof {
            use_type_invariant(self);
        }
        match replace_fragment(self.location.href.as_str(), frag) {
            Some(l) => l,
            None => unreached(),
        }
    }

    /// A programmatic history write, as `history.pushState` behaves: accepted
    /// only for an absolute same-origin target, and it never fires a
    /// pop-state notification — the location and the entry list change, and
    /// nothing else.
    pub fn push_entry(&mut self, state: OpaqueState, title: String, target: Location) -> (r:
        bool)
        ensures
            r == push_allowed(old(self)@.location, target@),
            r ==> final(self)@ == window_after_push(old(self)@, state@, title@, target@),
            !r ==> final(self)@ == old(self)@,
    {
        proof {
            use_type_invariant(&*self);
        }
        let ok = urls_same_origin(target.href.as_str(), self.location.href.as_str());
        if ok {
            let ghost oldview = self@;
            let entry = HistoryEntry { state, title, location: target.clone() };
            let ghost entryview = entry@;
            let mut hist: Vec<HistoryEntry> = Vec::new();
            std::mem::swap(&mut hist, &mut self.history);
            hist.push(entry);
            self.history = hist;
            self.location = target;
            proof {
                assert(self@.history =~= oldview.history.push(entryview));
            }
            true
        } else {
            false
        }
    }
}

} // verus!
