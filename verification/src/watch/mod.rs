//! An actor that relays file changes to those who asked for them.
//!
//! Whoever watches a path gets a port. A file that was written is told to every port whose path
//! is a beginning of the file's path.
pub mod laws;

use std::path::Path;
use std::sync::Arc;
use vstd::prelude::*;

verus! {

/// How a file is accessed.
#[derive(Clone, Copy, PartialEq, Eq, Structural, Debug)]
pub enum AccessMode {
    Any,
    Execute,
    Read,
    Write,
    Other,
}

/// What kind of access to a file took place.
#[derive(Clone, Copy, PartialEq, Eq, Structural, Debug)]
pub enum AccessKind {
    Any,
    Read,
    Open(AccessMode),
    Close(AccessMode),
    Other,
}

/// What kind of thing happened to a file.
#[derive(Clone, Copy, PartialEq, Eq, Structural, Debug)]
pub enum EventKind {
    Any,
    Access(AccessKind),
    Create,
    Modify,
    Remove,
    Other,
}

/// Something that happened to files.
pub struct FileEvent {
    /// What happened.
    pub kind: EventKind,
    /// To which files.
    pub paths: Vec<String>,
}

/// Where an answer goes to.
pub struct RpcReplyPort<R> {
    /// Whether nobody waits for the answer any more.
    pub closed: bool,
    /// What takes the answer.
    pub port: R,
}

/// What a [`Watch`] is sent. `R` takes an answer.
pub enum WatchMessage<R> {
    Start,
    Stop,
    Watch(String),
    /// Watch the path, and answer with a port that tells its changes.
    WatchPort(String, RpcReplyPort<R>),
    /// The file was written.
    WatchNotification(String),
}

/// A [`WatchMessage`] with its texts as sequences of characters.
#[verifier::ext_equal]
pub enum WatchMessageView<R> {
    Start,
    Stop,
    Watch(Seq<char>),
    WatchPort(Seq<char>, RpcReplyPort<R>),
    WatchNotification(Seq<char>),
}

impl<R> View for WatchMessage<R> {
    type V = WatchMessageView<R>;

    open spec fn view(&self) -> WatchMessageView<R> {
        match self {
            WatchMessage::Start => WatchMessageView::Start,
            WatchMessage::Stop => WatchMessageView::Stop,
            WatchMessage::Watch(path) => WatchMessageView::Watch(path@),
            WatchMessage::WatchPort(path, reply) => WatchMessageView::WatchPort(path@, *reply),
            WatchMessage::WatchNotification(path) => WatchMessageView::WatchNotification(path@),
        }
    }
}

/// What is to be done for a [`Watch`]. `P` tells changes, `R` takes an answer.
pub enum WatchEffect<P, R> {
    /// Watch the path and everything below it.
    WatchPath(String),
    /// Answer with the port.
    Reply(R, Arc<P>),
    /// Tell the port that the file was written.
    Deliver(Arc<P>, String),
}

/// A [`WatchEffect`] with its texts as sequences of characters.
#[verifier::ext_equal]
pub enum WatchEffectView<P, R> {
    WatchPath(Seq<char>),
    Reply(R, Arc<P>),
    Deliver(Arc<P>, Seq<char>),
}

impl<P, R> View for WatchEffect<P, R> {
    type V = WatchEffectView<P, R>;

    open spec fn view(&self) -> WatchEffectView<P, R> {
        match self {
            WatchEffect::WatchPath(path) => WatchEffectView::WatchPath(path@),
            WatchEffect::Reply(reply, port) => WatchEffectView::Reply(*reply, *port),
            WatchEffect::Deliver(port, path) => WatchEffectView::Deliver(*port, path@),
        }
    }
}

/// Effects with their texts as sequences of characters.
pub open spec fn effects_view<P, R>(effects: Seq<WatchEffect<P, R>>) -> Seq<WatchEffectView<P, R>> {
    effects.map_values(|effect: WatchEffect<P, R>| effect@)
}

/// Another handle to what `port` points to.
///
/// This is `Arc::clone`, of which the documentation says that it makes another pointer to the same
/// allocation.
#[verifier::external_body]
fn share<P>(port: &Arc<P>) -> (res: Arc<P>)
    ensures
        res == *port,
{
    Arc::clone(port)
}

/// The rules by which the platform reads paths.
///
/// There is one value in a program, that of the platform at hand. The platforms that have a file
/// watcher, Unix and Windows, are told apart by their separator.
#[derive(Clone, Copy, Debug)]
pub struct PathRules {
    separator: char,
}

impl PathRules {
    /// The separator of the platform.
    pub closed spec fn separator(self) -> char {
        self.separator
    }

    /// The rules of the platform at hand.
    ///
    /// This reads `std::path::MAIN_SEPARATOR`, of which nothing is claimed: it depends on the
    /// platform. No other function makes a value of this type.
    #[verifier::external_body]
    fn current() -> PathRules {
        PathRules { separator: std::path::MAIN_SEPARATOR }
    }
}

/// What is left of `path` below `base` by the rules of the platform with the given separator;
/// nothing, where `path` does not lie below `base`.
pub uninterp spec fn path_below(separator: char, path: Seq<char>, base: Seq<char>) -> Option<Seq<char>>;

/// Whether `base` is a beginning of `path` by the rules of the platform with the given separator.
pub uninterp spec fn path_starts_with(separator: char, path: Seq<char>, base: Seq<char>) -> bool;

/// What is left of `path` below `base`.
///
/// This is `Path::strip_prefix` of the standard library, with the rest as text. Claimed is that the
/// outcome depends on the two paths and the platform alone, and that there is a rest exactly where
/// `Path::starts_with` says that `base` is a beginning of `path`.
#[verifier::external_body]
fn strip_prefix(rules: &PathRules, path: &str, base: &str) -> (res: Option<String>)
    ensures
        match path_below(rules.separator(), path@, base@) {
            Some(rest) => res matches Some(r) && r@ == rest,
            None => res is None,
        },
        res is Some == path_starts_with(rules.separator(), path@, base@),
{
    match Path::new(path).strip_prefix(base) {
        Ok(rest) => Some(rest.display().to_string()),
        Err(_) => None,
    }
}

/// Whether `base` is a beginning of `path`, component by component.
///
/// This is `Path::starts_with` of the standard library. Claimed is that the outcome depends on the
/// two paths and the platform alone.
#[verifier::external_body]
fn starts_with(rules: &PathRules, path: &str, base: &str) -> (res: bool)
    ensures
        res == path_starts_with(rules.separator(), path@, base@),
{
    Path::new(path).starts_with(base)
}

/// A path that is watched, and the port that tells its changes.
pub struct PathPort<P> {
    path: String,
    port: Arc<P>,
}

impl<P> View for PathPort<P> {
    type V = (Seq<char>, Arc<P>);

    closed spec fn view(&self) -> (Seq<char>, Arc<P>) {
        (self.path@, self.port)
    }
}

/// What a [`Watch`] keeps: the paths that are watched, each with one port.
pub struct WatchState<P> {
    rules: PathRules,
    path_ports: Vec<PathPort<P>>,
}

/// Whether no path occurs twice.
pub open spec fn distinct_paths<P>(entries: Seq<(Seq<char>, Arc<P>)>) -> bool {
    forall|i: int, j: int| 0 <= i < j < entries.len() ==> entries[i].0 != entries[j].0
}

/// Whether the path has a port.
pub open spec fn has_port<P>(entries: Seq<(Seq<char>, Arc<P>)>, path: Seq<char>) -> bool {
    exists|i: int| 0 <= i < entries.len() && #[trigger] entries[i].0 == path
}

/// The place of a path that has a port.
pub open spec fn place_of<P>(entries: Seq<(Seq<char>, Arc<P>)>, path: Seq<char>) -> int {
    choose|i: int| 0 <= i < entries.len() && #[trigger] entries[i].0 == path
}

/// The paths and ports once `path` has got `port`: instead of the one it had, if it had one.
pub open spec fn inserted<P>(
    entries: Seq<(Seq<char>, Arc<P>)>,
    path: Seq<char>,
    port: Arc<P>,
) -> Seq<(Seq<char>, Arc<P>)> {
    if has_port(entries, path) {
        entries.update(place_of(entries, path), (path, port))
    } else {
        entries.push((path, port))
    }
}

/// What the ports are told that are picked out, in the order of the paths.
pub open spec fn picked<P, R>(
    entries: Seq<(Seq<char>, Arc<P>)>,
    relpath: Seq<char>,
    matched: Seq<bool>,
) -> Seq<WatchEffectView<P, R>>
    decreases entries.len(),
{
    if entries.len() == 0 || matched.len() < entries.len() {
        Seq::empty()
    } else {
        let before = picked(entries.drop_last(), relpath, matched);
        if matched[entries.len() - 1] {
            before.push(WatchEffectView::Deliver(entries.last().1, relpath))
        } else {
            before
        }
    }
}

/// Which of the paths are a beginning of `relpath`.
pub open spec fn matching<P>(
    separator: char,
    entries: Seq<(Seq<char>, Arc<P>)>,
    relpath: Seq<char>,
) -> Seq<bool> {
    Seq::new(entries.len(), |i: int| path_starts_with(separator, relpath, entries[i].0))
}

/// What the ports are told when the file `relpath`, relative to the working directory, was written:
/// those whose path is a beginning of it are told, in the order of their paths.
pub open spec fn deliveries<P, R>(
    separator: char,
    entries: Seq<(Seq<char>, Arc<P>)>,
    relpath: Seq<char>,
) -> Seq<WatchEffectView<P, R>> {
    picked(entries, relpath, matching(separator, entries, relpath))
}

impl<P> View for WatchState<P> {
    type V = Seq<(Seq<char>, Arc<P>)>;

    closed spec fn view(&self) -> Seq<(Seq<char>, Arc<P>)> {
        self.path_ports@.map_values(|entry: PathPort<P>| entry@)
    }
}

impl<P> WatchState<P> {
    /// The separator of the platform.
    pub closed spec fn separator(self) -> char {
        self.rules.separator()
    }

    /// No path has two ports.
    pub open spec fn wf(self) -> bool {
        distinct_paths(self@)
    }

    /// A state in which nothing is watched.
    fn new() -> (res: Self)
        ensures
            res@ == Seq::<(Seq<char>, Arc<P>)>::empty(),
            res.wf(),
    {
        let res = WatchState { rules: PathRules::current(), path_ports: Vec::new() };
        assert(res@ =~= Seq::<(Seq<char>, Arc<P>)>::empty());
        res
    }

    /// Gives a path its port, instead of the one it had.
    pub fn insert(&mut self, path: String, port: Arc<P>)
        requires
            old(self).wf(),
        ensures
            final(self)@ == inserted(old(self)@, path@, port),
            final(self).wf(),
            final(self).separator() == old(self).separator(),
    {
        let mut i: usize = 0;
        while i < self.path_ports.len()
            invariant
                0 <= i <= self.path_ports.len(),
                *self == *old(self),
                old(self).wf(),
                forall|j: int| 0 <= j < i ==> #[trigger] self@[j].0 != path@,
            decreases self.path_ports.len() - i,
        {
            if self.path_ports[i].path == path {
                assert(self@[i as int].0 == path@);
                assert(place_of(old(self)@, path@) == i);
                self.path_ports[i] = PathPort { path, port };
                assert(self@ =~= inserted(old(self)@, path@, port));
                return;
            }
            assert(self@[i as int].0 != path@);
            i += 1;
        }
        self.path_ports.push(PathPort { path, port });
        assert(self@ =~= old(self)@.push((path@, port)));
    }

    /// Tells the ports that are picked out by `matched`, one flag for each path, that the file was
    /// written.
    pub fn pick<R>(&self, relpath: &str, matched: &Vec<bool>) -> (res: Vec<WatchEffect<P, R>>)
        requires
            matched.len() == self@.len(),
        ensures
            effects_view(res@) == picked::<P, R>(self@, relpath@, matched@),
    {
        let mut effects: Vec<WatchEffect<P, R>> = Vec::new();
        let mut i: usize = 0;
        assert(effects_view(effects@) =~= picked::<P, R>(self@.take(0), relpath@, matched@));
        while i < self.path_ports.len()
            invariant
                0 <= i <= self.path_ports.len(),
                self.path_ports.len() == self@.len(),
                matched.len() == self@.len(),
                effects_view(effects@) == picked::<P, R>(
                    self@.take(i as int),
                    relpath@,
                    matched@,
                ),
            decreases self.path_ports.len() - i,
        {
            let ghost before = effects@;
            if matched[i] {
                effects.push(
                    WatchEffect::Deliver(
                        share(&self.path_ports[i].port),
                        String::from_str(relpath),
                    ),
                );
                assert(effects_view(effects@) =~= effects_view(before).push(
                    WatchEffectView::Deliver(self@[i as int].1, relpath@),
                ));
            }
            assert(self@.take(i + 1).drop_last() =~= self@.take(i as int));
            i += 1;
        }
        assert(self@.take(i as int) =~= self@);
        effects
    }

    /// Tells every port whose path is a beginning of `relpath` that this file was written.
    pub fn relay<R>(&self, relpath: &str) -> (res: Vec<WatchEffect<P, R>>)
        ensures
            effects_view(res@) == deliveries::<P, R>(self.separator(), self@, relpath@),
    {
        let mut matched: Vec<bool> = Vec::new();
        let mut i: usize = 0;
        while i < self.path_ports.len()
            invariant
                0 <= i <= self.path_ports.len(),
                self.path_ports.len() == self@.len(),
                matched@ == matching(self.separator(), self@, relpath@).take(i as int),
            decreases self.path_ports.len() - i,
        {
            let interested = starts_with(&self.rules, relpath, self.path_ports[i].path.as_str());
            matched.push(interested);
            assert(matched@ =~= matching(self.separator(), self@, relpath@).take(i + 1));
            i += 1;
        }
        assert(matched@ =~= matching(self.separator(), self@, relpath@));
        self.pick(relpath, &matched)
    }
}

/// Whether a file has been written: it was closed after it had been open for writing.
pub open spec fn is_written(kind: EventKind) -> bool {
    kind == EventKind::Access(AccessKind::Close(AccessMode::Write))
}

/// The messages that tell what happened to files: one for each file that was written.
pub open spec fn notifications<R>(kind: EventKind, paths: Seq<String>) -> Seq<WatchMessageView<R>> {
    if is_written(kind) {
        Seq::new(paths.len(), |i: int| WatchMessageView::WatchNotification(paths[i]@))
    } else {
        Seq::empty()
    }
}

/// Whether the file `watched` can be named relative to the working directory.
pub open spec fn lies_below(separator: char, watched: Seq<char>, cwd: Option<Seq<char>>) -> bool {
    match cwd {
        Some(dir) => path_starts_with(separator, watched, dir),
        None => false,
    }
}

/// Whether a message can be handled: it asks for a port, or it tells of a file that can be named
/// relative to the working directory, which is asked for only where some path is watched.
pub open spec fn can_be_handled<P, R>(
    separator: char,
    entries: Seq<(Seq<char>, Arc<P>)>,
    message: WatchMessageView<R>,
    cwd: Option<Seq<char>>,
) -> bool {
    match message {
        WatchMessageView::WatchPort(_, _) => true,
        WatchMessageView::WatchNotification(watched) => entries.len() == 0 || lies_below(
            separator,
            watched,
            cwd,
        ),
        _ => false,
    }
}

/// What is told when the file `watched` was written while `cwd` is the working directory.
pub open spec fn relayed<P, R>(
    separator: char,
    entries: Seq<(Seq<char>, Arc<P>)>,
    watched: Seq<char>,
    cwd: Option<Seq<char>>,
) -> Seq<WatchEffectView<P, R>>
    recommends
        entries.len() == 0 || lies_below(separator, watched, cwd),
{
    if entries.len() == 0 {
        Seq::empty()
    } else {
        deliveries(separator, entries, path_below(separator, watched, cwd->0)->0)
    }
}

/// An optional text as an optional sequence of characters.
pub open spec fn text_view(text: Option<String>) -> Option<Seq<char>> {
    match text {
        Some(t) => Some(t@),
        None => None,
    }
}

/// What is done for a request to watch `path`: it is watched, and the port handed out if somebody
/// still waits for it.
pub open spec fn watch_port_effects<P, R>(
    path: Seq<char>,
    reply: RpcReplyPort<R>,
    port: Arc<P>,
) -> Seq<WatchEffectView<P, R>> {
    let watch = seq![WatchEffectView::WatchPath(path)];
    if reply.closed {
        watch
    } else {
        watch.push(WatchEffectView::Reply(reply.port, port))
    }
}

/// The actor that relays file changes.
pub struct Watch {}

impl Watch {
    /// What a new actor keeps: nothing is watched yet.
    pub fn pre_start<P>(&self) -> (res: WatchState<P>)
        ensures
            res@ == Seq::<(Seq<char>, Arc<P>)>::empty(),
            res.wf(),
    {
        WatchState::new()
    }

    /// The messages that the actor is sent when something happened to files.
    pub fn notifications<R>(event: FileEvent) -> (res: Vec<WatchMessage<R>>)
        ensures
            res@.map_values(|message: WatchMessage<R>| message@) == notifications::<R>(
                event.kind,
                event.paths@,
            ),
            event.kind == EventKind::Access(AccessKind::Close(AccessMode::Write)) ==> res@.len()
                == event.paths@.len() && forall|i: int|
                0 <= i < event.paths@.len() ==> (#[trigger] res@[i] matches WatchMessage::WatchNotification(
                    path,
                ) && path@ == event.paths@[i]@),
            event.kind != EventKind::Access(AccessKind::Close(AccessMode::Write)) ==> res@.len()
                == 0,
    {
        let mut messages: Vec<WatchMessage<R>> = Vec::new();
        match event.kind {
            EventKind::Access(AccessKind::Close(AccessMode::Write)) => {
                let mut i: usize = 0;
                while i < event.paths.len()
                    invariant
                        0 <= i <= event.paths.len(),
                        messages.len() == i,
                        forall|j: int|
                            0 <= j < i ==> #[trigger] messages@[j]@
                                == WatchMessageView::<R>::WatchNotification(event.paths@[j]@),
                        forall|j: int|
                            0 <= j < i ==> (#[trigger] messages@[j] matches WatchMessage::WatchNotification(
                                path,
                            ) && path@ == event.paths@[j]@),
                    decreases event.paths.len() - i,
                {
                    messages.push(WatchMessage::WatchNotification(event.paths[i].clone()));
                    i += 1;
                }
            },
            _ => {},
        }
        assert(messages@.map_values(|message: WatchMessage<R>| message@) =~= notifications::<R>(
            event.kind,
            event.paths@,
        ));
        messages
    }

    /// Handles a message.
    ///
    /// `port` is a new port, for the case that a path is to be watched; `cwd` is the working
    /// directory, if it is known.
    pub fn handle<P, R>(
        &self,
        message: WatchMessage<R>,
        port: Arc<P>,
        cwd: Option<String>,
        state: &mut WatchState<P>,
    ) -> (res: Vec<WatchEffect<P, R>>)
        requires
            old(state).wf(),
            can_be_handled(old(state).separator(), old(state)@, message@, text_view(cwd)),
        ensures
            match message@ {
                WatchMessageView::WatchPort(path, reply) => effects_view(res@)
                    == watch_port_effects(path, reply, port) && final(state)@ == inserted(
                    old(state)@,
                    path,
                    port,
                ),
                WatchMessageView::WatchNotification(watched) => effects_view(res@) == relayed::<
                    P,
                    R,
                >(old(state).separator(), old(state)@, watched, text_view(cwd)) && *final(state)
                    == *old(state),
                _ => false,
            },
            final(state).wf(),
            final(state).separator() == old(state).separator(),
    {
        match message {
            WatchMessage::WatchPort(path, reply) => {
                let mut effects: Vec<WatchEffect<P, R>> = Vec::new();
                effects.push(WatchEffect::WatchPath(path.clone()));
                if !reply.closed {
                    effects.push(WatchEffect::Reply(reply.port, share(&port)));
                }
                assert(effects_view(effects@) =~= watch_port_effects(path@, reply, port));
                state.insert(path, port);
                effects
            },
            WatchMessage::WatchNotification(watched) => {
                if state.path_ports.len() == 0 {
                    let effects: Vec<WatchEffect<P, R>> = Vec::new();
                    assert(effects_view(effects@) =~= Seq::<WatchEffectView<P, R>>::empty());
                    effects
                } else {
                    let dir = cwd.unwrap();
                    let relpath = strip_prefix(&state.rules, watched.as_str(), dir.as_str()).unwrap();
                    state.relay(relpath.as_str())
                }
            },
            _ => Vec::new(),
        }
    }

    /// Handles a message if it can be handled. Returns nothing, and changes nothing, where it cannot
    /// be.
    pub fn try_handle<P, R>(
        &self,
        message: WatchMessage<R>,
        port: Arc<P>,
        cwd: Option<String>,
        state: &mut WatchState<P>,
    ) -> (res: Option<Vec<WatchEffect<P, R>>>)
        requires
            old(state).wf(),
        ensures
            if can_be_handled(old(state).separator(), old(state)@, message@, text_view(cwd)) {
                res matches Some(fx) && match message@ {
                    WatchMessageView::WatchPort(path, reply) => effects_view(fx@)
                        == watch_port_effects(path, reply, port) && final(state)@ == inserted(
                        old(state)@,
                        path,
                        port,
                    ),
                    WatchMessageView::WatchNotification(watched) => effects_view(fx@) == relayed::<
                        P,
                        R,
                    >(old(state).separator(), old(state)@, watched, text_view(cwd))
                        && *final(state) == *old(state),
                    _ => false,
                }
            } else {
                res is None && *final(state) == *old(state)
            },
            final(state).wf(),
            final(state).separator() == old(state).separator(),
    {
        let can_be_handled = match &message {
            WatchMessage::WatchPort(_, _) => true,
            WatchMessage::WatchNotification(watched) => state.path_ports.len() == 0 || match &cwd {
                Some(dir) => starts_with(&state.rules, watched.as_str(), dir.as_str()),
                None => false,
            },
            _ => false,
        };
        if can_be_handled {
            Some(self.handle(message, port, cwd, state))
        } else {
            None
        }
    }
}

} // verus!
