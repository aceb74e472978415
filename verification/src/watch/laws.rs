//! What holds of the paths that are watched and of what their ports are told.
use super::{
    AccessKind, AccessMode, EventKind, RpcReplyPort, WatchEffect, WatchEffectView, WatchMessage,
    WatchMessageView,
};
use std::sync::Arc;
use vstd::prelude::*;

verus! {

/// A file event is reported exactly if files were closed after they had been open for writing: then
/// with one message for each of the files, in their order, and with the path of that file.
pub proof fn law_written_files_are_reported<R>(kind: EventKind, paths: Seq<String>)
    ensures
        kind == EventKind::Access(AccessKind::Close(AccessMode::Write)) ==> super::notifications::<
            R,
        >(kind, paths).len() == paths.len() && forall|i: int|
            0 <= i < paths.len() ==> #[trigger] super::notifications::<R>(kind, paths)[i]
                == WatchMessageView::<R>::WatchNotification(paths[i]@),
        kind != EventKind::Access(AccessKind::Close(AccessMode::Write)) ==> super::notifications::<
            R,
        >(kind, paths).len() == 0,
{
}

/// The reports of two batches of files are those of the one followed by those of the other.
pub proof fn law_reports_of_two_batches<R>(kind: EventKind, a: Seq<String>, b: Seq<String>)
    ensures
        super::notifications::<R>(kind, a + b) == super::notifications::<R>(kind, a)
            + super::notifications::<R>(kind, b),
{
    assert(super::notifications::<R>(kind, a + b) =~= super::notifications::<R>(kind, a)
        + super::notifications::<R>(kind, b));
}

/// Once a path has got a port, it has that port and no other; every other path has the ports that it
/// had, and no path comes twice. There is one path more exactly if the path was new.
pub proof fn law_insert<P>(entries: Seq<(Seq<char>, Arc<P>)>, path: Seq<char>, port: Arc<P>)
    requires
        forall|i: int, j: int| 0 <= i < j < entries.len() ==> entries[i].0 != entries[j].0,
    ensures
        ({
            let after = super::inserted(entries, path, port);
            &&& after.contains((path, port))
            &&& forall|i: int| 0 <= i < after.len() && after[i].0 == path ==> after[i].1 == port
            &&& forall|i: int|
                0 <= i < entries.len() && entries[i].0 != path ==> after.contains(
                    #[trigger] entries[i],
                )
            &&& forall|i: int|
                0 <= i < after.len() && after[i].0 != path ==> entries.contains(#[trigger] after[i])
            &&& forall|i: int, j: int| 0 <= i < j < after.len() ==> after[i].0 != after[j].0
            &&& (forall|i: int| 0 <= i < entries.len() ==> entries[i].0 != path) ==> after.len()
                == entries.len() + 1
            &&& (exists|i: int| 0 <= i < entries.len() && entries[i].0 == path) ==> after.len()
                == entries.len()
        }),
{
    let after = super::inserted(entries, path, port);
    assert(super::distinct_paths(entries));
    let at = if super::has_port(entries, path) {
        super::place_of(entries, path)
    } else {
        entries.len() as int
    };
    assert(after[at] == (path, port));
    assert forall|i: int| 0 <= i < entries.len() && entries[i].0 != path implies after.contains(
        #[trigger] entries[i],
    ) by {
        assert(after[i] == entries[i]);
    }
    assert forall|i: int| 0 <= i < after.len() && after[i].0 != path implies entries.contains(
        #[trigger] after[i],
    ) by {
        assert(after[i] == entries[i]);
    }
}

/// Of the ports that are told, each is that of an entry that was picked out, and it is told the path;
/// each entry that was picked out is told, once, and in the order of the entries.
pub proof fn law_picked_entries_are_told<P, R>(
    entries: Seq<(Seq<char>, Arc<P>)>,
    relpath: Seq<char>,
    matched: Seq<bool>,
)
    requires
        matched.len() == entries.len(),
    ensures
        entries.len() == 0 ==> super::picked::<P, R>(entries, relpath, matched).len() == 0,
        entries.len() > 0 ==> super::picked::<P, R>(entries, relpath, matched) == super::picked::<
            P,
            R,
        >(entries.drop_last(), relpath, matched.drop_last()) + if matched.last() {
            seq![WatchEffectView::<P, R>::Deliver(entries.last().1, relpath)]
        } else {
            Seq::empty()
        },
        forall|i: int|
            0 <= i < entries.len() && #[trigger] matched[i] ==> super::picked::<P, R>(
                entries,
                relpath,
                matched,
            ).contains(WatchEffectView::<P, R>::Deliver(entries[i].1, relpath)),
        forall|e: WatchEffectView<P, R>| #[trigger]
            super::picked::<P, R>(entries, relpath, matched).contains(e) ==> exists|i: int|
                0 <= i < entries.len() && #[trigger] matched[i] && e == WatchEffectView::<
                    P,
                    R,
                >::Deliver(entries[i].1, relpath),
    decreases entries.len(),
{
    let told = super::picked::<P, R>(entries, relpath, matched);
    if entries.len() > 0 {
        let before = entries.drop_last();
        let earlier = super::picked::<P, R>(before, relpath, matched.drop_last());
        lemma_picked_prefix::<P, R>(before, relpath, matched, matched.drop_last());
        law_picked_entries_are_told::<P, R>(before, relpath, matched.drop_last());
        let last = if matched.last() {
            seq![WatchEffectView::<P, R>::Deliver(entries.last().1, relpath)]
        } else {
            Seq::empty()
        };
        assert(told =~= earlier + last);
        assert forall|i: int| 0 <= i < entries.len() && #[trigger] matched[i] implies told.contains(
            WatchEffectView::<P, R>::Deliver(entries[i].1, relpath),
        ) by {
            let e = WatchEffectView::<P, R>::Deliver(entries[i].1, relpath);
            if i < before.len() {
                assert(matched.drop_last()[i]);
                assert(earlier.contains(e));
                let k = choose|k: int| 0 <= k < earlier.len() && earlier[k] == e;
                assert(told[k] == e);
            } else {
                assert(told[told.len() - 1] == e);
            }
        }
        assert forall|e: WatchEffectView<P, R>| #[trigger] told.contains(e) implies exists|i: int|
            0 <= i < entries.len() && #[trigger] matched[i] && e == WatchEffectView::<P, R>::Deliver(
                entries[i].1,
                relpath,
            ) by {
            let k = choose|k: int| 0 <= k < told.len() && told[k] == e;
            if k < earlier.len() {
                assert(earlier[k] == e);
                assert(earlier.contains(e));
                let i = choose|i: int|
                    0 <= i < before.len() && #[trigger] matched.drop_last()[i] && e
                        == WatchEffectView::<P, R>::Deliver(before[i].1, relpath);
                assert(matched[i]);
            } else {
                assert(matched[entries.len() - 1]);
            }
        }
    }
}

/// When a file was written, the ports that are told are those of the paths that are a beginning of
/// the file's path by `Path::starts_with`, each once and in the order of the paths, and what they are
/// told is the file's path.
pub proof fn law_ports_below_are_told<P, R>(
    separator: char,
    entries: Seq<(Seq<char>, Arc<P>)>,
    relpath: Seq<char>,
)
    ensures
        entries.len() == 0 ==> super::deliveries::<P, R>(separator, entries, relpath).len() == 0,
        entries.len() > 0 ==> super::deliveries::<P, R>(separator, entries, relpath)
            == super::deliveries::<P, R>(separator, entries.drop_last(), relpath)
            + if super::path_starts_with(separator, relpath, entries.last().0) {
            seq![WatchEffectView::<P, R>::Deliver(entries.last().1, relpath)]
        } else {
            Seq::empty()
        },
        forall|i: int|
            0 <= i < entries.len() && super::path_starts_with(
                separator,
                relpath,
                #[trigger] entries[i].0,
            ) ==> super::deliveries::<P, R>(separator, entries, relpath).contains(
                WatchEffectView::<P, R>::Deliver(entries[i].1, relpath),
            ),
        forall|e: WatchEffectView<P, R>| #[trigger]
            super::deliveries::<P, R>(separator, entries, relpath).contains(e) ==> exists|i: int|
                0 <= i < entries.len() && super::path_starts_with(
                    separator,
                    relpath,
                    #[trigger] entries[i].0,
                ) && e == WatchEffectView::<P, R>::Deliver(entries[i].1, relpath),
{
    let told = super::deliveries::<P, R>(separator, entries, relpath);
    let matched = super::matching(separator, entries, relpath);
    law_picked_entries_are_told::<P, R>(entries, relpath, matched);
    if entries.len() > 0 {
        let before = entries.drop_last();
        assert(matched.drop_last() =~= super::matching(separator, before, relpath));
    }
    assert forall|i: int|
        0 <= i < entries.len() && super::path_starts_with(
            separator,
            relpath,
            #[trigger] entries[i].0,
        ) implies told.contains(WatchEffectView::<P, R>::Deliver(entries[i].1, relpath)) by {
        assert(matched[i]);
    }
    assert forall|e: WatchEffectView<P, R>| #[trigger] told.contains(e) implies exists|i: int|
        0 <= i < entries.len() && super::path_starts_with(
            separator,
            relpath,
            #[trigger] entries[i].0,
        ) && e == WatchEffectView::<P, R>::Deliver(entries[i].1, relpath) by {
        let i = choose|i: int|
            0 <= i < entries.len() && #[trigger] matched[i] && e == WatchEffectView::<
                P,
                R,
            >::Deliver(entries[i].1, relpath);
        assert(super::path_starts_with(separator, relpath, entries[i].0));
    }
}

/// What is told of a file, where some path is watched, is told of what is left of its path below the
/// working directory; where no path is watched nothing is told, whatever the working directory.
pub proof fn law_relayed_below_the_working_directory<P, R>(
    separator: char,
    entries: Seq<(Seq<char>, Arc<P>)>,
    watched: Seq<char>,
    cwd: Option<Seq<char>>,
    dir: Seq<char>,
    relpath: Seq<char>,
)
    requires
        entries.len() > 0 ==> cwd == Some(dir) && super::path_below(separator, watched, dir) == Some(
            relpath,
        ),
    ensures
        entries.len() == 0 ==> super::relayed::<P, R>(separator, entries, watched, cwd).len() == 0,
        forall|i: int|
            0 <= i < entries.len() && super::path_starts_with(
                separator,
                relpath,
                #[trigger] entries[i].0,
            ) ==> super::relayed::<P, R>(separator, entries, watched, cwd).contains(
                WatchEffectView::<P, R>::Deliver(entries[i].1, relpath),
            ),
        forall|e: WatchEffectView<P, R>| #[trigger]
            super::relayed::<P, R>(separator, entries, watched, cwd).contains(e) ==> exists|i: int|
                0 <= i < entries.len() && super::path_starts_with(
                    separator,
                    relpath,
                    #[trigger] entries[i].0,
                ) && e == WatchEffectView::<P, R>::Deliver(entries[i].1, relpath),
        entries.len() > 0 ==> super::relayed::<P, R>(separator, entries, watched, cwd)
            == super::deliveries::<P, R>(separator, entries, relpath),
{
    law_ports_below_are_told::<P, R>(separator, entries, relpath);
}

/// A message can be handled exactly if it asks for a port, or tells of a file and either no path is
/// watched or the working directory is known and a beginning of the file's path.
pub proof fn law_messages_that_can_be_handled<P, R>(
    separator: char,
    entries: Seq<(Seq<char>, Arc<P>)>,
    message: WatchMessage<R>,
    cwd: Option<String>,
)
    ensures
        super::can_be_handled(separator, entries, message@, super::text_view(cwd))
            <==> match message {
            WatchMessage::WatchPort(_, _) => true,
            WatchMessage::WatchNotification(watched) => entries.len() == 0 || (cwd matches Some(dir)
                && super::path_starts_with(separator, watched@, dir@)),
            WatchMessage::Start | WatchMessage::Stop | WatchMessage::Watch(_) => false,
        },
{
}

/// To a request for a port the path is watched, and then the port is handed to whoever asked, unless
/// nobody waits for it any more; nothing else is done.
pub proof fn law_answer_to_a_request<P, R>(
    path: Seq<char>,
    reply: RpcReplyPort<R>,
    port: Arc<P>,
)
    ensures
        ({
            let effects = super::watch_port_effects::<P, R>(path, reply, port);
            &&& effects.len() == if reply.closed {
                1nat
            } else {
                2
            }
            &&& effects[0] == WatchEffectView::<P, R>::WatchPath(path)
            &&& !reply.closed ==> effects[1] == WatchEffectView::<P, R>::Reply(reply.port, port)
        }),
{
}

/// The model of the effects and of a message loses nothing: there are as many effects, in the same
/// order and with the same contents; only texts are taken as their characters.
pub proof fn law_effects_and_messages_are_seen_as_they_are<P, R>(
    effects: Seq<WatchEffect<P, R>>,
    i: int,
    message: WatchMessage<R>,
    text: Option<String>,
)
    requires
        0 <= i < effects.len(),
    ensures
        super::effects_view(effects).len() == effects.len(),
        match effects[i] {
            WatchEffect::WatchPath(path) => super::effects_view(effects)[i] == WatchEffectView::<
                P,
                R,
            >::WatchPath(path@),
            WatchEffect::Reply(reply, port) => super::effects_view(effects)[i]
                == WatchEffectView::Reply(reply, port),
            WatchEffect::Deliver(port, path) => super::effects_view(effects)[i]
                == WatchEffectView::<P, R>::Deliver(port, path@),
        },
        match message {
            WatchMessage::Start => message@ is Start,
            WatchMessage::Stop => message@ is Stop,
            WatchMessage::Watch(path) => message@ == WatchMessageView::<R>::Watch(path@),
            WatchMessage::WatchPort(path, reply) => message@ == WatchMessageView::WatchPort(
                path@,
                reply,
            ),
            WatchMessage::WatchNotification(path) => message@ == WatchMessageView::<
                R,
            >::WatchNotification(path@),
        },
        match text {
            Some(t) => super::text_view(text) == Some(t@),
            None => super::text_view(text) is None,
        },
{
}

/// The port of each path that is watched.
pub open spec fn ports<P>(entries: Seq<(Seq<char>, Arc<P>)>) -> Map<Seq<char>, Arc<P>> {
    Map::new(
        |path: Seq<char>| super::has_port(entries, path),
        |path: Seq<char>| entries[super::place_of(entries, path)].1,
    )
}

/// A path that is not the one inserted keeps its port, or stays without one.
proof fn lemma_other_path<P>(
    entries: Seq<(Seq<char>, Arc<P>)>,
    path: Seq<char>,
    port: Arc<P>,
    other: Seq<char>,
)
    requires
        super::distinct_paths(entries),
        super::distinct_paths(super::inserted(entries, path, port)),
        other != path,
    ensures
        ({
            let after = super::inserted(entries, path, port);
            &&& super::has_port(after, other) == super::has_port(entries, other)
            &&& super::has_port(entries, other) ==> ports(after)[other] == ports(entries)[other]
        }),
{
    let after = super::inserted(entries, path, port);
    if super::has_port(entries, other) {
        let i = super::place_of(entries, other);
        assert(after[i] == entries[i]);
        assert(after[i].0 == other);
        assert(super::place_of(after, other) == i);
    }
    if super::has_port(after, other) {
        let i = super::place_of(after, other);
        assert(entries[i] == after[i]);
        assert(entries[i].0 == other);
    }
}

/// To watch a path gives it the new port, instead of the one it had, and leaves every other path
/// its own. No path ever has two ports.
pub proof fn law_watching_a_path_is_an_insert<P>(
    entries: Seq<(Seq<char>, Arc<P>)>,
    path: Seq<char>,
    port: Arc<P>,
)
    requires
        super::distinct_paths(entries),
    ensures
        super::distinct_paths(super::inserted(entries, path, port)),
        ports(super::inserted(entries, path, port)) == ports(entries).insert(path, port),
{
    let after = super::inserted(entries, path, port);
    let at = if super::has_port(entries, path) {
        super::place_of(entries, path)
    } else {
        entries.len() as int
    };
    assert(after[at].0 == path);
    assert(super::place_of(after, path) == at);
    assert forall|p: Seq<char>|
        {
            &&& #[trigger] ports(after).dom().contains(p) == ports(entries).insert(
                path,
                port,
            ).dom().contains(p)
            &&& ports(after).dom().contains(p) ==> ports(after)[p] == ports(entries).insert(
                path,
                port,
            )[p]
        } by {
        if p != path {
            lemma_other_path(entries, path, port, p);
        }
    }
    assert(ports(after) =~= ports(entries).insert(path, port));
}

/// The entries whose path is a beginning of `relpath`.
pub open spec fn interested<P>(
    separator: char,
    entries: Seq<(Seq<char>, Arc<P>)>,
    relpath: Seq<char>,
) -> Seq<(Seq<char>, Arc<P>)> {
    entries.filter(
        |entry: (Seq<char>, Arc<P>)| super::path_starts_with(separator, relpath, entry.0),
    )
}

proof fn lemma_picked_prefix<P, R>(
    entries: Seq<(Seq<char>, Arc<P>)>,
    relpath: Seq<char>,
    a: Seq<bool>,
    b: Seq<bool>,
)
    requires
        a.len() >= entries.len(),
        b.len() >= entries.len(),
        forall|i: int| 0 <= i < entries.len() ==> a[i] == b[i],
    ensures
        super::picked::<P, R>(entries, relpath, a) == super::picked::<P, R>(entries, relpath, b),
    decreases entries.len(),
{
    if entries.len() > 0 {
        lemma_picked_prefix::<P, R>(entries.drop_last(), relpath, a, b);
    }
}

/// When a file was written, each path that is a beginning of the file's path has its port told once,
/// with the file's path relative to the working directory; no other port is told.
pub proof fn law_told_once_if_interested<P, R>(
    separator: char,
    entries: Seq<(Seq<char>, Arc<P>)>,
    relpath: Seq<char>,
)
    ensures
        super::deliveries::<P, R>(separator, entries, relpath) == interested(
            separator,
            entries,
            relpath,
        ).map_values(
            |entry: (Seq<char>, Arc<P>)| WatchEffectView::<P, R>::Deliver(entry.1, relpath),
        ),
    decreases entries.len(),
{
    reveal(Seq::filter);
    let tell = |entry: (Seq<char>, Arc<P>)| WatchEffectView::<P, R>::Deliver(entry.1, relpath);
    if entries.len() > 0 {
        let before = entries.drop_last();
        law_told_once_if_interested::<P, R>(separator, before, relpath);
        lemma_picked_prefix::<P, R>(
            before,
            relpath,
            super::matching(separator, entries, relpath),
            super::matching(separator, before, relpath),
        );
    }
    assert(super::deliveries::<P, R>(separator, entries, relpath) =~= interested(
        separator,
        entries,
        relpath,
    ).map_values(tell));
}

/// Once a path is watched, its new port is told of every file below it.
pub proof fn law_new_port_is_told<P, R>(
    separator: char,
    entries: Seq<(Seq<char>, Arc<P>)>,
    path: Seq<char>,
    port: Arc<P>,
    relpath: Seq<char>,
)
    requires
        super::distinct_paths(entries),
        super::path_starts_with(separator, relpath, path),
    ensures
        super::deliveries::<P, R>(
            separator,
            super::inserted(entries, path, port),
            relpath,
        ).contains(WatchEffectView::Deliver(port, relpath)),
{
    let after = super::inserted(entries, path, port);
    let at = if super::has_port(entries, path) {
        super::place_of(entries, path)
    } else {
        entries.len() as int
    };
    assert(after[at] == (path, port));
    law_told_once_if_interested::<P, R>(separator, after, relpath);
    let keep = |entry: (Seq<char>, Arc<P>)| super::path_starts_with(separator, relpath, entry.0);
    assert(keep(after[at]));
    after.lemma_filter_contains(keep, at);
    let told = interested(separator, after, relpath);
    let i = choose|i: int| 0 <= i < told.len() && told[i] == after[at];
    assert(told[i] == (path, port));
    assert(super::deliveries::<P, R>(separator, after, relpath)[i] == WatchEffectView::<
        P,
        R,
    >::Deliver(port, relpath));
}

} // verus!
