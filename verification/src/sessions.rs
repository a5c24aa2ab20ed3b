//! The sessions that the host reports, and what the switcher shows of
//! them.

use vstd::prelude::*;

verus! {

/// What the host reports of one running session, as far as the switcher
/// decides by it.
#[derive(Clone, Debug, PartialEq, Eq)]
pub struct SessionInfo {
    pub name: String,
    /// Whether the session is the one this overlay runs in.
    pub is_current_session: bool,
    /// Whether web clients may attach to the session.
    pub web_clients_allowed: bool,
}

/// A [`SessionInfo`] with its name as a sequence of characters.
pub struct SessionInfoView {
    pub name: Seq<char>,
    pub is_current_session: bool,
    pub web_clients_allowed: bool,
}

impl View for SessionInfo {
    type V = SessionInfoView;

    open spec fn view(&self) -> SessionInfoView {
        SessionInfoView {
            name: self.name@,
            is_current_session: self.is_current_session,
            web_clients_allowed: self.web_clients_allowed,
        }
    }
}

/// The views of a list of sessions, in order.
pub open spec fn session_views(infos: Seq<SessionInfo>) -> Seq<SessionInfoView> {
    infos.map_values(|info: SessionInfo| info@)
}

/// A way to pick sessions out of a report.
#[derive(Clone, Copy, Debug, PartialEq, Eq, Structural)]
pub enum Pick {
    /// The sessions that the session list shows.
    Shown,
    /// The sessions that are closed to this kind of client.
    Forbidden,
    /// The session that the overlay runs in.
    Current,
}

/// Who looks at the report: a web client or not, from the standalone
/// welcome screen or not.
#[derive(Clone, Copy, Debug, PartialEq, Eq, Structural)]
pub struct Viewer {
    pub is_web_client: bool,
    pub is_welcome_screen: bool,
}

impl Pick {
    /// Whether `info` is picked for `viewer`. A session is forbidden if the
    /// viewer is a web client and the session does not allow web clients. A
    /// session is shown if it is not forbidden and, on the welcome screen,
    /// not the current one: the welcome screen does not offer itself.
    pub open spec fn picks(self, info: SessionInfoView, viewer: Viewer) -> bool {
        match self {
            Pick::Shown => !(viewer.is_web_client && !info.web_clients_allowed) && !(
            viewer.is_welcome_screen && info.is_current_session),
            Pick::Forbidden => viewer.is_web_client && !info.web_clients_allowed,
            Pick::Current => info.is_current_session,
        }
    }

    /// Whether `info` is picked for `viewer`.
    pub fn includes(self, info: &SessionInfo, viewer: Viewer) -> (res: bool)
        ensures
            res == self.picks(info@, viewer),
    {
        match self {
            Pick::Shown => !(viewer.is_web_client && !info.web_clients_allowed) && !(
            viewer.is_welcome_screen && info.is_current_session),
            Pick::Forbidden => viewer.is_web_client && !info.web_clients_allowed,
            Pick::Current => info.is_current_session,
        }
    }
}

/// The positions below `end` of the sessions that `pick` picks, in rising
/// order.
pub open spec fn picked(infos: Seq<SessionInfoView>, pick: Pick, viewer: Viewer, end: int) -> Seq<
    usize,
>
    decreases end,
{
    if end <= 0 {
        Seq::empty()
    } else if pick.picks(infos[end - 1], viewer) {
        picked(infos, pick, viewer, end - 1).push((end - 1) as usize)
    } else {
        picked(infos, pick, viewer, end - 1)
    }
}

/// The name of the first session of the report that is the current one.
/// Who looks at the report does not matter to it.
pub open spec fn current_session_name(infos: Seq<SessionInfoView>, viewer: Viewer) -> Option<
    Seq<char>,
> {
    let current = picked(infos, Pick::Current, viewer, infos.len() as int);
    if current.len() > 0 {
        Some(infos[current[0] as int].name)
    } else {
        None
    }
}

/// The positions that are picked are exactly those of the sessions that
/// the pick holds of, each once and in rising order.
pub proof fn lemma_picked(infos: Seq<SessionInfoView>, pick: Pick, viewer: Viewer, end: int)
    requires
        0 <= end <= infos.len(),
        infos.len() <= usize::MAX,
    ensures
        picked(infos, pick, viewer, end).len() <= end,
        forall|k: int|
            0 <= k < picked(infos, pick, viewer, end).len() ==> {
                let i = #[trigger] picked(infos, pick, viewer, end)[k];
                0 <= i < end && pick.picks(infos[i as int], viewer)
            },
        forall|j: int, k: int|
            0 <= j < k < picked(infos, pick, viewer, end).len() ==> picked(infos, pick, viewer, end)[j]
                < picked(infos, pick, viewer, end)[k],
        forall|i: int|
            0 <= i < end && pick.picks(#[trigger] infos[i], viewer) ==> picked(
                infos,
                pick,
                viewer,
                end,
            ).contains(i as usize),
    decreases end,
{
    if end > 0 {
        lemma_picked(infos, pick, viewer, end - 1);
        let before = picked(infos, pick, viewer, end - 1);
        let all = picked(infos, pick, viewer, end);
        if pick.picks(infos[end - 1], viewer) {
            assert(all[before.len() as int] == (end - 1) as usize);
            assert forall|i: int| 0 <= i < end && pick.picks(#[trigger] infos[i], viewer) implies all.contains(
                i as usize,
            ) by {
                if i < end - 1 {
                    let k = choose|k: int| 0 <= k < before.len() && before[k] == i as usize;
                    assert(all[k] == i as usize);
                } else {
                    assert(all[before.len() as int] == i as usize);
                }
            }
        }
    }
}

/// With no session reported as current there is no name. With one, the
/// name is that of the session at the first position `i` of a current
/// session.
pub proof fn lemma_current_session_name(infos: Seq<SessionInfoView>, viewer: Viewer)
    requires
        infos.len() <= usize::MAX,
    ensures
        current_session_name(infos, viewer) is None <==> forall|i: int|
            0 <= i < infos.len() ==> !(#[trigger] infos[i]).is_current_session,
        current_session_name(infos, viewer) is Some ==> exists|i: int|
            0 <= i < infos.len() && (#[trigger] infos[i]).is_current_session
                && current_session_name(infos, viewer) == Some(infos[i].name) && forall|j: int|
                0 <= j < i ==> !(#[trigger] infos[j]).is_current_session,
{
    let end = infos.len() as int;
    let current = picked(infos, Pick::Current, viewer, end);
    lemma_picked(infos, Pick::Current, viewer, end);
    if current.len() > 0 {
        let first = current[0] as int;
        assert(Pick::Current.picks(infos[first], viewer));
        assert forall|j: int| 0 <= j < first implies !(#[trigger] infos[j]).is_current_session by {
            if infos[j].is_current_session {
                assert(Pick::Current.picks(infos[j], viewer));
                let k = choose|k: int| 0 <= k < current.len() && current[k] == j as usize;
                assert(k == 0 || current[0] < current[k]);
            }
        }
    } else {
        assert forall|i: int| 0 <= i < infos.len() implies !(#[trigger] infos[i]).is_current_session by {
            if infos[i].is_current_session {
                assert(Pick::Current.picks(infos[i], viewer));
                assert(current.contains(i as usize));
            }
        }
    }
}

/// No session is both shown and forbidden, and a session that is neither
/// is the current one, seen from the welcome screen.
pub proof fn lemma_shown_or_forbidden(info: SessionInfoView, viewer: Viewer)
    ensures
        !(Pick::Shown.picks(info, viewer) && Pick::Forbidden.picks(info, viewer)),
        !Pick::Shown.picks(info, viewer) && !Pick::Forbidden.picks(info, viewer)
            ==> viewer.is_welcome_screen && info.is_current_session,
        !viewer.is_web_client ==> !Pick::Forbidden.picks(info, viewer),
{
}

/// The positions in `infos` of the sessions that `pick` picks for `viewer`,
/// in rising order.
pub fn pick_sessions(infos: &Vec<SessionInfo>, pick: Pick, viewer: Viewer) -> (positions: Vec<
    usize,
>)
    ensures
        positions@ == picked(session_views(infos@), pick, viewer, infos@.len() as int),
{
    let mut positions: Vec<usize> = Vec::new();
    let mut i: usize = 0;
    while i < infos.len()
        invariant
            i <= infos@.len(),
            positions@ == picked(session_views(infos@), pick, viewer, i as int),
        decreases infos@.len() - i,
    {
        if pick.includes(&infos[i], viewer) {
            positions.push(i);
        }
        i += 1;
    }
    positions
}

} // verus!
