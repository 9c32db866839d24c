//! The event-feed client: classifying websocket frames, the session state
//! machine, and the reconciliation of the remote subscription set against
//! the desired one.
//!
//! The caller owns the socket and the REST surface: it reads frames,
//! performs the delete/create calls of a reconciliation pass, and waits
//! out reconnect delays. Every decision in between is made and verified
//! here.

use vstd::prelude::*;

use twitch_api::eventsub::{Event, EventsubWebsocketData, ReconnectPayload, WelcomePayload};

use crate::inter_comm::{InterComm, MessageType};

verus! {

/// The kind of stream-status subscription, with a stand-in for every
/// other subscription kind the remote side may hold.
#[derive(Debug, Clone, Copy, PartialEq, Eq, Structural)]
pub enum EventType {
    StreamOnline,
    StreamOffline,
    /// A remote subscription of a kind this client never asks for.
    Other,
}

/// One subscription this client wants: a stream-status event kind for one
/// broadcaster, with the remote id once the remote side has it.
#[derive(Debug, Clone)]
pub struct Subscription {
    pub user_id: u64,
    pub event_id: Option<String>,
    pub event_type: EventType,
}

/// Mathematical image of a [`Subscription`].
#[verifier::ext_equal]
pub struct SubscriptionView {
    pub user_id: u64,
    pub event_id: Option<Seq<char>>,
    pub event_type: EventType,
}

impl View for Subscription {
    type V = SubscriptionView;

    open spec fn view(&self) -> SubscriptionView {
        SubscriptionView {
            user_id: self.user_id,
            event_id: match self.event_id {
                Some(ref s) => Some(s@),
                None => None,
            },
            event_type: self.event_type,
        }
    }
}

/// One subscription as the remote side reported it: its opaque id, its
/// kind, and the broadcaster it is for (`None` when the entry carries no
/// readable broadcaster id — such an entry matches nothing).
#[derive(Debug, Clone)]
pub struct RemoteSub {
    pub id: String,
    pub event_type: EventType,
    pub user_id: Option<u64>,
}

/// Mathematical image of a [`RemoteSub`].
#[verifier::ext_equal]
pub struct RemoteSubView {
    pub id: Seq<char>,
    pub event_type: EventType,
    pub user_id: Option<u64>,
}

impl View for RemoteSub {
    type V = RemoteSubView;

    open spec fn view(&self) -> RemoteSubView {
        RemoteSubView { id: self.id@, event_type: self.event_type, user_id: self.user_id }
    }
}

/// The key a subscription is reconciled by.
pub open spec fn sub_key(s: SubscriptionView) -> (u64, EventType) {
    (s.user_id, s.event_type)
}

/// The key of a remote entry, if it carries one.
pub open spec fn remote_key(r: RemoteSubView) -> Option<(u64, EventType)> {
    match r.user_id {
        Some(u) => Some((u, r.event_type)),
        None => None,
    }
}

/// Whether a remote entry is the remote side of this desired entry.
pub open spec fn sub_matches(s: SubscriptionView, r: RemoteSubView) -> bool {
    remote_key(r) == Some(sub_key(s))
}

/// Whether some desired entry matches this remote entry.
pub open spec fn has_match(subs: Seq<SubscriptionView>, r: RemoteSubView) -> bool {
    exists|i: int| 0 <= i < subs.len() && sub_matches(#[trigger] subs[i], r)
}

/// The desired entry a remote entry is matched to (unique when the
/// desired keys are distinct).
pub open spec fn matching_index(subs: Seq<SubscriptionView>, r: RemoteSubView) -> int {
    choose|i: int| 0 <= i < subs.len() && sub_matches(#[trigger] subs[i], r)
}

/// Whether some remote entry carries this key.
pub open spec fn remote_has_key(remote: Seq<RemoteSubView>, key: (u64, EventType)) -> bool {
    exists|j: int| 0 <= j < remote.len() && remote_key(#[trigger] remote[j]) == Some(key)
}

/// The desired subscription list: an online and an offline entry per
/// monitored broadcaster, none yet bound remotely.
pub open spec fn desired_subs(user_ids: Seq<u64>) -> Seq<SubscriptionView>
    decreases user_ids.len(),
{
    if user_ids.len() == 0 {
        Seq::empty()
    } else {
        desired_subs(user_ids.drop_last()) + seq![
            SubscriptionView {
                user_id: user_ids.last(),
                event_id: None,
                event_type: EventType::StreamOnline,
            },
            SubscriptionView {
                user_id: user_ids.last(),
                event_id: None,
                event_type: EventType::StreamOffline,
            },
        ]
    }
}

/// One reconciliation matching pass over the remote list, left to right:
/// a remote entry matching a desired entry binds that entry's remote id
/// (a later duplicate overwrites an earlier one); a remote entry matching
/// nothing is marked for deletion.
pub open spec fn match_remote(subs: Seq<SubscriptionView>, remote: Seq<RemoteSubView>) -> (
    Seq<SubscriptionView>,
    Seq<Seq<char>>,
)
    decreases remote.len(),
{
    if remote.len() == 0 {
        (subs, Seq::empty())
    } else {
        let (s1, d1) = match_remote(subs, remote.drop_last());
        let r = remote.last();
        if has_match(s1, r) {
            let i = matching_index(s1, r);
            (s1.update(i, SubscriptionView { event_id: Some(r.id), ..s1[i] }), d1)
        } else {
            (s1, d1.push(r.id))
        }
    }
}

/// Everything one reconciliation pass changes: the state after the
/// welcome, and the remote ids to delete.
pub open spec fn welcome_model(
    c: ClientModel,
    session_id: Seq<char>,
    reconnect_url: Option<Seq<char>>,
    remote: Seq<RemoteSubView>,
) -> (ClientModel, Seq<Seq<char>>) {
    let (subs, dels) = match_remote(desired_subs(c.user_ids), remote);
    (
        ClientModel {
            session_id: Some(session_id),
            connect_url: match reconnect_url {
                Some(u) => u,
                None => c.connect_url,
            },
            user_ids: c.user_ids,
            subs,
        },
        dels,
    )
}

/// One classified frame of the event feed, the closed union the session
/// state machine runs on.
#[derive(Debug, Clone)]
pub enum Frame {
    Welcome { session_id: String, reconnect_url: Option<String> },
    Reconnect { session_id: String, reconnect_url: Option<String> },
    Online { user_id: String, user_login: String },
    Offline { user_id: String, user_login: String },
    Revocation,
    Keepalive,
    /// Anything unrecognized, including frames that fail to parse; all
    /// are ignored.
    Unknown,
}

/// What the feed loop should do with one frame.
#[derive(Debug, Clone)]
pub enum FeedAction {
    /// A new session: run a reconciliation pass for it.
    Reconcile { session_id: String, reconnect_url: Option<String> },
    /// Deliver this message to the reconciler through the queue.
    Emit(InterComm),
    Nothing,
}

/// How to continue after a transport error.
#[derive(Debug, Clone, Copy, PartialEq, Eq, Structural)]
pub enum ReconnectAction {
    /// The reset-without-close condition: reconnect at once.
    ReconnectNow,
    /// Anything else: wait, then reconnect.
    WaitThenReconnect { delay_secs: u64 },
}

/// The fixed reconnect backoff.
pub const RECONNECT_DELAY_SECS: u64 = 30;

/// Picks the reconnect policy for a failed transport: the specific
/// reset-without-close condition is recovered at once, every other
/// failure waits the fixed delay. Neither ends the feed loop.
pub fn on_transport_error(reset_without_close: bool) -> (a: ReconnectAction)
    ensures
        reset_without_close ==> a == ReconnectAction::ReconnectNow,
        !reset_without_close ==> a == (ReconnectAction::WaitThenReconnect {
            delay_secs: RECONNECT_DELAY_SECS,
        }),
{
    if reset_without_close {
        ReconnectAction::ReconnectNow
    } else {
        ReconnectAction::WaitThenReconnect { delay_secs: RECONNECT_DELAY_SECS }
    }
}

/// The feed library's parsed event payload, carried through opaquely.
#[verifier::external_type_specification]
#[verifier::external_body]
pub struct ExEvent(Event);

/// What a raw feed frame came out as, with a notification's payload still
/// in the feed library's own form.
pub enum RawWsFrame {
    Session { is_reconnect: bool, session_id: String, reconnect_url: Option<String> },
    Notification(Event),
    Revocation,
    Keepalive,
    Unknown,
}

/// The classification of one feed frame; a function of the text alone.
pub uninterp spec fn ws_frame_of(text: Seq<char>) -> RawWsFrame;

/// Relies on `twitch_api::eventsub::Event::parse_websocket`: it parses
/// one websocket text frame into the frame kinds of the event feed
/// (welcome, keepalive, notification, revocation, reconnect), carrying
/// the session data of a welcome or reconnect and the payload of a
/// notification. A frame it cannot parse comes back here as `Unknown`.
#[verifier::external_body]
fn parse_ws_frame(text: &str) -> (r: RawWsFrame)
    ensures
        r == ws_frame_of(text@),
{
    match Event::parse_websocket(text) {
        Ok(EventsubWebsocketData::Welcome { payload: WelcomePayload { session: s }, .. }) =>
            RawWsFrame::Session { is_reconnect: false, session_id: s.id.into_owned(), reconnect_url: s.reconnect_url.map(|u| u.into_owned()) },
        Ok(EventsubWebsocketData::Reconnect { payload: ReconnectPayload { session: s }, .. }) =>
            RawWsFrame::Session { is_reconnect: true, session_id: s.id.into_owned(), reconnect_url: s.reconnect_url.map(|u| u.into_owned()) },
        Ok(EventsubWebsocketData::Notification { payload, .. }) => RawWsFrame::Notification(payload),
        Ok(EventsubWebsocketData::Revocation { .. }) => RawWsFrame::Revocation,
        Ok(EventsubWebsocketData::Keepalive { .. }) => RawWsFrame::Keepalive,
        _ => RawWsFrame::Unknown,
    }
}

/// A stream-status notification read out of a feed payload.
pub struct StatusNote {
    pub online: bool,
    pub user_id: String,
    pub user_login: String,
}

/// Relies on the shape of `twitch_api::eventsub::Event`: a
/// `StreamOnlineV1` or `StreamOfflineV1` payload carries the
/// broadcaster's id and login; every other event kind comes back `None`.
#[verifier::external_body]
fn classify_notification(event: Event) -> (r: Option<StatusNote>) {
    match event {
        Event::StreamOnlineV1(p) => match p.message {
            twitch_api::eventsub::Message::Notification(n) =>
                Some(StatusNote { online: true, user_id: n.broadcaster_user_id.take(), user_login: n.broadcaster_user_login.take() }),
            _ => None,
        },
        Event::StreamOfflineV1(p) => match p.message {
            twitch_api::eventsub::Message::Notification(n) =>
                Some(StatusNote { online: false, user_id: n.broadcaster_user_id.take(), user_login: n.broadcaster_user_login.take() }),
            _ => None,
        },
        _ => None,
    }
}

/// Classifies one feed text frame into the closed union the session state
/// machine runs on. Welcome and reconnect frames keep their session data;
/// a stream-status notification becomes `Online` or `Offline`; whatever
/// else arrives (revocation, keepalive, unknown kinds, unparsable text)
/// is preserved as its no-op kind.
pub fn classify_frame(text: &str) -> (f: Frame)
    ensures
        ({
            let raw = ws_frame_of(text@);
            &&& (raw matches RawWsFrame::Session { is_reconnect, session_id, reconnect_url } ==> {
                &&& is_reconnect ==> f == (Frame::Reconnect { session_id, reconnect_url })
                &&& !is_reconnect ==> f == (Frame::Welcome { session_id, reconnect_url })
            })
            &&& raw is Notification ==> (f is Online || f is Offline || f is Unknown)
            &&& raw is Revocation ==> f is Revocation
            &&& raw is Keepalive ==> f is Keepalive
            &&& raw is Unknown ==> f is Unknown
        }),
{
    match parse_ws_frame(text) {
        RawWsFrame::Session { is_reconnect, session_id, reconnect_url } => {
            if is_reconnect {
                Frame::Reconnect { session_id, reconnect_url }
            } else {
                Frame::Welcome { session_id, reconnect_url }
            }
        },
        RawWsFrame::Notification(event) => match classify_notification(event) {
            Some(note) => {
                if note.online {
                    Frame::Online { user_id: note.user_id, user_login: note.user_login }
                } else {
                    Frame::Offline { user_id: note.user_id, user_login: note.user_login }
                }
            },
            None => Frame::Unknown,
        },
        RawWsFrame::Revocation => Frame::Revocation,
        RawWsFrame::Keepalive => Frame::Keepalive,
        RawWsFrame::Unknown => Frame::Unknown,
    }
}

/// Mathematical image of the feed client's state.
#[verifier::ext_equal]
pub struct ClientModel {
    pub session_id: Option<Seq<char>>,
    pub connect_url: Seq<char>,
    pub user_ids: Seq<u64>,
    pub subs: Seq<SubscriptionView>,
}

impl ClientModel {
    /// Broadcasters are monitored once each.
    pub open spec fn wf(&self) -> bool {
        forall|i: int, j: int|
            #![trigger self.user_ids[i], self.user_ids[j]]
            0 <= i < j < self.user_ids.len() ==> self.user_ids[i] != self.user_ids[j]
    }
}

/// The broadcaster ids kept once each, first occurrence wins.
pub open spec fn dedup_ids(ids: Seq<u64>) -> Seq<u64>
    decreases ids.len(),
{
    if ids.len() == 0 {
        Seq::empty()
    } else {
        let prev = dedup_ids(ids.drop_last());
        if prev.contains(ids.last()) {
            prev
        } else {
            prev.push(ids.last())
        }
    }
}

/// The event-feed client's state: the session, where to connect, whom to
/// monitor, and the subscription list of the current session.
pub struct WebsocketClient {
    /// The session id of the current connection, once welcomed.
    pub session_id: Option<String>,
    /// Where the next connect goes: the default endpoint, or the
    /// reconnect target the feed handed out.
    pub connect_url: String,
    /// The monitored broadcasters.
    pub user_ids: Vec<u64>,
    /// The desired subscriptions of the current session, each carrying
    /// its remote id once bound.
    pub event_sub_id: Vec<Subscription>,
}

impl View for WebsocketClient {
    type V = ClientModel;

    open spec fn view(&self) -> ClientModel {
        ClientModel {
            session_id: match self.session_id {
                Some(ref s) => Some(s@),
                None => None,
            },
            connect_url: self.connect_url@,
            user_ids: self.user_ids@,
            subs: self.event_sub_id@.map_values(|s: Subscription| s@),
        }
    }
}

/// A subscription that still needs its remote create call.
#[derive(Debug, Clone, Copy, PartialEq, Eq, Structural)]
pub struct SubRequest {
    /// Where in the client's list the created id belongs.
    pub index: usize,
    pub user_id: u64,
    pub event_type: EventType,
}

/// The create calls still owed: one per desired entry with no remote id,
/// in list order.
pub open spec fn pending_of(subs: Seq<SubscriptionView>) -> Seq<SubRequest>
    decreases subs.len(),
{
    if subs.len() == 0 {
        Seq::empty()
    } else {
        let prev = pending_of(subs.drop_last());
        let last = subs.last();
        if last.event_id is None {
            prev.push(
                SubRequest {
                    index: (subs.len() - 1) as usize,
                    user_id: last.user_id,
                    event_type: last.event_type,
                },
            )
        } else {
            prev
        }
    }
}

impl WebsocketClient {
    /// Builds the client's starting state: no session yet, the given
    /// connect target, and each configured broadcaster monitored once
    /// (a repeated id is dropped).
    pub fn new(user_ids: &Vec<u64>, connect_url: String) -> (c: Self)
        ensures
            c@.session_id is None,
            c@.connect_url == connect_url@,
            c@.user_ids == dedup_ids(user_ids@),
            c@.subs =~= Seq::<SubscriptionView>::empty(),
            c@.wf(),
    {
        let n = user_ids.len();
        let mut ids: Vec<u64> = Vec::new();
        let mut i: usize = 0;
        while i < n
            invariant
                0 <= i <= n == user_ids@.len(),
                ids@ == dedup_ids(user_ids@.take(i as int)),
                forall|a: int, b: int|
                    #![trigger ids@[a], ids@[b]]
                    0 <= a < b < ids@.len() ==> ids@[a] != ids@[b],
            decreases n - i,
        {
            proof {
                assert(user_ids@.take(i + 1).drop_last() =~= user_ids@.take(i as int));
                assert(user_ids@.take(i + 1).last() == user_ids@[i as int]);
            }
            let id = user_ids[i];
            if !contains_id(&ids, id) {
                ids.push(id);
            }
            i = i + 1;
        }
        proof {
            assert(user_ids@.take(n as int) =~= user_ids@);
        }
        let c = WebsocketClient {
            session_id: None,
            connect_url,
            user_ids: ids,
            event_sub_id: Vec::new(),
        };
        proof {
            assert(c@.subs =~= Seq::<SubscriptionView>::empty());
        }
        c
    }

    /// The session state machine's step for one classified frame: a
    /// welcome or reconnect calls for a reconciliation pass of its
    /// session; a stream-status notification becomes the queued message;
    /// revocation, keepalive and unknown frames do nothing.
    pub fn process_message(&self, frame: Frame) -> (a: FeedAction)
        ensures
            frame matches Frame::Welcome { session_id, reconnect_url } ==> a == (
            FeedAction::Reconcile { session_id, reconnect_url }),
            frame matches Frame::Reconnect { session_id, reconnect_url } ==> a == (
            FeedAction::Reconcile { session_id, reconnect_url }),
            frame matches Frame::Online { user_id, user_login } ==> a matches FeedAction::Emit(m)
                && m.message_type == MessageType::TwitchStreamOnline && m.streamer_user_id == user_id
                && m.streamer_user_login == user_login,
            frame matches Frame::Offline { user_id, user_login } ==> a matches FeedAction::Emit(m)
                && m.message_type == MessageType::TwitchStreamOffline && m.streamer_user_id
                == user_id && m.streamer_user_login == user_login,
            (frame is Revocation || frame is Keepalive || frame is Unknown) ==> a is Nothing,
    {
        match frame {
            Frame::Welcome { session_id, reconnect_url } => FeedAction::Reconcile {
                session_id,
                reconnect_url,
            },
            Frame::Reconnect { session_id, reconnect_url } => FeedAction::Reconcile {
                session_id,
                reconnect_url,
            },
            Frame::Online { user_id, user_login } => FeedAction::Emit(
                self.handle_streamer_online(user_id, user_login),
            ),
            Frame::Offline { user_id, user_login } => FeedAction::Emit(
                self.handle_streamer_offline(user_id, user_login),
            ),
            Frame::Revocation => FeedAction::Nothing,
            Frame::Keepalive => FeedAction::Nothing,
            Frame::Unknown => FeedAction::Nothing,
        }
    }

    /// The message queued when a broadcaster goes live.
    pub fn handle_streamer_online(&self, user_id: String, user_login: String) -> (m: InterComm)
        ensures
            m.message_type == MessageType::TwitchStreamOnline,
            m.streamer_user_id == user_id,
            m.streamer_user_login == user_login,
    {
        InterComm {
            message_type: MessageType::TwitchStreamOnline,
            streamer_user_id: user_id,
            streamer_user_login: user_login,
        }
    }

    /// The message queued when a broadcaster goes offline.
    pub fn handle_streamer_offline(&self, user_id: String, user_login: String) -> (m: InterComm)
        ensures
            m.message_type == MessageType::TwitchStreamOffline,
            m.streamer_user_id == user_id,
            m.streamer_user_login == user_login,
    {
        InterComm {
            message_type: MessageType::TwitchStreamOffline,
            streamer_user_id: user_id,
            streamer_user_login: user_login,
        }
    }

    /// Runs the decision side of one reconciliation pass for a new
    /// session: captures the session id, retargets future connects if a
    /// reconnect URL came along, rebuilds the desired list, binds every
    /// remote entry that matches a desired one, and hands back the ids of
    /// the remote entries to delete. The caller deletes those, then
    /// creates what [`Self::pending_subscriptions`] lists, reporting each
    /// created id through [`Self::mark_subscribed`].
    pub fn process_welcome_message(
        &mut self,
        session_id: String,
        reconnect_url: Option<String>,
        remote: &Vec<RemoteSub>,
    ) -> (to_delete: Vec<String>)
        requires
            old(self)@.wf(),
        ensures
            final(self)@.wf(),
            ({
                let (c2, dels) = welcome_model(
                    old(self)@,
                    session_id@,
                    match reconnect_url {
                        Some(ref u) => Some(u@),
                        None => None,
                    },
                    remote@.map_values(|r: RemoteSub| r@),
                );
                final(self)@ == c2 && to_delete@.map_values(|s: String| s@) == dels
            }),
    {
        self.session_id = Some(session_id);
        match reconnect_url {
            Some(u) => {
                self.connect_url = u;
            },
            None => (),
        }
        self.event_sub_id = build_desired(&self.user_ids);
        proof {
            lemma_desired_distinct(self@.user_ids);
        }
        let ghost remote_views = remote@.map_values(|r: RemoteSub| r@);
        let ghost desired = desired_subs(self@.user_ids);
        let mut to_delete: Vec<String> = Vec::new();
        let rn = remote.len();
        let mut j: usize = 0;
        while j < rn
            invariant
                0 <= j <= rn == remote@.len(),
                remote_views == remote@.map_values(|r: RemoteSub| r@),
                desired == desired_subs(self@.user_ids),
                self@.wf(),
                self@.session_id == Some(session_id@),
                self@.connect_url == (match reconnect_url {
                    Some(u) => u@,
                    None => old(self)@.connect_url,
                }),
                ({
                    let (s1, d1) = match_remote(desired, remote_views.take(j as int));
                    self@.subs == s1 && to_delete@.map_values(|s: String| s@) == d1
                }),
                forall|a: int, b: int|
                    #![trigger self@.subs[a], self@.subs[b]]
                    0 <= a < b < self@.subs.len() ==> sub_key(self@.subs[a]) != sub_key(
                        self@.subs[b],
                    ),
                self.user_ids@ == old(self).user_ids@,
            decreases rn - j,
        {
            proof {
                assert(remote_views.take(j + 1).drop_last() =~= remote_views.take(j as int));
                assert(remote_views.take(j + 1).last() == remote_views[j as int]);
                assert(remote_views[j as int] == remote@[j as int]@);
            }
            let r = &remote[j];
            match find_matching_sub(&self.event_sub_id, r) {
                Some(k) => {
                    proof {
                        let (s1, d1) = match_remote(desired, remote_views.take(j as int));
                        assert(sub_matches(self@.subs[k as int], r@));
                        assert(has_match(s1, r@));
                        let ch = matching_index(s1, r@);
                        assert(0 <= ch < s1.len() && sub_matches(s1[ch], r@));
                        assert(ch == k);
                    }
                    let kept = &self.event_sub_id[k];
                    let bound = Subscription {
                        user_id: kept.user_id,
                        event_id: Some(r.id.clone()),
                        event_type: kept.event_type,
                    };
                    self.event_sub_id.set(k, bound);
                    proof {
                        let (s2, d2) = match_remote(desired, remote_views.take(j + 1));
                        assert(self@.subs =~= s2);
                    }
                },
                None => {
                    proof {
                        let (s1, d1) = match_remote(desired, remote_views.take(j as int));
                        if has_match(s1, r@) {
                            let ch = matching_index(s1, r@);
                            assert(0 <= ch < s1.len() && sub_matches(s1[ch], r@));
                        }
                        assert(!has_match(s1, r@));
                    }
                    to_delete.push(r.id.clone());
                    proof {
                        let (s2, d2) = match_remote(desired, remote_views.take(j + 1));
                        assert(to_delete@.map_values(|s: String| s@) =~= d2);
                    }
                },
            }
            j = j + 1;
        }
        proof {
            assert(remote_views.take(rn as int) =~= remote_views);
        }
        to_delete
    }

    /// The create calls this session still owes, in list order.
    pub fn pending_subscriptions(&self) -> (r: Vec<SubRequest>)
        ensures
            r@ == pending_of(self@.subs),
    {
        let n = self.event_sub_id.len();
        let mut out: Vec<SubRequest> = Vec::new();
        let mut i: usize = 0;
        while i < n
            invariant
                0 <= i <= n == self.event_sub_id@.len(),
                out@ == pending_of(self@.subs.take(i as int)),
            decreases n - i,
        {
            proof {
                assert(self@.subs.take(i + 1).drop_last() =~= self@.subs.take(i as int));
                assert(self@.subs.take(i + 1).last() == self@.subs[i as int]);
            }
            let s = &self.event_sub_id[i];
            match s.event_id {
                None => {
                    out.push(
                        SubRequest { index: i, user_id: s.user_id, event_type: s.event_type },
                    );
                },
                Some(_) => (),
            }
            i = i + 1;
        }
        proof {
            assert(self@.subs.take(n as int) =~= self@.subs);
        }
        out
    }

    /// Records the remote id a create call came back with.
    pub fn mark_subscribed(&mut self, index: usize, event_id: String)
        requires
            old(self)@.wf(),
            index < old(self)@.subs.len(),
        ensures
            final(self)@.wf(),
            final(self)@ == (ClientModel {
                subs: old(self)@.subs.update(
                    index as int,
                    SubscriptionView {
                        event_id: Some(event_id@),
                        ..old(self)@.subs[index as int]
                    },
                ),
                ..old(self)@
            }),
    {
        let kept = &self.event_sub_id[index];
        let bound = Subscription {
            user_id: kept.user_id,
            event_id: Some(event_id),
            event_type: kept.event_type,
        };
        self.event_sub_id.set(index, bound);
        proof {
            assert(self@ =~= (ClientModel {
                subs: old(self)@.subs.update(
                    index as int,
                    SubscriptionView {
                        event_id: Some(event_id@),
                        ..old(self)@.subs[index as int]
                    },
                ),
                ..old(self)@
            }));
        }
    }
}

/// Builds the desired subscription list for these broadcasters.
fn build_desired(user_ids: &Vec<u64>) -> (r: Vec<Subscription>)
    ensures
        r@.map_values(|s: Subscription| s@) == desired_subs(user_ids@),
{
    let n = user_ids.len();
    let mut out: Vec<Subscription> = Vec::new();
    let mut i: usize = 0;
    while i < n
        invariant
            0 <= i <= n == user_ids@.len(),
            out@.map_values(|s: Subscription| s@) == desired_subs(user_ids@.take(i as int)),
        decreases n - i,
    {
        proof {
            assert(user_ids@.take(i + 1).drop_last() =~= user_ids@.take(i as int));
            assert(user_ids@.take(i + 1).last() == user_ids@[i as int]);
        }
        let uid = user_ids[i];
        out.push(Subscription { user_id: uid, event_id: None, event_type: EventType::StreamOnline });
        out.push(
            Subscription { user_id: uid, event_id: None, event_type: EventType::StreamOffline },
        );
        proof {
            assert(out@.map_values(|s: Subscription| s@) =~= desired_subs(user_ids@.take(i + 1)));
        }
        i = i + 1;
    }
    proof {
        assert(user_ids@.take(n as int) =~= user_ids@);
    }
    out
}

/// Finds the first desired entry a remote entry matches.
fn find_matching_sub(subs: &Vec<Subscription>, r: &RemoteSub) -> (k: Option<usize>)
    ensures
        k matches Some(i) ==> i < subs@.len() && sub_matches(subs@[i as int]@, r@),
        k is None ==> forall|i: int|
            0 <= i < subs@.len() ==> !sub_matches((#[trigger] subs@[i])@, r@),
{
    let uid = match r.user_id {
        Some(u) => u,
        None => {
            return None;
        },
    };
    let n = subs.len();
    let mut i: usize = 0;
    while i < n
        invariant
            0 <= i <= n == subs@.len(),
            r@.user_id == Some(uid),
            forall|l: int| 0 <= l < i ==> !sub_matches((#[trigger] subs@[l])@, r@),
        decreases n - i,
    {
        let s = &subs[i];
        if s.user_id == uid && s.event_type == r.event_type {
            return Some(i);
        }
        i = i + 1;
    }
    None
}

/// Whether an id is already collected.
fn contains_id(ids: &Vec<u64>, id: u64) -> (r: bool)
    ensures
        r == ids@.contains(id),
{
    let n = ids.len();
    let mut i: usize = 0;
    while i < n
        invariant
            0 <= i <= n == ids@.len(),
            forall|k: int| 0 <= k < i ==> ids@[k] != id,
        decreases n - i,
    {
        if ids[i] == id {
            return true;
        }
        i = i + 1;
    }
    false
}

/// The desired list holds each broadcaster's online entry at an even slot
/// and offline entry at the odd slot after it, with no remote id bound.
pub proof fn lemma_desired_structure(user_ids: Seq<u64>)
    ensures
        desired_subs(user_ids).len() == 2 * user_ids.len(),
        forall|k: int|
            0 <= k < 2 * user_ids.len() ==> {
                &&& (#[trigger] desired_subs(user_ids)[k]).user_id == user_ids[k / 2]
                &&& desired_subs(user_ids)[k].event_id is None
                &&& desired_subs(user_ids)[k].event_type == if k % 2 == 0 {
                    EventType::StreamOnline
                } else {
                    EventType::StreamOffline
                }
            },
    decreases user_ids.len(),
{
    if user_ids.len() > 0 {
        lemma_desired_structure(user_ids.drop_last());
    }
}

/// Distinct broadcasters give a desired list with pairwise distinct keys.
pub proof fn lemma_desired_distinct(user_ids: Seq<u64>)
    requires
        forall|i: int, j: int|
            #![trigger user_ids[i], user_ids[j]]
            0 <= i < j < user_ids.len() ==> user_ids[i] != user_ids[j],
    ensures
        ({
            let d = desired_subs(user_ids);
            forall|i: int, j: int|
                #![trigger d[i], d[j]]
                0 <= i < j < d.len() ==> sub_key(d[i]) != sub_key(d[j])
        }),
{
    lemma_desired_structure(user_ids);
    let d = desired_subs(user_ids);
    assert forall|i: int, j: int| 0 <= i < j < d.len() implies sub_key(#[trigger] d[i]) != sub_key(
        #[trigger] d[j],
    ) by {
        if i / 2 == j / 2 {
            assert(i % 2 != j % 2);
        } else {
            assert(user_ids[i / 2] != user_ids[j / 2]);
        }
    }
}

/// The ids of the remote entries that match no desired entry, in
/// arrival order: what one reconciliation pass deletes.
pub open spec fn delete_ids(subs: Seq<SubscriptionView>, remote: Seq<RemoteSubView>) -> Seq<
    Seq<char>,
>
    decreases remote.len(),
{
    if remote.len() == 0 {
        Seq::empty()
    } else {
        let prev = delete_ids(subs, remote.drop_last());
        if has_match(subs, remote.last()) {
            prev
        } else {
            prev.push(remote.last().id)
        }
    }
}

/// The matching pass never changes which subscriptions are desired: the
/// list keeps its length and its keys, entry by entry; only remote ids
/// are bound. And it deletes exactly the remote entries whose key no
/// desired entry carries, in arrival order.
pub proof fn lemma_match_remote_shape(subs: Seq<SubscriptionView>, remote: Seq<RemoteSubView>)
    ensures
        ({
            let (s2, dels) = match_remote(subs, remote);
            &&& s2.len() == subs.len()
            &&& forall|i: int| 0 <= i < subs.len() ==> sub_key(#[trigger] s2[i]) == sub_key(subs[i])
            &&& dels == delete_ids(subs, remote)
        }),
    decreases remote.len(),
{
    if remote.len() > 0 {
        lemma_match_remote_shape(subs, remote.drop_last());
        let (s1, d1) = match_remote(subs, remote.drop_last());
        let r = remote.last();
        // binding ids leaves the keys alone, so matching against the
        // evolving list is matching against the original one
        if has_match(s1, r) {
            let i = matching_index(s1, r);
            assert(0 <= i < s1.len() && sub_matches(s1[i], r));
            assert(sub_matches(subs[i], r));
        }
        if has_match(subs, r) {
            let i = matching_index(subs, r);
            assert(0 <= i < subs.len() && sub_matches(subs[i], r));
            assert(sub_matches(s1[i], r));
            assert(has_match(s1, r));
        }
    }
}

/// The matching pass binds a remote id to a desired entry exactly when
/// some remote entry carries that entry's key; the entries left unbound
/// (the ones then created) are exactly the desired keys the remote side
/// was missing.
pub proof fn lemma_match_remote_fills(subs: Seq<SubscriptionView>, remote: Seq<RemoteSubView>)
    requires
        forall|i: int, j: int|
            #![trigger subs[i], subs[j]]
            0 <= i < j < subs.len() ==> sub_key(subs[i]) != sub_key(subs[j]),
        forall|i: int| 0 <= i < subs.len() ==> (#[trigger] subs[i]).event_id is None,
    ensures
        ({
            let (s2, dels) = match_remote(subs, remote);
            forall|i: int|
                0 <= i < subs.len() ==> ((#[trigger] s2[i]).event_id is Some <==> remote_has_key(
                    remote,
                    sub_key(subs[i]),
                ))
        }),
    decreases remote.len(),
{
    lemma_match_remote_shape(subs, remote);
    if remote.len() == 0 {
    } else {
        lemma_match_remote_fills(subs, remote.drop_last());
        lemma_match_remote_shape(subs, remote.drop_last());
        let (s1, d1) = match_remote(subs, remote.drop_last());
        let (s2, d2) = match_remote(subs, remote);
        let r = remote.last();
        assert forall|i: int| 0 <= i < subs.len() implies ((#[trigger] s2[i]).event_id is Some
            <==> remote_has_key(remote, sub_key(subs[i]))) by {
            if has_match(s1, r) {
                let m = matching_index(s1, r);
                assert(0 <= m < s1.len() && sub_matches(s1[m], r));
                if i == m {
                    assert(remote_key(r) == Some(sub_key(subs[i])));
                    assert(remote[remote.len() - 1] == r);
                    assert(remote_has_key(remote, sub_key(subs[i])));
                } else {
                    assert(s2[i] == s1[i]);
                    if remote_has_key(remote.drop_last(), sub_key(subs[i])) {
                        let w = choose|j: int|
                            0 <= j < remote.drop_last().len() && remote_key(
                                #[trigger] remote.drop_last()[j],
                            ) == Some(sub_key(subs[i]));
                        assert(remote[w] == remote.drop_last()[w]);
                        assert(remote_has_key(remote, sub_key(subs[i])));
                    }
                    if remote_has_key(remote, sub_key(subs[i])) {
                        let w = choose|j: int|
                            0 <= j < remote.len() && remote_key(#[trigger] remote[j]) == Some(
                                sub_key(subs[i]),
                            );
                        if w < remote.len() - 1 {
                            assert(remote.drop_last()[w] == remote[w]);
                            assert(remote_has_key(remote.drop_last(), sub_key(subs[i])));
                        } else {
                            // the last remote entry carries this key, so it
                            // matched some entry; keys are distinct, so it
                            // matched exactly entry i
                            assert(sub_matches(subs[i], r));
                            assert(sub_key(s1[m]) == sub_key(subs[m]));
                            assert(sub_key(subs[m]) == sub_key(subs[i]));
                            assert(m == i);
                            assert(false);
                        }
                    }
                }
            } else {
                assert(s2[i] == s1[i]);
                if remote_has_key(remote, sub_key(subs[i])) {
                    let w = choose|j: int|
                        0 <= j < remote.len() && remote_key(#[trigger] remote[j]) == Some(
                            sub_key(subs[i]),
                        );
                    if w == remote.len() - 1 {
                        assert(sub_matches(subs[i], r));
                        assert(sub_key(s1[i]) == sub_key(subs[i]));
                        assert(sub_matches(s1[i], r));
                        assert(has_match(s1, r));
                        assert(false);
                    } else {
                        assert(remote.drop_last()[w] == remote[w]);
                        assert(remote_has_key(remote.drop_last(), sub_key(subs[i])));
                    }
                }
                if remote_has_key(remote.drop_last(), sub_key(subs[i])) {
                    let w = choose|j: int|
                        0 <= j < remote.drop_last().len() && remote_key(
                            #[trigger] remote.drop_last()[j],
                        ) == Some(sub_key(subs[i]));
                    assert(remote[w] == remote.drop_last()[w]);
                    assert(remote_has_key(remote, sub_key(subs[i])));
                }
            }
        }
    }
}

/// Law: one reconciliation pass converges the remote set to the desired
/// set using only deletions of extras and creations of what is missing.
/// After the pass the desired list still holds exactly the desired keys;
/// every desired entry is bound to a remote id exactly when the remote
/// side already had its key (so the creations are exactly the missing
/// keys); and an already-correct remote entry triggers no call at all.
pub proof fn lemma_reconciliation_convergence(user_ids: Seq<u64>, remote: Seq<RemoteSubView>)
    requires
        forall|i: int, j: int|
            #![trigger user_ids[i], user_ids[j]]
            0 <= i < j < user_ids.len() ==> user_ids[i] != user_ids[j],
    ensures
        ({
            let desired = desired_subs(user_ids);
            let (s2, dels) = match_remote(desired, remote);
            &&& s2.len() == desired.len()
            &&& forall|i: int|
                0 <= i < desired.len() ==> sub_key(#[trigger] s2[i]) == sub_key(desired[i])
            &&& forall|i: int|
                0 <= i < desired.len() ==> ((#[trigger] s2[i]).event_id is Some <==> remote_has_key(
                    remote,
                    sub_key(desired[i]),
                ))
            &&& dels == delete_ids(desired, remote)
        }),
{
    lemma_desired_distinct(user_ids);
    lemma_desired_structure(user_ids);
    lemma_match_remote_shape(desired_subs(user_ids), remote);
    lemma_match_remote_fills(desired_subs(user_ids), remote);
}

/// Law: a reconciliation pass over an already-correct remote set makes no
/// call: when every remote entry matches a desired key and every desired
/// key is present remotely, nothing is deleted and nothing is left to
/// create.
pub proof fn lemma_reconciliation_already_converged(
    user_ids: Seq<u64>,
    remote: Seq<RemoteSubView>,
)
    requires
        forall|i: int, j: int|
            #![trigger user_ids[i], user_ids[j]]
            0 <= i < j < user_ids.len() ==> user_ids[i] != user_ids[j],
        forall|j: int|
            0 <= j < remote.len() ==> has_match(desired_subs(user_ids), #[trigger] remote[j]),
        forall|i: int|
            0 <= i < desired_subs(user_ids).len() ==> remote_has_key(
                remote,
                sub_key(#[trigger] desired_subs(user_ids)[i]),
            ),
    ensures
        ({
            let (s2, dels) = match_remote(desired_subs(user_ids), remote);
            &&& dels.len() == 0
            &&& forall|i: int| 0 <= i < s2.len() ==> (#[trigger] s2[i]).event_id is Some
        }),
{
    lemma_reconciliation_convergence(user_ids, remote);
    lemma_match_remote_no_deletes(desired_subs(user_ids), remote);
}

/// A matching pass deletes nothing when every remote entry matches.
proof fn lemma_match_remote_no_deletes(subs: Seq<SubscriptionView>, remote: Seq<RemoteSubView>)
    requires
        forall|j: int| 0 <= j < remote.len() ==> has_match(subs, #[trigger] remote[j]),
    ensures
        match_remote(subs, remote).1.len() == 0,
    decreases remote.len(),
{
    if remote.len() > 0 {
        assert forall|j: int| 0 <= j < remote.drop_last().len() implies has_match(
            subs,
            #[trigger] remote.drop_last()[j],
        ) by {
            assert(remote.drop_last()[j] == remote[j]);
        }
        lemma_match_remote_no_deletes(subs, remote.drop_last());
        lemma_match_remote_shape(subs, remote.drop_last());
        let (s1, d1) = match_remote(subs, remote.drop_last());
        let r = remote.last();
        assert(has_match(subs, r));
        let w = matching_index(subs, r);
        assert(0 <= w < subs.len() && sub_matches(subs[w], r));
        assert(sub_key(s1[w]) == sub_key(subs[w]));
        assert(sub_matches(s1[w], r));
        assert(has_match(s1, r));
    }
}

/// Law: a reconnect is transparent. The desired set depends only on the
/// monitored broadcasters, which a reconnect does not touch: the welcome
/// of the new session replaces the session id, and its fresh
/// reconciliation pass converges to the same desired set whatever
/// subscription state the interruption left behind. Messages arriving
/// after resumption flow through the queue untouched by any of this.
pub proof fn lemma_reconnect_transparency(
    c: ClientModel,
    session_id: Seq<char>,
    reconnect_url: Option<Seq<char>>,
    remote: Seq<RemoteSubView>,
)
    requires
        c.wf(),
    ensures
        ({
            let (c2, dels) = welcome_model(c, session_id, reconnect_url, remote);
            &&& c2.user_ids == c.user_ids
            &&& c2.session_id == Some(session_id)
            &&& c2.wf()
            &&& c2.subs.len() == desired_subs(c.user_ids).len()
            &&& forall|i: int|
                0 <= i < c2.subs.len() ==> sub_key(#[trigger] c2.subs[i]) == sub_key(
                    desired_subs(c.user_ids)[i],
                )
            &&& forall|i: int|
                0 <= i < c2.subs.len() ==> ((#[trigger] c2.subs[i]).event_id is Some
                    <==> remote_has_key(remote, sub_key(desired_subs(c.user_ids)[i])))
        }),
{
    lemma_reconciliation_convergence(c.user_ids, remote);
}

} // verus!
