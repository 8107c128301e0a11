//! One user's session: the live hackstead and the pending changes to it.
use crate::config::Config;
use crate::diff::{apply_spec, diff_spec, lemma_diff_round_trip};
use crate::hackstead::plant::Timer;
use crate::hackstead::tile::TileView;
use crate::hackstead::{clone_timers, Hackstead, HacksteadView, ProfileView};
use crate::id::{SteaderId, TileId};
use crate::text::{said, Complaint};
use crate::wormhole::note::{Ask, AskMessage, AskedNote, AskedNoteView, Note, NoteView};
use crate::wormhole::server::throw::ThrowItems;
use crate::wormhole::session::hackstead_guard::{edit_note, HacksteadGuard};
use crate::wormhole::session::ticker::Ticker;
use vstd::prelude::*;

pub mod hackstead_guard;
pub mod item;
pub mod ticker;
pub mod tile;

verus! {

/// Which opening to the wormhole a client makes use of.
#[derive(Clone, Copy, Debug, PartialEq, Eq, Structural)]
pub enum Orifice {
    /// Binary messages.
    Bincode,
    /// Text messages.
    Json,
}

/// Asks a session for a copy of its hackstead.
#[derive(Clone, Copy, Debug, PartialEq, Eq, Structural)]
pub struct GetStead;

/// Turns an error into what it has to say.
pub fn strerr<T, E: Complaint>(r: Result<T, E>) -> (said: Result<T, String>)
    ensures
        match r {
            Ok(t) => said == Ok::<T, String>(t),
            Err(e) => said is Err && said->Err_0@ == e.complaint(),
        },
{
    match r {
        Ok(t) => Ok(t),
        Err(e) => Err(e.message()),
    }
}

/// The pending changes to a user's hackstead.
///
/// Nothing changes for the user until the changes are submitted: an ask that
/// fails halfway leaves no trace, because what it did, it did to this copy.
#[derive(Debug, PartialEq, Eq)]
pub struct SessSend {
    /// The timers to start once the changes are in.
    pub pending_timers: Vec<Timer>,
    /// The notes to send once the changes are in.
    pub pending_notes: Vec<Note>,
    /// The hackstead as it will be.
    pub hackstead: Hackstead,
}

/// What a [`SessSend`] holds.
pub struct SessSendView {
    pub pending_timers: Seq<Timer>,
    pub pending_notes: Seq<NoteView>,
    pub hackstead: HacksteadView,
}

impl DeepView for SessSend {
    type V = SessSendView;

    open spec fn deep_view(&self) -> SessSendView {
        SessSendView {
            pending_timers: self.pending_timers@,
            pending_notes: self.pending_notes.deep_view(),
            hackstead: self.hackstead@,
        }
    }
}

impl View for SessSend {
    type V = SessSendView;

    open spec fn view(&self) -> SessSendView {
        self.deep_view()
    }
}

impl SessSendView {
    /// The same pending changes, but to another state of the hackstead.
    pub open spec fn with_hackstead(self, hackstead: HacksteadView) -> SessSendView {
        SessSendView { hackstead, ..self }
    }

    /// The same pending changes, with more timers to start.
    pub open spec fn with_timers(self, timers: Seq<Timer>) -> SessSendView {
        SessSendView { pending_timers: self.pending_timers + timers, ..self }
    }

    /// The same pending changes, with one more note to send.
    pub open spec fn with_note(self, note: NoteView) -> SessSendView {
        SessSendView { pending_notes: self.pending_notes.push(note), ..self }
    }
}

impl SessSend {
    /// No changes yet to the given hackstead.
    pub fn new(hackstead: Hackstead) -> (ss: SessSend)
        ensures
            ss@ == (SessSendView {
                pending_timers: Seq::empty(),
                pending_notes: Seq::empty(),
                hackstead: hackstead@,
            }),
    {
        let ss = SessSend { pending_timers: Vec::new(), pending_notes: Vec::new(), hackstead };
        proof {
            assert(ss.pending_notes.deep_view() =~= Seq::empty());
        }
        ss
    }

    /// Schedules a note to be sent when the changes are submitted.
    pub fn send_note(&mut self, note: Note)
        ensures
            final(self)@ == old(self)@.with_note(note@),
    {
        self.pending_notes.push(note);
        proof {
            assert(self.pending_notes.deep_view() =~= old(self).pending_notes.deep_view().push(
                note@,
            ));
        }
    }

    /// Schedules a timer to be started when the changes are submitted.
    pub fn set_timer(&mut self, t: Timer)
        ensures
            final(self)@ == old(self)@.with_timers(seq![t]),
    {
        self.pending_timers.push(t);
        proof {
            assert(self.pending_timers@ =~= old(self).pending_timers@ + seq![t]);
        }
    }
}

/// An ask that this session cannot serve alone, on its way to the server.
#[derive(Debug, PartialEq, Eq)]
pub struct NoteEnvelope {
    /// What the server is asked to do.
    pub msg: ThrowItems,
}

/// What is to become of pending changes.
#[derive(Debug, PartialEq, Eq)]
pub enum SessSendSubmit {
    /// Drop them, and send this note alone.
    Cancel(Note),
    /// Drop them, and hand the ask with this number over to the server.
    ServerRelinquishAsk { msg: NoteEnvelope, ask_id: usize },
    /// Make them real.
    Submit,
}

/// How an ask was handled.
#[derive(Debug, PartialEq, Eq)]
pub enum HandledAskKind {
    /// It was served here; this is the answer.
    Direct(AskedNote),
    /// It is for the server to serve.
    ServerRelinquish(NoteEnvelope),
}

/// An ask that was handled, with the number by which the client knows it.
#[derive(Debug, PartialEq, Eq)]
pub struct HandledAsk {
    pub ask_id: usize,
    pub kind: HandledAskKind,
}

/// What is to become of the pending changes of an ask that was handled: they
/// are submitted where the ask was served and succeeded; they are dropped, and
/// the answer is sent alone, where it failed; they are dropped, and the ask is
/// handed over, where it is for the server.
pub open spec fn submit_for(handled: HandledAsk) -> SessSendSubmit {
    match handled.kind {
        HandledAskKind::Direct(note) => if note@.is_err() {
            SessSendSubmit::Cancel(Note::Asked { note, ask_id: handled.ask_id })
        } else {
            SessSendSubmit::Submit
        },
        HandledAskKind::ServerRelinquish(msg) => SessSendSubmit::ServerRelinquishAsk {
            msg,
            ask_id: handled.ask_id,
        },
    }
}

impl From<HandledAsk> for SessSendSubmit {
    fn from(handled: HandledAsk) -> (submit: SessSendSubmit) {
        let HandledAsk { kind, ask_id } = handled;
        match kind {
            HandledAskKind::Direct(note) => if note.is_err() {
                SessSendSubmit::Cancel(Note::Asked { note, ask_id })
            } else {
                SessSendSubmit::Submit
            },
            HandledAskKind::ServerRelinquish(msg) => SessSendSubmit::ServerRelinquishAsk {
                msg,
                ask_id,
            },
        }
    }
}

impl vstd::std_specs::convert::FromSpecImpl<HandledAsk> for SessSendSubmit {
    open spec fn obeys_from_spec() -> bool {
        true
    }

    open spec fn from_spec(handled: HandledAsk) -> SessSendSubmit {
        submit_for(handled)
    }
}

/// A hackstead whose user has so much more xp, as far as the counter goes.
pub open spec fn snorted(hs: HacksteadView, xp: u64) -> HacksteadView {
    HacksteadView {
        profile: ProfileView {
            xp: if hs.profile.xp + xp <= u64::MAX {
                (hs.profile.xp + xp) as u64
            } else {
                u64::MAX
            },
            ..hs.profile
        },
        ..hs
    }
}

/// Pending changes without the last of their notes.
pub open spec fn unnoted(ss: SessSendView) -> SessSendView {
    SessSendView { pending_notes: ss.pending_notes.drop_last(), ..ss }
}

/// What handling an ask does to the pending changes.
///
/// An ask that is for the server changes nothing. Any other ask is served as
/// its handler says, and its answer, under the number of the ask, is the last
/// of the pending notes. An ask that fails changes nothing but for that note.
pub open spec fn ask_done(
    before: SessSendView,
    after: SessSendView,
    config: Config,
    ask: Ask,
    ask_id: usize,
    now: u64,
    kind: HandledAskKind,
) -> bool {
    match kind {
        HandledAskKind::ServerRelinquish(_) => ask matches Ask::Item(i) && item::item_ask_done(
            before,
            after,
            config,
            i,
            kind,
        ),
        HandledAskKind::Direct(note) => {
            let served = unnoted(after);
            &&& after == served.with_note(NoteView::Asked { ask_id, note: note@ })
            &&& note@.is_err() ==> served == before
            &&& match ask {
                Ask::KnowledgeSnort { xp } => {
                    &&& served == before.with_hackstead(snorted(before.hackstead, xp))
                    &&& note@ == AskedNoteView::KnowledgeSnortResult(
                        Ok(snorted(before.hackstead, xp).profile.xp),
                    )
                },
                Ask::Plant(p) => tile::plant::plant_ask_done(before, served, config, p, note@),
                Ask::Item(i) => item::item_ask_done(before, served, config, i, kind),
                Ask::TileSummon { tile_redeemable_item_id } => exists|
                    tile_id: TileId,
                    r: Result<TileView, tile::Error>,
                |
                    {
                        &&& #[trigger] tile::summon_done(
                            before,
                            served,
                            config,
                            tile_redeemable_item_id,
                            tile_id,
                            now,
                            r,
                        )
                        &&& note@ == AskedNoteView::TileSummonResult(said(r))
                    },
            }
        },
    }
}

/// Handles an ask on the pending changes.
///
/// If the ask fails, the pending changes are not to be submitted, and so
/// nothing changes for the user.
pub fn handle_ask(ss: &mut SessSend, config: &Config, msg: AskMessage, now: u64) -> (handled:
    HandledAsk)
    ensures
        handled.ask_id == msg.ask_id,
        ask_done(old(ss)@, final(ss)@, *config, msg.ask, msg.ask_id, now, handled.kind),
{
    let AskMessage { ask, ask_id } = msg;
    let kind = match ask {
        Ask::KnowledgeSnort { xp } => {
            let total = if ss.hackstead.profile.xp <= u64::MAX - xp {
                ss.hackstead.profile.xp + xp
            } else {
                u64::MAX
            };
            ss.hackstead.profile.xp = total;
            HandledAskKind::Direct(AskedNote::KnowledgeSnortResult(Ok(total)))
        },
        Ask::Plant(p) => HandledAskKind::Direct(tile::plant::handle_ask(ss, config, p)),
        Ask::Item(i) => item::handle_ask(ss, config, i),
        Ask::TileSummon { tile_redeemable_item_id } => {
            let r = tile::summon(ss, config, tile_redeemable_item_id, now);
            let ghost seen = tile::seen(r);
            let note = AskedNote::TileSummonResult(strerr(r));
            proof {
                let tile_id = choose|tile_id: TileId| #[trigger]
                    tile::summon_done(
                        old(ss)@,
                        ss@,
                        *config,
                        tile_redeemable_item_id,
                        tile_id,
                        now,
                        seen,
                    );
                assert(tile::summon_done(
                    old(ss)@,
                    ss@,
                    *config,
                    tile_redeemable_item_id,
                    tile_id,
                    now,
                    seen,
                ));
                assert(note@ == AskedNoteView::TileSummonResult(said(seen)));
            }
            HandledAskKind::Direct(note)
        },
    };
    let ghost served = ss@;
    match &kind {
        HandledAskKind::Direct(note) => {
            ss.send_note(Note::Asked { ask_id, note: note.clone() });
            proof {
                assert(unnoted(ss@).pending_notes =~= served.pending_notes);
            }
        },
        HandledAskKind::ServerRelinquish(_) => {},
    }
    HandledAsk { ask_id, kind }
}

/// How far a session has come.
#[derive(Clone, Copy, Debug, PartialEq, Eq, Structural)]
pub enum Phase {
    /// The connection is being made.
    Connecting,
    /// The session serves its user.
    Active,
    /// The session has ended, or is about to.
    Closing,
}

/// The milliseconds between two heartbeats.
pub const HEARTBEAT_INTERVAL: u64 = 5_000;

/// The milliseconds of silence after which a client counts as gone.
pub const CLIENT_TIMEOUT: u64 = 10_000;

/// The milliseconds between two ticks.
pub const UPDATE_INTERVAL: u64 = 1_000;

/// What a heartbeat comes to.
#[derive(Clone, Copy, Debug, PartialEq, Eq, Structural)]
pub enum Beat {
    /// The client was heard of late: ask it for a sign of life.
    Ping,
    /// The client has been silent for too long: end the session.
    Stop,
}

/// What the caller is to do for a session.
#[derive(Debug, PartialEq, Eq)]
pub enum Reaction {
    /// Send these notes to the client, in this order.
    Send(Vec<Note>),
    /// Hand this ask over to the server, and send the client the server's
    /// answer under this number.
    Relinquish { msg: NoteEnvelope, ask_id: usize },
}

/// What a [`Reaction`] holds.
pub enum ReactionView {
    Send(Seq<NoteView>),
    Relinquish { msg: NoteEnvelope, ask_id: usize },
}

impl DeepView for Reaction {
    type V = ReactionView;

    open spec fn deep_view(&self) -> ReactionView {
        match *self {
            Reaction::Send(notes) => ReactionView::Send(notes.deep_view()),
            Reaction::Relinquish { msg, ask_id } => ReactionView::Relinquish { msg, ask_id },
        }
    }
}

impl View for Reaction {
    type V = ReactionView;

    open spec fn view(&self) -> ReactionView {
        self.deep_view()
    }
}

/// Asks a session to take over pending changes that were made elsewhere.
#[derive(Debug, PartialEq, Eq)]
pub struct ChangeStead(pub SessSend);

/// Asks a session to start a timer.
#[derive(Clone, Copy, Debug, PartialEq, Eq, Structural)]
pub struct StartTimer(pub Timer);

/// An ask that came in on another way than the wormhole.
#[derive(Debug, PartialEq, Eq)]
pub struct DoAsk(pub Ask);

/// Asks a session to send a note to its client.
#[derive(Debug, PartialEq, Eq)]
pub struct SendNote(pub Note);

/// One user's session: the live hackstead, the timers that run for it, and
/// what is known of the connection.
#[derive(Debug)]
pub struct Session {
    hackstead: HacksteadGuard,
    heartbeat: u64,
    orifice: Orifice,
    ticker: Ticker,
    phase: Phase,
}

/// What a [`Session`] holds.
pub struct SessionView {
    /// The live hackstead.
    pub hackstead: HacksteadView,
    /// When the client was last heard, in milliseconds.
    pub heartbeat: u64,
    /// The encoding that the client chose.
    pub orifice: Orifice,
    /// The timers that run, oldest first.
    pub timers: Seq<Timer>,
    /// How far the session has come.
    pub phase: Phase,
}

impl View for Session {
    type V = SessionView;

    closed spec fn view(&self) -> SessionView {
        SessionView {
            hackstead: self.hackstead@,
            heartbeat: self.heartbeat,
            orifice: self.orifice,
            timers: self.ticker@,
            phase: self.phase,
        }
    }
}

/// The number under which an ask is handled that did not come with one.
pub const BEG_ASK_ID: usize = 1337;

/// No changes yet to a hackstead.
pub open spec fn fresh(hackstead: HacksteadView) -> SessSendView {
    SessSendView { pending_timers: Seq::empty(), pending_notes: Seq::empty(), hackstead }
}

/// What doing with pending changes what was decided of them comes to: see
/// [`Session::apply_change`].
pub open spec fn change_applied(
    before: SessionView,
    after: SessionView,
    sss: SessSendSubmit,
    ss: SessSendView,
    reaction: ReactionView,
) -> bool {
    match sss {
        SessSendSubmit::Submit => {
            &&& after == submitted(before, ss)
            &&& reaction == ReactionView::Send(submitted_notes(before, ss))
        },
        SessSendSubmit::Cancel(note) => {
            &&& after == before
            &&& reaction == ReactionView::Send(seq![note@])
        },
        SessSendSubmit::ServerRelinquishAsk { msg, ask_id } => {
            &&& after == before
            &&& reaction == (ReactionView::Relinquish { msg, ask_id })
        },
    }
}

/// An ask that fails leaves no trace: the session is as it was, and the one
/// note to send is the answer that says why, under the number of the ask.
pub proof fn lemma_failed_ask_leaves_no_trace(
    before: SessionView,
    after: SessionView,
    ss: SessSendView,
    config: Config,
    ask: Ask,
    now: u64,
    handled: HandledAsk,
    reaction: ReactionView,
)
    requires
        ask_done(fresh(before.hackstead), ss, config, ask, handled.ask_id, now, handled.kind),
        change_applied(before, after, submit_for(handled), ss, reaction),
        handled.kind matches HandledAskKind::Direct(note) && note@.is_err(),
    ensures
        after == before,
        reaction == ReactionView::Send(
            seq![NoteView::Asked { ask_id: handled.ask_id, note: handled.kind->Direct_0@ }],
        ),
{
}

/// An ask that succeeds is committed as a whole: the hackstead of the pending
/// changes is the live one, and the notes to send are the pending notes, the
/// answer among them, and behind them the note on what changed, if anything
/// did.
pub proof fn lemma_served_ask_is_committed(
    before: SessionView,
    after: SessionView,
    ss: SessSendView,
    config: Config,
    ask: Ask,
    now: u64,
    handled: HandledAsk,
    reaction: ReactionView,
)
    requires
        ask_done(fresh(before.hackstead), ss, config, ask, handled.ask_id, now, handled.kind),
        change_applied(before, after, submit_for(handled), ss, reaction),
        handled.kind matches HandledAskKind::Direct(note) && !note@.is_err(),
    ensures
        after.hackstead == ss.hackstead,
        after.timers == with_started(before.timers, ss.hackstead, ss.pending_timers),
        reaction == ReactionView::Send(submitted_notes(before, ss)),
        ss.pending_notes == seq![
            NoteView::Asked { ask_id: handled.ask_id, note: handled.kind->Direct_0@ },
        ],
{
    let note = NoteView::Asked { ask_id: handled.ask_id, note: handled.kind->Direct_0@ };
    assert(unnoted(ss).pending_notes.len() == 0) by {
        lemma_ask_sends_nothing_else(
            fresh(before.hackstead),
            unnoted(ss),
            config,
            ask,
            now,
            handled.kind,
        );
    }
    assert(ss.pending_notes =~= seq![note]);
}

/// Serving an ask adds no note to the pending ones.
proof fn lemma_ask_sends_nothing_else(
    before: SessSendView,
    served: SessSendView,
    config: Config,
    ask: Ask,
    now: u64,
    kind: HandledAskKind,
)
    requires
        kind is Direct,
        match ask {
            Ask::KnowledgeSnort { xp } => served == before.with_hackstead(
                snorted(before.hackstead, xp),
            ),
            Ask::Plant(p) => tile::plant::plant_ask_done(
                before,
                served,
                config,
                p,
                kind->Direct_0@,
            ),
            Ask::Item(i) => item::item_ask_done(before, served, config, i, kind),
            Ask::TileSummon { tile_redeemable_item_id } => exists|
                tile_id: TileId,
                r: Result<TileView, tile::Error>,
            |
                #[trigger] tile::summon_done(
                    before,
                    served,
                    config,
                    tile_redeemable_item_id,
                    tile_id,
                    now,
                    r,
                ),
        },
    ensures
        served.pending_notes == before.pending_notes,
{
}

/// The note on what changed brings a client up to date: the patch that it
/// carries turns the hackstead as it was into the hackstead as it is.
pub proof fn lemma_edit_brings_up_to_date(before: SessionView, ss: SessSendView)
    requires
        before.hackstead != ss.hackstead,
    ensures
        submitted_notes(before, ss).last() == NoteView::Edit(
            edit_note(before.orifice, diff_spec(before.hackstead, ss.hackstead)),
        ),
        apply_spec(before.hackstead, diff_spec(before.hackstead, ss.hackstead)) == Some(
            submitted(before, ss).hackstead,
        ),
{
    lemma_diff_round_trip(before.hackstead, ss.hackstead);
}

/// The timers that run once the pending ones were started: a pending timer
/// starts exactly where a plant grows on its tile.
pub open spec fn with_started(timers: Seq<Timer>, hs: HacksteadView, pending: Seq<Timer>) -> Seq<Timer>
    decreases pending.len(),
{
    if pending.len() == 0 {
        timers
    } else if hs.has_plant(pending.last().tile_id) {
        with_started(timers, hs, pending.drop_last()).push(pending.last())
    } else {
        with_started(timers, hs, pending.drop_last())
    }
}

/// Timers that all run for plants of a hackstead still do once pending timers
/// were started for it.
pub proof fn lemma_started_anchored(timers: Seq<Timer>, hs: HacksteadView, pending: Seq<Timer>)
    requires
        ticker::anchored(timers, hs),
    ensures
        ticker::anchored(with_started(timers, hs, pending), hs),
    decreases pending.len(),
{
    if pending.len() > 0 {
        lemma_started_anchored(timers, hs, pending.drop_last());
    }
}

/// The notes that a submit sends: the pending ones, and behind them the note
/// on what changed, where anything did.
pub open spec fn submitted_notes(before: SessionView, ss: SessSendView) -> Seq<NoteView> {
    if before.hackstead == ss.hackstead {
        ss.pending_notes
    } else {
        ss.pending_notes.push(
            NoteView::Edit(edit_note(before.orifice, diff_spec(before.hackstead, ss.hackstead))),
        )
    }
}

/// The session after pending changes were submitted: their hackstead is the
/// live one, and their timers run.
pub open spec fn submitted(before: SessionView, ss: SessSendView) -> SessionView {
    SessionView {
        hackstead: ss.hackstead,
        timers: with_started(before.timers, ss.hackstead, ss.pending_timers),
        ..before
    }
}

impl SessSend {
    /// Makes the pending changes real: the hackstead takes the place of the
    /// session's, the timers are started, and the notes to send are handed out,
    /// the note on what changed being the last of them.
    pub fn submit(self, session: &mut Session) -> (notes: Vec<Note>)
        ensures
            final(session)@ == submitted(old(session)@, self@),
            notes.deep_view() == submitted_notes(old(session)@, self@),
    {
        let SessSend { hackstead, mut pending_notes, pending_timers } = self;
        let ghost pending = pending_notes.deep_view();
        let (changes, patch) = session.hackstead.apply(hackstead);
        if changes {
            let note = Note::Edit(
                match session.orifice {
                    Orifice::Json => crate::wormhole::note::EditNote::Json(patch),
                    Orifice::Bincode => crate::wormhole::note::EditNote::Bincode(patch),
                },
            );
            let ghost noted = note@;
            pending_notes.push(note);
            proof {
                assert(pending_notes.deep_view() =~= pending.push(noted));
            }
        }
        let mut i: usize = 0;
        proof {
            assert(pending_timers@.take(0) =~= Seq::empty());
        }
        while i < pending_timers.len()
            invariant
                i <= pending_timers.len(),
                session@.hackstead == self@.hackstead,
                session@.heartbeat == old(session)@.heartbeat,
                session@.orifice == old(session)@.orifice,
                session@.phase == old(session)@.phase,
                session@.timers == with_started(
                    old(session)@.timers,
                    self@.hackstead,
                    pending_timers@.take(i as int),
                ),
            decreases pending_timers.len() - i,
        {
            proof {
                assert(pending_timers@.take(i + 1).drop_last() =~= pending_timers@.take(i as int));
            }
            let _started = session.ticker.start(session.hackstead.get(), pending_timers[i]);
            i = i + 1;
        }
        proof {
            assert(pending_timers@.take(i as int) =~= pending_timers@);
        }
        pending_notes
    }
}

impl Session {
    /// A session for a hackstead that was put away, for a client that connects
    /// at the time `now` through the given orifice. The timers that were
    /// running go on from where they were.
    pub fn new(hs: Hackstead, orifice: Orifice, now: u64) -> (session: Session)
        ensures
            session@ == (SessionView {
                hackstead: HacksteadView { timers: Seq::empty(), ..hs@ },
                heartbeat: now,
                orifice,
                timers: hs@.timers,
                phase: Phase::Connecting,
            }),
    {
        let mut hs = hs;
        let ticker = Ticker::new(&mut hs);
        Session {
            hackstead: HacksteadGuard::new(hs),
            heartbeat: now,
            orifice,
            ticker,
            phase: Phase::Connecting,
        }
    }

    /// The user whose session this is.
    pub fn steader_id(&self) -> (id: SteaderId)
        ensures
            id == self@.hackstead.profile.steader_id,
    {
        self.hackstead.get().profile.steader_id
    }

    /// The encoding that the client chose.
    pub fn orifice(&self) -> (orifice: Orifice)
        ensures
            orifice == self@.orifice,
    {
        self.orifice
    }

    /// How far the session has come.
    pub fn phase(&self) -> (phase: Phase)
        ensures
            phase == self@.phase,
    {
        self.phase
    }

    /// The connection stands: the session becomes active, unless it is closing,
    /// and hands out the user under whom the server is to list it.
    pub fn started(&mut self) -> (user: SteaderId)
        ensures
            user == old(self)@.hackstead.profile.steader_id,
            final(self)@ == (SessionView {
                phase: if old(self)@.phase == Phase::Closing {
                    Phase::Closing
                } else {
                    Phase::Active
                },
                ..old(self)@
            }),
    {
        if self.phase != Phase::Closing {
            self.phase = Phase::Active;
        }
        self.steader_id()
    }

    /// The connection ends: the session closes for good, and hands out the user
    /// whom the server is to strike off.
    pub fn stopping(&mut self) -> (user: SteaderId)
        ensures
            user == old(self)@.hackstead.profile.steader_id,
            final(self)@ == (SessionView { phase: Phase::Closing, ..old(self)@ }),
    {
        self.phase = Phase::Closing;
        self.steader_id()
    }

    /// The client gave a sign of life at the time `now`.
    pub fn heard(&mut self, now: u64)
        ensures
            final(self)@ == (SessionView { heartbeat: now, ..old(self)@ }),
    {
        self.heartbeat = now;
    }

    /// Checks on the client at the time `now`. A client that was heard within
    /// [`CLIENT_TIMEOUT`] is to be pinged; else the session closes and is to be
    /// stopped. A session that is closing stays so.
    pub fn heartbeat(&mut self, now: u64) -> (beat: Beat)
        ensures
            beat == if old(self)@.phase != Phase::Closing && now - old(self)@.heartbeat
                <= CLIENT_TIMEOUT {
                Beat::Ping
            } else {
                Beat::Stop
            },
            final(self)@ == (SessionView {
                phase: if beat == Beat::Stop {
                    Phase::Closing
                } else {
                    old(self)@.phase
                },
                ..old(self)@
            }),
    {
        let silent = if now >= self.heartbeat {
            now - self.heartbeat
        } else {
            0
        };
        if self.phase != Phase::Closing && silent <= CLIENT_TIMEOUT {
            Beat::Ping
        } else {
            self.phase = Phase::Closing;
            Beat::Stop
        }
    }

    /// A copy of the hackstead as it is now, with the timers as they run now.
    pub fn get_stead(&self, msg: GetStead) -> (hs: Hackstead)
        ensures
            hs@ == (HacksteadView { timers: self@.timers, ..self@.hackstead }),
    {
        let mut hs = self.hackstead.get().clone();
        hs.timers = clone_timers(&self.ticker.timers);
        hs
    }

    /// Pending changes to a copy of the hackstead as it is now: none yet.
    pub fn sess_send(&self) -> (ss: SessSend)
        ensures
            ss@ == fresh(self@.hackstead),
    {
        SessSend::new(self.hackstead.get().clone())
    }

    /// Starts a timer, where a plant grows on its tile; else nothing happens.
    pub fn start_timer(&mut self, msg: StartTimer)
        ensures
            final(self)@ == (SessionView {
                timers: with_started(old(self)@.timers, old(self)@.hackstead, seq![msg.0]),
                ..old(self)@
            }),
    {
        proof {
            let one = seq![msg.0];
            assert(one.drop_last() =~= Seq::<Timer>::empty());
            assert(one.last() == msg.0);
            assert(with_started(self@.timers, self@.hackstead, one.drop_last()) == self@.timers);
        }
        let _started = self.ticker.start(self.hackstead.get(), msg.0);
    }

    /// Does with pending changes what was decided of them.
    ///
    /// On a submit, the changes become real and the notes to send are handed
    /// out. On a cancel, nothing changes and the one note is to be sent. Where
    /// the server is to take over, nothing changes and the ask is handed out.
    pub fn apply_change(&mut self, sss: SessSendSubmit, sess_send: SessSend) -> (reaction: Reaction)
        ensures
            change_applied(old(self)@, final(self)@, sss, sess_send@, reaction@),
    {
        match sss {
            SessSendSubmit::Submit => Reaction::Send(sess_send.submit(self)),
            SessSendSubmit::Cancel(note) => {
                let ghost noted = note@;
                let mut notes: Vec<Note> = Vec::new();
                notes.push(note);
                proof {
                    assert(notes.deep_view() =~= seq![noted]);
                }
                Reaction::Send(notes)
            },
            SessSendSubmit::ServerRelinquishAsk { msg, ask_id } => Reaction::Relinquish {
                msg,
                ask_id,
            },
        }
    }

    /// Handles an ask of the client at the time `now`: the ask is served on a
    /// copy of the hackstead, and what is to become of the copy is done with it.
    /// A session that is not active does nothing.
    pub fn handle(&mut self, config: &Config, msg: AskMessage, now: u64) -> (reaction: Reaction)
        ensures
            old(self)@.phase != Phase::Active ==> final(self)@ == old(self)@ && reaction@
                == ReactionView::Send(Seq::empty()),
            old(self)@.phase == Phase::Active ==> exists|ss: SessSendView, handled: HandledAsk|
                {
                    &&& handled.ask_id == msg.ask_id
                    &&& #[trigger] ask_done(
                        fresh(old(self)@.hackstead),
                        ss,
                        *config,
                        msg.ask,
                        msg.ask_id,
                        now,
                        handled.kind,
                    )
                    &&& change_applied(
                        old(self)@,
                        final(self)@,
                        submit_for(handled),
                        ss,
                        reaction@,
                    )
                },
    {
        if self.phase != Phase::Active {
            let notes: Vec<Note> = Vec::new();
            proof {
                assert(notes.deep_view() =~= Seq::empty());
            }
            return Reaction::Send(notes);
        }
        let mut ss = SessSend::new(self.hackstead.get().clone());
        let handled = handle_ask(&mut ss, config, msg, now);
        let ghost done = ss@;
        let reaction = self.apply_change(SessSendSubmit::from(handled), ss);
        proof {
            assert(ask_done(
                fresh(old(self)@.hackstead),
                done,
                *config,
                msg.ask,
                msg.ask_id,
                now,
                handled.kind,
            ));
            assert(change_applied(old(self)@, self@, submit_for(handled), done, reaction@));
        }
        reaction
    }

    /// Handles an ask that came in on another way than the wormhole, at the
    /// time `now`, and hands out the answer beside the reaction. There is no
    /// answer yet where the ask is for the server, or the session not active.
    pub fn do_ask(&mut self, config: &Config, msg: DoAsk, now: u64) -> (answer: (
        Reaction,
        Option<AskedNote>,
    ))
        ensures
            old(self)@.phase != Phase::Active ==> final(self)@ == old(self)@ && answer.0@
                == ReactionView::Send(Seq::empty()) && answer.1 is None,
            old(self)@.phase == Phase::Active ==> exists|ss: SessSendView, handled: HandledAsk|
                {
                    &&& handled.ask_id == BEG_ASK_ID
                    &&& #[trigger] ask_done(
                        fresh(old(self)@.hackstead),
                        ss,
                        *config,
                        msg.0,
                        BEG_ASK_ID,
                        now,
                        handled.kind,
                    )
                    &&& change_applied(
                        old(self)@,
                        final(self)@,
                        submit_for(handled),
                        ss,
                        answer.0@,
                    )
                    &&& match handled.kind {
                        HandledAskKind::Direct(note) => answer.1 is Some && answer.1->0@ == note@,
                        HandledAskKind::ServerRelinquish(_) => answer.1 is None,
                    }
                },
    {
        if self.phase != Phase::Active {
            let notes: Vec<Note> = Vec::new();
            proof {
                assert(notes.deep_view() =~= Seq::empty());
            }
            return (Reaction::Send(notes), None);
        }
        let DoAsk(ask) = msg;
        let mut ss = SessSend::new(self.hackstead.get().clone());
        let handled = handle_ask(&mut ss, config, AskMessage { ask, ask_id: BEG_ASK_ID }, now);
        let ghost done = ss@;
        let answer = match &handled.kind {
            HandledAskKind::Direct(note) => Some(note.clone()),
            HandledAskKind::ServerRelinquish(_) => None,
        };
        let reaction = self.apply_change(SessSendSubmit::from(handled), ss);
        proof {
            assert(ask_done(
                fresh(old(self)@.hackstead),
                done,
                *config,
                msg.0,
                BEG_ASK_ID,
                now,
                handled.kind,
            ));
            assert(change_applied(old(self)@, self@, submit_for(handled), done, reaction@));
        }
        (reaction, answer)
    }

    /// Takes over pending changes that were made elsewhere.
    pub fn change_stead(&mut self, msg: ChangeStead) -> (reaction: Reaction)
        ensures
            final(self)@ == submitted(old(self)@, msg.0@),
            reaction@ == ReactionView::Send(submitted_notes(old(self)@, msg.0@)),
    {
        let ChangeStead(sess_send) = msg;
        self.apply_change(SessSendSubmit::Submit, sess_send)
    }

    /// Lets one tick pass: the timers go on against a copy of the hackstead,
    /// and what they did is submitted. A session that is not active stands
    /// still.
    pub fn tick(&mut self) -> (reaction: Reaction)
        ensures
            old(self)@.hackstead.wf() ==> final(self)@.hackstead.wf(),
            ticker::anchored(old(self)@.timers, old(self)@.hackstead) ==> ticker::anchored(
                final(self)@.timers,
                final(self)@.hackstead,
            ),
            old(self)@.phase != Phase::Active ==> final(self)@ == old(self)@ && reaction@
                == ReactionView::Send(Seq::empty()),
            old(self)@.phase == Phase::Active ==> {
                let t = ticker::ticked(old(self)@.timers, old(self)@.hackstead);
                let ss = SessSendView {
                    pending_timers: Seq::empty(),
                    pending_notes: ticker::rude(t.updates) + ticker::rude(t.finishes),
                    hackstead: t.hackstead,
                };
                &&& final(self)@ == (SessionView {
                    hackstead: t.hackstead,
                    timers: t.timers,
                    ..old(self)@
                })
                &&& reaction@ == ReactionView::Send(
                    submitted_notes(old(self)@, ss),
                )
            },
    {
        if self.phase != Phase::Active {
            let notes: Vec<Note> = Vec::new();
            proof {
                assert(notes.deep_view() =~= Seq::empty());
            }
            return Reaction::Send(notes);
        }
        let mut ss = SessSend::new(self.hackstead.get().clone());
        let submit = self.ticker.tick(&mut ss);
        proof {
            let t = ticker::ticked(old(self)@.timers, old(self)@.hackstead);
            assert(ss@.pending_notes =~= ticker::rude(t.updates) + ticker::rude(t.finishes));
        }
        self.apply_change(submit, ss)
    }
}


} // verus!
