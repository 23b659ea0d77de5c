//! The ticker: which instruments are watched, in what mode, and what the
//! session does on each event of its connection.
//!
//! The ticker performs no I/O. Every operation changes the state it keeps and
//! hands back what is to be done on the socket or told to the user; whoever
//! owns the socket carries that out.

use crate::frame::{
    decode_frame, packets_of, skipped_in, ticks_in, ProtocolViolation, HEARTBEAT_MAX,
};
use crate::tick::{Mode, Tick};
use std::collections::HashMap;
use vstd::prelude::*;
use vstd::std_specs::hash::*;
use vstd::std_specs::iter::IteratorSpec;
use vstd::string::*;

verus! {

broadcast use vstd::std_specs::hash::group_hash_axioms;

/// What a control frame asks of the server.
#[derive(Clone, Copy, Debug, PartialEq, Eq, Structural)]
pub enum Action {
    /// Start streaming the tokens.
    Subscribe,
    /// Stop streaming the tokens.
    Unsubscribe,
    /// Stream the tokens in the given mode from now on.
    SetMode(Mode),
}

/// A control frame for the server: an action and the tokens it is about.
#[derive(Clone, Debug, PartialEq, Eq)]
pub struct ControlFrame {
    pub action: Action,
    pub tokens: Vec<u32>,
}

/// What a control frame says, as plain values.
pub struct FrameModel {
    pub action: Action,
    pub tokens: Seq<u32>,
}

impl View for ControlFrame {
    type V = FrameModel;

    open spec fn view(&self) -> FrameModel {
        FrameModel { action: self.action, tokens: self.tokens@ }
    }
}

/// A message as the transport hands it over.
#[derive(Clone, Debug, PartialEq, Eq)]
pub enum Message {
    /// A text message. The tick stream has no use for it.
    Text(String),
    /// A binary message: a frame of the tick stream.
    Binary(Vec<u8>),
}

/// Something that went wrong without ending the stream.
#[derive(Clone, Copy, Debug, PartialEq, Eq, Structural)]
pub enum Diagnostic {
    /// A frame was given up, and no tick of it delivered.
    ProtocolViolation(ProtocolViolation),
    /// A sub-packet of the given length was passed over.
    UnknownPacketLength(usize),
}

/// What the owner of the socket is to do for the session.
#[derive(Clone, Debug, PartialEq, Eq)]
pub enum SessionAction {
    /// Tell the user that the connection is open.
    NotifyOpen,
    /// Write the control frame to the socket.
    Send(ControlFrame),
    /// Hand the ticks of one frame to the user, in one call.
    DeliverTicks(Vec<Tick>),
    /// Log the diagnostic.
    Report(Diagnostic),
    /// Tell the user that the connection failed.
    NotifyError,
    /// Tell the user that the connection is closed.
    NotifyClose,
}

/// What a session action says, as plain values.
pub enum Effect {
    NotifyOpen,
    Send(FrameModel),
    DeliverTicks(Seq<Tick>),
    Report(Diagnostic),
    NotifyError,
    NotifyClose,
}

impl View for SessionAction {
    type V = Effect;

    open spec fn view(&self) -> Effect {
        match self {
            SessionAction::NotifyOpen => Effect::NotifyOpen,
            SessionAction::Send(frame) => Effect::Send(frame@),
            SessionAction::DeliverTicks(ticks) => Effect::DeliverTicks(ticks@),
            SessionAction::Report(diagnostic) => Effect::Report(*diagnostic),
            SessionAction::NotifyError => Effect::NotifyError,
            SessionAction::NotifyClose => Effect::NotifyClose,
        }
    }
}

/// What a list of control frames says.
pub open spec fn frame_models(frames: Seq<ControlFrame>) -> Seq<FrameModel> {
    frames.map_values(|frame: ControlFrame| frame@)
}

/// What a list of session actions says.
pub open spec fn effects(actions: Seq<SessionAction>) -> Seq<Effect> {
    actions.map_values(|action: SessionAction| action@)
}

/// Where the session stands.
#[derive(Clone, Copy, Debug, PartialEq, Eq, Structural)]
pub enum SessionState {
    /// No connection was asked for yet.
    Disconnected,
    /// A connection was asked for and is not open yet.
    Connecting,
    /// The connection is open: frames come in and control frames go out.
    Open,
    /// The connection is over. Only a new `connect` leads on from here.
    Closed,
}

/// The registry after `subscribe` with `tokens`: a token that is new to it
/// starts in quote mode, one that it holds keeps its mode.
pub open spec fn subscribed(registry: Map<u32, Mode>, tokens: Seq<u32>) -> Map<u32, Mode> {
    Map::new(
        |token: u32| registry.contains_key(token) || tokens.contains(token),
        |token: u32|
            if registry.contains_key(token) {
                registry[token]
            } else {
                Mode::Quote
            },
    )
}

/// The registry after `unsubscribe` with `tokens`: none of them is left in
/// it, whatever its mode was.
pub open spec fn unsubscribed(registry: Map<u32, Mode>, tokens: Seq<u32>) -> Map<u32, Mode> {
    Map::new(
        |token: u32| registry.contains_key(token) && !tokens.contains(token),
        |token: u32| registry[token],
    )
}

/// The registry after `set_mode` with `mode` and `tokens`: each of them is in
/// it with that mode, whether or not it was there before.
pub open spec fn with_mode(registry: Map<u32, Mode>, mode: Mode, tokens: Seq<u32>) -> Map<
    u32,
    Mode,
> {
    Map::new(
        |token: u32| registry.contains_key(token) || tokens.contains(token),
        |token: u32|
            if tokens.contains(token) {
                mode
            } else {
                registry[token]
            },
    )
}

/// Whether `tokens` names each token that `registry` holds in `mode`, once, and
/// no other.
pub open spec fn lists_mode(tokens: Seq<u32>, registry: Map<u32, Mode>, mode: Mode) -> bool {
    &&& tokens.no_duplicates()
    &&& forall|token: u32| #[trigger]
        tokens.contains(token) <==> registry.contains_key(token) && registry[token] == mode
}

/// Whether `registry` holds any token in `mode`.
pub open spec fn watched_in(registry: Map<u32, Mode>, mode: Mode) -> bool {
    exists|token: u32| #[trigger] registry.contains_key(token) && registry[token] == mode
}

/// The number of control frames that restore the tokens of one mode: a
/// `subscribe` and a `mode` frame if there are such tokens, none if not.
pub open spec fn group_len(registry: Map<u32, Mode>, mode: Mode) -> int {
    if watched_in(registry, mode) {
        2
    } else {
        0
    }
}

/// Whether `frames` restores the tokens that `registry` holds in `mode`: a
/// `subscribe` frame and then a `mode` frame, both for exactly those tokens;
/// or nothing where there is no such token.
pub open spec fn is_group(frames: Seq<FrameModel>, registry: Map<u32, Mode>, mode: Mode) -> bool {
    if watched_in(registry, mode) {
        &&& frames.len() == 2
        &&& frames[0].action == Action::Subscribe
        &&& frames[1].action == Action::SetMode(mode)
        &&& frames[0].tokens == frames[1].tokens
        &&& lists_mode(frames[0].tokens, registry, mode)
    } else {
        frames.len() == 0
    }
}

/// Whether `frames` restores all of `registry` on a new connection: the group
/// of each mode, in the order ltp, quote, full.
pub open spec fn is_replay(frames: Seq<FrameModel>, registry: Map<u32, Mode>) -> bool {
    let quote_from = group_len(registry, Mode::Ltp);
    let full_from = quote_from + group_len(registry, Mode::Quote);
    &&& frames.len() == full_from + group_len(registry, Mode::Full)
    &&& is_group(frames.subrange(0, quote_from), registry, Mode::Ltp)
    &&& is_group(frames.subrange(quote_from, full_from), registry, Mode::Quote)
    &&& is_group(frames.subrange(full_from, frames.len() as int), registry, Mode::Full)
}

/// The address of the stream on `host` for the given credentials.
pub open spec fn socket_url(host: Seq<char>, api_key: Seq<char>, access_token: Seq<char>) -> Seq<
    char,
> {
    "wss://"@ + host + "?api_key="@ + api_key + "&access_token="@ + access_token
}

/// What the session does with a binary frame that arrives while it is open.
///
/// A heartbeat does nothing. A frame in violation of the protocol is
/// reported and none of its ticks delivered. Any other frame has each
/// sub-packet of unknown length reported, and then its ticks delivered
/// together, even if there is none.
pub open spec fn frame_effects(frame: Seq<u8>) -> Seq<Effect> {
    if frame.len() <= HEARTBEAT_MAX {
        Seq::empty()
    } else {
        match packets_of(frame) {
            Ok(packets) => skipped_in(packets).map_values(
                |length: usize| Effect::Report(Diagnostic::UnknownPacketLength(length)),
            ).push(Effect::DeliverTicks(ticks_in(frame, packets))),
            Err(violation) => seq![Effect::Report(Diagnostic::ProtocolViolation(violation))],
        }
    }
}

/// What the session does with a message: only a binary message that arrives
/// while the session is open has any effect.
pub open spec fn message_effects(state: SessionState, message: Message) -> Seq<Effect> {
    match message {
        Message::Binary(frame) if state == SessionState::Open => frame_effects(frame@),
        _ => Seq::empty(),
    }
}

/// The name of the header that tells the server which version of the
/// protocol the client speaks.
pub const VERSION_HEADER: &'static str = "X-Kite-Version";

/// The version of the protocol that this client speaks.
pub const VERSION: &'static str = "3";

/// The host of the stream where none is given.
pub open spec fn default_host() -> Seq<char> {
    "ws.kite.trade"@
}

/// The effect of sending each of `frames`, in order.
pub open spec fn sends(frames: Seq<FrameModel>) -> Seq<Effect> {
    frames.map_values(|frame: FrameModel| Effect::Send(frame))
}

/// Whether the session has a connection that can end: one that is being made
/// or is open.
pub open spec fn is_live(state: SessionState) -> bool {
    state == SessionState::Connecting || state == SessionState::Open
}

/// The first `count + 1` tokens of a list hold what the first `count` hold,
/// and the token at `count`.
proof fn lemma_one_more(tokens: Seq<u32>, count: int)
    requires
        0 <= count < tokens.len(),
    ensures
        forall|token: u32|
            tokens.take(count + 1).contains(token) <==> tokens.take(count).contains(token) || token
                == tokens[count],
{
    let before = tokens.take(count);
    let after = tokens.take(count + 1);
    assert forall|token: u32| after.contains(token) <==> before.contains(token) || token
        == tokens[count] by {
        if before.contains(token) {
            let i = choose|i: int| 0 <= i < before.len() && before[i] == token;
            assert(after[i] == token);
        }
        if token == tokens[count] {
            assert(after[count] == token);
        }
    }
}

/// Subscribing a single token leaves exactly one entry for it: with the mode
/// that it had, or in quote mode if it had none. Nothing else changes.
pub proof fn lemma_subscribe_one(registry: Map<u32, Mode>, token: u32)
    ensures
        subscribed(registry, seq![token]) == registry.insert(
            token,
            if registry.contains_key(token) {
                registry[token]
            } else {
                Mode::Quote
            },
        ),
{
    let tokens = seq![token];
    assert(tokens[0] == token);
    assert(subscribed(registry, tokens) =~= registry.insert(
        token,
        if registry.contains_key(token) {
            registry[token]
        } else {
            Mode::Quote
        },
    ));
}

/// Subscribing is idempotent: a second `subscribe` with the same tokens
/// leaves the registry as the first one left it, every mode unchanged.
pub proof fn lemma_subscribe_idempotent(registry: Map<u32, Mode>, tokens: Seq<u32>)
    ensures
        subscribed(subscribed(registry, tokens), tokens) == subscribed(registry, tokens),
{
    assert(subscribed(subscribed(registry, tokens), tokens) =~= subscribed(registry, tokens));
}

/// Unsubscribing is idempotent: a second `unsubscribe` with the same tokens
/// finds none of them left and changes nothing.
pub proof fn lemma_unsubscribe_idempotent(registry: Map<u32, Mode>, tokens: Seq<u32>)
    ensures
        unsubscribed(unsubscribed(registry, tokens), tokens) == unsubscribed(registry, tokens),
{
    assert(unsubscribed(unsubscribed(registry, tokens), tokens) =~= unsubscribed(
        registry,
        tokens,
    ));
}

/// Setting a mode is idempotent: a second `set_mode` with the same mode and
/// tokens changes nothing.
pub proof fn lemma_set_mode_idempotent(registry: Map<u32, Mode>, mode: Mode, tokens: Seq<u32>)
    ensures
        with_mode(with_mode(registry, mode, tokens), mode, tokens) == with_mode(
            registry,
            mode,
            tokens,
        ),
{
    assert(with_mode(with_mode(registry, mode, tokens), mode, tokens) =~= with_mode(
        registry,
        mode,
        tokens,
    ));
}

/// Subscribing never changes the mode of a token that is watched already.
pub proof fn lemma_subscribe_keeps_modes(registry: Map<u32, Mode>, tokens: Seq<u32>, token: u32)
    requires
        registry.contains_key(token),
    ensures
        subscribed(registry, tokens).contains_key(token),
        subscribed(registry, tokens)[token] == registry[token],
{
}

/// A copy of a control frame.
fn copy_frame(frame: &ControlFrame) -> (copy: ControlFrame)
    ensures
        copy@ == frame@,
{
    let tokens = frame.tokens.clone();
    assert(tokens@ =~= frame.tokens@);
    ControlFrame { action: frame.action, tokens }
}

/// Client side of the market-data stream.
pub struct KiteTicker {
    api_key: String,
    access_token: String,
    state: SessionState,
    subscribed_tokens: HashMap<u32, Mode>,
}

impl KiteTicker {
    /// The subscription registry: the mode of every token that is watched.
    pub closed spec fn registry(&self) -> Map<u32, Mode> {
        self.subscribed_tokens@
    }

    /// Where the session stands.
    pub closed spec fn session(&self) -> SessionState {
        self.state
    }

    /// The API key that the ticker was made with.
    pub closed spec fn key(&self) -> Seq<char> {
        self.api_key@
    }

    /// The access token that the ticker was made with.
    pub closed spec fn token(&self) -> Seq<char> {
        self.access_token@
    }

    /// Whether control frames can go out: only while the session is open.
    pub open spec fn has_channel(&self) -> bool {
        self.session() == SessionState::Open
    }

    /// A ticker with an empty registry and no connection.
    pub fn new(api_key: &str, access_token: &str) -> (ticker: KiteTicker)
        ensures
            ticker.registry() == Map::<u32, Mode>::empty(),
            ticker.session() == SessionState::Disconnected,
            ticker.key() == api_key@,
            ticker.token() == access_token@,
    {
        KiteTicker {
            api_key: api_key.to_owned(),
            access_token: access_token.to_owned(),
            state: SessionState::Disconnected,
            subscribed_tokens: HashMap::new(),
        }
    }

    /// Where the session stands.
    pub fn state(&self) -> (state: SessionState)
        ensures
            state == self.session(),
    {
        self.state
    }

    /// The mode in which `token` is watched, if it is.
    pub fn mode_of(&self, token: u32) -> (mode: Option<Mode>)
        ensures
            mode == if self.registry().contains_key(token) {
                Some(self.registry()[token])
            } else {
                None
            },
    {
        match self.subscribed_tokens.get(&token) {
            Some(mode) => Some(*mode),
            None => None,
        }
    }

    /// How many tokens are watched.
    pub fn subscription_count(&self) -> (count: usize)
        ensures
            count == self.registry().len(),
    {
        self.subscribed_tokens.len()
    }

    /// The control frame of `action` for `tokens`, if there is a channel to
    /// send it on.
    fn outbound(&self, action: Action, tokens: Vec<u32>) -> (frame: Option<ControlFrame>)
        ensures
            frame is Some <==> self.has_channel(),
            frame matches Some(f) ==> f.action == action && f.tokens@ == tokens@,
    {
        match self.state {
            SessionState::Open => Some(ControlFrame { action, tokens }),
            _ => None,
        }
    }

    /// Starts watching `instrument_tokens`.
    ///
    /// A token that is new to the registry enters it in quote mode; one that
    /// is there already keeps its mode. The frame that asks the server for the
    /// tokens is handed back if the session is open. Without a channel there
    /// is nothing to send: the registry remembers the tokens, and they are
    /// asked for when the connection opens.
    pub fn subscribe(&mut self, instrument_tokens: Vec<u32>) -> (frame: Option<ControlFrame>)
        ensures
            final(self).registry() == subscribed(old(self).registry(), instrument_tokens@),
            final(self).session() == old(self).session(),
            final(self).key() == old(self).key(),
            final(self).token() == old(self).token(),
            frame is Some <==> old(self).has_channel(),
            frame matches Some(f) ==> f.action == Action::Subscribe && f.tokens@
                == instrument_tokens@,
    {
        let mut index: usize = 0;
        while index < instrument_tokens.len()
            invariant
                index <= instrument_tokens.len(),
                self.subscribed_tokens@ == subscribed(
                    old(self).subscribed_tokens@,
                    instrument_tokens@.take(index as int),
                ),
                self.state == old(self).state,
                self.api_key == old(self).api_key,
                self.access_token == old(self).access_token,
            decreases instrument_tokens.len() - index,
        {
            let token = instrument_tokens[index];
            if !self.subscribed_tokens.contains_key(&token) {
                self.subscribed_tokens.insert(token, Mode::Quote);
            }
            proof {
                lemma_one_more(instrument_tokens@, index as int);
                assert(self.subscribed_tokens@ =~= subscribed(
                    old(self).subscribed_tokens@,
                    instrument_tokens@.take(index + 1),
                ));
            }
            index = index + 1;
        }
        assert(instrument_tokens@.take(index as int) =~= instrument_tokens@);
        self.outbound(Action::Subscribe, instrument_tokens)
    }

    /// Stops watching `instrument_tokens`.
    ///
    /// Each of the tokens leaves the registry, whatever its mode. The frame
    /// that tells the server is handed back if the session is open.
    pub fn unsubscribe(&mut self, instrument_tokens: Vec<u32>) -> (frame: Option<ControlFrame>)
        ensures
            final(self).registry() == unsubscribed(old(self).registry(), instrument_tokens@),
            final(self).session() == old(self).session(),
            final(self).key() == old(self).key(),
            final(self).token() == old(self).token(),
            frame is Some <==> old(self).has_channel(),
            frame matches Some(f) ==> f.action == Action::Unsubscribe && f.tokens@
                == instrument_tokens@,
    {
        let mut index: usize = 0;
        while index < instrument_tokens.len()
            invariant
                index <= instrument_tokens.len(),
                self.subscribed_tokens@ == unsubscribed(
                    old(self).subscribed_tokens@,
                    instrument_tokens@.take(index as int),
                ),
                self.state == old(self).state,
                self.api_key == old(self).api_key,
                self.access_token == old(self).access_token,
            decreases instrument_tokens.len() - index,
        {
            let token = instrument_tokens[index];
            self.subscribed_tokens.remove(&token);
            proof {
                lemma_one_more(instrument_tokens@, index as int);
                assert(self.subscribed_tokens@ =~= unsubscribed(
                    old(self).subscribed_tokens@,
                    instrument_tokens@.take(index + 1),
                ));
            }
            index = index + 1;
        }
        assert(instrument_tokens@.take(index as int) =~= instrument_tokens@);
        self.outbound(Action::Unsubscribe, instrument_tokens)
    }

    /// Sets the streaming mode of `instrument_tokens`.
    ///
    /// Each of the tokens is in the registry with `mode` afterwards; one that
    /// was not watched before is watched from now on. The frame that tells the
    /// server is handed back if the session is open.
    pub fn set_mode(&mut self, mode: Mode, instrument_tokens: Vec<u32>) -> (frame: Option<
        ControlFrame,
    >)
        ensures
            final(self).registry() == with_mode(old(self).registry(), mode, instrument_tokens@),
            final(self).session() == old(self).session(),
            final(self).key() == old(self).key(),
            final(self).token() == old(self).token(),
            frame is Some <==> old(self).has_channel(),
            frame matches Some(f) ==> f.action == Action::SetMode(mode) && f.tokens@
                == instrument_tokens@,
    {
        let mut index: usize = 0;
        while index < instrument_tokens.len()
            invariant
                index <= instrument_tokens.len(),
                self.subscribed_tokens@ == with_mode(
                    old(self).subscribed_tokens@,
                    mode,
                    instrument_tokens@.take(index as int),
                ),
                self.state == old(self).state,
                self.api_key == old(self).api_key,
                self.access_token == old(self).access_token,
            decreases instrument_tokens.len() - index,
        {
            let token = instrument_tokens[index];
            self.subscribed_tokens.insert(token, mode);
            proof {
                lemma_one_more(instrument_tokens@, index as int);
                assert(self.subscribed_tokens@ =~= with_mode(
                    old(self).subscribed_tokens@,
                    mode,
                    instrument_tokens@.take(index + 1),
                ));
            }
            index = index + 1;
        }
        assert(instrument_tokens@.take(index as int) =~= instrument_tokens@);
        self.outbound(Action::SetMode(mode), instrument_tokens)
    }

    /// The tokens that are watched in `mode`, each once, in no particular
    /// order.
    pub fn tokens_in(&self, mode: Mode) -> (tokens: Vec<u32>)
        ensures
            lists_mode(tokens@, self.registry(), mode),
    {
        let mut tokens: Vec<u32> = Vec::new();
        let ghost all = spec_keys_iter(&self.subscribed_tokens).remaining();
        for token in keys: self.subscribed_tokens.keys()
            invariant
                keys.seq() == all,
                all.no_duplicates(),
                all.unref().to_set() == self.subscribed_tokens@.dom(),
                tokens@.no_duplicates(),
                forall|t: u32| #[trigger]
                    tokens@.contains(t) <==> self.subscribed_tokens@.contains_key(t)
                        && self.subscribed_tokens@[t] == mode && exists|i: int|
                        0 <= i < keys.index() && *all[i] == t,
        {
            let ghost seen = keys.index();
            let ghost before = tokens@;
            assert(token == all[seen]);
            assert(all.unref()[seen] == *token);
            assert(all.unref().to_set().contains(*token));
            let current = self.subscribed_tokens.get(token);
            if current == Some(&mode) {
                tokens.push(*token);
                assert(!before.contains(*token)) by {
                    if before.contains(*token) {
                        let i = choose|i: int| 0 <= i < seen && *all[i] == *token;
                        assert(all[i] == all[seen]);
                    }
                }
                assert forall|t: u32| #[trigger]
                    tokens@.contains(t) <==> before.contains(t) || t == *token by {
                    if before.contains(t) {
                        let i = choose|i: int| 0 <= i < before.len() && before[i] == t;
                        assert(tokens@[i] == t);
                    }
                    if t == *token {
                        assert(tokens@[before.len() as int] == t);
                    }
                }
            }
        }
        tokens
    }

    /// Restores one mode of the registry on the server: subscribes the tokens
    /// that are watched in `mode`, then sets their mode.
    fn replay_mode(&mut self, mode: Mode, frames: &mut Vec<ControlFrame>)
        ensures
            final(self).registry() == old(self).registry(),
            final(self).session() == old(self).session(),
            final(self).key() == old(self).key(),
            final(self).token() == old(self).token(),
            old(self).has_channel() ==> ({
                let before = frame_models(old(frames)@);
                let after = frame_models(final(frames)@);
                &&& after.len() == before.len() + group_len(old(self).registry(), mode)
                &&& after.subrange(0, before.len() as int) == before
                &&& is_group(
                    after.subrange(before.len() as int, after.len() as int),
                    old(self).registry(),
                    mode,
                )
            }),
            !old(self).has_channel() ==> final(frames)@ == old(frames)@,
    {
        let tokens = self.tokens_in(mode);
        let ghost registry = self.subscribed_tokens@;
        let ghost listed = tokens@;
        let ghost before = frames@;
        if tokens.len() == 0 {
            proof {
                if watched_in(registry, mode) {
                    let token = choose|token: u32| #[trigger]
                        registry.contains_key(token) && registry[token] == mode;
                    assert(listed.contains(token));
                }
                let models = frame_models(before);
                assert(models.subrange(0, models.len() as int) =~= models);
                assert(models.subrange(models.len() as int, models.len() as int) =~= Seq::<
                    FrameModel,
                >::empty());
            }
            return ;
        }
        proof {
            assert(listed.contains(listed[0]));
            assert(watched_in(registry, mode));
        }
        let again = tokens.clone();
        assert(again@ =~= listed);
        let subscribe = self.subscribe(tokens);
        assert(self.subscribed_tokens@ =~= registry);
        let set_mode = self.set_mode(mode, again);
        assert(self.subscribed_tokens@ =~= registry);
        match subscribe {
            Some(frame) => frames.push(frame),
            None => {},
        }
        match set_mode {
            Some(frame) => frames.push(frame),
            None => {},
        }
        proof {
            if old(self).has_channel() {
                let group = seq![subscribe->0@, set_mode->0@];
                let models = frame_models(before);
                let after = frame_models(frames@);
                assert(after =~= models + group);
                assert(after.subrange(0, models.len() as int) =~= models);
                assert(after.subrange(models.len() as int, after.len() as int) =~= group);
            }
        }
    }

    /// Asks the server again for everything that the registry holds.
    ///
    /// The tokens go out mode by mode: for each mode that has tokens, a
    /// `subscribe` frame and then a `mode` frame, both for all tokens of that
    /// mode. The registry stays as it is. Without a channel nothing goes out.
    pub fn resubscribe(&mut self) -> (frames: Vec<ControlFrame>)
        ensures
            final(self).registry() == old(self).registry(),
            final(self).session() == old(self).session(),
            final(self).key() == old(self).key(),
            final(self).token() == old(self).token(),
            old(self).has_channel() ==> is_replay(frame_models(frames@), old(self).registry()),
            !old(self).has_channel() ==> frames@.len() == 0,
    {
        let mut frames: Vec<ControlFrame> = Vec::new();
        let ghost registry = self.subscribed_tokens@;
        self.replay_mode(Mode::Ltp, &mut frames);
        let ghost after_ltp = frame_models(frames@);
        self.replay_mode(Mode::Quote, &mut frames);
        let ghost after_quote = frame_models(frames@);
        self.replay_mode(Mode::Full, &mut frames);
        proof {
            if old(self).has_channel() {
                let all = frame_models(frames@);
                let quote_from = after_ltp.len() as int;
                let full_from = after_quote.len() as int;
                assert(after_ltp.subrange(0, quote_from) =~= all.subrange(0, quote_from));
                assert(after_quote.subrange(quote_from, full_from) =~= all.subrange(
                    quote_from,
                    full_from,
                ));
            }
        }
        frames
    }

    /// Starts a connection attempt and gives the address to connect to.
    ///
    /// The session is `Connecting` afterwards, wherever it stood: a closed
    /// session starts over. The registry is kept, so that what was watched
    /// before is asked for again once the connection opens.
    pub fn connect(&mut self, uri: Option<&str>) -> (url: String)
        ensures
            final(self).session() == SessionState::Connecting,
            final(self).registry() == old(self).registry(),
            final(self).key() == old(self).key(),
            final(self).token() == old(self).token(),
            url@ == socket_url(
                match uri {
                    Some(host) => host@,
                    None => default_host(),
                },
                old(self).key(),
                old(self).token(),
            ),
    {
        let host = match uri {
            Some(host) => host,
            None => "ws.kite.trade",
        };
        let mut url = String::from_str("wss://");
        url.append(host);
        url.append("?api_key=");
        url.append(self.api_key.as_str());
        url.append("&access_token=");
        url.append(self.access_token.as_str());
        self.state = SessionState::Connecting;
        url
    }

    /// The connection is open.
    ///
    /// A session that was connecting is open from now on: the user is told,
    /// and then everything that the registry holds is asked for again. In any
    /// other state the event is out of place and has no effect.
    pub fn on_open(&mut self) -> (actions: Vec<SessionAction>)
        ensures
            final(self).registry() == old(self).registry(),
            final(self).key() == old(self).key(),
            final(self).token() == old(self).token(),
            old(self).session() == SessionState::Connecting ==> {
                &&& final(self).session() == SessionState::Open
                &&& actions@.len() >= 1
                &&& actions@[0]@ == Effect::NotifyOpen
                &&& forall|i: int| 1 <= i < actions@.len() ==> (#[trigger] actions@[i]@) is Send
                &&& is_replay(
                    effects(actions@).skip(1).map_values(|effect: Effect| effect->Send_0),
                    old(self).registry(),
                )
            },
            old(self).session() != SessionState::Connecting ==> {
                &&& final(self).session() == old(self).session()
                &&& actions@.len() == 0
            },
    {
        let mut actions: Vec<SessionAction> = Vec::new();
        match self.state {
            SessionState::Connecting => {},
            _ => {
                return actions;
            },
        }
        self.state = SessionState::Open;
        actions.push(SessionAction::NotifyOpen);
        let mut frames = self.resubscribe();
        let ghost replay = frame_models(frames@);
        let mut index: usize = 0;
        let count = frames.len();
        while index < count
            invariant
                index <= count,
                count == frames@.len(),
                frame_models(frames@) == replay,
                actions@.len() == index + 1,
                actions@[0]@ == Effect::NotifyOpen,
                forall|i: int| 1 <= i < actions@.len() ==> (#[trigger] actions@[i]@)
                    == Effect::Send(replay[i - 1]),
            decreases count - index,
        {
            let frame = copy_frame(&frames[index]);
            assert(frame@ == replay[index as int]);
            actions.push(SessionAction::Send(frame));
            index = index + 1;
        }
        assert(effects(actions@).skip(1).map_values(|effect: Effect| effect->Send_0) =~= replay);
        actions
    }

    /// A message has arrived.
    ///
    /// Only a binary message that arrives while the session is open has any
    /// effect: the frame is decoded, and its ticks are delivered in one batch.
    /// The mode of a tick comes from the frame alone; the registry is not
    /// looked at, and nothing of the session changes.
    pub fn on_message(&self, message: &Message) -> (actions: Vec<SessionAction>)
        ensures
            effects(actions@) == message_effects(self.session(), *message),
    {
        let mut actions: Vec<SessionAction> = Vec::new();
        let frame = match (self.state, message) {
            (SessionState::Open, Message::Binary(frame)) => frame,
            _ => {
                assert(effects(actions@) =~= Seq::<Effect>::empty());
                return actions;
            },
        };
        if frame.len() <= HEARTBEAT_MAX {
            assert(effects(actions@) =~= Seq::<Effect>::empty());
            return actions;
        }
        match decode_frame(frame.as_slice()) {
            Ok(batch) => {
                let ghost packets = packets_of(frame@)->Ok_0;
                let ghost reports = skipped_in(packets).map_values(
                    |length: usize| Effect::Report(Diagnostic::UnknownPacketLength(length)),
                );
                let mut index: usize = 0;
                while index < batch.skipped.len()
                    invariant
                        index <= batch.skipped.len(),
                        reports == batch.skipped@.map_values(
                            |length: usize| Effect::Report(Diagnostic::UnknownPacketLength(length)),
                        ),
                        effects(actions@) == reports.take(index as int),
                    decreases batch.skipped.len() - index,
                {
                    let length = batch.skipped[index];
                    let ghost reported = effects(actions@);
                    let report = Diagnostic::UnknownPacketLength(length);
                    actions.push(SessionAction::Report(report));
                    assert(effects(actions@) =~= reported.push(Effect::Report(report)));
                    assert(reports.take(index + 1) =~= reports.take(index as int).push(
                        reports[index as int],
                    ));
                    index = index + 1;
                }
                assert(reports.take(index as int) =~= reports);
                actions.push(SessionAction::DeliverTicks(batch.ticks));
                assert(effects(actions@) =~= frame_effects(frame@));
            },
            Err(violation) => {
                actions.push(SessionAction::Report(Diagnostic::ProtocolViolation(violation)));
                assert(effects(actions@) =~= frame_effects(frame@));
            },
        }
        actions
    }

    /// The connection is closed.
    ///
    /// A session with a connection is closed from now on, and the user is
    /// told. A session without one was told already, or had nothing to
    /// close: the event has no effect.
    pub fn on_close(&mut self) -> (actions: Vec<SessionAction>)
        ensures
            final(self).registry() == old(self).registry(),
            final(self).key() == old(self).key(),
            final(self).token() == old(self).token(),
            is_live(old(self).session()) ==> final(self).session() == SessionState::Closed
                && effects(actions@) == seq![Effect::NotifyClose],
            !is_live(old(self).session()) ==> final(self).session() == old(self).session()
                && actions@.len() == 0,
    {
        let mut actions: Vec<SessionAction> = Vec::new();
        match self.state {
            SessionState::Connecting | SessionState::Open => {
                self.state = SessionState::Closed;
                actions.push(SessionAction::NotifyClose);
                assert(effects(actions@) =~= seq![Effect::NotifyClose]);
            },
            _ => {},
        }
        actions
    }

    /// The connection has failed.
    ///
    /// A session with a connection is closed from now on, and the user is
    /// told of the error, not of a close as well. No new connection is tried:
    /// that is up to the caller. A session without a connection ignores the
    /// event.
    pub fn on_error(&mut self) -> (actions: Vec<SessionAction>)
        ensures
            final(self).registry() == old(self).registry(),
            final(self).key() == old(self).key(),
            final(self).token() == old(self).token(),
            is_live(old(self).session()) ==> final(self).session() == SessionState::Closed
                && effects(actions@) == seq![Effect::NotifyError],
            !is_live(old(self).session()) ==> final(self).session() == old(self).session()
                && actions@.len() == 0,
    {
        let mut actions: Vec<SessionAction> = Vec::new();
        match self.state {
            SessionState::Connecting | SessionState::Open => {
                self.state = SessionState::Closed;
                actions.push(SessionAction::NotifyError);
                assert(effects(actions@) =~= seq![Effect::NotifyError]);
            },
            _ => {},
        }
        actions
    }
}

} // verus!
