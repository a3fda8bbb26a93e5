//! The secret-word duel session: an admin assigns a secret word, player one
//! asks questions, player two answers and may guess the secret; all exchanges
//! go through a capacity-bounded message log with strictly increasing entry
//! identifiers.

use vstd::prelude::*;
use crate::DEFAULT_MAX_MESSAGES;
use crate::DEFAULT_PAGE_SIZE;
use crate::MAX_ALLOWED_MESSAGES;
use crate::text::content_error;
use crate::text::has_space;
use crate::text::name_error;
use crate::text::normal_of;
use crate::text::trim_of;
use crate::text::lower_str;
use crate::text::trim_str;
use crate::text::validate_name;

verus! {

/// The error kinds a session operation can return, each carrying its
/// relevant context.
#[derive(Debug)]
pub enum Error {
    EmptyName,
    NameTooLong(usize),
    EmptyContent,
    ContentTooLong(usize),
    AdminMismatch,
    GameSetupIncomplete(&'static str),
    SecretNotSet,
    InvalidSecretFormat,
    Unauthorized(&'static str),
    InvalidTurn(&'static str),
    MessageNotFound(u64),
    InvalidMaxMessages,
}

/// One timestamped entry of the bounded message log.
#[derive(Debug)]
pub struct ChatMessage {
    pub id: u64,
    pub sender: String,
    pub role: String,
    pub content: String,
    pub timestamp_ms: u64,
}

impl Clone for ChatMessage {
    fn clone(&self) -> (r: Self)
        ensures
            r == *self,
    {
        ChatMessage {
            id: self.id,
            sender: self.sender.clone(),
            role: self.role.clone(),
            content: self.content.clone(),
            timestamp_ms: self.timestamp_ms,
        }
    }
}

/// The authoritative phase of a secret-word session.
#[derive(Debug, Clone, Copy, PartialEq, Eq, Structural)]
pub enum GameStage {
    NotStarted,
    WaitingForSecret,
    WaitingForQuestion,
    WaitingForAnswer,
    Completed,
}

/// The label under which a stage is reported in events.
pub open spec fn stage_label(stage: GameStage) -> Seq<char> {
    match stage {
        GameStage::NotStarted => "not_started"@,
        GameStage::WaitingForSecret => "waiting_for_secret"@,
        GameStage::WaitingForQuestion => "waiting_for_question"@,
        GameStage::WaitingForAnswer => "waiting_for_answer"@,
        GameStage::Completed => "completed"@,
    }
}

/// The participant who must act next in a given stage, if any.
pub open spec fn spec_awaiting_player(stage: GameStage, s: GameState) -> Option<String> {
    match stage {
        GameStage::WaitingForSecret => s.admin,
        GameStage::WaitingForQuestion => s.player_one,
        GameStage::WaitingForAnswer => s.player_two,
        GameStage::Completed => None::<String>,
        GameStage::NotStarted => None::<String>,
    }
}

impl GameStage {
    /// The stage's label.
    pub fn as_label(&self) -> (r: &'static str)
        ensures
            r@ == stage_label(*self),
    {
        match self {
            GameStage::NotStarted => "not_started",
            GameStage::WaitingForSecret => "waiting_for_secret",
            GameStage::WaitingForQuestion => "waiting_for_question",
            GameStage::WaitingForAnswer => "waiting_for_answer",
            GameStage::Completed => "completed",
        }
    }

    /// The participant who must act next, derived purely from the stage.
    pub fn awaiting_player(&self, state: &GameState) -> (r: Option<String>)
        ensures
            r == spec_awaiting_player(*self, *state),
    {
        match self {
            GameStage::WaitingForSecret => clone_opt_string(&state.admin),
            GameStage::WaitingForQuestion => clone_opt_string(&state.player_one),
            GameStage::WaitingForAnswer => clone_opt_string(&state.player_two),
            GameStage::Completed => None,
            GameStage::NotStarted => None,
        }
    }
}

/// Clones an optional identity.
pub(crate) fn clone_opt_string(o: &Option<String>) -> (r: Option<String>)
    ensures
        r == *o,
{
    match o {
        Some(s) => Some(s.clone()),
        None => None,
    }
}

/// A full snapshot of a session, as returned to callers.
#[derive(Debug)]
pub struct GameInfo {
    pub admin: Option<String>,
    pub player_one: Option<String>,
    pub player_two: Option<String>,
    pub stage: GameStage,
    pub secret_set: bool,
    pub total_messages: u32,
    pub max_messages: u32,
    pub awaiting_player: Option<String>,
}

/// The outcome of submitting an answer: the logged entry plus whether the
/// attached guess matched the secret.
#[derive(Debug)]
pub struct AnswerResult {
    pub message: ChatMessage,
    pub guess_was_correct: bool,
}

/// The outcome of a pure guess check.
#[derive(Debug)]
pub struct GuessResult {
    pub guess_was_correct: bool,
}

/// A state-change notification, buffered by the session on successful
/// mutation and drained by the hosting layer.
#[derive(Debug)]
pub enum Event {
    MessageAdded { id: u64, sender: String, role: String, content: String, timestamp_ms: u64 },
    HistoryCleared,
    GameCreated { admin: String, player_one: String, player_two: String },
    SecretSet,
    SecretGuessed { guesser: String },
    StageChanged { stage: String },
}

/// The mathematical value of an [`Event`], with identities and contents as
/// character sequences.
#[verifier::ext_equal]
pub enum EventV {
    MessageAdded { id: u64, sender: Seq<char>, role: Seq<char>, content: Seq<char>, timestamp_ms: u64 },
    HistoryCleared,
    GameCreated { admin: Seq<char>, player_one: Seq<char>, player_two: Seq<char> },
    SecretSet,
    SecretGuessed { guesser: Seq<char> },
    StageChanged { stage: Seq<char> },
}

impl View for Event {
    type V = EventV;

    open spec fn view(&self) -> EventV {
        match self {
            Event::MessageAdded { id, sender, role, content, timestamp_ms } => EventV::MessageAdded {
                id: *id,
                sender: sender@,
                role: role@,
                content: content@,
                timestamp_ms: *timestamp_ms,
            },
            Event::HistoryCleared => EventV::HistoryCleared,
            Event::GameCreated { admin, player_one, player_two } => EventV::GameCreated {
                admin: admin@,
                player_one: player_one@,
                player_two: player_two@,
            },
            Event::SecretSet => EventV::SecretSet,
            Event::SecretGuessed { guesser } => EventV::SecretGuessed { guesser: guesser@ },
            Event::StageChanged { stage } => EventV::StageChanged { stage: stage@ },
        }
    }
}

/// The sequence of event values a session has buffered.
pub open spec fn events_of(s: GameState) -> Seq<EventV> {
    s.events@.map_values(|e: Event| e@)
}

/// A secret-word duel session: the bounded log, the fixed cast, the secret
/// and the current stage.
#[derive(Debug)]
pub struct GameState {
    pub messages: Vec<ChatMessage>,
    pub max_messages: u32,
    pub next_id: u64,
    pub admin: Option<String>,
    pub player_one: Option<String>,
    pub player_two: Option<String>,
    pub secret_raw: Option<String>,
    pub secret_normalized: Option<String>,
    pub stage: GameStage,
    pub last_question_id: Option<u64>,
    pub events: Vec<Event>,
}

impl GameState {
    /// The session's internal invariant: the log respects the configured
    /// capacity, entry identifiers are strictly increasing and below the
    /// next identifier to assign, the stored secret forms agree, and a
    /// session that left `NotStarted` has its full cast registered.
    pub open spec fn wf(&self) -> bool {
        &&& 1 <= self.max_messages <= MAX_ALLOWED_MESSAGES
        &&& self.messages@.len() <= self.max_messages
        &&& forall|i: int, j: int|
            0 <= i < j < self.messages@.len() ==> self.messages@[i].id < self.messages@[j].id
        &&& forall|i: int| 0 <= i < self.messages@.len() ==> self.messages@[i].id < self.next_id
        &&& (self.secret_raw is Some <==> self.secret_normalized is Some)
        &&& (self.secret_raw matches Some(raw) ==> self.secret_normalized matches Some(n)
            && n@ == normal_of(raw@))
        &&& (self.stage != GameStage::NotStarted ==> self.admin is Some)
        &&& (self.admin is Some ==> self.player_one is Some && self.player_two is Some)
    }

    /// A fresh session: empty log, default capacity, no cast, no secret,
    /// stage `NotStarted`.
    pub fn init() -> (s: GameState)
        ensures
            s.wf(),
            s.messages@ =~= Seq::<ChatMessage>::empty(),
            s.max_messages == DEFAULT_MAX_MESSAGES,
            s.next_id == 0,
            s.admin is None,
            s.player_one is None,
            s.player_two is None,
            s.secret_raw is None,
            s.secret_normalized is None,
            s.stage == GameStage::NotStarted,
            s.last_question_id is None,
            events_of(s) =~= Seq::<EventV>::empty(),
    {
        GameState {
            messages: Vec::new(),
            max_messages: DEFAULT_MAX_MESSAGES,
            next_id: 0,
            admin: None,
            player_one: None,
            player_two: None,
            secret_raw: None,
            secret_normalized: None,
            stage: GameStage::NotStarted,
            last_question_id: None,
            events: Vec::new(),
        }
    }
}

/// The view of an optional identity.
pub open spec fn osview(o: Option<String>) -> Option<Seq<char>> {
    match o {
        Some(s) => Some(s@),
        None => None,
    }
}

/// FIFO eviction: the oldest entries over the capacity are dropped as one
/// batch, keeping the newest `max`.
pub open spec fn evict(log: Seq<ChatMessage>, max: nat) -> Seq<ChatMessage> {
    if log.len() <= max {
        log
    } else {
        log.skip(log.len() - max)
    }
}

/// The stage-change notifications of moving from `from` to `to`: one
/// `StageChanged` event, or none when the stage does not change.
pub open spec fn stage_change_events(from: GameStage, to: GameStage) -> Seq<EventV> {
    if from == to {
        Seq::<EventV>::empty()
    } else {
        seq![EventV::StageChanged { stage: stage_label(to) }]
    }
}

/// Whether `info` reports exactly the state of session `s`.
pub open spec fn is_snapshot_of(info: GameInfo, s: GameState) -> bool {
    &&& info.admin == s.admin
    &&& info.player_one == s.player_one
    &&& info.player_two == s.player_two
    &&& info.stage == s.stage
    &&& info.secret_set == (s.secret_raw is Some)
    &&& info.total_messages == s.messages@.len()
    &&& info.max_messages == s.max_messages
    &&& info.awaiting_player == spec_awaiting_player(s.stage, s)
}

/// The authorization verdict on a caller claiming the admin role.
pub open spec fn admin_error(s: GameState, candidate: Seq<char>) -> Option<Error> {
    if name_error(candidate) is Some {
        name_error(candidate)
    } else {
        match s.admin {
            Some(a) => if a@ == trim_of(candidate) {
                None
            } else {
                Some(Error::Unauthorized("only the configured admin can perform this action"))
            },
            None => Some(
                Error::GameSetupIncomplete("create_game must be called before this operation"),
            ),
        }
    }
}

/// The authorization verdict on a caller claiming the player-one role.
pub open spec fn player_one_error(s: GameState, candidate: Seq<char>) -> Option<Error> {
    if name_error(candidate) is Some {
        name_error(candidate)
    } else {
        match s.player_one {
            Some(p) => if p@ == trim_of(candidate) {
                None
            } else {
                Some(Error::Unauthorized("only the registered player one can perform this action"))
            },
            None => Some(Error::GameSetupIncomplete("player one has not been set yet")),
        }
    }
}

/// The authorization verdict on a caller claiming the player-two role.
pub open spec fn player_two_error(s: GameState, candidate: Seq<char>) -> Option<Error> {
    if name_error(candidate) is Some {
        name_error(candidate)
    } else {
        match s.player_two {
            Some(p) => if p@ == trim_of(candidate) {
                None
            } else {
                Some(Error::Unauthorized("only the registered player two can perform this action"))
            },
            None => Some(Error::GameSetupIncomplete("player two has not been set yet")),
        }
    }
}

/// Mapping event values commutes with appending one event.
proof fn lemma_events_push(evs: Seq<Event>, e: Event)
    ensures
        evs.push(e).map_values(|x: Event| x@) =~= evs.map_values(|x: Event| x@).push(e@),
{
}

impl GameState {
    /// The normalized form of a word: trimmed, then lower-cased. Guess and
    /// secret comparisons always use this form.
    pub fn normalise_word(word: &str) -> (r: String)
        ensures
            r@ == normal_of(word@),
    {
        let trimmed = trim_str(word);
        lower_str(trimmed.as_str())
    }

    /// Checks that the caller is the configured admin, returning the trimmed
    /// identity.
    fn ensure_admin(&self, candidate: &str) -> (r: Result<String, Error>)
        ensures
            r is Ok <==> admin_error(*self, candidate@) is None,
            r matches Ok(name) ==> name@ == trim_of(candidate@),
            r matches Err(e) ==> admin_error(*self, candidate@) == Some(e),
    {
        match validate_name(candidate) {
            Err(e) => Err(e),
            Ok(cleaned) => match &self.admin {
                Some(a) => if *a == cleaned {
                    Ok(cleaned)
                } else {
                    Err(Error::Unauthorized("only the configured admin can perform this action"))
                },
                None => Err(
                    Error::GameSetupIncomplete("create_game must be called before this operation"),
                ),
            },
        }
    }

    /// Checks that the caller is the registered player one, returning the
    /// trimmed identity.
    fn ensure_player_one(&self, candidate: &str) -> (r: Result<String, Error>)
        ensures
            r is Ok <==> player_one_error(*self, candidate@) is None,
            r matches Ok(name) ==> name@ == trim_of(candidate@),
            r matches Err(e) ==> player_one_error(*self, candidate@) == Some(e),
    {
        match validate_name(candidate) {
            Err(e) => Err(e),
            Ok(cleaned) => match &self.player_one {
                Some(p) => if *p == cleaned {
                    Ok(cleaned)
                } else {
                    Err(
                        Error::Unauthorized(
                            "only the registered player one can perform this action",
                        ),
                    )
                },
                None => Err(Error::GameSetupIncomplete("player one has not been set yet")),
            },
        }
    }

    /// Checks that the caller is the registered player two, returning the
    /// trimmed identity.
    fn ensure_player_two(&self, candidate: &str) -> (r: Result<String, Error>)
        ensures
            r is Ok <==> player_two_error(*self, candidate@) is None,
            r matches Ok(name) ==> name@ == trim_of(candidate@),
            r matches Err(e) ==> player_two_error(*self, candidate@) == Some(e),
    {
        match validate_name(candidate) {
            Err(e) => Err(e),
            Ok(cleaned) => match &self.player_two {
                Some(p) => if *p == cleaned {
                    Ok(cleaned)
                } else {
                    Err(
                        Error::Unauthorized(
                            "only the registered player two can perform this action",
                        ),
                    )
                },
                None => Err(Error::GameSetupIncomplete("player two has not been set yet")),
            },
        }
    }

    /// Checks that a secret has been configured, returning its raw and
    /// normalized forms.
    fn ensure_secret(&self) -> (r: Result<(&String, &String), Error>)
        requires
            self.wf(),
        ensures
            r is Ok <==> self.secret_raw is Some,
            r matches Ok(p) ==> self.secret_raw == Some(*p.0) && self.secret_normalized == Some(
                *p.1,
            ),
            r matches Err(e) ==> e == Error::SecretNotSet,
    {
        match (&self.secret_raw, &self.secret_normalized) {
            (Some(raw), Some(normalized)) => Ok((raw, normalized)),
            _ => Err(Error::SecretNotSet),
        }
    }

    /// Moves the session to `next`, buffering a `StageChanged` event when the
    /// stage actually changes.
    fn transition_stage(&mut self, next: GameStage)
        ensures
            final(self).stage == next,
            events_of(*final(self)) =~= events_of(*old(self)) + stage_change_events(
                old(self).stage,
                next,
            ),
            final(self).messages == old(self).messages,
            final(self).max_messages == old(self).max_messages,
            final(self).next_id == old(self).next_id,
            final(self).admin == old(self).admin,
            final(self).player_one == old(self).player_one,
            final(self).player_two == old(self).player_two,
            final(self).secret_raw == old(self).secret_raw,
            final(self).secret_normalized == old(self).secret_normalized,
            final(self).last_question_id == old(self).last_question_id,
    {
        if !(self.stage == next) {
            self.stage = next;
            let ghost evs = self.events@;
            let label = next.as_label();
            let event = Event::StageChanged { stage: label.to_owned() };
            proof {
                lemma_events_push(evs, event);
            }
            self.events.push(event);
        }
    }

    /// Drops the oldest entries over the configured capacity, as one batch.
    pub fn enforce_capacity(&mut self)
        ensures
            final(self).messages@ =~= evict(old(self).messages@, old(self).max_messages as nat),
            final(self).max_messages == old(self).max_messages,
            final(self).next_id == old(self).next_id,
            final(self).admin == old(self).admin,
            final(self).player_one == old(self).player_one,
            final(self).player_two == old(self).player_two,
            final(self).secret_raw == old(self).secret_raw,
            final(self).secret_normalized == old(self).secret_normalized,
            final(self).stage == old(self).stage,
            final(self).last_question_id == old(self).last_question_id,
            final(self).events == old(self).events,
    {
        let max = self.max_messages as usize;
        if self.messages.len() > max {
            let overflow = self.messages.len() - max;
            let mut kept: Vec<ChatMessage> = Vec::new();
            let mut i: usize = overflow;
            while i < self.messages.len()
                invariant
                    overflow <= i <= self.messages@.len(),
                    kept@ =~= self.messages@.subrange(overflow as int, i as int),
                decreases self.messages@.len() - i,
            {
                kept.push(self.messages[i].clone());
                i = i + 1;
            }
            self.messages = kept;
        }
    }

    /// Appends one entry to the log, assigning the next identifier, then
    /// enforces the capacity.
    fn append_message(&mut self, sender: String, role: &str, content: String, now_ms: u64) -> (m:
        ChatMessage)
        requires
            old(self).wf(),
            old(self).next_id < u64::MAX,
        ensures
            final(self).wf(),
            m.id == old(self).next_id,
            m.sender == sender,
            m.role@ == role@,
            m.content == content,
            m.timestamp_ms == now_ms,
            final(self).messages@ =~= evict(
                old(self).messages@.push(m),
                old(self).max_messages as nat,
            ),
            final(self).next_id == old(self).next_id + 1,
            final(self).max_messages == old(self).max_messages,
            final(self).admin == old(self).admin,
            final(self).player_one == old(self).player_one,
            final(self).player_two == old(self).player_two,
            final(self).secret_raw == old(self).secret_raw,
            final(self).secret_normalized == old(self).secret_normalized,
            final(self).stage == old(self).stage,
            final(self).last_question_id == old(self).last_question_id,
            final(self).events == old(self).events,
    {
        let id = self.next_id;
        self.next_id = id + 1;
        let message = ChatMessage {
            id,
            sender,
            role: role.to_owned(),
            content,
            timestamp_ms: now_ms,
        };
        self.messages.push(message.clone());
        self.enforce_capacity();
        message
    }

    /// A full snapshot of the session.
    pub fn info_snapshot(&self) -> (info: GameInfo)
        requires
            self.messages@.len() <= u32::MAX,
        ensures
            is_snapshot_of(info, *self),
    {
        GameInfo {
            admin: clone_opt_string(&self.admin),
            player_one: clone_opt_string(&self.player_one),
            player_two: clone_opt_string(&self.player_two),
            stage: self.stage,
            secret_set: match &self.secret_raw {
                Some(_) => true,
                None => false,
            },
            total_messages: self.messages.len() as u32,
            max_messages: self.max_messages,
            awaiting_player: self.stage.awaiting_player(self),
        }
    }

    /// Hands the buffered events to the hosting layer, leaving the buffer
    /// empty; the session state itself is untouched.
    pub fn take_events(&mut self) -> (evs: Vec<Event>)
        ensures
            evs@.map_values(|e: Event| e@) =~= events_of(*old(self)),
            events_of(*final(self)) =~= Seq::<EventV>::empty(),
            old(self).wf() ==> final(self).wf(),
            final(self).messages == old(self).messages,
            final(self).max_messages == old(self).max_messages,
            final(self).next_id == old(self).next_id,
            final(self).admin == old(self).admin,
            final(self).player_one == old(self).player_one,
            final(self).player_two == old(self).player_two,
            final(self).secret_raw == old(self).secret_raw,
            final(self).secret_normalized == old(self).secret_normalized,
            final(self).stage == old(self).stage,
            final(self).last_question_id == old(self).last_question_id,
    {
        let mut evs: Vec<Event> = Vec::new();
        core::mem::swap(&mut evs, &mut self.events);
        evs
    }
}

/// The verdict on a `create_game` request: the three names must validate and
/// an already-configured admin must match the supplied one.
pub open spec fn create_game_error(
    s: GameState,
    admin: Seq<char>,
    player_one: Seq<char>,
    player_two: Seq<char>,
) -> Option<Error> {
    if name_error(admin) is Some {
        name_error(admin)
    } else if name_error(player_one) is Some {
        name_error(player_one)
    } else if name_error(player_two) is Some {
        name_error(player_two)
    } else if s.admin matches Some(a) && a@ != trim_of(admin) {
        Some(Error::AdminMismatch)
    } else {
        None
    }
}

/// The verdict on a `set_secret` request: the caller must be the admin and
/// the secret a single non-empty word within the byte ceiling.
pub open spec fn set_secret_error(s: GameState, requester: Seq<char>, secret: Seq<char>) -> Option<
    Error,
> {
    if admin_error(s, requester) is Some {
        admin_error(s, requester)
    } else if name_error(secret) is Some {
        name_error(secret)
    } else if has_space(trim_of(secret)) {
        Some(Error::InvalidSecretFormat)
    } else {
        None
    }
}

impl GameState {
    /// (Re)initializes the session for a fresh round: validates and stores
    /// the cast, clears the secret and the log, resets the identifier
    /// counter, and moves to `WaitingForSecret`. An admin, once configured,
    /// survives re-creation and must match.
    pub fn create_game(&mut self, admin: String, player_one: String, player_two: String) -> (r:
        Result<GameInfo, Error>)
        requires
            old(self).wf(),
        ensures
            final(self).wf(),
            r is Ok <==> create_game_error(*old(self), admin@, player_one@, player_two@) is None,
            r matches Err(e) ==> Some(e) == create_game_error(
                *old(self),
                admin@,
                player_one@,
                player_two@,
            ) && *final(self) == *old(self),
            r matches Ok(info) ==> {
                &&& osview(final(self).admin) == Some(trim_of(admin@))
                &&& osview(final(self).player_one) == Some(trim_of(player_one@))
                &&& osview(final(self).player_two) == Some(trim_of(player_two@))
                &&& final(self).secret_raw is None
                &&& final(self).secret_normalized is None
                &&& final(self).stage == GameStage::WaitingForSecret
                &&& final(self).messages@ =~= Seq::<ChatMessage>::empty()
                &&& final(self).next_id == 0
                &&& final(self).last_question_id is None
                &&& final(self).max_messages == old(self).max_messages
                &&& events_of(*final(self)) =~= events_of(*old(self)) + stage_change_events(
                    old(self).stage,
                    GameStage::WaitingForSecret,
                ) + seq![
                    EventV::GameCreated {
                        admin: trim_of(admin@),
                        player_one: trim_of(player_one@),
                        player_two: trim_of(player_two@),
                    },
                ]
                &&& is_snapshot_of(info, *final(self))
            },
    {
        let admin_c = match validate_name(admin.as_str()) {
            Ok(v) => v,
            Err(e) => return Err(e),
        };
        let player_one_c = match validate_name(player_one.as_str()) {
            Ok(v) => v,
            Err(e) => return Err(e),
        };
        let player_two_c = match validate_name(player_two.as_str()) {
            Ok(v) => v,
            Err(e) => return Err(e),
        };
        match &self.admin {
            Some(existing) => if !(*existing == admin_c) {
                return Err(Error::AdminMismatch);
            },
            None => {},
        }

        self.admin = Some(admin_c.clone());
        self.player_one = Some(player_one_c.clone());
        self.player_two = Some(player_two_c.clone());
        self.secret_raw = None;
        self.secret_normalized = None;
        self.transition_stage(GameStage::WaitingForSecret);
        self.messages = Vec::new();
        self.next_id = 0;
        self.last_question_id = None;

        let ghost evs = self.events@;
        let event = Event::GameCreated {
            admin: admin_c,
            player_one: player_one_c,
            player_two: player_two_c,
        };
        proof {
            lemma_events_push(evs, event);
        }
        self.events.push(event);

        Ok(self.info_snapshot())
    }

    /// Stores the secret word (raw and normalized forms) and moves to
    /// `WaitingForQuestion`. Only the configured admin may set it, and it
    /// must be a single word without internal whitespace.
    pub fn set_secret(&mut self, requester: String, secret: String) -> (r: Result<GameInfo, Error>)
        requires
            old(self).wf(),
        ensures
            final(self).wf(),
            r is Ok <==> set_secret_error(*old(self), requester@, secret@) is None,
            r matches Err(e) ==> Some(e) == set_secret_error(*old(self), requester@, secret@)
                && *final(self) == *old(self),
            r matches Ok(info) ==> {
                &&& osview(final(self).secret_raw) == Some(trim_of(secret@))
                &&& osview(final(self).secret_normalized) == Some(normal_of(trim_of(secret@)))
                &&& final(self).stage == GameStage::WaitingForQuestion
                &&& final(self).last_question_id is None
                &&& final(self).messages == old(self).messages
                &&& final(self).next_id == old(self).next_id
                &&& final(self).max_messages == old(self).max_messages
                &&& final(self).admin == old(self).admin
                &&& final(self).player_one == old(self).player_one
                &&& final(self).player_two == old(self).player_two
                &&& events_of(*final(self)) =~= events_of(*old(self)) + stage_change_events(
                    old(self).stage,
                    GameStage::WaitingForQuestion,
                ) + seq![EventV::SecretSet]
                &&& is_snapshot_of(info, *final(self))
            },
    {
        match self.ensure_admin(requester.as_str()) {
            Ok(_) => {},
            Err(e) => return Err(e),
        }
        let cleaned_secret = match validate_name(secret.as_str()) {
            Ok(v) => v,
            Err(e) => return Err(e),
        };
        if crate::text::contains_space(cleaned_secret.as_str()) {
            return Err(Error::InvalidSecretFormat);
        }

        let normalized = Self::normalise_word(cleaned_secret.as_str());
        self.secret_raw = Some(cleaned_secret);
        self.secret_normalized = Some(normalized);
        self.transition_stage(GameStage::WaitingForQuestion);
        self.last_question_id = None;

        let ghost evs = self.events@;
        proof {
            lemma_events_push(evs, Event::SecretSet);
        }
        self.events.push(Event::SecretSet);

        Ok(self.info_snapshot())
    }
}

/// The verdict on a `submit_question` request.
pub open spec fn submit_question_error(
    s: GameState,
    player: Seq<char>,
    content: Seq<char>,
) -> Option<Error> {
    if s.secret_raw is None {
        Some(Error::SecretNotSet)
    } else if player_one_error(s, player) is Some {
        player_one_error(s, player)
    } else if s.stage == GameStage::WaitingForAnswer {
        Some(Error::InvalidTurn("an answer is required before asking another question"))
    } else if s.stage == GameStage::Completed {
        Some(Error::InvalidTurn("the game is completed; restart to continue"))
    } else if s.stage == GameStage::NotStarted {
        Some(Error::GameSetupIncomplete("create_game must be called before starting"))
    } else if content_error(content) is Some {
        content_error(content)
    } else {
        None
    }
}

/// The verdict on a `submit_answer` request.
pub open spec fn submit_answer_error(
    s: GameState,
    player: Seq<char>,
    content: Seq<char>,
) -> Option<Error> {
    if s.secret_raw is None {
        Some(Error::SecretNotSet)
    } else if player_two_error(s, player) is Some {
        player_two_error(s, player)
    } else if s.stage != GameStage::WaitingForAnswer {
        Some(Error::InvalidTurn("an answer can only be submitted after a question"))
    } else if content_error(content) is Some {
        content_error(content)
    } else {
        None
    }
}

/// Whether an optional guess matches the configured secret, under
/// normalization.
pub open spec fn guess_matches(s: GameState, guess: Option<String>) -> bool {
    &&& guess matches Some(g)
    &&& s.secret_normalized matches Some(n)
    &&& normal_of(g@) == n@
}

impl GameState {
    /// Logs a question from player one and moves to `WaitingForAnswer`,
    /// recording the entry as the open question. The entry is stamped with
    /// the host-supplied time.
    pub fn submit_question(&mut self, player: String, content: String, now_ms: u64) -> (r: Result<
        ChatMessage,
        Error,
    >)
        requires
            old(self).wf(),
            old(self).next_id < u64::MAX,
        ensures
            final(self).wf(),
            r is Ok <==> submit_question_error(*old(self), player@, content@) is None,
            r matches Err(e) ==> Some(e) == submit_question_error(*old(self), player@, content@)
                && *final(self) == *old(self),
            r matches Ok(m) ==> {
                &&& m.id == old(self).next_id
                &&& m.sender@ == trim_of(player@)
                &&& m.role@ == "player_one"@
                &&& m.content@ == trim_of(content@)
                &&& m.timestamp_ms == now_ms
                &&& final(self).messages@ =~= evict(
                    old(self).messages@.push(m),
                    old(self).max_messages as nat,
                )
                &&& final(self).next_id == old(self).next_id + 1
                &&& final(self).stage == GameStage::WaitingForAnswer
                &&& final(self).last_question_id == Some(m.id)
                &&& final(self).max_messages == old(self).max_messages
                &&& final(self).admin == old(self).admin
                &&& final(self).player_one == old(self).player_one
                &&& final(self).player_two == old(self).player_two
                &&& final(self).secret_raw == old(self).secret_raw
                &&& final(self).secret_normalized == old(self).secret_normalized
                &&& events_of(*final(self)) =~= events_of(*old(self)) + stage_change_events(
                    old(self).stage,
                    GameStage::WaitingForAnswer,
                ) + seq![
                    EventV::MessageAdded {
                        id: m.id,
                        sender: m.sender@,
                        role: m.role@,
                        content: m.content@,
                        timestamp_ms: now_ms,
                    },
                ]
            },
    {
        match self.ensure_secret() {
            Ok(_) => {},
            Err(e) => return Err(e),
        }
        let player_one = match self.ensure_player_one(player.as_str()) {
            Ok(v) => v,
            Err(e) => return Err(e),
        };

        match self.stage {
            GameStage::WaitingForQuestion | GameStage::WaitingForSecret => {},
            GameStage::WaitingForAnswer => {
                return Err(
                    Error::InvalidTurn("an answer is required before asking another question"),
                );
            },
            GameStage::Completed => {
                return Err(Error::InvalidTurn("the game is completed; restart to continue"));
            },
            GameStage::NotStarted => {
                return Err(Error::GameSetupIncomplete("create_game must be called before starting"));
            },
        }

        let message_content = match crate::text::validate_message_content(content.as_str()) {
            Ok(v) => v,
            Err(e) => return Err(e),
        };
        let message = self.append_message(player_one, "player_one", message_content, now_ms);
        self.transition_stage(GameStage::WaitingForAnswer);
        self.last_question_id = Some(message.id);

        let ghost evs = self.events@;
        let event = Event::MessageAdded {
            id: message.id,
            sender: message.sender.clone(),
            role: message.role.clone(),
            content: message.content.clone(),
            timestamp_ms: message.timestamp_ms,
        };
        proof {
            lemma_events_push(evs, event);
        }
        self.events.push(event);

        Ok(message)
    }

    /// Logs an answer from player two; a correct attached guess completes
    /// the game, otherwise play returns to `WaitingForQuestion`. The entry
    /// is stamped with the host-supplied time.
    pub fn submit_answer(
        &mut self,
        player: String,
        content: String,
        guess: Option<String>,
        now_ms: u64,
    ) -> (r: Result<AnswerResult, Error>)
        requires
            old(self).wf(),
            old(self).next_id < u64::MAX,
        ensures
            final(self).wf(),
            r is Ok <==> submit_answer_error(*old(self), player@, content@) is None,
            r matches Err(e) ==> Some(e) == submit_answer_error(*old(self), player@, content@)
                && *final(self) == *old(self),
            r matches Ok(res) ==> {
                let m = res.message;
                let correct = guess_matches(*old(self), guess);
                let next_stage = if correct {
                    GameStage::Completed
                } else {
                    GameStage::WaitingForQuestion
                };
                &&& res.guess_was_correct == correct
                &&& m.id == old(self).next_id
                &&& m.sender@ == trim_of(player@)
                &&& m.role@ == "player_two"@
                &&& m.content@ == trim_of(content@)
                &&& m.timestamp_ms == now_ms
                &&& final(self).messages@ =~= evict(
                    old(self).messages@.push(m),
                    old(self).max_messages as nat,
                )
                &&& final(self).next_id == old(self).next_id + 1
                &&& final(self).stage == next_stage
                &&& final(self).last_question_id is None
                &&& final(self).max_messages == old(self).max_messages
                &&& final(self).admin == old(self).admin
                &&& final(self).player_one == old(self).player_one
                &&& final(self).player_two == old(self).player_two
                &&& final(self).secret_raw == old(self).secret_raw
                &&& final(self).secret_normalized == old(self).secret_normalized
                &&& events_of(*final(self)) =~= events_of(*old(self)) + stage_change_events(
                    GameStage::WaitingForAnswer,
                    next_stage,
                ) + (if correct {
                    seq![EventV::SecretGuessed { guesser: trim_of(player@) }]
                } else {
                    Seq::<EventV>::empty()
                }) + seq![
                    EventV::MessageAdded {
                        id: m.id,
                        sender: m.sender@,
                        role: m.role@,
                        content: m.content@,
                        timestamp_ms: now_ms,
                    },
                ]
            },
    {
        match self.ensure_secret() {
            Ok(_) => {},
            Err(e) => return Err(e),
        }
        let player_two = match self.ensure_player_two(player.as_str()) {
            Ok(v) => v,
            Err(e) => return Err(e),
        };

        if !(self.stage == GameStage::WaitingForAnswer) {
            return Err(Error::InvalidTurn("an answer can only be submitted after a question"));
        }

        let message_content = match crate::text::validate_message_content(content.as_str()) {
            Ok(v) => v,
            Err(e) => return Err(e),
        };
        let message = self.append_message(
            player_two.clone(),
            "player_two",
            message_content,
            now_ms,
        );

        let mut guess_was_correct = false;
        let is_match = match (&self.secret_normalized, &guess) {
            (Some(secret_norm), Some(guess_value)) => {
                let normalized_guess = Self::normalise_word(guess_value.as_str());
                normalized_guess == *secret_norm
            },
            _ => false,
        };

        if is_match {
            guess_was_correct = true;
            self.transition_stage(GameStage::Completed);
            self.last_question_id = None;
            let ghost evs = self.events@;
            let event = Event::SecretGuessed { guesser: player_two };
            proof {
                lemma_events_push(evs, event);
            }
            self.events.push(event);
        } else {
            self.transition_stage(GameStage::WaitingForQuestion);
            self.last_question_id = None;
        }

        let ghost evs2 = self.events@;
        let event2 = Event::MessageAdded {
            id: message.id,
            sender: message.sender.clone(),
            role: message.role.clone(),
            content: message.content.clone(),
            timestamp_ms: message.timestamp_ms,
        };
        proof {
            lemma_events_push(evs2, event2);
        }
        self.events.push(event2);

        Ok(AnswerResult { message, guess_was_correct })
    }
}

/// The requested offset, defaulting to the start of the log.
pub open spec fn page_offset(offset: Option<u32>) -> u32 {
    match offset {
        Some(v) => v,
        None => 0u32,
    }
}

/// The requested page size, defaulted and clamped to `[1, max]`.
pub open spec fn page_limit(limit: Option<u32>, max: u32) -> u32 {
    let v = match limit {
        Some(v) => v,
        None => DEFAULT_PAGE_SIZE,
    };
    if v < 1 {
        1u32
    } else if v > max {
        max
    } else {
        v
    }
}

/// The page of the log selected by `offset` and `limit`: the offset clamps
/// to the log length, so an offset past the end yields an empty page.
pub open spec fn spec_page(
    log: Seq<ChatMessage>,
    offset: Option<u32>,
    limit: Option<u32>,
    max: u32,
) -> Seq<ChatMessage> {
    let start: int = if page_offset(offset) <= log.len() {
        page_offset(offset) as int
    } else {
        log.len() as int
    };
    let end: int = if start + page_limit(limit, max) <= log.len() {
        start + page_limit(limit, max)
    } else {
        log.len() as int
    };
    log.subrange(start, end)
}

impl GameState {
    /// A page of the log, oldest first: `offset` clamps to the log length
    /// and `limit` to `[1, max_messages]`, so no request fails.
    pub fn messages(&self, offset: Option<u32>, limit: Option<u32>) -> (r: Result<
        Vec<ChatMessage>,
        Error,
    >)
        requires
            self.wf(),
        ensures
            r matches Ok(page) && page@ =~= spec_page(
                self.messages@,
                offset,
                limit,
                self.max_messages,
            ),
    {
        let total = self.messages.len();
        let offset_val = match offset {
            Some(v) => v,
            None => 0,
        };
        let start = if (offset_val as usize) <= total {
            offset_val as usize
        } else {
            total
        };
        let limit_val = match limit {
            Some(v) => v,
            None => DEFAULT_PAGE_SIZE,
        };
        let capped_limit = if limit_val < 1 {
            1
        } else if limit_val > self.max_messages {
            self.max_messages
        } else {
            limit_val
        };
        let end = if start + (capped_limit as usize) <= total {
            start + (capped_limit as usize)
        } else {
            total
        };

        let mut page: Vec<ChatMessage> = Vec::new();
        let mut i: usize = start;
        while i < end
            invariant
                start <= i <= end <= self.messages@.len(),
                page@ =~= self.messages@.subrange(start as int, i as int),
            decreases end - i,
        {
            page.push(self.messages[i].clone());
            i = i + 1;
        }
        Ok(page)
    }

    /// The entry carrying the given identifier, if it is still in the log.
    pub fn message_by_id(&self, id: u64) -> (r: Result<ChatMessage, Error>)
        ensures
            r is Ok <==> exists|k: int|
                0 <= k < self.messages@.len() && self.messages@[k].id == id,
            r matches Ok(m) ==> exists|k: int|
                0 <= k < self.messages@.len() && self.messages@[k].id == id && m == self.messages@[k],
            r matches Err(e) ==> e == Error::MessageNotFound(id),
    {
        let mut i: usize = 0;
        while i < self.messages.len()
            invariant
                i <= self.messages@.len(),
                forall|j: int| 0 <= j < i ==> self.messages@[j].id != id,
            decreases self.messages@.len() - i,
        {
            if self.messages[i].id == id {
                return Ok(self.messages[i].clone());
            }
            i = i + 1;
        }
        Err(Error::MessageNotFound(id))
    }

    /// Empties the log. Admin-only; on an already-empty log this is a
    /// successful no-op that emits nothing.
    pub fn clear_history(&mut self, requester: String) -> (r: Result<(), Error>)
        requires
            old(self).wf(),
        ensures
            final(self).wf(),
            r is Ok <==> admin_error(*old(self), requester@) is None,
            r matches Err(e) ==> Some(e) == admin_error(*old(self), requester@) && *final(self)
                == *old(self),
            r is Ok && old(self).messages@.len() == 0 ==> *final(self) == *old(self),
            r is Ok && old(self).messages@.len() > 0 ==> {
                &&& final(self).messages@ =~= Seq::<ChatMessage>::empty()
                &&& final(self).last_question_id is None
                &&& events_of(*final(self)) =~= events_of(*old(self)) + seq![EventV::HistoryCleared]
                &&& final(self).max_messages == old(self).max_messages
                &&& final(self).next_id == old(self).next_id
                &&& final(self).admin == old(self).admin
                &&& final(self).player_one == old(self).player_one
                &&& final(self).player_two == old(self).player_two
                &&& final(self).secret_raw == old(self).secret_raw
                &&& final(self).secret_normalized == old(self).secret_normalized
                &&& final(self).stage == old(self).stage
            },
    {
        match self.ensure_admin(requester.as_str()) {
            Ok(_) => {},
            Err(e) => return Err(e),
        }
        if self.messages.len() == 0 {
            return Ok(());
        }

        self.messages = Vec::new();
        self.last_question_id = None;
        let ghost evs = self.events@;
        proof {
            lemma_events_push(evs, Event::HistoryCleared);
        }
        self.events.push(Event::HistoryCleared);
        Ok(())
    }

    /// Reconfigures the log capacity within `[1, MAX_ALLOWED_MESSAGES]` and
    /// immediately evicts any excess, oldest first.
    pub fn set_max_messages(&mut self, requester: String, max_messages: u32) -> (r: Result<
        (),
        Error,
    >)
        requires
            old(self).wf(),
        ensures
            final(self).wf(),
            r is Ok <==> (admin_error(*old(self), requester@) is None && 1 <= max_messages
                <= MAX_ALLOWED_MESSAGES),
            r matches Err(e) ==> *final(self) == *old(self) && e == (if admin_error(
                *old(self),
                requester@,
            ) is Some {
                admin_error(*old(self), requester@)->0
            } else {
                Error::InvalidMaxMessages
            }),
            r is Ok ==> {
                &&& final(self).max_messages == max_messages
                &&& final(self).messages@ =~= evict(old(self).messages@, max_messages as nat)
                &&& final(self).next_id == old(self).next_id
                &&& final(self).admin == old(self).admin
                &&& final(self).player_one == old(self).player_one
                &&& final(self).player_two == old(self).player_two
                &&& final(self).secret_raw == old(self).secret_raw
                &&& final(self).secret_normalized == old(self).secret_normalized
                &&& final(self).stage == old(self).stage
                &&& final(self).last_question_id == old(self).last_question_id
                &&& final(self).events == old(self).events
            },
    {
        match self.ensure_admin(requester.as_str()) {
            Ok(_) => {},
            Err(e) => return Err(e),
        }
        if max_messages == 0 || max_messages > MAX_ALLOWED_MESSAGES {
            return Err(Error::InvalidMaxMessages);
        }

        self.max_messages = max_messages;
        self.enforce_capacity();
        Ok(())
    }

    /// The current session snapshot.
    pub fn game_info(&self) -> (r: Result<GameInfo, Error>)
        requires
            self.wf(),
        ensures
            r matches Ok(info) && is_snapshot_of(info, *self),
    {
        Ok(self.info_snapshot())
    }

    /// A pure read: whether the guess matches the secret under
    /// normalization. Requires a configured secret; mutates nothing.
    pub fn check_guess(&self, guess: String) -> (r: Result<GuessResult, Error>)
        requires
            self.wf(),
        ensures
            r is Ok <==> self.secret_raw is Some,
            r matches Err(e) ==> e == Error::SecretNotSet,
            r matches Ok(g) ==> self.secret_normalized matches Some(n) && g.guess_was_correct == (
            normal_of(guess@) == n@),
    {
        let normalized = match self.ensure_secret() {
            Ok(p) => p.1,
            Err(e) => return Err(e),
        };
        let normalized_guess = Self::normalise_word(guess.as_str());
        let guess_was_correct = normalized_guess == *normalized;
        Ok(GuessResult { guess_was_correct })
    }

    /// The raw secret, for the admin and player two only; any other valid
    /// requester is silently denied with an absent value rather than an
    /// error.
    pub fn get_secret(&self, requester: String) -> (r: Result<Option<String>, Error>)
        ensures
            r is Ok <==> name_error(requester@) is None,
            r matches Err(e) ==> name_error(requester@) == Some(e),
            r matches Ok(secret) ==> {
                if (osview(self.admin) == Some(trim_of(requester@))) || (osview(self.player_two)
                    == Some(trim_of(requester@))) {
                    secret == self.secret_raw
                } else {
                    secret is None
                }
            },
    {
        let cleaned = match validate_name(requester.as_str()) {
            Ok(v) => v,
            Err(e) => return Err(e),
        };
        let is_admin = match &self.admin {
            Some(a) => *a == cleaned,
            None => false,
        };
        let is_player_two = match &self.player_two {
            Some(p) => *p == cleaned,
            None => false,
        };
        if is_admin || is_player_two {
            Ok(clone_opt_string(&self.secret_raw))
        } else {
            Ok(None)
        }
    }

    /// The raw secret without any authorization gate, for diagnostics.
    pub fn debug_reveal_secret(&self) -> (r: Result<Option<String>, Error>)
        ensures
            r matches Ok(secret) && secret == self.secret_raw,
    {
        Ok(clone_opt_string(&self.secret_raw))
    }
}

/// The log never grows past the configured capacity: in every well-formed
/// session the number of entries is at most `max_messages`.
pub proof fn lemma_log_within_capacity(s: GameState)
    requires
        s.wf(),
    ensures
        s.messages@.len() <= s.max_messages,
{
}

/// Entry identifiers are strictly increasing along the log of every
/// well-formed session, so identifiers are never reused within a session
/// lifetime.
pub proof fn lemma_ids_strictly_increasing(s: GameState, i: int, j: int)
    requires
        s.wf(),
        0 <= i < j < s.messages@.len(),
    ensures
        s.messages@[i].id < s.messages@[j].id,
{
}

} // verus!
