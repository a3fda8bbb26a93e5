//! The number-discovery duel session: two players each submit a hidden
//! number, then alternately reveal the opponent's number; once both have
//! revealed, the strictly greater number wins and equal numbers draw.

use vstd::prelude::*;
use vstd::pervasive::VecAdditionalExecFns;
use crate::game::clone_opt_string;
use crate::game::osview;

verus! {

/// The phase of a duel: both transitions are one-directional and
/// irreversible for the lifetime of a session.
#[derive(Debug, Clone, Copy, PartialEq, Eq, Structural)]
pub enum Phase {
    Setup,
    InProgress,
    Finished,
}

/// The error kinds a duel operation can return.
#[derive(Debug)]
pub enum DuelError {
    InvalidPhase,
    GameFull,
    NumberAlreadySubmitted,
    NotEnoughPlayers,
    GameFinished,
    NotYourTurn(String),
    AlreadyDiscovered,
}

/// One roster slot: a player identity, the submitted number, and whether
/// this player has already revealed the opponent's number.
#[derive(Debug)]
pub struct PlayerEntry {
    pub id: String,
    pub number: Option<i64>,
    pub discovered: bool,
}

impl Clone for PlayerEntry {
    fn clone(&self) -> (r: Self)
        ensures
            r == *self,
    {
        PlayerEntry { id: self.id.clone(), number: self.number, discovered: self.discovered }
    }
}

/// A state-change notification, buffered by the duel on successful mutation
/// and drained by the hosting layer.
#[derive(Debug)]
pub enum DuelEvent {
    PlayerRegistered { player_id: String },
    NumberSubmitted { player_id: String },
    NumberDiscovered { player_id: String, target_id: String, value: i64 },
    TurnChanged { player_id: Option<String> },
    GameFinished { winner: Option<String> },
}

/// The mathematical value of a [`DuelEvent`], with identities as character
/// sequences.
#[verifier::ext_equal]
pub enum DuelEventV {
    PlayerRegistered { player_id: Seq<char> },
    NumberSubmitted { player_id: Seq<char> },
    NumberDiscovered { player_id: Seq<char>, target_id: Seq<char>, value: i64 },
    TurnChanged { player_id: Option<Seq<char>> },
    GameFinished { winner: Option<Seq<char>> },
}

impl View for DuelEvent {
    type V = DuelEventV;

    open spec fn view(&self) -> DuelEventV {
        match self {
            DuelEvent::PlayerRegistered { player_id } => DuelEventV::PlayerRegistered {
                player_id: player_id@,
            },
            DuelEvent::NumberSubmitted { player_id } => DuelEventV::NumberSubmitted {
                player_id: player_id@,
            },
            DuelEvent::NumberDiscovered { player_id, target_id, value } => DuelEventV::NumberDiscovered {
                player_id: player_id@,
                target_id: target_id@,
                value: *value,
            },
            DuelEvent::TurnChanged { player_id } => DuelEventV::TurnChanged {
                player_id: osview(*player_id),
            },
            DuelEvent::GameFinished { winner } => DuelEventV::GameFinished {
                winner: osview(*winner),
            },
        }
    }
}

/// One roster slot as reported to callers: the number is withheld unless it
/// has been revealed by the opponent or the duel has finished.
#[derive(Debug)]
pub struct PlayerView {
    pub id: String,
    pub number: Option<i64>,
    pub discovered: bool,
}

/// A duel snapshot as reported to callers.
#[derive(Debug)]
pub struct DuelInfo {
    pub players: Vec<PlayerView>,
    pub phase: Phase,
    pub current_turn: Option<String>,
    pub winner: Option<String>,
}

/// The outcome of a discovery: the revealed number plus the updated view.
#[derive(Debug)]
pub struct DiscoveryResult {
    pub number: i64,
    pub info: DuelInfo,
}

/// A two-player number-discovery duel session.
#[derive(Debug)]
pub struct DuelState {
    pub players: Vec<PlayerEntry>,
    pub phase: Phase,
    pub current_turn: Option<usize>,
    pub winner: Option<String>,
    pub events: Vec<DuelEvent>,
}

/// The sequence of event values a duel has buffered.
pub open spec fn duel_events_of(s: DuelState) -> Seq<DuelEventV> {
    s.events@.map_values(|e: DuelEvent| e@)
}

/// The winner verdict over two completed slots: the strictly greater number
/// wins; equal numbers produce no winner, whatever the discovery order was.
pub open spec fn spec_winner(p0: PlayerEntry, p1: PlayerEntry) -> Option<Seq<char>> {
    if p0.number->0 > p1.number->0 {
        Some(p0.id@)
    } else if p1.number->0 > p0.number->0 {
        Some(p1.id@)
    } else {
        None
    }
}

/// The roster slot holding the given identity, if any.
pub open spec fn player_index(players: Seq<PlayerEntry>, id: Seq<char>) -> Option<int> {
    if players.len() > 0 && players[0].id@ == id {
        Some(0int)
    } else if players.len() > 1 && players[1].id@ == id {
        Some(1int)
    } else {
        None
    }
}

/// The number of slot `i` as shown to callers: visible only once revealed
/// by the opponent, or once the duel has finished.
pub open spec fn visible_number(s: DuelState, i: int) -> Option<i64> {
    if s.phase == Phase::Finished || (s.players@.len() == 2 && s.players@[1 - i].discovered) {
        s.players@[i].number
    } else {
        None
    }
}

/// The active turn slot of an in-progress duel.
pub open spec fn turn_index(s: DuelState) -> int {
    s.current_turn->0 as int
}

/// Whether `info` reports exactly the state of duel `s`, with each number
/// withheld until earned or forced open at game end.
pub open spec fn is_view_of(info: DuelInfo, s: DuelState) -> bool {
    &&& info.players@.len() == s.players@.len()
    &&& forall|i: int|
        0 <= i < s.players@.len() ==> {
            &&& (#[trigger] info.players@[i]).id@ == s.players@[i].id@
            &&& info.players@[i].number == visible_number(s, i)
            &&& info.players@[i].discovered == s.players@[i].discovered
        }
    &&& info.phase == s.phase
    &&& osview(info.current_turn) == (match s.current_turn {
        Some(t) => Some(s.players@[t as int].id@),
        None => None::<Seq<char>>,
    })
    &&& osview(info.winner) == osview(s.winner)
}

impl DuelState {
    /// The duel's internal invariant: at most two slots, appended in join
    /// order with distinct identities, every registered slot holding a
    /// submitted number; the turn index, when present, is in range; the
    /// phase determines roster readiness, turn presence and discovery
    /// flags; and a finished duel's winner follows the winner rule.
    pub open spec fn wf(&self) -> bool {
        &&& self.players@.len() <= 2
        &&& (self.current_turn matches Some(t) ==> t < self.players@.len())
        &&& (self.players@.len() == 2 ==> self.players@[0].id@ != self.players@[1].id@)
        &&& forall|i: int| 0 <= i < self.players@.len() ==> (#[trigger] self.players@[i]).number is Some
        &&& (self.phase == Phase::Setup ==> self.current_turn is None && self.winner is None
            && forall|i: int| 0 <= i < self.players@.len() ==> !(#[trigger] self.players@[i]).discovered)
        &&& (self.phase == Phase::InProgress ==> self.players@.len() == 2 && self.current_turn is Some
            && self.winner is None)
        &&& (self.phase == Phase::Finished ==> self.players@.len() == 2 && self.current_turn is None
            && self.players@[0].discovered && self.players@[1].discovered)
        &&& (self.phase == Phase::Finished ==> osview(self.winner) == spec_winner(
            self.players@[0],
            self.players@[1],
        ))
    }

    /// A fresh duel: empty roster, `Setup` phase, no turn, no winner.
    pub fn new() -> (s: DuelState)
        ensures
            s.wf(),
            s.players@ =~= Seq::<PlayerEntry>::empty(),
            s.phase == Phase::Setup,
            s.current_turn is None,
            s.winner is None,
            duel_events_of(s) =~= Seq::<DuelEventV>::empty(),
    {
        DuelState {
            players: Vec::new(),
            phase: Phase::Setup,
            current_turn: None,
            winner: None,
            events: Vec::new(),
        }
    }

    /// The duel snapshot shown to callers.
    fn build_info(&self) -> (info: DuelInfo)
        requires
            self.wf(),
        ensures
            is_view_of(info, *self),
    {
        let mut players: Vec<PlayerView> = Vec::new();
        let mut i: usize = 0;
        while i < self.players.len()
            invariant
                self.wf(),
                i <= self.players@.len(),
                players@.len() == i,
                forall|j: int|
                    0 <= j < i ==> {
                        &&& (#[trigger] players@[j]).id@ == self.players@[j].id@
                        &&& players@[j].number == visible_number(*self, j)
                        &&& players@[j].discovered == self.players@[j].discovered
                    },
            decreases self.players@.len() - i,
        {
            let entry = &self.players[i];
            let finished = self.phase == Phase::Finished;
            let revealed_by_opponent = if self.players.len() == 2 {
                let other: usize = 1 - i;
                self.players[other].discovered
            } else {
                false
            };
            let number = if finished || revealed_by_opponent {
                entry.number
            } else {
                None
            };
            players.push(
                PlayerView { id: entry.id.clone(), number, discovered: entry.discovered },
            );
            i = i + 1;
        }
        let current_turn = match self.current_turn {
            Some(t) => Some(self.players[t].id.clone()),
            None => None,
        };
        DuelInfo { players, phase: self.phase, current_turn, winner: clone_opt_string(&self.winner) }
    }
}

/// Mapping duel event values commutes with appending one event.
proof fn lemma_duel_events_push(evs: Seq<DuelEvent>, e: DuelEvent)
    ensures
        evs.push(e).map_values(|x: DuelEvent| x@) =~= evs.map_values(|x: DuelEvent| x@).push(e@),
{
}

/// The verdict on a `submit_number` request: numbers are accepted only
/// during `Setup`, the roster holds at most two players, and each player's
/// number is write-once.
pub open spec fn submit_number_error(s: DuelState, player_id: Seq<char>) -> Option<DuelError> {
    if s.phase != Phase::Setup {
        Some(DuelError::InvalidPhase)
    } else {
        match player_index(s.players@, player_id) {
            Some(_) => Some(DuelError::NumberAlreadySubmitted),
            None => if s.players@.len() >= 2 {
                Some(DuelError::GameFull)
            } else {
                None
            },
        }
    }
}

impl DuelState {
    /// Registers the caller (join order is kept) and stores the hidden
    /// number. Once both of exactly two players have submitted, the duel
    /// moves to `InProgress` and the turn is assigned to the first-joined
    /// player.
    pub fn submit_number(&mut self, player_id: String, number: i64) -> (r: Result<
        DuelInfo,
        DuelError,
    >)
        requires
            old(self).wf(),
        ensures
            final(self).wf(),
            r is Ok <==> submit_number_error(*old(self), player_id@) is None,
            r matches Err(e) ==> Some(e) == submit_number_error(*old(self), player_id@)
                && *final(self) == *old(self),
            r matches Ok(info) ==> {
                let joined = old(self).players@.len() as int;
                let started = joined + 1 == 2;
                &&& final(self).players@.len() == joined + 1
                &&& final(self).players@.subrange(0, joined) =~= old(self).players@
                &&& final(self).players@[joined].id@ == player_id@
                &&& final(self).players@[joined].number == Some(number)
                &&& final(self).players@[joined].discovered == false
                &&& final(self).phase == (if started {
                    Phase::InProgress
                } else {
                    Phase::Setup
                })
                &&& final(self).current_turn == (if started {
                    Some(0usize)
                } else {
                    None::<usize>
                })
                &&& final(self).winner is None
                &&& duel_events_of(*final(self)) =~= duel_events_of(*old(self)) + seq![
                    DuelEventV::PlayerRegistered { player_id: player_id@ },
                    DuelEventV::NumberSubmitted { player_id: player_id@ },
                ] + (if started {
                    seq![
                        DuelEventV::TurnChanged {
                            player_id: Some(old(self).players@[0].id@),
                        },
                    ]
                } else {
                    Seq::<DuelEventV>::empty()
                })
                &&& is_view_of(info, *final(self))
            },
    {
        if !(self.phase == Phase::Setup) {
            return Err(DuelError::InvalidPhase);
        }

        let mut already_known = false;
        if self.players.len() > 0 && self.players[0].id == player_id {
            already_known = true;
        }
        if self.players.len() > 1 && self.players[1].id == player_id {
            already_known = true;
        }
        if already_known {
            return Err(DuelError::NumberAlreadySubmitted);
        }
        if self.players.len() >= 2 {
            return Err(DuelError::GameFull);
        }

        let entry = PlayerEntry { id: player_id.clone(), number: Some(number), discovered: false };
        self.players.push(entry);

        let ghost evs0 = self.events@;
        let registered = DuelEvent::PlayerRegistered { player_id: player_id.clone() };
        proof {
            lemma_duel_events_push(evs0, registered);
        }
        self.events.push(registered);

        let ghost evs1 = self.events@;
        let submitted = DuelEvent::NumberSubmitted { player_id };
        proof {
            lemma_duel_events_push(evs1, submitted);
        }
        self.events.push(submitted);

        if self.players.len() == 2 {
            self.phase = Phase::InProgress;
            self.current_turn = Some(0);
            let ghost evs2 = self.events@;
            let turn = DuelEvent::TurnChanged { player_id: Some(self.players[0].id.clone()) };
            proof {
                lemma_duel_events_push(evs2, turn);
            }
            self.events.push(turn);
        }

        Ok(self.build_info())
    }

    /// Reveals the opponent's number for the player whose turn it is. The
    /// turn then passes to the opponent, unless both players have now
    /// discovered each other, in which case the duel finishes: the turn is
    /// cleared and the winner is computed by the winner rule.
    pub fn discover_number(&mut self, player_id: String) -> (r: Result<DiscoveryResult, DuelError>)
        requires
            old(self).wf(),
        ensures
            final(self).wf(),
            r is Ok <==> (old(self).phase == Phase::InProgress
                && old(self).players@[turn_index(*old(self))].id@ == player_id@
                && !old(self).players@[turn_index(*old(self))].discovered),
            r matches Err(e) ==> *final(self) == *old(self) && (if old(self).phase == Phase::Setup {
                e == DuelError::NotEnoughPlayers
            } else if old(self).phase == Phase::Finished {
                e == DuelError::GameFinished
            } else if old(self).players@[turn_index(*old(self))].id@ != player_id@ {
                e matches DuelError::NotYourTurn(expected) && expected@ == old(self).players@[
                    turn_index(*old(self))
                ].id@
            } else {
                e == DuelError::AlreadyDiscovered
            }),
            r matches Ok(res) ==> {
                let t = turn_index(*old(self));
                let o = 1 - t;
                let finished = old(self).players@[o].discovered;
                &&& res.number == old(self).players@[o].number->0
                &&& final(self).players@.len() == 2
                &&& final(self).players@[o] == old(self).players@[o]
                &&& final(self).players@[t].id == old(self).players@[t].id
                &&& final(self).players@[t].number == old(self).players@[t].number
                &&& final(self).players@[t].discovered == true
                &&& final(self).phase == (if finished {
                    Phase::Finished
                } else {
                    Phase::InProgress
                })
                &&& final(self).current_turn == (if finished {
                    None::<usize>
                } else {
                    Some(o as usize)
                })
                &&& osview(final(self).winner) == (if finished {
                    spec_winner(final(self).players@[0], final(self).players@[1])
                } else {
                    None::<Seq<char>>
                })
                &&& duel_events_of(*final(self)) =~= duel_events_of(*old(self)) + seq![
                    DuelEventV::NumberDiscovered {
                        player_id: old(self).players@[t].id@,
                        target_id: old(self).players@[o].id@,
                        value: old(self).players@[o].number->0,
                    },
                ] + (if finished {
                    seq![
                        DuelEventV::TurnChanged { player_id: None::<Seq<char>> },
                        DuelEventV::GameFinished {
                            winner: spec_winner(final(self).players@[0], final(self).players@[1]),
                        },
                    ]
                } else {
                    seq![
                        DuelEventV::TurnChanged { player_id: Some(old(self).players@[o].id@) },
                    ]
                })
                &&& is_view_of(res.info, *final(self))
            },
    {
        if self.phase == Phase::Setup {
            return Err(DuelError::NotEnoughPlayers);
        }
        if self.phase == Phase::Finished {
            return Err(DuelError::GameFinished);
        }

        let turn = match self.current_turn {
            Some(t) => t,
            None => {
                proof {
                    assert(false);
                }
                return Err(DuelError::NotEnoughPlayers);
            },
        };
        if !(self.players[turn].id == player_id) {
            return Err(DuelError::NotYourTurn(self.players[turn].id.clone()));
        }
        if self.players[turn].discovered {
            return Err(DuelError::AlreadyDiscovered);
        }

        let opponent: usize = 1 - turn;
        let revealed = match self.players[opponent].number {
            Some(n) => n,
            None => {
                proof {
                    assert(false);
                }
                return Err(DuelError::NotEnoughPlayers);
            },
        };

        let mut caller_entry = self.players[turn].clone();
        caller_entry.discovered = true;
        self.players.set(turn, caller_entry);

        let ghost evs0 = self.events@;
        let discovery = DuelEvent::NumberDiscovered {
            player_id: player_id,
            target_id: self.players[opponent].id.clone(),
            value: revealed,
        };
        proof {
            lemma_duel_events_push(evs0, discovery);
        }
        self.events.push(discovery);

        if self.players[opponent].discovered {
            self.phase = Phase::Finished;
            self.current_turn = None;
            let winner = self.compute_winner();
            self.winner = winner;

            let ghost evs1 = self.events@;
            let turn_cleared = DuelEvent::TurnChanged { player_id: None };
            proof {
                lemma_duel_events_push(evs1, turn_cleared);
            }
            self.events.push(turn_cleared);

            let ghost evs2 = self.events@;
            let finished_event = DuelEvent::GameFinished {
                winner: clone_opt_string(&self.winner),
            };
            proof {
                lemma_duel_events_push(evs2, finished_event);
            }
            self.events.push(finished_event);
        } else {
            self.current_turn = Some(opponent);
            let ghost evs1 = self.events@;
            let turn_changed = DuelEvent::TurnChanged {
                player_id: Some(self.players[opponent].id.clone()),
            };
            proof {
                lemma_duel_events_push(evs1, turn_changed);
            }
            self.events.push(turn_changed);
        }

        let info = self.build_info();
        Ok(DiscoveryResult { number: revealed, info })
    }

    /// The winner of a completed roster: the strictly greater number wins,
    /// equal numbers draw.
    fn compute_winner(&self) -> (w: Option<String>)
        requires
            self.players@.len() == 2,
            self.players@[0].number is Some,
            self.players@[1].number is Some,
        ensures
            osview(w) == spec_winner(self.players@[0], self.players@[1]),
    {
        let n0 = match self.players[0].number {
            Some(n) => n,
            None => 0,
        };
        let n1 = match self.players[1].number {
            Some(n) => n,
            None => 0,
        };
        if n0 > n1 {
            Some(self.players[0].id.clone())
        } else if n1 > n0 {
            Some(self.players[1].id.clone())
        } else {
            None
        }
    }

    /// Hands the buffered events to the hosting layer, leaving the buffer
    /// empty; the duel state itself is untouched.
    pub fn take_events(&mut self) -> (evs: Vec<DuelEvent>)
        ensures
            evs@.map_values(|e: DuelEvent| e@) =~= duel_events_of(*old(self)),
            duel_events_of(*final(self)) =~= Seq::<DuelEventV>::empty(),
            old(self).wf() ==> final(self).wf(),
            final(self).players == old(self).players,
            final(self).phase == old(self).phase,
            final(self).current_turn == old(self).current_turn,
            final(self).winner == old(self).winner,
    {
        let mut evs: Vec<DuelEvent> = Vec::new();
        core::mem::swap(&mut evs, &mut self.events);
        evs
    }
}

} // verus!
