//! Entities of the pass-and-shoot game: teams, players, events, and the
//! `Game` aggregate that owns the possession state machine.

use vstd::prelude::*;
use crate::probability::spec_distance;
use crate::probability::distance_between_players;
use crate::probability::is_pass_interrupted;
use crate::probability::does_shot_get_to_goal;

verus! {

/// One of the two sides playing the game.
#[derive(Clone, Copy, Debug, PartialEq, Eq, Structural)]
pub enum Team {
    R,
    B,
}

/// The closed roster of the twelve player identities, six per team:
/// goalkeeper, left/right defender, midfielder, left/right forward.
#[derive(Clone, Copy, Debug, PartialEq, Eq, Structural)]
pub enum PlayerId {
    RGk,
    RLd,
    RRd,
    RMf,
    RLf,
    RRf,
    BGk,
    BLd,
    BRd,
    BMf,
    BLf,
    BRf,
}

/// A player record: identity, team affiliation, and a fixed position on the
/// discrete grid (x in 0..=2, y in 0..=7).
#[derive(Clone, Copy, Debug, PartialEq, Eq, Structural)]
pub struct Player {
    pub name: PlayerId,
    pub team: Team,
    pub pos_x_axis: u8,
    pub pos_y_axis: u8,
}

impl Player {
    /// A player's position stays on the fixed grid.
    pub open spec fn wf(self) -> bool {
        self.pos_x_axis <= 2 && self.pos_y_axis <= 7
    }

    pub fn parse(name: PlayerId, team: Team, pos_x_axis: u8, pos_y_axis: u8) -> (p: Player)
        ensures
            p == (Player { name, team, pos_x_axis, pos_y_axis }),
    {
        Player { name, team, pos_x_axis, pos_y_axis }
    }
}

/// The team a player identity belongs to.
pub open spec fn spec_team_of(id: PlayerId) -> Team {
    match id {
        PlayerId::RGk | PlayerId::RLd | PlayerId::RRd | PlayerId::RMf | PlayerId::RLf
        | PlayerId::RRf => Team::R,
        _ => Team::B,
    }
}

/// The other side.
pub open spec fn spec_opponent_of(team: Team) -> Team {
    match team {
        Team::R => Team::B,
        Team::B => Team::R,
    }
}

/// The designated goalkeeper of a team.
pub open spec fn spec_keeper_of(team: Team) -> PlayerId {
    match team {
        Team::R => PlayerId::RGk,
        Team::B => PlayerId::BGk,
    }
}

pub fn team_of(id: PlayerId) -> (t: Team)
    ensures
        t == spec_team_of(id),
{
    match id {
        PlayerId::RGk | PlayerId::RLd | PlayerId::RRd | PlayerId::RMf | PlayerId::RLf
        | PlayerId::RRf => Team::R,
        _ => Team::B,
    }
}

pub fn opponent_of(team: Team) -> (t: Team)
    ensures
        t == spec_opponent_of(team),
{
    match team {
        Team::R => Team::B,
        Team::B => Team::R,
    }
}

pub fn keeper_of(team: Team) -> (id: PlayerId)
    ensures
        id == spec_keeper_of(team),
{
    match team {
        Team::R => PlayerId::RGk,
        Team::B => PlayerId::BGk,
    }
}

/// The canonical record of a player identity: its team and its fixed
/// starting position on the grid.
pub open spec fn spec_player(id: PlayerId) -> Player {
    match id {
        PlayerId::RGk => Player { name: id, team: Team::R, pos_x_axis: 1, pos_y_axis: 0 },
        PlayerId::RRd => Player { name: id, team: Team::R, pos_x_axis: 0, pos_y_axis: 1 },
        PlayerId::RLd => Player { name: id, team: Team::R, pos_x_axis: 2, pos_y_axis: 1 },
        PlayerId::RMf => Player { name: id, team: Team::R, pos_x_axis: 1, pos_y_axis: 3 },
        PlayerId::RRf => Player { name: id, team: Team::R, pos_x_axis: 0, pos_y_axis: 5 },
        PlayerId::RLf => Player { name: id, team: Team::R, pos_x_axis: 2, pos_y_axis: 5 },
        PlayerId::BGk => Player { name: id, team: Team::B, pos_x_axis: 1, pos_y_axis: 7 },
        PlayerId::BLd => Player { name: id, team: Team::B, pos_x_axis: 0, pos_y_axis: 6 },
        PlayerId::BRd => Player { name: id, team: Team::B, pos_x_axis: 2, pos_y_axis: 6 },
        PlayerId::BMf => Player { name: id, team: Team::B, pos_x_axis: 1, pos_y_axis: 4 },
        PlayerId::BLf => Player { name: id, team: Team::B, pos_x_axis: 0, pos_y_axis: 2 },
        PlayerId::BRf => Player { name: id, team: Team::B, pos_x_axis: 2, pos_y_axis: 2 },
    }
}

/// The identity standing at a given slot of the fixed roster order.
pub open spec fn spec_roster_id(j: int) -> PlayerId {
    if j == 0 {
        PlayerId::RGk
    } else if j == 1 {
        PlayerId::RRd
    } else if j == 2 {
        PlayerId::RLd
    } else if j == 3 {
        PlayerId::RMf
    } else if j == 4 {
        PlayerId::RRf
    } else if j == 5 {
        PlayerId::RLf
    } else if j == 6 {
        PlayerId::BGk
    } else if j == 7 {
        PlayerId::BLd
    } else if j == 8 {
        PlayerId::BRd
    } else if j == 9 {
        PlayerId::BMf
    } else if j == 10 {
        PlayerId::BLf
    } else {
        PlayerId::BRf
    }
}

/// The slot of an identity in the fixed roster order.
pub open spec fn spec_roster_index(id: PlayerId) -> int {
    match id {
        PlayerId::RGk => 0,
        PlayerId::RRd => 1,
        PlayerId::RLd => 2,
        PlayerId::RMf => 3,
        PlayerId::RRf => 4,
        PlayerId::RLf => 5,
        PlayerId::BGk => 6,
        PlayerId::BLd => 7,
        PlayerId::BRd => 8,
        PlayerId::BMf => 9,
        PlayerId::BLf => 10,
        PlayerId::BRf => 11,
    }
}

/// The full fixed roster, in its canonical order.
pub open spec fn spec_roster() -> Seq<Player> {
    Seq::new(12, |j: int| spec_player(spec_roster_id(j)))
}

/// The display name of a player identity.
pub open spec fn spec_player_name(id: PlayerId) -> Seq<char> {
    match id {
        PlayerId::RGk => "R_GK"@,
        PlayerId::RLd => "R_LD"@,
        PlayerId::RRd => "R_RD"@,
        PlayerId::RMf => "R_MF"@,
        PlayerId::RLf => "R_LF"@,
        PlayerId::RRf => "R_RF"@,
        PlayerId::BGk => "B_GK"@,
        PlayerId::BLd => "B_LD"@,
        PlayerId::BRd => "B_RD"@,
        PlayerId::BMf => "B_MF"@,
        PlayerId::BLf => "B_LF"@,
        PlayerId::BRf => "B_RF"@,
    }
}

/// The display tag of a team.
pub open spec fn spec_team_tag(team: Team) -> Seq<char> {
    match team {
        Team::R => "R"@,
        Team::B => "B"@,
    }
}

/// Which player identity a name string denotes, if any.
pub open spec fn spec_parse_player_name(s: Seq<char>) -> Option<PlayerId> {
    if s == "R_GK"@ {
        Some(PlayerId::RGk)
    } else if s == "R_LD"@ {
        Some(PlayerId::RLd)
    } else if s == "R_RD"@ {
        Some(PlayerId::RRd)
    } else if s == "R_MF"@ {
        Some(PlayerId::RMf)
    } else if s == "R_LF"@ {
        Some(PlayerId::RLf)
    } else if s == "R_RF"@ {
        Some(PlayerId::RRf)
    } else if s == "B_GK"@ {
        Some(PlayerId::BGk)
    } else if s == "B_LD"@ {
        Some(PlayerId::BLd)
    } else if s == "B_RD"@ {
        Some(PlayerId::BRd)
    } else if s == "B_MF"@ {
        Some(PlayerId::BMf)
    } else if s == "B_LF"@ {
        Some(PlayerId::BLf)
    } else if s == "B_RF"@ {
        Some(PlayerId::BRf)
    } else {
        None
    }
}

/// Which team a tag string denotes, if any.
pub open spec fn spec_parse_team_tag(s: Seq<char>) -> Option<Team> {
    if s == "R"@ {
        Some(Team::R)
    } else if s == "B"@ {
        Some(Team::B)
    } else {
        None
    }
}

/// The display name of a player identity.
pub fn player_name_str(id: PlayerId) -> (s: &'static str)
    ensures
        s@ == spec_player_name(id),
{
    match id {
        PlayerId::RGk => "R_GK",
        PlayerId::RLd => "R_LD",
        PlayerId::RRd => "R_RD",
        PlayerId::RMf => "R_MF",
        PlayerId::RLf => "R_LF",
        PlayerId::RRf => "R_RF",
        PlayerId::BGk => "B_GK",
        PlayerId::BLd => "B_LD",
        PlayerId::BRd => "B_RD",
        PlayerId::BMf => "B_MF",
        PlayerId::BLf => "B_LF",
        PlayerId::BRf => "B_RF",
    }
}

/// The display tag of a team.
pub fn team_tag_str(team: Team) -> (s: &'static str)
    ensures
        s@ == spec_team_tag(team),
{
    match team {
        Team::R => "R",
        Team::B => "B",
    }
}

/// Resolve a name string against the roster.
pub fn parse_player_name(s: &String) -> (r: Option<PlayerId>)
    ensures
        r == spec_parse_player_name(s@),
{
    if *s == "R_GK".to_owned() {
        Some(PlayerId::RGk)
    } else if *s == "R_LD".to_owned() {
        Some(PlayerId::RLd)
    } else if *s == "R_RD".to_owned() {
        Some(PlayerId::RRd)
    } else if *s == "R_MF".to_owned() {
        Some(PlayerId::RMf)
    } else if *s == "R_LF".to_owned() {
        Some(PlayerId::RLf)
    } else if *s == "R_RF".to_owned() {
        Some(PlayerId::RRf)
    } else if *s == "B_GK".to_owned() {
        Some(PlayerId::BGk)
    } else if *s == "B_LD".to_owned() {
        Some(PlayerId::BLd)
    } else if *s == "B_RD".to_owned() {
        Some(PlayerId::BRd)
    } else if *s == "B_MF".to_owned() {
        Some(PlayerId::BMf)
    } else if *s == "B_LF".to_owned() {
        Some(PlayerId::BLf)
    } else if *s == "B_RF".to_owned() {
        Some(PlayerId::BRf)
    } else {
        None
    }
}

/// Resolve a tag string against the two teams.
pub fn parse_team_tag(s: &String) -> (r: Option<Team>)
    ensures
        r == spec_parse_team_tag(s@),
{
    if *s == "R".to_owned() {
        Some(Team::R)
    } else if *s == "B".to_owned() {
        Some(Team::B)
    } else {
        None
    }
}

/// Why a transition was rejected: a missing or unrecognized argument, or a
/// referenced player that does not resolve against the fixed roster (the
/// latter is defensive; with the closed roster no input produces it).
#[derive(Clone, Copy, Debug, PartialEq, Eq, Structural)]
pub enum ErrorKind {
    InvalidArgument,
    NotFound,
}

/// The running goal count of each team.
#[derive(Clone, Copy, Debug, PartialEq, Eq, Structural)]
pub struct GoalTally {
    pub b: u8,
    pub r: u8,
}

impl GoalTally {
    /// The count of the given team.
    pub open spec fn spec_of(self, team: Team) -> u8 {
        match team {
            Team::R => self.r,
            Team::B => self.b,
        }
    }

    pub fn of(self, team: Team) -> (n: u8)
        ensures
            n == self.spec_of(team),
    {
        match team {
            Team::R => self.r,
            Team::B => self.b,
        }
    }
}

/// The given team's tally raised by one goal.
pub open spec fn spec_bump(goals: GoalTally, team: Team) -> GoalTally {
    match team {
        Team::R => GoalTally { r: (goals.r + 1) as u8, b: goals.b },
        Team::B => GoalTally { r: goals.r, b: (goals.b + 1) as u8 },
    }
}

/// What one event of the log records: the essential facts of a state change.
#[derive(Clone, Copy, Debug, PartialEq, Eq, Structural)]
pub enum EventKind {
    /// A fresh game was set up.
    GameStart,
    /// `from` passed the ball cleanly to `to`.
    Pass { from: PlayerId, to: PlayerId },
    /// `from` tried to pass to `to`, but the opposing player `by` captured
    /// the ball in transit.
    Interception { from: PlayerId, to: PlayerId, by: PlayerId },
    /// `shooter` shot and scored; the running score after the goal.
    Goal { shooter: PlayerId, score_b: u8, score_r: u8 },
    /// `shooter` shot and failed to score; the unchanged running score.
    Miss { shooter: PlayerId, score_b: u8, score_r: u8 },
    /// The round budget is spent; the final score.
    GameEnd { score_b: u8, score_r: u8 },
}

/// One entry of the append-only event log. `minute` is the display label
/// derived from the round counter (rendered as "minute:00"), not a wall-clock
/// value.
#[derive(Clone, Copy, Debug, PartialEq, Eq, Structural)]
pub struct Event {
    pub minute: u8,
    pub kind: EventKind,
}

/// The aggregate root: the fixed player set, the goal tally, the current
/// possession, the append-only event log, and the round counter out of a
/// fixed budget of ten rounds.
#[derive(Debug)]
pub struct Game {
    pub players: Vec<Player>,
    pub goals: GoalTally,
    pub name_of_player_with_ball: PlayerId,
    pub events: Vec<Event>,
    pub round: u8,
    pub total_rounds: u8,
    /// Whether the terminal event has been appended already; guards the log
    /// against one duplicate per `has_ended` call once the budget is spent.
    pub end_event_logged: bool,
}

/// The canonical initial state: the fixed roster, a blank tally, the ball at
/// the B goalkeeper, a single start event, and round 1 of 10.
pub open spec fn spec_is_initial(g: Game) -> bool {
    &&& g.players@ == spec_roster()
    &&& g.goals == (GoalTally { b: 0, r: 0 })
    &&& g.name_of_player_with_ball == spec_keeper_of(Team::B)
    &&& g.events@ == seq![Event { minute: 0, kind: EventKind::GameStart }]
    &&& g.round == 1
    &&& g.total_rounds == 10
    &&& !g.end_event_logged
}

/// No opposing player stands at distance exactly 2 from either the passer or
/// the receiver, the only distance at which the interception chance is not
/// zero; such a pass can never be intercepted.
pub open spec fn spec_pass_is_safe(g: Game, target: PlayerId) -> bool {
    forall|j: int|
        0 <= j < g.players@.len() ==> {
            let p = #[trigger] g.players@[j];
            ||| p.team == spec_team_of(g.name_of_player_with_ball)
            ||| (spec_distance(spec_player(g.name_of_player_with_ball), p) != 2 && spec_distance(
                spec_player(target),
                p,
            ) != 2)
        }
}

/// How a successful pass transforms the game: the round advances by one,
/// exactly one event is appended recording either a clean pass to `target`
/// (possession moves to `target`) or an interception by an opposing player
/// standing at distance 2 from passer or receiver (possession moves to the
/// interceptor); everything else is unchanged. A pass with no opponent at
/// distance 2 is always clean.
pub open spec fn spec_pass_step(g0: Game, g1: Game, target: PlayerId) -> bool {
    &&& g1.players == g0.players
    &&& g1.goals == g0.goals
    &&& g1.total_rounds == g0.total_rounds
    &&& g1.end_event_logged == g0.end_event_logged
    &&& g1.round == g0.round + 1
    &&& g1.events@.len() == g0.events@.len() + 1
    &&& g1.events@ == g0.events@.push(g1.events@.last())
    &&& g1.events@.last().minute == g0.round
    &&& match g1.events@.last().kind {
        EventKind::Pass { from, to } => {
            &&& from == g0.name_of_player_with_ball
            &&& to == target
            &&& g1.name_of_player_with_ball == target
        },
        EventKind::Interception { from, to, by } => {
            &&& from == g0.name_of_player_with_ball
            &&& to == target
            &&& g1.name_of_player_with_ball == by
            &&& spec_team_of(by) != spec_team_of(g0.name_of_player_with_ball)
            &&& (spec_distance(spec_player(g0.name_of_player_with_ball), spec_player(by)) == 2
                || spec_distance(spec_player(target), spec_player(by)) == 2)
        },
        _ => false,
    }
    &&& (spec_pass_is_safe(g0, target) ==> g1.events@.last().kind matches EventKind::Pass { .. })
}

/// How a shot at `team`'s goal transforms the game: the round advances by
/// one, possession resets to `team`'s goalkeeper, and exactly one event is
/// appended: either a goal, raising the opposing team's tally by one, or a
/// miss, leaving the tally unchanged; both record the running score after the
/// shot. A shooter overlapping the keeper (distance 0) always scores.
pub open spec fn spec_shoot_step(g0: Game, g1: Game, team: Team) -> bool {
    &&& g1.players == g0.players
    &&& g1.total_rounds == g0.total_rounds
    &&& g1.end_event_logged == g0.end_event_logged
    &&& g1.round == g0.round + 1
    &&& g1.name_of_player_with_ball == spec_keeper_of(team)
    &&& g1.events@.len() == g0.events@.len() + 1
    &&& g1.events@ == g0.events@.push(g1.events@.last())
    &&& g1.events@.last().minute == g0.round
    &&& match g1.events@.last().kind {
        EventKind::Goal { shooter, score_b, score_r } => {
            &&& shooter == g0.name_of_player_with_ball
            &&& g1.goals == spec_bump(g0.goals, spec_opponent_of(team))
            &&& score_b == g1.goals.b
            &&& score_r == g1.goals.r
        },
        EventKind::Miss { shooter, score_b, score_r } => {
            &&& shooter == g0.name_of_player_with_ball
            &&& g1.goals == g0.goals
            &&& score_b == g1.goals.b
            &&& score_r == g1.goals.r
        },
        _ => false,
    }
    &&& (spec_distance(
        spec_player(g0.name_of_player_with_ball),
        spec_player(spec_keeper_of(team)),
    ) == 0 ==> g1.events@.last().kind matches EventKind::Goal { .. })
}

/// How observing the end of the game transforms it: the terminal event with
/// the final score is appended once and the guard flag is set; everything
/// else is unchanged.
pub open spec fn spec_end_step(g0: Game, g1: Game) -> bool {
    &&& g1.players == g0.players
    &&& g1.goals == g0.goals
    &&& g1.name_of_player_with_ball == g0.name_of_player_with_ball
    &&& g1.round == g0.round
    &&& g1.total_rounds == g0.total_rounds
    &&& g1.end_event_logged
    &&& g1.events@ == g0.events@.push(
        Event {
            minute: (g0.round - 1) as u8,
            kind: EventKind::GameEnd { score_b: g0.goals.b, score_r: g0.goals.r },
        },
    )
}

impl Game {
    /// The aggregate's invariant: the player set is exactly the fixed roster
    /// in its canonical order, the round budget is the fixed ten, and the
    /// round counter starts no lower than one.
    pub open spec fn wf(self) -> bool {
        &&& self.players@ == spec_roster()
        &&& self.total_rounds == 10
        &&& self.round >= 1
    }

    /// Construct the canonical initial state. Deterministic: no randomness is
    /// drawn here.
    pub fn new() -> (g: Game)
        ensures
            g.wf(),
            spec_is_initial(g),
    {
        let mut players: Vec<Player> = Vec::new();
        // Red team
        players.push(Player::parse(PlayerId::RGk, Team::R, 1, 0));
        players.push(Player::parse(PlayerId::RRd, Team::R, 0, 1));
        players.push(Player::parse(PlayerId::RLd, Team::R, 2, 1));
        players.push(Player::parse(PlayerId::RMf, Team::R, 1, 3));
        players.push(Player::parse(PlayerId::RRf, Team::R, 0, 5));
        players.push(Player::parse(PlayerId::RLf, Team::R, 2, 5));
        // Blue team
        players.push(Player::parse(PlayerId::BGk, Team::B, 1, 7));
        players.push(Player::parse(PlayerId::BLd, Team::B, 0, 6));
        players.push(Player::parse(PlayerId::BRd, Team::B, 2, 6));
        players.push(Player::parse(PlayerId::BMf, Team::B, 1, 4));
        players.push(Player::parse(PlayerId::BLf, Team::B, 0, 2));
        players.push(Player::parse(PlayerId::BRf, Team::B, 2, 2));

        let mut events: Vec<Event> = Vec::new();
        events.push(Game::create_event(0, EventKind::GameStart));

        let g = Game {
            players,
            goals: GoalTally { b: 0, r: 0 },
            name_of_player_with_ball: PlayerId::BGk,
            events,
            round: 1,
            total_rounds: 10,
            end_event_logged: false,
        };
        proof {
            assert(g.players@ =~= spec_roster());
            assert(g.events@ =~= seq![Event { minute: 0, kind: EventKind::GameStart }]);
        }
        g
    }

    /// Build one log entry.
    fn create_event(minute: u8, kind: EventKind) -> (e: Event)
        ensures
            e == (Event { minute, kind }),
    {
        Event { minute, kind }
    }

    /// The roster record of a player identity, looked up in the player set.
    pub(crate) fn find_player(&self, id: PlayerId) -> (p: Player)
        requires
            self.wf(),
        ensures
            p == spec_player(id),
    {
        let mut i: usize = 0;
        while i < self.players.len()
            invariant
                self.wf(),
                i <= self.players@.len(),
                forall|j: int| 0 <= j < i ==> (#[trigger] self.players@[j]).name != id,
            decreases self.players@.len() - i,
        {
            if self.players[i].name == id {
                return self.players[i];
            }
            i += 1;
        }
        proof {
            assert(self.players@[spec_roster_index(id)].name == id);
            assert(false);
        }
        self.players[0]
    }

    /// The team of the player currently in possession.
    pub fn which_team_has_ball(&self) -> (t: Option<Team>)
        requires
            self.wf(),
        ensures
            t == Some(spec_team_of(self.name_of_player_with_ball)),
    {
        let p = self.find_player(self.name_of_player_with_ball);
        Some(p.team)
    }

    /// Try to pass the ball from the current holder to the named target.
    ///
    /// With no target given, the call fails with `InvalidArgument` and the
    /// state is left completely unchanged. Otherwise every opposing player
    /// rolls an interception chance against its distance to the passer and to
    /// the receiver; among the players whose roll succeeds, the last one in
    /// roster order captures the ball, else possession transfers cleanly.
    /// Either way the round advances by one and exactly one event is
    /// appended.
    pub fn pass_ball_to(&mut self, player: &Option<String>) -> (r: Result<(), ErrorKind>)
        requires
            old(self).wf(),
            old(self).round < u8::MAX,
        ensures
            final(self).wf(),
            match r {
                Result::Ok(u) => {
                    &&& *player matches Some(s)
                    &&& spec_parse_player_name(player->Some_0@) matches Some(t)
                    &&& spec_pass_step(*old(self), *final(self), t)
                },
                Result::Err(e) => {
                    &&& *final(self) == *old(self)
                    &&& match e {
                        ErrorKind::InvalidArgument => *player matches None,
                        ErrorKind::NotFound => *player matches Some(s) && spec_parse_player_name(
                            s@,
                        ) matches None,
                    }
                },
            },
    {
        let receiving_player_name = match player {
            Some(p) => match parse_player_name(p) {
                Some(id) => id,
                None => {
                    return Err(ErrorKind::NotFound);
                },
            },
            None => {
                return Err(ErrorKind::InvalidArgument);
            },
        };

        let passing_player = self.find_player(self.name_of_player_with_ball);
        let receiving_player = self.find_player(receiving_player_name);

        let mut interrupting_player: Option<PlayerId> = None;
        let mut i: usize = 0;
        while i < self.players.len()
            invariant
                self.wf(),
                *self == *old(self),
                passing_player == spec_player(self.name_of_player_with_ball),
                receiving_player == spec_player(receiving_player_name),
                i <= self.players@.len(),
                match interrupting_player {
                    Some(q) => {
                        &&& spec_team_of(q) != spec_team_of(self.name_of_player_with_ball)
                        &&& (spec_distance(spec_player(self.name_of_player_with_ball), spec_player(q))
                            == 2 || spec_distance(
                            spec_player(receiving_player_name),
                            spec_player(q),
                        ) == 2)
                    },
                    None => true,
                },
                spec_pass_is_safe(*self, receiving_player_name) ==> interrupting_player matches None,
            decreases self.players@.len() - i,
        {
            let p = self.players[i];
            proof {
                assert(p == spec_player(spec_roster_id(i as int)));
            }
            if passing_player.team != p.team {
                let distance_to_passing_player = distance_between_players(&passing_player, &p);
                let distance_to_receiving_player = distance_between_players(&receiving_player, &p);

                if is_pass_interrupted(distance_to_passing_player) || is_pass_interrupted(
                    distance_to_receiving_player,
                ) {
                    interrupting_player = Some(p.name);
                }
            }
            i += 1;
        }

        let minute = self.round;
        match interrupting_player {
            Some(p) => {
                self.events.push(
                    Game::create_event(
                        minute,
                        EventKind::Interception {
                            from: self.name_of_player_with_ball,
                            to: receiving_player_name,
                            by: p,
                        },
                    ),
                );
                self.name_of_player_with_ball = p;
            },
            None => {
                self.events.push(
                    Game::create_event(
                        minute,
                        EventKind::Pass {
                            from: self.name_of_player_with_ball,
                            to: receiving_player_name,
                        },
                    ),
                );
                self.name_of_player_with_ball = receiving_player_name;
            },
        }

        self.round = self.round + 1;
        Ok(())
    }

    /// Try to shoot at the named team's goal.
    ///
    /// With no team given, the call fails with `InvalidArgument` and the
    /// state is left completely unchanged. Otherwise the shot rolls against
    /// the distance from the shooter to that team's goalkeeper; a goal raises
    /// the opposing team's tally by one. Either way possession resets to that
    /// team's goalkeeper, the round advances by one, and exactly one event is
    /// appended.
    pub fn shoot_ball_to(&mut self, team_goal: &Option<String>) -> (r: Result<(), ErrorKind>)
        requires
            old(self).wf(),
            old(self).round < u8::MAX,
            old(self).goals.b < u8::MAX,
            old(self).goals.r < u8::MAX,
        ensures
            final(self).wf(),
            match r {
                Result::Ok(u) => {
                    &&& *team_goal matches Some(s)
                    &&& spec_parse_team_tag(team_goal->Some_0@) matches Some(t)
                    &&& spec_shoot_step(*old(self), *final(self), t)
                },
                Result::Err(e) => {
                    &&& e == ErrorKind::InvalidArgument
                    &&& *final(self) == *old(self)
                    &&& match *team_goal {
                        Option::None => true,
                        Option::Some(s) => spec_parse_team_tag(s@) matches None,
                    }
                },
            },
    {
        let team_name = match team_goal {
            Some(t) => match parse_team_tag(t) {
                Some(team) => team,
                None => {
                    return Err(ErrorKind::InvalidArgument);
                },
            },
            None => {
                return Err(ErrorKind::InvalidArgument);
            },
        };

        let shooting_player = self.find_player(self.name_of_player_with_ball);
        let goalkeeper_name = keeper_of(team_name);
        let goalkeeper = self.find_player(goalkeeper_name);
        let shooter = self.name_of_player_with_ball;
        let minute = self.round;

        let distance = distance_between_players(&shooting_player, &goalkeeper);
        if does_shot_get_to_goal(distance) {
            match team_name {
                Team::R => {
                    self.goals.b = self.goals.b + 1;
                },
                Team::B => {
                    self.goals.r = self.goals.r + 1;
                },
            }
            self.events.push(
                Game::create_event(
                    minute,
                    EventKind::Goal { shooter, score_b: self.goals.b, score_r: self.goals.r },
                ),
            );
        } else {
            self.events.push(
                Game::create_event(
                    minute,
                    EventKind::Miss { shooter, score_b: self.goals.b, score_r: self.goals.r },
                ),
            );
        }

        self.name_of_player_with_ball = keeper_of(team_name);
        self.round = self.round + 1;
        Ok(())
    }

    /// Whether the round budget is spent (the round counter has passed the
    /// total). The first time this is observed true, one terminal event with
    /// the final score is appended; later observations change nothing.
    pub fn has_ended(&mut self) -> (b: bool)
        requires
            old(self).wf(),
        ensures
            final(self).wf(),
            b == (old(self).round > old(self).total_rounds),
            !b ==> *final(self) == *old(self),
            b && old(self).end_event_logged ==> *final(self) == *old(self),
            b && !old(self).end_event_logged ==> spec_end_step(*old(self), *final(self)),
    {
        if self.round <= self.total_rounds {
            return false;
        }
        if self.end_event_logged {
            return true;
        }

        let minute = self.round - 1;
        self.events.push(
            Game::create_event(
                minute,
                EventKind::GameEnd { score_b: self.goals.b, score_r: self.goals.r },
            ),
        );
        self.end_event_logged = true;
        true
    }
}

/// Law: setting up a new game is deterministic — any two games in the
/// canonical initial state agree on every observable part: player set, goal
/// tally, possession, event log, round counter, and round budget.
pub proof fn lemma_new_game_deterministic(g1: Game, g2: Game)
    requires
        spec_is_initial(g1),
        spec_is_initial(g2),
    ensures
        g1.players@ == g2.players@,
        g1.goals == g2.goals,
        g1.name_of_player_with_ball == g2.name_of_player_with_ball,
        g1.events@ == g2.events@,
        g1.round == g2.round,
        g1.total_rounds == g2.total_rounds,
        g1.end_event_logged == g2.end_event_logged,
{
}

} // verus!
