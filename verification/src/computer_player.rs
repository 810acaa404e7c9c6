//! The scripted opponent's decision heuristic: advance the ball toward the
//! opposing goal while rounds remain, else shoot.

use vstd::prelude::*;
use crate::game_logic::Game;
use crate::game_logic::Player;
use crate::game_logic::PlayerId;
use crate::game_logic::Team;
use crate::game_logic::opponent_of;
use crate::game_logic::spec_opponent_of;
use crate::game_logic::spec_player;
use crate::game_logic::spec_team_of;
use crate::game_logic::team_of;
use crate::probability::draw_below;

verus! {

/// What the scripted team decides to do with its turn: the same command
/// shape a human player issues.
#[derive(Clone, Copy, Debug, PartialEq, Eq, Structural)]
pub enum TurnChoice {
    /// Pass the ball to the named teammate.
    Pass(PlayerId),
    /// Shoot at the named team's goal.
    Shoot(Team),
}

/// A teammate of the holder standing strictly closer to the goal the holder's
/// team attacks: larger y for team R, smaller y for team B.
pub open spec fn spec_is_forward_mate(holder: PlayerId, p: Player) -> bool {
    &&& p.team == spec_team_of(holder)
    &&& match p.team {
        Team::R => spec_player(holder).pos_y_axis < p.pos_y_axis,
        Team::B => p.pos_y_axis < spec_player(holder).pos_y_axis,
    }
}

/// Whether any player of the set is a forward teammate of the holder.
pub open spec fn spec_has_forward_mate(g: Game) -> bool {
    exists|j: int|
        0 <= j < g.players@.len() && spec_is_forward_mate(
            g.name_of_player_with_ball,
            #[trigger] g.players@[j],
        )
}

/// Decide the scripted team's turn: while rounds remain and a teammate
/// stands closer to the attacked goal than the holder, pass to one such
/// teammate, picked uniformly at random; otherwise shoot at the opposing
/// team's goal.
pub fn choose_action(game: &Game) -> (c: TurnChoice)
    requires
        game.wf(),
    ensures
        match c {
            TurnChoice::Pass(p) => spec_is_forward_mate(
                game.name_of_player_with_ball,
                spec_player(p),
            ),
            TurnChoice::Shoot(t) => t == spec_opponent_of(
                spec_team_of(game.name_of_player_with_ball),
            ),
        },
        c matches TurnChoice::Pass(p) <==> (game.round < game.total_rounds
            && spec_has_forward_mate(*game)),
{
    let player_with_ball = game.find_player(game.name_of_player_with_ball);

    let mut candidates: Vec<PlayerId> = Vec::new();
    let mut i: usize = 0;
    while i < game.players.len()
        invariant
            game.wf(),
            player_with_ball == spec_player(game.name_of_player_with_ball),
            i <= game.players@.len(),
            candidates@.len() <= i,
            forall|k: int|
                0 <= k < candidates@.len() ==> spec_is_forward_mate(
                    game.name_of_player_with_ball,
                    spec_player(#[trigger] candidates@[k]),
                ),
            candidates@.len() > 0 <==> (exists|j: int|
                0 <= j < i && spec_is_forward_mate(
                    game.name_of_player_with_ball,
                    #[trigger] game.players@[j],
                )),
        decreases game.players@.len() - i,
    {
        let p = game.players[i];
        if p.team == player_with_ball.team {
            let is_forward = match p.team {
                Team::R => player_with_ball.pos_y_axis < p.pos_y_axis,
                Team::B => p.pos_y_axis < player_with_ball.pos_y_axis,
            };
            if is_forward {
                proof {
                    assert(p == game.players@[i as int]);
                    assert(p == spec_player(p.name));
                }
                candidates.push(p.name);
            }
        }
        i += 1;
    }

    if candidates.len() > 0 && game.round < game.total_rounds {
        let pick = draw_below(candidates.len() as u32);
        TurnChoice::Pass(candidates[pick as usize])
    } else {
        TurnChoice::Shoot(opponent_of(team_of(game.name_of_player_with_ball)))
    }
}

} // verus!
