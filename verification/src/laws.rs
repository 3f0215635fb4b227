//! What holds of the game whatever the rolls: the laws the rules obey.

use crate::dice::bounded;
use crate::entity_components::enemy::enemy_catalog;
use crate::entity_components::entity::{
    lemma_after_effects_frame, lemma_ticked_frame, still_running, CombatantView,
};
use crate::entity_components::moves::{MoveType, MoveView};
use crate::entity_components::player::{LevelUpType, PlayerView, XP_TO_LEVEL_UP};
use crate::entity_components::stats::{lemma_damage_taken_at_most, StatsView, DEFENSE_AMOUNT};
use crate::entity_components::status::StatusView;
use crate::game::{
    lemma_catalog_moves_fit, lemma_enemy_turn_wf, lemma_entities_checked_wf,
    lemma_entity_check_wf, lemma_next_enemy_fresh, lemma_opening_wf,
    lemma_picked_from_catalog_ready, lemma_turn_ended_wf, picked, CheckRolls, GameView, KeyInput,
    StepRolls,
};
use crate::text::{enemy_died_line, enemy_tick_ending, player_tick_ending, xp_drop_line};
use vstd::prelude::*;

verus! {

/// A blow never raises the health, never takes it below 0, and leaves
/// health and mana within their maxima if they were.
pub proof fn lemma_damage_keeps_limits(body: CombatantView, amount: nat)
    ensures
        body.damaged(amount).health <= body.health,
        body.damaged(amount).health >= body.health - amount,
        body.damaged(amount).mana == body.mana,
        body.within_limits() ==> body.damaged(amount).within_limits(),
{
    lemma_damage_taken_at_most(body.stats, amount);
}

/// Spending mana never raises it, never takes it below 0, and leaves health
/// and mana within their maxima if they were.
pub proof fn lemma_mana_use_keeps_limits(body: CombatantView, amount: nat)
    ensures
        body.drained(amount).mana <= body.mana,
        body.drained(amount).mana == if amount > body.mana {
            0
        } else {
            body.mana - amount
        },
        body.drained(amount).health == body.health,
        body.within_limits() ==> body.drained(amount).within_limits(),
{
}

/// Healing keeps the health within its maximum exactly when the amount
/// fits into the room there was.
pub proof fn lemma_heal_keeps_limits(body: CombatantView, amount: nat)
    requires
        body.within_limits(),
        body.health + amount <= body.max_health,
    ensures
        body.healed(amount).within_limits(),
{
}

/// Whatever a turn's end does to a body, health and mana stay within their
/// maxima if they were: a healing status never fills the health beyond it.
pub proof fn lemma_tick_keeps_limits(body: CombatantView, rolls: Seq<u32>)
    requires
        body.wf(),
        body.within_limits(),
    ensures
        body.ticked(rolls).within_limits(),
{
    lemma_ticked_frame(body, rolls);
}

/// A body is created with health and mana at their maxima, and a level-up
/// puts them there again.
pub proof fn lemma_fresh_and_restored_within_limits(
    name: Seq<char>,
    stats: StatsView,
    level: nat,
    has_gone: bool,
    body: CombatantView,
)
    ensures
        CombatantView::fresh(name, stats, level, has_gone).within_limits(),
        body.restored(stats).within_limits(),
{
}

/// Being attacked or put under a spell, casting and defending all leave
/// health and mana within their maxima if they were.
pub proof fn lemma_moves_keep_limits(
    body: CombatantView,
    other: CombatantView,
    the_move: MoveView,
    amount_roll: nat,
    chance_roll: nat,
)
    requires
        body.within_limits(),
    ensures
        body.struck(other, amount_roll).within_limits(),
        body.spellbound(other, the_move, amount_roll, chance_roll).within_limits(),
        body.after_cast(the_move).within_limits(),
        body.on_guard().gone().within_limits(),
        body.off_guard().rested().within_limits(),
{
}

/// Both fighters have health and mana within their maxima.
pub open spec fn all_within_limits(game: GameView) -> bool {
    &&& game.player.body.within_limits()
    &&& game.enemy.body.within_limits()
}

proof fn lemma_checked_keeps_limits(game: GameView, pick: nat)
    requires
        game.wf(),
        all_within_limits(game),
    ensures
        all_within_limits(game.entities_checked(pick)),
{
    if !game.player.body.is_dead() && game.enemy.body.is_dead() {
        lemma_next_enemy_fresh(game, pick);
    }
}

proof fn lemma_entity_check_keeps_limits(game: GameView, rolls: CheckRolls)
    requires
        game.wf(),
        all_within_limits(game),
    ensures
        all_within_limits(game.entity_check(rolls)),
{
    let pick = rolls.pick as nat;
    let checked = game.entities_checked(pick);
    lemma_checked_keeps_limits(game, pick);
    lemma_entities_checked_wf(game, pick);
    if game.turn_is_over() {
        let ended = checked.turn_ended(rolls.player@, rolls.enemy@);
        lemma_ticked_frame(checked.player.body.off_guard(), rolls.player@);
        lemma_ticked_frame(checked.enemy.body.off_guard(), rolls.enemy@);
        lemma_turn_ended_wf(checked, rolls.player@, rolls.enemy@);
        lemma_checked_keeps_limits(ended, pick);
    }
}

/// In a well-formed game, no key and no rolls take health or mana of
/// anyone beyond the maximum.
pub proof fn lemma_key_keeps_limits(game: GameView, key: KeyInput, amount_roll: nat, chance_roll: nat)
    requires
        game.wf(),
        all_within_limits(game),
    ensures
        all_within_limits(game.key_handled(key, amount_roll, chance_roll)),
{
}

/// In a well-formed game, moving on by one event takes health or mana of
/// no one beyond the maximum, whatever the rolls.
pub proof fn lemma_advance_keeps_limits(game: GameView, rolls: StepRolls)
    requires
        game.wf(),
        all_within_limits(game),
    ensures
        all_within_limits(game.advanced(rolls)),
{
    if game.is_playing {
        let first = game.entity_check(rolls.before);
        lemma_entity_check_keeps_limits(game, rolls.before);
        lemma_entity_check_wf(game, rolls.before);
        let acted = first.enemy_turn(rolls.queue@, rolls.amount as nat, rolls.chance as nat);
        lemma_enemy_turn_wf(
            first,
            rolls.queue@,
            rolls.amount as nat,
            rolls.chance as nat,
        );
        lemma_entity_check_keeps_limits(acted, rolls.after);
    }
}

/// Starting to defend twice is starting once, and so is stopping: the
/// bonus is added once and taken away once.
pub proof fn lemma_defending_is_idempotent(stats: StatsView)
    requires
        stats.wf(),
    ensures
        stats.defending().defending() == stats.defending(),
        stats.at_ease().at_ease() == stats.at_ease(),
        !stats.is_defending ==> stats.defending().defense == stats.defense + DEFENSE_AMOUNT,
        stats.is_defending ==> stats.at_ease().defense == stats.defense - DEFENSE_AMOUNT,
        !stats.is_defending ==> stats.defending().at_ease() == stats,
        stats.defending().wf(),
        stats.at_ease().wf(),
{
}

/// Once the player has carried out a turn, of whatever kind, no second turn
/// is carried out before the end of the turn lets it move again.
pub proof fn lemma_player_acts_once(
    game: GameView,
    first: MoveType,
    second: MoveType,
    amount_roll: nat,
    chance_roll: nat,
    second_amount_roll: nat,
    second_chance_roll: nat,
)
    requires
        game.player_turn_succeeds(first),
    ensures
        game.player_turn(first, amount_roll, chance_roll).player.body.has_gone,
        !game.player_turn(first, amount_roll, chance_roll).player_turn_succeeds(second),
        game.player_turn(first, amount_roll, chance_roll).player_turn(
            second,
            second_amount_roll,
            second_chance_roll,
        ) == game.player_turn(first, amount_roll, chance_roll),
{
}

/// An enemy that has had its turn does nothing when given another chance
/// before the end of the turn, and an enemy that acts has had its turn.
pub proof fn lemma_enemy_acts_once(
    game: GameView,
    queue_rolls: Seq<u32>,
    amount_roll: nat,
    chance_roll: nat,
)
    ensures
        game.enemy.body.has_gone ==> game.enemy_turn(queue_rolls, amount_roll, chance_roll)
            == game,
        game.enemy_turn(queue_rolls, amount_roll, chance_roll).player != game.player
            ==> game.enemy_turn(queue_rolls, amount_roll, chance_roll).enemy.body.has_gone,
{
}

/// Between two ends of turn nothing lets a fighter move again that has had
/// its turn: not a key, not the other's move, not a look for the dead that
/// finds both alive.
pub proof fn lemma_turn_flag_lasts(
    game: GameView,
    key: KeyInput,
    kind: MoveType,
    queue_rolls: Seq<u32>,
    amount_roll: nat,
    chance_roll: nat,
    pick: nat,
)
    ensures
        game.player.body.has_gone ==> {
            &&& game.key_handled(key, amount_roll, chance_roll).player.body.has_gone
            &&& game.enemy_turn(queue_rolls, amount_roll, chance_roll).player.body.has_gone
            &&& game.entities_checked(pick).player.body.has_gone
        },
        game.enemy.body.has_gone ==> {
            &&& game.key_handled(key, amount_roll, chance_roll).enemy.body.has_gone
            &&& game.player_turn(kind, amount_roll, chance_roll).enemy.body.has_gone
            &&& !game.someone_died() ==> game.entities_checked(pick).enemy.body.has_gone
        },
{
}

/// A physical attack marks the attacker as gone and touches nothing else of
/// it; it never raises the target's health and touches nothing of the
/// target but its health. An attacker marked as gone is turned down until
/// it is let move again.
pub proof fn lemma_attack_is_once(attacker: CombatantView, target: CombatantView, roll: nat)
    ensures
        attacker.gone().has_gone,
        attacker.gone() == (CombatantView { has_gone: true, ..attacker }),
        target.struck(attacker, roll).health <= target.health,
        target.struck(attacker, roll) == (CombatantView {
            health: target.struck(attacker, roll).health,
            ..target
        }),
        target.blow(attacker, roll) <= attacker.stats.attack_damage(roll),
        !attacker.gone().rested().has_gone,
{
    lemma_damage_taken_at_most(target.stats, attacker.stats.attack_damage(roll));
}

/// A combatant that has had its turn can neither attack, cast nor defend
/// again: each of the three says so by `has_gone`, which each of them sets.
pub proof fn lemma_turn_is_marked(body: CombatantView, the_move: MoveView)
    ensures
        body.gone().has_gone,
        body.after_cast(the_move).has_gone,
        body.on_guard().gone().has_gone,
        body.has_gone ==> !body.can_cast(the_move),
        !body.rested().has_gone,
{
}

/// The end of a turn lets both fighters move again.
pub proof fn lemma_turn_end_frees_both(game: GameView, player_rolls: Seq<u32>, enemy_rolls: Seq<u32>)
    ensures
        !game.turn_ended(player_rolls, enemy_rolls).player.body.has_gone,
        !game.turn_ended(player_rolls, enemy_rolls).enemy.body.has_gone,
{
}

/// The statuses with one turn less each.
pub open spec fn each_ticked(statuses: Seq<StatusView>) -> Seq<StatusView> {
    Seq::new(statuses.len(), |i: int| statuses[i].ticked())
}

/// What is left of a list of statuses after that many ends of turn.
pub open spec fn worn(statuses: Seq<StatusView>, turns: nat) -> Seq<StatusView>
    decreases turns,
{
    if turns == 0 {
        statuses
    } else {
        still_running(each_ticked(worn(statuses, (turns - 1) as nat)))
    }
}

/// At the end of a turn every status loses exactly one turn, whatever the
/// rolls and whatever happens to the health, and exactly those that are
/// left without a turn are removed.
pub proof fn lemma_tick_wears_statuses(body: CombatantView, rolls: Seq<u32>)
    ensures
        body.ticked(rolls).statuses == still_running(each_ticked(body.statuses)),
{
    lemma_after_effects_frame(body, rolls, body.statuses.len());
    assert(body.after_effects(rolls, body.statuses.len()).statuses =~= each_ticked(
        body.statuses,
    ));
}

/// A status with `n` turns is there, with one turn less each time, for the
/// first `n - 1` ends of turn, and is removed by the `n`th: it acts exactly
/// `n` times.
pub proof fn lemma_status_runs_its_turns(status: StatusView, ends: nat)
    requires
        status.turns >= 1,
    ensures
        ends < status.turns ==> worn(seq![status], ends) == seq![
            StatusView { turns: (status.turns - ends) as nat, ..status },
        ],
        ends >= status.turns ==> worn(seq![status], ends) == Seq::<StatusView>::empty(),
    decreases ends,
{
    if ends > 0 {
        lemma_status_runs_its_turns(status, (ends - 1) as nat);
        let before = worn(seq![status], (ends - 1) as nat);
        if ends - 1 < status.turns {
            let ticked = each_ticked(before);
            assert(still_running(ticked.drop_last()) =~= Seq::<StatusView>::empty());
        }
    }
}

/// A status that lands is the move's pattern with the caster's magic
/// strength of that moment captured in it, and what it does in a turn is
/// computed from the pattern, that strength and the roll alone: whatever
/// becomes of the caster afterwards plays no part.
pub proof fn lemma_status_amount_is_captured(
    the_move: MoveView,
    caster: CombatantView,
    target: CombatantView,
    amount_roll: nat,
    chance_roll: nat,
    roll: nat,
)
    requires
        the_move.status_lands(chance_roll),
    ensures
        ({
            let after = target.spellbound(caster, the_move, amount_roll, chance_roll);
            let pattern = the_move.status.unwrap();
            &&& after.statuses.len() == target.statuses.len() + 1
            &&& after.statuses.last() == pattern.cast_with(caster.stats.magic_strength)
            &&& after.statuses.last().amount(roll) == caster.stats.magic_strength
                + pattern.base_amount + bounded(
                roll,
                caster.stats.magic_strength + pattern.base_amount / 2,
            )
        }),
{
}

/// Experience is never lost: what came in is what is left over plus a
/// hundred for every level filled. The signal is given exactly when at
/// least one level was filled, and what is left over is less than a level.
pub proof fn lemma_xp_carries_over(player: PlayerView, amount: nat)
    ensures
        player.xp + amount == player.xp_after(amount) + XP_TO_LEVEL_UP * player.levels_filled(
            amount,
        ),
        player.xp_after(amount) < XP_TO_LEVEL_UP,
        player.levels_with(amount) <==> player.levels_filled(amount) >= 1,
        player.with_xp_gained(amount).body == player.body,
{
    let sum = player.xp + amount;
    assert(sum == 100 * (sum / 100) + sum % 100) by (nonlinear_arith);
    assert((sum >= 100) <==> (sum / 100 >= 1)) by (nonlinear_arith);
}

/// Gaining experience does not level the player up: level and stats stay
/// as they are until a stat is chosen, and then exactly one level and one
/// point are gained.
pub proof fn lemma_level_up_waits_for_choice(player: PlayerView, amount: nat, choice: LevelUpType)
    ensures
        player.with_xp_gained(amount).body.level == player.body.level,
        player.with_xp_gained(amount).body.stats == player.body.stats,
        player.leveled(choice).body.level == player.body.level + 1,
        player.leveled(choice).xp == player.xp,
        player.leveled(choice).body.health == player.leveled(choice).body.max_health,
        player.leveled(choice).body.mana == player.leveled(choice).body.max_mana,
{
}

/// A dead enemy does not act, and a game that is over lets no one act.
pub proof fn lemma_the_dead_do_not_act(
    game: GameView,
    kind: MoveType,
    queue_rolls: Seq<u32>,
    amount_roll: nat,
    chance_roll: nat,
)
    ensures
        game.enemy.body.is_dead() ==> game.enemy_turn(queue_rolls, amount_roll, chance_roll)
            == game,
        !game.is_playing ==> game.enemy_turn(queue_rolls, amount_roll, chance_roll) == game,
        !game.is_playing ==> game.player_turn(kind, amount_roll, chance_roll) == game,
{
}

/// A look for the dead that finds the player dead ends the game. One that
/// finds the enemy dead, and the player alive, gives the player the
/// experience the enemy drops, once, and puts a fresh enemy of the catalog
/// in its place, within two levels of the player. In no case does the
/// catalog change.
pub proof fn lemma_death_is_resolved(game: GameView, pick: nat)
    requires
        game.wf(),
    ensures
        game.entities_checked(pick).enemies == game.enemies,
        game.player.body.is_dead() ==> !game.entities_checked(pick).is_playing,
        !game.player.body.is_dead() && game.enemy.body.is_dead() ==> {
            &&& game.entities_checked(pick).player == game.player.with_xp_gained(
                game.enemy.xp_drop(game.player.body.level),
            )
            &&& game.enemies.contains(game.entities_checked(pick).enemy)
            &&& game.entities_checked(pick).enemy.body.is_fresh()
            &&& game.entities_checked(pick).enemy.body.level <= game.player.body.level + 2
        },
{
    if !game.player.body.is_dead() && game.enemy.body.is_dead() {
        lemma_next_enemy_fresh(game, pick);
    }
}

/// The end of a turn leaves a fresh body as it is, and reports nothing
/// about it.
pub proof fn lemma_fresh_rests(body: CombatantView, rolls: Seq<u32>, ending: Seq<char>)
    requires
        body.is_fresh(),
    ensures
        body.off_guard().ticked(rolls).rested() == body,
        body.off_guard().tick_lines(rolls, ending) == Seq::<Seq<char>>::empty(),
{
    assert(still_running(body.statuses) =~= body.statuses);
}

/// When the enemy has been killed and the player lives, the look after the
/// state of the fight ends the turn at once. The player gets the experience
/// and goes through the end of its turn; a fresh enemy of the catalog
/// stands in the dead one's place; both may move and neither defends. The
/// log gains the two lines about the death and the lines of the player's
/// statuses, and nothing else: the dead enemy has made no move.
pub proof fn lemma_kill_ends_the_turn(game: GameView, rolls: CheckRolls)
    requires
        game.wf(),
        !game.player.body.is_dead(),
        game.enemy.body.is_dead(),
    ensures
        ({
            let after = game.entity_check(rolls);
            let drop = game.enemy.xp_drop(game.player.body.level);
            let body = game.player.body.off_guard();
            &&& after.enemy == game.next_enemy(rolls.pick as nat)
            &&& after.enemy.body.is_fresh()
            &&& after.player == game.player.with_xp_gained(drop).with_body(
                body.ticked(rolls.player@).rested(),
            )
            &&& after.log == game.log.push(enemy_died_line()).push(
                xp_drop_line(game.enemy.body.name, drop),
            ) + body.tick_lines(rolls.player@, player_tick_ending())
            &&& !after.player.body.has_gone
            &&& !after.enemy.body.has_gone
            &&& !after.player.body.stats.is_defending
            &&& !after.enemy.body.stats.is_defending
            &&& !after.enemy.body.is_dead()
        }),
{
    let pick = rolls.pick as nat;
    let next = game.next_enemy(pick);
    let checked = game.entities_checked(pick);
    lemma_next_enemy_fresh(game, pick);
    lemma_fresh_rests(next.body, rolls.enemy@, enemy_tick_ending());
    lemma_ticked_frame(checked.player.body.off_guard(), rolls.player@);
    let ended = checked.turn_ended(rolls.player@, rolls.enemy@);
    assert(ended.enemy == next);
    assert(!ended.enemy.body.is_dead());
    assert(game.entity_check(rolls).player == ended.player);
    assert(game.entity_check(rolls).enemy == ended.enemy);
    assert(game.entity_check(rolls).log == ended.log);
    assert(ended.log =~= game.log.push(enemy_died_line()).push(
        xp_drop_line(game.enemy.body.name, game.enemy.xp_drop(game.player.body.level)),
    ) + game.player.body.off_guard().tick_lines(rolls.player@, player_tick_ending()));
}

/// After a look after the state of the fight, either the game is over or
/// both fighters are alive.
pub proof fn lemma_entity_check_leaves_no_dead(game: GameView, rolls: CheckRolls)
    requires
        game.wf(),
    ensures
        game.entity_check(rolls).is_playing ==> !game.entity_check(rolls).someone_died(),
{
    let pick = rolls.pick as nat;
    let checked = game.entities_checked(pick);
    lemma_entities_checked_wf(game, pick);
    if game.turn_is_over() {
        let ended = checked.turn_ended(rolls.player@, rolls.enemy@);
        lemma_turn_ended_wf(checked, rolls.player@, rolls.enemy@);
        if !ended.player.body.is_dead() && ended.enemy.body.is_dead() {
            lemma_next_enemy_fresh(ended, pick);
        }
    }
}

/// Once the game has moved on by one event, either it is over or both
/// fighters are alive: whoever died on the way was dealt with before the
/// next event, the enemy by a live one in its place.
pub proof fn lemma_advance_leaves_no_dead(game: GameView, rolls: StepRolls)
    requires
        game.wf(),
        game.is_playing,
    ensures
        game.advanced(rolls).is_playing ==> !game.advanced(rolls).someone_died(),
{
    let first = game.entity_check(rolls.before);
    lemma_entity_check_wf(game, rolls.before);
    let acted = first.enemy_turn(rolls.queue@, rolls.amount as nat, rolls.chance as nat);
    lemma_enemy_turn_wf(
        first,
        rolls.queue@,
        rolls.amount as nat,
        rolls.chance as nat,
    );
    lemma_entity_check_leaves_no_dead(acted, rolls.after);
}

/// A look after the state of the fight that finds the enemy alive and under
/// no status gives the player no experience.
pub proof fn lemma_no_kill_no_xp(game: GameView, rolls: CheckRolls)
    requires
        game.wf(),
        !game.enemy.body.is_dead(),
        game.enemy.body.statuses.len() == 0,
    ensures
        game.entity_check(rolls).player.xp == game.player.xp,
{
    let pick = rolls.pick as nat;
    let checked = game.entities_checked(pick);
    if game.turn_is_over() {
        let ended = checked.turn_ended(rolls.player@, rolls.enemy@);
        assert(checked.enemy == game.enemy);
        assert(ended.enemy.body.health == game.enemy.body.health);
    }
}

/// When a key has killed the enemy and the player lives, the game moves on
/// like this: the dead enemy gives way to a fresh one before any enemy gets
/// its turn, the player gets what the dead one drops exactly once, and
/// afterwards either the game is over or both fighters are alive.
pub proof fn lemma_kill_is_rewarded_once(game: GameView, rolls: StepRolls)
    requires
        game.wf(),
        game.is_playing,
        !game.player.body.is_dead(),
        game.enemy.body.is_dead(),
    ensures
        game.entity_check(rolls.before).enemy == game.next_enemy(rolls.before.pick as nat),
        game.entity_check(rolls.before).enemy.body.is_fresh(),
        game.advanced(rolls).player.xp == game.player.xp_after(
            game.enemy.xp_drop(game.player.body.level),
        ),
        game.advanced(rolls).is_playing ==> !game.advanced(rolls).someone_died(),
{
    let first = game.entity_check(rolls.before);
    lemma_kill_ends_the_turn(game, rolls.before);
    lemma_entity_check_wf(game, rolls.before);
    let acted = first.enemy_turn(rolls.queue@, rolls.amount as nat, rolls.chance as nat);
    lemma_enemy_turn_wf(first, rolls.queue@, rolls.amount as nat, rolls.chance as nat);
    assert(acted.player.xp == first.player.xp);
    assert(acted.enemy.body.health == first.enemy.body.health);
    assert(acted.enemy.body.statuses == first.enemy.body.statuses);
    lemma_no_kill_no_xp(acted, rolls.after);
    lemma_advance_leaves_no_dead(game, rolls);
}

/// The game that starts from the starting player and any enemy picked from
/// the built-in catalog is well formed.
pub proof fn lemma_default_opening_wf(pick: nat)
    ensures
        GameView::opening(
            PlayerView::starting(),
            picked(enemy_catalog(), PlayerView::starting().body.level, pick),
        ).wf(),
{
    let level = PlayerView::starting().body.level;
    lemma_catalog_moves_fit(10);
    lemma_picked_from_catalog_ready(level, pick);
    lemma_opening_wf(PlayerView::starting(), picked(enemy_catalog(), level, pick));
}

/// Moving on by one event leaves a well-formed game well formed.
pub proof fn lemma_advanced_wf(game: GameView, rolls: StepRolls)
    requires
        game.wf(),
    ensures
        game.advanced(rolls).wf(),
{
    if game.is_playing {
        let first = game.entity_check(rolls.before);
        lemma_entity_check_wf(game, rolls.before);
        let acted = first.enemy_turn(rolls.queue@, rolls.amount as nat, rolls.chance as nat);
        lemma_enemy_turn_wf(first, rolls.queue@, rolls.amount as nat, rolls.chance as nat);
        lemma_entity_check_wf(acted, rolls.after);
    }
}

} // verus!
