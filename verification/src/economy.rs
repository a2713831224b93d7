//! Health, money and rent: what a destroyed enemy pays, what a month's end
//! costs, when the match is over, and how long the notices of all that stay.

use vstd::prelude::*;
use crate::components::{
    fresh_once, reward_at, CurrentCard, CurrentHealth, DayText, DespawnTimer, Enemy, GameState,
    HPBar, MaxHealth, MoneyText, MonthTimer, Notice, NoticeKind, Player, FRACTION_SCALE,
    RENT_BONUS, RENT_INCREMENT, RENT_PENALTY, REWARD_NOTICE_TIME, SECOND, WARNING_NOTICE_TIME,
};
use crate::numeric::{clamp_i32, clamp_i64, saturate_i32, saturate_i64, scaled_ratio, signed_ratio};
use crate::sequences::{lemma_filter_next, lemma_filter_none, lemma_filter_push, lemma_take_all};
use crate::timer::{Timer, TimerMode};

verus! {

/// The part of the maximum that the current health is, in parts per million,
/// rounded toward zero; 0 where the maximum is 0.
pub open spec fn fraction_of(current: CurrentHealth, maximum: MaxHealth) -> int {
    clamp_i64(signed_ratio(current.0 * FRACTION_SCALE, maximum.0 as int))
}

/// The part of the maximum that the current health is, in parts per million.
pub fn health_fraction(current: CurrentHealth, maximum: MaxHealth) -> (fraction: i64)
    ensures
        fraction == fraction_of(current, maximum),
{
    scaled_ratio(current.0, 1_000_000, maximum.0)
}

/// Whether the match is over for a player of this health.
pub open spec fn is_over(health: CurrentHealth) -> bool {
    health.0 <= 0
}

/// The state of the match, given the state so far and the player's health:
/// over once the health is used up, and over for good.
pub open spec fn state_after(state: GameState, health: CurrentHealth) -> GameState {
    if is_over(health) {
        GameState::GameOver
    } else {
        state
    }
}

/// The state of the match, given the state so far and the player's health.
pub fn game_state(state: GameState, health: CurrentHealth) -> (next: GameState)
    ensures
        next == state_after(state, health),
{
    if health.0 <= 0 {
        GameState::GameOver
    } else {
        state
    }
}

/// A notice of the given kind that stays for `time` microseconds.
pub open spec fn notice_of(kind: NoticeKind, time: u64) -> Notice {
    Notice { kind, timer: DespawnTimer(fresh_once(time)) }
}

/// A notice of the given kind that stays for `time` microseconds.
pub fn new_notice(kind: NoticeKind, time: u64) -> (notice: Notice)
    ensures
        notice == notice_of(kind, time),
{
    Notice { kind, timer: DespawnTimer(Timer::new(time, TimerMode::Once)) }
}

pub open spec fn alive() -> spec_fn(Enemy) -> bool {
    |enemy: Enemy| enemy.health.0 > 0
}

pub open spec fn fallen() -> spec_fn(Enemy) -> bool {
    |enemy: Enemy| enemy.health.0 <= 0
}

/// How many of the enemies have no health left.
pub open spec fn fallen_count(enemies: Seq<Enemy>) -> nat {
    enemies.filter(fallen()).len()
}

/// The notice of the reward for one enemy at the given upgrade tier.
pub open spec fn reward_notice(card: CurrentCard) -> Notice {
    notice_of(NoticeKind::Reward(reward_at(card) as i32), REWARD_NOTICE_TIME)
}

/// `count` notices of the reward for one enemy.
pub open spec fn reward_notices(card: CurrentCard, count: nat) -> Seq<Notice> {
    Seq::new(count, |i: int| reward_notice(card))
}

/// The cash after `count` rewards of the given tier.
pub open spec fn cash_after_rewards(cash: i32, card: CurrentCard, count: nat) -> int {
    clamp_i32(cash + reward_at(card) * count)
}

/// Reacts to the health of the actors. The health bar shows the player's
/// health, where there is a player. Each enemy without health is removed, pays
/// the reward of the current upgrade tier into the cash, once, and leaves a
/// notice of it.
pub fn handle_health_change(
    player: &Option<Player>,
    hp_bar: &mut HPBar,
    enemies: &mut Vec<Enemy>,
    money: &mut MoneyText,
    card: &CurrentCard,
    notices: &mut Vec<Notice>,
)
    ensures
        *final(hp_bar) == (match *player {
            Some(p) => HPBar(fraction_of(p.health, p.max_health) as i64),
            None => *old(hp_bar),
        }),
        final(enemies)@ == old(enemies)@.filter(alive()),
        *final(money) == MoneyText(
            cash_after_rewards(old(money).0, *card, fallen_count(old(enemies)@)) as i32,
            old(money).1,
        ),
        final(notices)@ == old(notices)@ + reward_notices(*card, fallen_count(old(enemies)@)),
{
    match player {
        Some(p) => {
            hp_bar.0 = health_fraction(p.health, p.max_health);
        },
        None => {},
    }
    let reward = card.reward();
    let mut kept: Vec<Enemy> = Vec::new();
    let mut count: usize = 0;
    let mut i: usize = 0;
    proof {
        lemma_filter_none(enemies@, alive());
        lemma_filter_none(enemies@, fallen());
        assert(notices@ =~= old(notices)@ + reward_notices(*card, 0));
    }
    while i < enemies.len()
        invariant
            i <= enemies.len(),
            count <= i,
            reward == reward_at(*card),
            kept@ == enemies@.take(i as int).filter(alive()),
            count == fallen_count(enemies@.take(i as int)),
            notices@ == old(notices)@ + reward_notices(*card, count as nat),
        decreases enemies.len() - i,
    {
        let enemy = enemies[i];
        proof {
            lemma_filter_next(enemies@, alive(), i as int);
            lemma_filter_next(enemies@, fallen(), i as int);
        }
        if enemy.health.0 <= 0 {
            notices.push(new_notice(NoticeKind::Reward(reward), REWARD_NOTICE_TIME));
            proof {
                assert(notices@ =~= old(notices)@ + reward_notices(*card, (count + 1) as nat));
            }
            count += 1;
        } else {
            kept.push(enemy);
        }
        i += 1;
    }
    proof {
        lemma_take_all(enemies@);
    }
    assert(0 <= reward * count <= 150 * 0xFFFF_FFFF_FFFF_FFFF) by (nonlinear_arith)
        requires
            0 <= reward <= 150,
            0 <= count <= 0xFFFF_FFFF_FFFF_FFFF,
    ;
    money.0 = saturate_i32(money.0 as i128 + (reward as i128) * (count as i128));
    *enemies = kept;
}

/// The whole seconds a timer shows.
pub open spec fn whole_seconds(timer: Timer) -> int {
    timer.elapsed() as int / SECOND as int
}

/// The day a month's timer stands for: one day is two and a half seconds, and
/// only the whole seconds on the timer count.
pub open spec fn day_of(timer: Timer) -> int {
    whole_seconds(timer) * 2 / 5
}

/// Whether the cash does not cover the rent.
pub open spec fn is_short(money: MoneyText) -> bool {
    money.0 < money.1
}

/// The ledger after a month's end: the rent is paid if the cash covers it, and
/// rises by the increment either way.
pub open spec fn ledger_after_month(money: MoneyText) -> MoneyText {
    MoneyText(
        if is_short(money) {
            money.0
        } else {
            clamp_i32(money.0 - money.1) as i32
        },
        clamp_i32(money.1 + RENT_INCREMENT) as i32,
    )
}

/// The player's health after a month's end: less by the penalty if the rent
/// could not be paid, more by the bonus if it could.
pub open spec fn health_after_month(health: CurrentHealth, money: MoneyText) -> CurrentHealth {
    CurrentHealth(
        if is_short(money) {
            clamp_i64(health.0 - RENT_PENALTY) as i64
        } else {
            clamp_i64(health.0 + RENT_BONUS) as i64
        },
    )
}

/// The notices of a tick of the month: a warning if a month ended with the rent
/// unpaid, then the end of the match if the player's health is used up.
pub open spec fn month_notices(due: bool, money: MoneyText, health: CurrentHealth) -> Seq<Notice> {
    let warning = if due && is_short(money) {
        seq![notice_of(NoticeKind::RentUnpaid, WARNING_NOTICE_TIME)]
    } else {
        Seq::<Notice>::empty()
    };
    let over = if is_over(health) {
        seq![notice_of(NoticeKind::GameOver, WARNING_NOTICE_TIME)]
    } else {
        Seq::<Notice>::empty()
    };
    warning + over
}

/// Settles a month's end on the ledger and the player's health.
pub fn settle_month(money: &mut MoneyText, health: &mut CurrentHealth) -> (short: bool)
    ensures
        short == is_short(*old(money)),
        *final(money) == ledger_after_month(*old(money)),
        *final(health) == health_after_month(*old(health), *old(money)),
{
    let short = money.0 < money.1;
    if short {
        health.0 = saturate_i64(health.0 as i128 - RENT_PENALTY as i128);
    } else {
        money.0 = saturate_i32(money.0 as i128 - money.1 as i128);
        health.0 = saturate_i64(health.0 as i128 + RENT_BONUS as i128);
    }
    money.1 = saturate_i32(money.1 as i128 + RENT_INCREMENT as i128);
    short
}

/// Advances the month by a tick. The day follows the month's timer. When the
/// timer finishes, the month is settled: see [`ledger_after_month`] and
/// [`health_after_month`]. A player whose health is used up at the end of the
/// tick has lost the match.
pub fn tick_month(
    month: &mut MonthTimer,
    day: &mut DayText,
    money: &mut MoneyText,
    player: &mut Player,
    state: &mut GameState,
    notices: &mut Vec<Notice>,
    elapsed: u32,
)
    ensures
        final(month).0 == old(month).0.ticked(elapsed),
        *final(day) == DayText(day_of(final(month).0) as u64),
        *final(money) == (if final(month).0.finished() {
            ledger_after_month(*old(money))
        } else {
            *old(money)
        }),
        *final(player) == (Player {
            health: if final(month).0.finished() {
                health_after_month(old(player).health, *old(money))
            } else {
                old(player).health
            },
            ..*old(player)
        }),
        *final(state) == state_after(*old(state), final(player).health),
        final(notices)@ == old(notices)@ + month_notices(
            final(month).0.finished(),
            *old(money),
            final(player).health,
        ),
{
    let due = month.0.tick(elapsed);
    day.0 = month.0.elapsed_micros() / SECOND * 2 / 5;
    if due {
        let mut health = player.health;
        let short = settle_month(money, &mut health);
        player.health = health;
        if short {
            notices.push(new_notice(NoticeKind::RentUnpaid, WARNING_NOTICE_TIME));
        }
    }
    if player.health.0 <= 0 {
        notices.push(new_notice(NoticeKind::GameOver, WARNING_NOTICE_TIME));
    }
    *state = game_state(*state, player.health);
    proof {
        assert(notices@ =~= old(notices)@ + month_notices(due, *old(money), player.health));
    }
}

/// The notice after `elapsed` more microseconds on screen.
pub open spec fn aged(notice: Notice, elapsed: u32) -> Notice {
    Notice { timer: DespawnTimer(notice.timer.0.ticked(elapsed)), ..notice }
}

pub open spec fn aging(elapsed: u32) -> spec_fn(Notice) -> Notice {
    |notice: Notice| aged(notice, elapsed)
}

pub open spec fn lasting() -> spec_fn(Notice) -> bool {
    |notice: Notice| !notice.timer.0.finished()
}

/// The notices that are left after `elapsed` more microseconds, each with its
/// timer advanced.
pub open spec fn notices_after(notices: Seq<Notice>, elapsed: u32) -> Seq<Notice> {
    notices.map_values(aging(elapsed)).filter(lasting())
}

/// Advances the timer of every notice and removes the notices whose timer finished.
pub fn handle_despawn_timers(notices: &mut Vec<Notice>, elapsed: u32)
    ensures
        final(notices)@ == notices_after(old(notices)@, elapsed),
{
    let mut kept: Vec<Notice> = Vec::new();
    let mut i: usize = 0;
    proof {
        assert(notices@.take(0).map_values(aging(elapsed)) =~= Seq::<Notice>::empty());
        lemma_filter_none(Seq::<Notice>::empty(), lasting());
        assert(Seq::<Notice>::empty().take(0) =~= Seq::<Notice>::empty());
    }
    while i < notices.len()
        invariant
            i <= notices.len(),
            kept@ == notices_after(notices@.take(i as int), elapsed),
        decreases notices.len() - i,
    {
        let mut notice = notices[i];
        let mut timer = notice.timer.0;
        let done = timer.tick(elapsed);
        notice.timer = DespawnTimer(timer);
        proof {
            let before = notices@.take(i as int).map_values(aging(elapsed));
            assert(notices@.take(i + 1).map_values(aging(elapsed)) =~= before.push(notice));
            lemma_filter_push(before, notice, lasting());
        }
        if !done {
            kept.push(notice);
        }
        i += 1;
    }
    proof {
        lemma_take_all(notices@);
    }
    *notices = kept;
}

} // verus!
