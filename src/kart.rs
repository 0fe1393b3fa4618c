//! The discrete state of a kart: its knockout countdown, its powerup stock
//! and its progress round the checkpoints. Durations are in nanoseconds.
use vstd::prelude::*;

verus! {

/// Relies on rand's `random`: a value drawn from the thread-local
/// generator. Nothing is promised of the value.
pub assume_specification<T>[ rand::random::<T> ]() -> (r: T)
    where
        rand::distributions::Standard: rand::distributions::Distribution<T>,
;

/// Knockout after touching an enemy: one second.
pub const ENEMY_KNOCKOUT: u64 = 1_000_000_000;

/// Knockout after a fireball hit: two seconds.
pub const FIREBALL_KNOCKOUT: u64 = 2_000_000_000;

/// Knockout after running over a banana: three seconds.
pub const BANANA_KNOCKOUT: u64 = 3_000_000_000;

/// Laps that win the race.
pub const LAPS_TO_WIN: u32 = 4;

#[derive(Clone, Copy, Debug, PartialEq, Eq, Hash, Structural)]
pub enum PowerupType {
    Empty,
    SpeedBoost,
    Fireball,
    Banana,
}

/// The powerup that a draw of `roll` gives: the three kinds in turn.
pub open spec fn powerup_of_roll(roll: int) -> PowerupType {
    if roll % 3 == 0 {
        PowerupType::SpeedBoost
    } else if roll % 3 == 1 {
        PowerupType::Fireball
    } else {
        PowerupType::Banana
    }
}

/// The surface under a kart, told by the track color as `Level::sample_color`
/// returns it.
#[derive(Clone, Copy, Debug, PartialEq, Eq, Structural)]
pub enum Surface {
    /// Slippery grass: low top speed and low friction.
    Grass,
    /// A boost pad: the kart is held at a high speed.
    SpeedBoost,
    /// Everything else: road.
    Road,
}

pub open spec fn surface_of(color: [u8; 3]) -> Surface {
    if color[0] == 0 && color[1] >= 128 && color[2] == 0 {
        Surface::Grass
    } else if color[0] == 0 && color[1] >= 128 && color[2] >= 128 {
        Surface::SpeedBoost
    } else {
        Surface::Road
    }
}

impl Surface {
    pub fn of_color(color: [u8; 3]) -> (r: Surface)
        ensures
            r == surface_of(color),
    {
        if color[0] == 0 && color[1] >= 128 && color[2] == 0 {
            Surface::Grass
        } else if color[0] == 0 && color[1] >= 128 && color[2] >= 128 {
            Surface::SpeedBoost
        } else {
            Surface::Road
        }
    }
}

/// What a kart does this tick, as its knockout countdown decides.
#[derive(Clone, Copy, Debug, PartialEq, Eq, Structural)]
pub enum KnockoutTick {
    /// Not knocked out: the kart drives.
    Driving,
    /// Still knocked out: the kart spins in place.
    Spinning,
    /// The countdown ran out this tick: the kart takes back the heading it
    /// had when it was hit, at rest.
    Recovered,
}

/// Knockout countdown, powerup stock, laps and the checkpoint to reach next.
#[derive(Clone, Copy, Debug, PartialEq, Eq, Structural)]
pub struct Kart {
    pub knock_out: u64,
    pub powerup: PowerupType,
    pub powerup_amt: u16,
    pub laps: u32,
    pub current_checkpoint: usize,
}

/// A hit knocks the kart out for `duration` only when it is not already
/// knocked out; a hit during a knockout changes nothing.
pub open spec fn hit_spec(k: Kart, duration: u64) -> Kart {
    if k.knock_out == 0 {
        Kart { knock_out: duration, ..k }
    } else {
        k
    }
}

/// The kart after hits of the given durations, in order, with no time passing.
pub open spec fn hits_spec(k: Kart, durations: Seq<u64>) -> Kart
    decreases durations.len(),
{
    if durations.len() == 0 {
        k
    } else {
        hit_spec(hits_spec(k, durations.drop_last()), durations.last())
    }
}

/// The countdown after `dt` nanoseconds, and what the kart does this tick.
pub open spec fn tick_spec(k: Kart, dt: u64) -> (Kart, KnockoutTick) {
    if k.knock_out == 0 {
        (k, KnockoutTick::Driving)
    } else if k.knock_out <= dt {
        (Kart { knock_out: 0, ..k }, KnockoutTick::Recovered)
    } else {
        (Kart { knock_out: (k.knock_out - dt) as u64, ..k }, KnockoutTick::Spinning)
    }
}

/// Using a powerup: nothing while knocked out or out of stock; otherwise one
/// is spent and its kind returned, and the kind is cleared with the last one.
pub open spec fn use_spec(k: Kart) -> (Kart, PowerupType) {
    if k.knock_out > 0 {
        (k, PowerupType::Empty)
    } else if k.powerup == PowerupType::Empty || k.powerup_amt == 0 {
        (Kart { powerup: PowerupType::Empty, powerup_amt: 0, ..k }, PowerupType::Empty)
    } else {
        let amt = (k.powerup_amt - 1) as u16;
        (
            Kart {
                powerup_amt: amt,
                powerup: if amt == 0 {
                    PowerupType::Empty
                } else {
                    k.powerup
                },
                ..k
            },
            k.powerup,
        )
    }
}

/// Reaching the current one of `count` checkpoints: the next one becomes
/// current, and reaching the last one completes a lap.
pub open spec fn advance_spec(k: Kart, count: nat) -> Kart {
    Kart {
        laps: if k.current_checkpoint + 1 == count {
            (k.laps + 1) as u32
        } else {
            k.laps
        },
        current_checkpoint: ((k.current_checkpoint + 1) % (count as int)) as usize,
        ..k
    }
}

/// The kart after reaching `n` checkpoints in a row.
pub open spec fn advance_n(k: Kart, count: nat, n: nat) -> Kart
    decreases n,
{
    if n == 0 {
        k
    } else {
        advance_spec(advance_n(k, count, (n - 1) as nat), count)
    }
}

impl Kart {
    /// Not knocked out, no powerup, at the start of the first lap.
    pub fn new() -> (r: Kart)
        ensures
            r == (Kart {
                knock_out: 0,
                powerup: PowerupType::Empty,
                powerup_amt: 0,
                laps: 0,
                current_checkpoint: 0,
            }),
    {
        Kart { knock_out: 0, powerup: PowerupType::Empty, powerup_amt: 0, laps: 0, current_checkpoint: 0 }
    }

    pub fn knocked_out(&self) -> (r: bool)
        ensures
            r == (self.knock_out > 0),
    {
        self.knock_out > 0
    }

    /// A hazard touched the kart: it is knocked out for `duration` unless it
    /// already is.
    pub fn hit(&mut self, duration: u64)
        ensures
            *final(self) == hit_spec(*old(self), duration),
    {
        if self.knock_out == 0 {
            self.knock_out = duration;
        }
    }

    /// Runs the knockout countdown down by `dt` nanoseconds, never below zero.
    pub fn tick_knockout(&mut self, dt: u64) -> (r: KnockoutTick)
        ensures
            (*final(self), r) == tick_spec(*old(self), dt),
    {
        if self.knock_out == 0 {
            KnockoutTick::Driving
        } else if self.knock_out <= dt {
            self.knock_out = 0;
            KnockoutTick::Recovered
        } else {
            self.knock_out = self.knock_out - dt;
            KnockoutTick::Spinning
        }
    }

    /// Stocks powerups from two draws: `amount_roll % 3 + 1` of them, of the
    /// kind `type_roll` selects.
    pub fn stock_powerup(&mut self, amount_roll: u16, type_roll: usize)
        ensures
            *final(self) == (Kart {
                powerup_amt: (amount_roll % 3 + 1) as u16,
                powerup: powerup_of_roll(type_roll as int),
                ..*old(self)
            }),
    {
        self.powerup_amt = amount_roll % 3 + 1;
        let t = type_roll % 3;
        self.powerup = if t == 0 {
            PowerupType::SpeedBoost
        } else if t == 1 {
            PowerupType::Fireball
        } else {
            PowerupType::Banana
        };
    }

    /// Picks up a powerup box: one to three powerups of a random kind.
    pub fn pickup_powerup(&mut self)
        ensures
            1 <= final(self).powerup_amt <= 3,
            final(self).powerup == PowerupType::SpeedBoost || final(self).powerup == PowerupType::Fireball
                || final(self).powerup == PowerupType::Banana,
            *final(self) == (Kart { powerup_amt: final(self).powerup_amt, powerup: final(self).powerup, ..*old(self) }),
    {
        let amount_roll = rand::random::<u16>();
        let type_roll = rand::random::<usize>();
        self.stock_powerup(amount_roll, type_roll);
    }

    /// Takes a fully grown powerup box the kart has reached. Only a kart out
    /// of stock takes one; returns whether it did, so that the box empties.
    pub fn collect_powerup(&mut self) -> (r: bool)
        ensures
            r == (old(self).powerup_amt == 0),
            r ==> {
                &&& 1 <= final(self).powerup_amt <= 3
                &&& final(self).powerup == PowerupType::SpeedBoost || final(self).powerup == PowerupType::Fireball
                    || final(self).powerup == PowerupType::Banana
                &&& *final(self) == (Kart { powerup_amt: final(self).powerup_amt, powerup: final(self).powerup, ..*old(self) })
            },
            !r ==> *final(self) == *old(self),
    {
        if self.powerup_amt == 0 {
            self.pickup_powerup();
            true
        } else {
            false
        }
    }

    /// Spends one powerup and returns its kind; `Empty` while knocked out or
    /// out of stock.
    pub fn use_powerup(&mut self) -> (r: PowerupType)
        ensures
            (*final(self), r) == use_spec(*old(self)),
    {
        if self.knock_out > 0 {
            return PowerupType::Empty;
        }
        if self.powerup == PowerupType::Empty || self.powerup_amt == 0 {
            self.powerup = PowerupType::Empty;
            self.powerup_amt = 0;
            return PowerupType::Empty;
        }
        let kind = self.powerup;
        self.powerup_amt = self.powerup_amt - 1;
        if self.powerup_amt == 0 {
            self.powerup = PowerupType::Empty;
        }
        kind
    }

    /// The kart reached its current checkpoint out of `checkpoint_count`:
    /// the next one becomes current, and the last one completes a lap.
    /// Returns the new current checkpoint.
    pub fn advance_checkpoint(&mut self, checkpoint_count: usize) -> (r: usize)
        requires
            old(self).current_checkpoint < checkpoint_count,
            old(self).current_checkpoint + 1 == checkpoint_count ==> old(self).laps < u32::MAX,
        ensures
            *final(self) == advance_spec(*old(self), checkpoint_count as nat),
            r == final(self).current_checkpoint,
            r < checkpoint_count,
    {
        if self.current_checkpoint == checkpoint_count - 1 {
            self.laps = self.laps + 1;
        }
        self.current_checkpoint = (self.current_checkpoint + 1) % checkpoint_count;
        self.current_checkpoint
    }

    /// Whether the kart has driven the laps that win the race.
    pub fn has_won(&self) -> (r: bool)
        ensures
            r == (self.laps >= LAPS_TO_WIN),
    {
        self.laps >= LAPS_TO_WIN
    }
}

/// Hits during one knockout do not add up: the first hit of an episode sets
/// the countdown, and later hits of equal or smaller duration leave it there,
/// so the countdown is the largest of the durations applied.
pub proof fn lemma_knockout_takes_largest_hit(k: Kart, durations: Seq<u64>)
    requires
        k.knock_out == 0,
        durations.len() >= 1,
        durations[0] > 0,
        forall|i: int| 0 <= i < durations.len() ==> #[trigger] durations[i] <= durations[0],
    ensures
        hits_spec(k, durations).knock_out == durations[0],
        forall|i: int| 0 <= i < durations.len() ==> #[trigger] durations[i] <= hits_spec(k, durations).knock_out,
    decreases durations.len(),
{
    let init = durations.drop_last();
    if durations.len() > 1 {
        assert forall|i: int| 0 <= i < init.len() implies #[trigger] init[i] <= init[0] by {
            assert(durations[i] <= durations[0]);
        }
        lemma_knockout_takes_largest_hit(k, init);
        assert(init[0] == durations[0]);
    } else {
        assert(init.len() == 0);
        assert(hits_spec(k, init) == k);
    }
}

/// While a kart is knocked out, no number of further hits changes its
/// countdown.
pub proof fn lemma_hits_during_knockout(k: Kart, durations: Seq<u64>)
    requires
        k.knock_out > 0,
    ensures
        hits_spec(k, durations) == k,
    decreases durations.len(),
{
    if durations.len() > 0 {
        lemma_hits_during_knockout(k, durations.drop_last());
    }
}

proof fn lemma_partial_cycle(k: Kart, count: usize, j: nat)
    requires
        k.current_checkpoint == 0,
        j < count,
    ensures
        advance_n(k, count as nat, j) == (Kart { current_checkpoint: j as usize, ..k }),
    decreases j,
{
    if j > 0 {
        lemma_partial_cycle(k, count, (j - 1) as nat);
        assert(((j - 1) + 1) % (count as int) == j) by {
            vstd::arithmetic::div_mod::lemma_small_mod(j, count as nat);
        }
    }
}

/// Checkpoints are visited cyclically: from the first of `count`
/// checkpoints, reaching all `count` of them in order brings the kart back
/// to the first and adds exactly one lap.
pub proof fn lemma_checkpoint_cycle(k: Kart, count: usize)
    requires
        count >= 1,
        k.current_checkpoint == 0,
        k.laps < u32::MAX,
    ensures
        advance_n(k, count as nat, count as nat).current_checkpoint == 0,
        advance_n(k, count as nat, count as nat).laps == k.laps + 1,
        advance_n(k, count as nat, count as nat) == (Kart { laps: (k.laps + 1) as u32, ..k }),
{
    lemma_partial_cycle(k, count, (count - 1) as nat);
    assert(advance_n(k, count as nat, count as nat) == advance_spec(advance_n(k, count as nat, (count - 1) as nat), count as nat));
    assert((count as int) % (count as int) == 0) by {
        vstd::arithmetic::div_mod::lemma_mod_self_0(count as int);
    }
}

} // verus!
