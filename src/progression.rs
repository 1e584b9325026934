//! Experience and levels.
use vstd::prelude::*;

verus! {

/// Experience needed to leave level `lvl`: it doubles from 100 at level 1 up
/// to level 15; any other level needs 100.
pub open spec fn lvl_exp(lvl: u32) -> u32 {
    if 1 <= lvl <= 15 {
        (100 * pow2((lvl - 1) as nat)) as u32
    } else {
        100
    }
}

pub open spec fn pow2(n: nat) -> nat
    decreases n,
{
    if n == 0 { 1 } else { 2 * pow2((n - 1) as nat) }
}

pub open spec fn sat_add_u32(a: u32, b: u32) -> u32 {
    if a + b > u32::MAX { u32::MAX } else { (a + b) as u32 }
}

/// Experience progress of the player.
#[derive(Clone, Copy, Debug, PartialEq, Eq, Structural)]
pub struct Player {
    pub exp: u32,
    pub next_lvl_exp: u32,
    pub lvl: u32,
}

/// An experience reward, emitted once for each enemy that dies.
#[derive(Clone, Copy, Debug, PartialEq, Eq, Structural)]
pub struct PlayerGetExpEvent {
    pub exp: u32,
}

pub open spec fn level_measure(p: Player) -> int {
    2 * p.exp + if p.next_lvl_exp == 0 { 1int } else { 0int }
}

/// `p` after every level-up that its experience pays for: while the
/// experience reaches the threshold, the level goes up by one (saturating),
/// the threshold is paid, and the next threshold is looked up.
pub open spec fn settled(p: Player) -> Player
    decreases level_measure(p),
    via settled_decreases
{
    if p.exp >= p.next_lvl_exp {
        let lvl = if p.lvl == u32::MAX { p.lvl } else { (p.lvl + 1) as u32 };
        let next = Player { lvl, exp: (p.exp - p.next_lvl_exp) as u32, next_lvl_exp: lvl_exp(lvl) };
        settled(next)
    } else {
        p
    }
}

#[via_fn]
proof fn settled_decreases(p: Player) {
    if p.exp >= p.next_lvl_exp {
        let lvl = if p.lvl == u32::MAX { p.lvl } else { (p.lvl + 1) as u32 };
        lemma_lvl_exp_positive(lvl);
    }
}

pub open spec fn gained(p: Player, exp: u32) -> Player {
    settled(Player { exp: sat_add_u32(p.exp, exp), ..p })
}

/// `p` after each event of `events`, in order.
pub open spec fn gained_all(p: Player, events: Seq<PlayerGetExpEvent>) -> Player
    decreases events.len(),
{
    if events.len() == 0 {
        p
    } else {
        gained(gained_all(p, events.drop_last()), events.last().exp)
    }
}

pub proof fn lemma_lvl_exp_positive(lvl: u32)
    ensures
        lvl_exp(lvl) >= 100,
{
    reveal_with_fuel(pow2, 15);
}

/// Experience needed to leave level `lvl`.
pub fn get_lvl_exp(lvl: u32) -> (r: u32)
    ensures
        r == lvl_exp(lvl),
{
    proof {
        reveal_with_fuel(pow2, 15);
    }
    match lvl {
        1 => 100,
        2 => 200,
        3 => 400,
        4 => 800,
        5 => 1600,
        6 => 3200,
        7 => 6400,
        8 => 12800,
        9 => 25600,
        10 => 51200,
        11 => 102400,
        12 => 204800,
        13 => 409600,
        14 => 819200,
        15 => 819200 * 2,
        _ => 100,
    }
}

impl Player {
    /// A player at level 1 with no experience.
    pub fn new() -> (r: Player)
        ensures
            r == (Player { exp: 0, next_lvl_exp: lvl_exp(1), lvl: 1 }),
    {
        Player { exp: 0, next_lvl_exp: get_lvl_exp(1), lvl: 1 }
    }

    /// Adds `exp` (saturating) and takes every level-up it pays for.
    pub fn gain_exp(&mut self, exp: u32)
        ensures
            *final(self) == gained(*old(self), exp),
    {
        self.exp = self.exp.saturating_add(exp);
        while self.exp >= self.next_lvl_exp
            invariant
                settled(*self) == gained(*old(self), exp),
            decreases level_measure(*self),
        {
            let ghost before = *self;
            self.lvl = self.lvl.saturating_add(1);
            self.exp = self.exp - self.next_lvl_exp;
            self.next_lvl_exp = get_lvl_exp(self.lvl);
            proof {
                lemma_lvl_exp_positive(self.lvl);
            }
            assert(level_measure(*self) < level_measure(before));
        }
    }

    /// Applies each experience event in order.
    pub fn gain_all(&mut self, events: &Vec<PlayerGetExpEvent>)
        ensures
            *final(self) == gained_all(*old(self), events@),
    {
        let mut i: usize = 0;
        while i < events.len()
            invariant
                0 <= i <= events@.len(),
                *self == gained_all(*old(self), events@.take(i as int)),
            decreases events@.len() - i,
        {
            assert(events@.take(i as int + 1).drop_last() == events@.take(i as int));
            self.gain_exp(events[i].exp);
            i = i + 1;
        }
        assert(events@.take(events@.len() as int) == events@);
    }
}

impl Default for Player {
    fn default() -> (r: Player)
        ensures
            r == (Player { exp: 0, next_lvl_exp: lvl_exp(1), lvl: 1 }),
    {
        Player::new()
    }
}

} // verus!
