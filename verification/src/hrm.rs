//! The HRM board: the hack / repair / modify minigame shared by keypads,
//! computers, replicators, crates, turrets and the weapon panels.
//!
//! A board is a 5x4 grid of nodes. Paying the cost deals a board with some of
//! its free nodes secretly mined; each played node is rolled against the
//! player's success chance, and three lit nodes in a straight line win.
use vstd::prelude::*;

use crate::effect::{combine_two, combines, play_sound, sound_from, Effect, EntityId, Sound};

verus! {

/// Width of the HRM board, in nodes.
pub const BOARD_WIDTH: usize = 5;
/// Height of the HRM board, in nodes.
pub const BOARD_HEIGHT: usize = 4;
/// Number of nodes on the board.
pub const BOARD_SIZE: usize = 20;

/// The seed the generator falls back to when its state is zero.
pub const ZERO_STATE_SEED: u64 = 0x9e37_79b9_7f4a_7c15;

/// One node of the board.
#[derive(Clone, Copy, Debug, PartialEq, Eq, Structural)]
pub enum HackNode {
    Free,
    Lit,
    Burned,
    Mine,
    Empty,
}

/// Where a board stands.
#[derive(Clone, Copy, Debug, PartialEq, Eq, Structural)]
pub enum HackPhase {
    Unpaid,
    Playing,
    Won,
    Lost,
    Unwinnable,
    InsufficientNanites,
}

/// What the board is being played for; each mode deals its own shape.
#[derive(Clone, Copy, Debug, PartialEq, Eq, Structural)]
pub enum HrmContext {
    Hack { security_computer: bool },
    Modify,
    Repair,
}

/// The flat index of node `(x, y)`.
pub open spec fn spec_index(x: int, y: int) -> int {
    y * BOARD_WIDTH as int + x
}

/// The flat index of node `(x, y)` on the row-major board.
pub fn board_index(x: usize, y: usize) -> (r: usize)
    requires
        y * 5 + x <= usize::MAX,
    ensures
        r == spec_index(x as int, y as int),
{
    y * BOARD_WIDTH + x
}

/// The hacking board's authored shape: fourteen playable nodes around holes.
pub open spec fn hack_shape() -> Seq<HackNode> {
    seq![
        HackNode::Empty, HackNode::Empty, HackNode::Free, HackNode::Free, HackNode::Free,
        HackNode::Free, HackNode::Free, HackNode::Free, HackNode::Empty, HackNode::Free,
        HackNode::Free, HackNode::Empty, HackNode::Free, HackNode::Free, HackNode::Free,
        HackNode::Free, HackNode::Free, HackNode::Free, HackNode::Empty, HackNode::Empty,
    ]
}

/// The repair board: the middle three columns, every row.
pub open spec fn repair_shape() -> Seq<HackNode> {
    seq![
        HackNode::Empty, HackNode::Free, HackNode::Free, HackNode::Free, HackNode::Empty,
        HackNode::Empty, HackNode::Free, HackNode::Free, HackNode::Free, HackNode::Empty,
        HackNode::Empty, HackNode::Free, HackNode::Free, HackNode::Free, HackNode::Empty,
        HackNode::Empty, HackNode::Free, HackNode::Free, HackNode::Free, HackNode::Empty,
    ]
}

/// The modify board.
pub open spec fn modify_shape() -> Seq<HackNode> {
    seq![
        HackNode::Empty, HackNode::Free, HackNode::Free, HackNode::Free, HackNode::Free,
        HackNode::Empty, HackNode::Free, HackNode::Empty, HackNode::Free, HackNode::Empty,
        HackNode::Empty, HackNode::Free, HackNode::Empty, HackNode::Free, HackNode::Empty,
        HackNode::Free, HackNode::Free, HackNode::Free, HackNode::Free, HackNode::Empty,
    ]
}

/// The shape a mode deals, before any mine is placed.
pub open spec fn shape_of(context: HrmContext) -> Seq<HackNode> {
    match context {
        HrmContext::Hack { .. } => hack_shape(),
        HrmContext::Repair => repair_shape(),
        HrmContext::Modify => modify_shape(),
    }
}

/// The retail hacking board's shape.
pub fn base_hack_board() -> (board: [HackNode; 20])
    ensures
        board@ == hack_shape(),
{
    let board = [
        HackNode::Empty, HackNode::Empty, HackNode::Free, HackNode::Free, HackNode::Free,
        HackNode::Free, HackNode::Free, HackNode::Free, HackNode::Empty, HackNode::Free,
        HackNode::Free, HackNode::Empty, HackNode::Free, HackNode::Free, HackNode::Free,
        HackNode::Free, HackNode::Free, HackNode::Free, HackNode::Empty, HackNode::Empty,
    ];
    assert(board@ =~= hack_shape());
    board
}

/// The shape each mode deals, matching the node outlines on its board art.
pub fn base_board(context: HrmContext) -> (board: [HackNode; 20])
    ensures
        board@ == shape_of(context),
{
    match context {
        HrmContext::Hack { .. } => base_hack_board(),
        HrmContext::Repair => {
            let board = [
                HackNode::Empty, HackNode::Free, HackNode::Free, HackNode::Free, HackNode::Empty,
                HackNode::Empty, HackNode::Free, HackNode::Free, HackNode::Free, HackNode::Empty,
                HackNode::Empty, HackNode::Free, HackNode::Free, HackNode::Free, HackNode::Empty,
                HackNode::Empty, HackNode::Free, HackNode::Free, HackNode::Free, HackNode::Empty,
            ];
            assert(board@ =~= repair_shape());
            board
        },
        HrmContext::Modify => {
            let board = [
                HackNode::Empty, HackNode::Free, HackNode::Free, HackNode::Free, HackNode::Free,
                HackNode::Empty, HackNode::Free, HackNode::Empty, HackNode::Free, HackNode::Empty,
                HackNode::Empty, HackNode::Free, HackNode::Empty, HackNode::Free, HackNode::Empty,
                HackNode::Free, HackNode::Free, HackNode::Free, HackNode::Free, HackNode::Empty,
            ];
            assert(board@ =~= modify_shape());
            board
        },
    }
}

/// One step of the board's xorshift generator; a zero state is replaced by a
/// fixed odd seed first, since xorshift never leaves zero.
pub open spec fn xorshift(state: u64) -> u64 {
    let v = if state == 0 { ZERO_STATE_SEED } else { state };
    let a = v ^ (v << 13u64);
    let b = a ^ (a >> 7u64);
    b ^ (b << 17u64)
}

/// Advances the generator and draws a value in `0..upper_exclusive`.
pub fn next_random(rng_state: &mut u64, upper_exclusive: u32) -> (r: u32)
    requires
        upper_exclusive > 0,
    ensures
        *final(rng_state) == xorshift(*old(rng_state)),
        r == xorshift(*old(rng_state)) % (upper_exclusive as u64),
        r < upper_exclusive,
{
    let mut value: u64 = if *rng_state == 0 {
        ZERO_STATE_SEED
    } else {
        *rng_state
    };
    value = value ^ (value << 13u64);
    value = value ^ (value >> 7u64);
    value = value ^ (value << 17u64);
    *rng_state = value;
    let r = value % (upper_exclusive as u64);
    r as u32
}

/// `x` rotated left by 17 bits.
pub open spec fn rotate_left_17(x: u64) -> u64 {
    (x << 17u64) | (x >> 47u64)
}

/// The board seed: the moment START was pressed, mixed with the object's
/// stable authored id, so play varies with time while replays repeat.
pub open spec fn spec_mix_hack_seed(time_nanoseconds: u64, stable_id: u64) -> u64 {
    time_nanoseconds ^ rotate_left_17(stable_id) ^ 0x1ac1_d4b1u64
}

/// Mixes the interaction time with the object's stable id into a board seed.
pub fn mix_hack_seed(time_nanoseconds: u64, stable_id: u64) -> (seed: u64)
    ensures
        seed == spec_mix_hack_seed(time_nanoseconds, stable_id),
{
    let rotated = (stable_id << 17u64) | (stable_id >> 47u64);
    time_nanoseconds ^ rotated ^ 0x1ac1_d4b1u64
}


/// Indices below `n` of the free nodes of `board`, in increasing order.
pub open spec fn free_before(board: Seq<HackNode>, n: nat) -> Seq<usize>
    decreases n,
{
    if n == 0 {
        seq![]
    } else {
        let prev = free_before(board, (n - 1) as nat);
        if board[n - 1] == HackNode::Free {
            prev.push((n - 1) as usize)
        } else {
            prev
        }
    }
}

/// Indices of the free nodes of `board`, in increasing order.
pub open spec fn free_indices(board: Seq<HackNode>) -> Seq<usize> {
    free_before(board, board.len())
}

/// Mines `count` nodes of `nodes`, each one drawn uniformly from the free
/// list `free` by the generator, removing it from the list; stops early when
/// the list runs out. Gives the board and the generator's final state.
pub open spec fn deal_mines(nodes: Seq<HackNode>, free: Seq<usize>, count: nat, rng: u64) -> (
    Seq<HackNode>,
    u64,
)
    decreases count,
{
    if count == 0 || free.len() == 0 {
        (nodes, rng)
    } else {
        let next = xorshift(rng);
        let pick = (next % (free.len() as u64)) as int;
        deal_mines(
            nodes.update(free[pick] as int, HackNode::Mine),
            free.remove(pick),
            (count - 1) as nat,
            next,
        )
    }
}

/// The board a mode deals with `mine_count` mines (a negative count deals
/// none), and the generator's state afterwards.
pub open spec fn dealt_board(context: HrmContext, mine_count: i32, seed: u64) -> (
    Seq<HackNode>,
    u64,
) {
    let count: nat = if mine_count < 0 { 0 } else { mine_count as nat };
    deal_mines(shape_of(context), free_indices(shape_of(context)), count, seed)
}

proof fn lemma_free_before_bounded(board: Seq<HackNode>, n: nat)
    requires
        n <= board.len(),
    ensures
        free_before(board, n).len() <= n,
        forall|k: int| 0 <= k < free_before(board, n).len() ==> free_before(board, n)[k] < n,
    decreases n,
{
    if n > 0 {
        lemma_free_before_bounded(board, (n - 1) as nat);
    }
}

/// Deals a fresh board for `context` with `mine_count` mines, advancing the
/// generator once per mine placed.
pub fn board_with_mines(context: HrmContext, mine_count: i32, rng_state: &mut u64) -> (nodes: [HackNode; 20])
    ensures
        (nodes@, *final(rng_state)) == dealt_board(context, mine_count, *old(rng_state)),
{
    let mut nodes = base_board(context);
    let ghost shape = nodes@;
    let mut free: Vec<usize> = Vec::new();
    let mut i: usize = 0;
    while i < BOARD_SIZE
        invariant
            i <= BOARD_SIZE,
            nodes@ == shape,
            shape.len() == 20,
            free@ == free_before(shape, i as nat),
        decreases BOARD_SIZE - i,
    {
        if nodes[i] == HackNode::Free {
            free.push(i);
        }
        i += 1;
    }
    proof {
        lemma_free_before_bounded(shape, 20);
    }
    let ghost free0 = free@;
    let ghost seed = *rng_state;
    let count: usize = if mine_count < 0 {
        0
    } else {
        mine_count as usize
    };
    let ghost total: nat = if mine_count < 0 { 0 } else { mine_count as nat };
    assert(count == total);
    let mut placed: usize = 0;
    while placed < count && free.len() > 0
        invariant
            placed <= count,
            count == total,
            nodes@.len() == 20,
            free.len() <= 20,
            forall|k: int| 0 <= k < free.len() ==> free@[k] < 20,
            deal_mines(nodes@, free@, (count - placed) as nat, *rng_state) == deal_mines(
                shape,
                free0,
                total,
                seed,
            ),
        decreases count - placed,
    {
        let ghost before = (nodes@, free@, *rng_state);
        let selected = next_random(rng_state, free.len() as u32) as usize;
        let index = free.remove(selected);
        nodes[index] = HackNode::Mine;
        placed += 1;
        proof {
            assert(nodes@ =~= before.0.update(index as int, HackNode::Mine));
            assert forall|k: int| 0 <= k < free.len() implies free@[k] < 20 by {
                if k < selected {
                    assert(free@[k] == before.1[k]);
                } else {
                    assert(free@[k] == before.1[k + 1]);
                }
            }
        }
    }
    nodes
}


/// An object's authored `P$HackDiff`: the terms it is hacked (or repaired,
/// or modified) on. `cost` is the nanite price, already truncated to an
/// integer.
#[derive(Clone, Copy, Debug, PartialEq, Eq, Structural)]
pub struct HackDiff {
    pub success_chance: i32,
    pub critical_chance: i32,
    pub cost: i32,
}

/// The nanites a board costs: the authored price, but never less than one.
pub open spec fn spec_hack_cost(diff: HackDiff) -> i32 {
    if diff.cost < 1 { 1 } else { diff.cost }
}

/// The nanite price of starting a board.
pub fn hack_cost(diff: HackDiff) -> (cost: i32)
    ensures
        cost == spec_hack_cost(diff),
        cost >= 1,
{
    if diff.cost < 1 {
        1
    } else {
        diff.cost
    }
}

/// Rolls a percentile in `0..100`, advancing the generator once.
pub fn outcome_roll(rng_state: &mut u64) -> (roll: i32)
    ensures
        *final(rng_state) == xorshift(*old(rng_state)),
        roll == xorshift(*old(rng_state)) % 100,
        0 <= roll < 100,
{
    next_random(rng_state, 100) as i32
}

/// Whether a percentile roll beats a success chance.
pub fn roll_succeeds(roll: i32, chance: i32) -> (r: bool)
    ensures
        r == (roll < chance),
{
    roll < chance
}

/// Of the hundred possible rolls, exactly `chance` succeed, for any chance
/// from 0 to 100: the board's odds are the chance it quotes.
pub proof fn law_roll_odds_match_the_chance(chance: int)
    requires
        0 <= chance <= 100,
    ensures
        Set::new(|roll: int| 0 <= roll < 100 && roll < chance).len() == chance,
        Set::new(|roll: int| 0 <= roll < 100 && roll < chance).finite(),
{
    let s = Set::new(|roll: int| 0 <= roll < 100 && roll < chance);
    assert(s =~= vstd::set_lib::set_int_range(0, chance));
    vstd::set_lib::lemma_int_range(0, chance);
}

/// The player's side of an HRM roll: trained skill, the extra levels a
/// security computer (Security Expert) grants, the tech implant, and CYB.
#[derive(Clone, Copy, Debug, PartialEq, Eq, Structural)]
pub struct HrmTerms {
    pub skill: i32,
    pub bonus_levels: i32,
    pub implant: bool,
    pub stat: i32,
}

/// The terms for `context` from the character sheet: Security Expert adds two
/// levels only at security computers and only for a player trained in Hack,
/// and the tech implant adds one level only to a trained skill.
pub open spec fn spec_terms(
    context: HrmContext,
    skill: i32,
    has_security_expert: bool,
    implant_active: bool,
    cyber_affinity: i32,
) -> HrmTerms {
    HrmTerms {
        skill,
        bonus_levels: if context == (HrmContext::Hack { security_computer: true }) && skill > 0
            && has_security_expert {
            2
        } else {
            0
        },
        implant: skill > 0 && implant_active,
        stat: cyber_affinity,
    }
}

impl HrmTerms {
    /// The player's terms for `context`, given the trained level of the
    /// matching skill, whether Security Expert is installed, whether the tech
    /// implant is active and the CYB stat.
    pub fn for_context(
        context: HrmContext,
        skill: i32,
        has_security_expert: bool,
        implant_active: bool,
        cyber_affinity: i32,
    ) -> (terms: HrmTerms)
        ensures
            terms == spec_terms(context, skill, has_security_expert, implant_active, cyber_affinity),
    {
        let at_security_computer = match context {
            HrmContext::Hack { security_computer } => security_computer,
            _ => false,
        };
        let bonus_levels = if at_security_computer && skill > 0 && has_security_expert {
            2
        } else {
            0
        };
        HrmTerms { skill, bonus_levels, implant: skill > 0 && implant_active, stat: cyber_affinity }
    }

    /// Skill plus bonus levels plus one for the implant.
    pub open spec fn spec_effective_skill(self) -> int {
        self.skill + self.bonus_levels + if self.implant { 1int } else { 0int }
    }

    /// The skill level the roll is made with.
    pub fn effective_skill(&self) -> (r: i32)
        requires
            self.skill + self.bonus_levels + 1 <= i32::MAX,
            self.skill + self.bonus_levels >= i32::MIN,
        ensures
            r == self.spec_effective_skill(),
    {
        self.skill + self.bonus_levels + if self.implant {
            1i32
        } else {
            0i32
        }
    }
}

/// The gamesys HRM coefficients: how much each skill level and each point of
/// CYB add to the success chance and take off the mine count.
#[derive(Clone, Copy, Debug, PartialEq, Eq, Structural)]
pub struct HrmParams {
    pub skill_critical_bonus: i32,
    pub skill_success_bonus: i32,
    pub stat_critical_bonus: i32,
    pub stat_success_bonus: i32,
}

/// The highest success chance any board offers.
pub const MAX_SUCCESS_CHANCE: i32 = 85;

/// `value` limited to `lo..=hi`.
pub open spec fn clamp(value: int, lo: int, hi: int) -> int {
    if value < lo {
        lo
    } else if value > hi {
        hi
    } else {
        value
    }
}

/// The success chance: the authored chance plus the skill and CYB bonuses,
/// held within 0..=85.
pub open spec fn spec_success_chance(params: HrmParams, base: i32, skill: i32, stat: i32) -> int {
    clamp(base + skill * params.skill_success_bonus + stat * params.stat_success_bonus, 0, 85)
}

/// The mine count: the authored critical chance less the skill and CYB
/// bonuses, never below zero (nor above what an `i32` holds).
pub open spec fn spec_mine_count(params: HrmParams, base: i32, skill: i32, stat: i32) -> int {
    clamp(base - skill * params.skill_critical_bonus - stat * params.stat_critical_bonus, 0, i32::MAX as int)
}

proof fn lemma_product_bound(a: i32, b: i32)
    ensures
        -0x4000_0000_0000_0000 <= a * b <= 0x4000_0000_0000_0000,
{
    assert(-0x4000_0000_0000_0000 <= a * b <= 0x4000_0000_0000_0000) by (nonlinear_arith)
        requires
            -0x8000_0000 <= a <= 0x7fff_ffff,
            -0x8000_0000 <= b <= 0x7fff_ffff,
    ;
}

impl HrmParams {
    /// The success chance for an authored chance, skill and stat.
    pub fn success_chance(&self, base: i32, skill: i32, stat: i32) -> (r: i32)
        ensures
            r == spec_success_chance(*self, base, skill, stat),
    {
        proof {
            lemma_product_bound(skill, self.skill_success_bonus);
            lemma_product_bound(stat, self.stat_success_bonus);
        }
        let raw = base as i128 + skill as i128 * self.skill_success_bonus as i128 + stat as i128
            * self.stat_success_bonus as i128;
        if raw < 0 {
            0
        } else if raw > 85 {
            85
        } else {
            raw as i32
        }
    }

    /// The mine count for an authored critical chance, skill and stat.
    pub fn mine_count(&self, base: i32, skill: i32, stat: i32) -> (r: i32)
        ensures
            r == spec_mine_count(*self, base, skill, stat),
    {
        proof {
            lemma_product_bound(skill, self.skill_critical_bonus);
            lemma_product_bound(stat, self.stat_critical_bonus);
        }
        let raw = base as i128 - skill as i128 * self.skill_critical_bonus as i128 - stat as i128
            * self.stat_critical_bonus as i128;
        if raw < 0 {
            0
        } else if raw > i32::MAX as i128 {
            i32::MAX
        } else {
            raw as i32
        }
    }
}


/// The success chance and mine count a board is played with: the gamesys
/// coefficients applied to the player's terms when the gamesys has them, the
/// authored values (chance held within 0..=85, mines never negative)
/// otherwise.
pub open spec fn spec_effective_values(params: Option<HrmParams>, diff: HackDiff, terms: HrmTerms) -> (
    int,
    int,
) {
    match params {
        Some(p) => (
            spec_success_chance(p, diff.success_chance, terms.spec_effective_skill() as i32, terms.stat),
            spec_mine_count(p, diff.critical_chance, terms.spec_effective_skill() as i32, terms.stat),
        ),
        None => (
            clamp(diff.success_chance as int, 0, 85),
            if diff.critical_chance < 0 { 0 } else { diff.critical_chance as int },
        ),
    }
}

/// The `(success chance, mine count)` a board is played with.
pub fn effective_hrm_values(params: Option<HrmParams>, diff: HackDiff, terms: HrmTerms) -> (r: (
    i32,
    i32,
))
    requires
        terms.skill + terms.bonus_levels + 1 <= i32::MAX,
        terms.skill + terms.bonus_levels >= i32::MIN,
    ensures
        (r.0 as int, r.1 as int) == spec_effective_values(params, diff, terms),
{
    match params {
        Some(p) => {
            let skill = terms.effective_skill();
            (p.success_chance(diff.success_chance, skill, terms.stat), p.mine_count(diff.critical_chance, skill, terms.stat))
        },
        None => {
            let chance = if diff.success_chance < 0 {
                0
            } else if diff.success_chance > 85 {
                85
            } else {
                diff.success_chance
            };
            let mines = if diff.critical_chance < 0 {
                0
            } else {
                diff.critical_chance
            };
            (chance, mines)
        },
    }
}

/// Whether a node counts toward a line: a lit node always; a free or mined
/// node too when asking whether a line could still be completed.
pub open spec fn counts_toward(node: HackNode, potential: bool) -> bool {
    node is Lit || (potential && (node is Free || node is Mine))
}

/// Three counting nodes in a row, starting at `(x, y)`.
pub open spec fn row_run(b: Seq<HackNode>, x: int, y: int, potential: bool) -> bool {
    &&& counts_toward(b[spec_index(x, y)], potential)
    &&& counts_toward(b[spec_index(x + 1, y)], potential)
    &&& counts_toward(b[spec_index(x + 2, y)], potential)
}

/// Three counting nodes in a column, starting at `(x, y)`.
pub open spec fn column_run(b: Seq<HackNode>, x: int, y: int, potential: bool) -> bool {
    &&& counts_toward(b[spec_index(x, y)], potential)
    &&& counts_toward(b[spec_index(x, y + 1)], potential)
    &&& counts_toward(b[spec_index(x, y + 2)], potential)
}

/// Whether the board has three counting nodes in a straight horizontal or
/// vertical line.
pub open spec fn has_run(b: Seq<HackNode>, potential: bool) -> bool {
    ||| exists|x: int, y: int| 0 <= x <= 2 && 0 <= y < 4 && #[trigger] row_run(b, x, y, potential)
    ||| exists|x: int, y: int| 0 <= x < 5 && 0 <= y <= 1 && #[trigger] column_run(b, x, y, potential)
}

/// Three lit nodes in a line: the board is won.
pub open spec fn connected_three(b: Seq<HackNode>) -> bool {
    has_run(b, false)
}

/// Some line of three could still be lit: no node on it is burned or empty.
pub open spec fn potential_path(b: Seq<HackNode>) -> bool {
    has_run(b, true)
}

fn counts(node: HackNode, potential: bool) -> (r: bool)
    ensures
        r == counts_toward(node, potential),
{
    match node {
        HackNode::Lit => true,
        HackNode::Free | HackNode::Mine => potential,
        _ => false,
    }
}

fn find_run(nodes: &[HackNode; 20], potential: bool) -> (r: bool)
    ensures
        r == has_run(nodes@, potential),
{
    let mut y: usize = 0;
    while y < 4
        invariant
            y <= 4,
            forall|x: int, yy: int| 0 <= x <= 2 && 0 <= yy < y ==> !#[trigger] row_run(nodes@, x, yy, potential),
        decreases 4 - y,
    {
        let mut x: usize = 0;
        while x <= 2
            invariant
                y < 4,
                x <= 3,
                forall|xx: int, yy: int| 0 <= xx <= 2 && 0 <= yy < y ==> !#[trigger] row_run(nodes@, xx, yy, potential),
                forall|xx: int| 0 <= xx < x ==> !#[trigger] row_run(nodes@, xx, y as int, potential),
            decreases 3 - x,
        {
            let i = y * 5 + x;
            if counts(nodes[i], potential) && counts(nodes[i + 1], potential) && counts(nodes[i + 2], potential) {
                assert(row_run(nodes@, x as int, y as int, potential));
                return true;
            }
            x += 1;
        }
        y += 1;
    }
    let mut x: usize = 0;
    while x < 5
        invariant
            x <= 5,
            forall|xx: int, yy: int| 0 <= xx <= 2 && 0 <= yy < 4 ==> !#[trigger] row_run(nodes@, xx, yy, potential),
            forall|xx: int, yy: int| 0 <= xx < x && 0 <= yy <= 1 ==> !#[trigger] column_run(nodes@, xx, yy, potential),
        decreases 5 - x,
    {
        let mut y: usize = 0;
        while y <= 1
            invariant
                x < 5,
                y <= 2,
                forall|xx: int, yy: int| 0 <= xx <= 2 && 0 <= yy < 4 ==> !#[trigger] row_run(nodes@, xx, yy, potential),
                forall|xx: int, yy: int| 0 <= xx < x && 0 <= yy <= 1 ==> !#[trigger] column_run(nodes@, xx, yy, potential),
                forall|yy: int| 0 <= yy < y ==> !#[trigger] column_run(nodes@, x as int, yy, potential),
            decreases 2 - y,
        {
            let i = y * 5 + x;
            if counts(nodes[i], potential) && counts(nodes[i + 5], potential) && counts(nodes[i + 10], potential) {
                assert(column_run(nodes@, x as int, y as int, potential));
                return true;
            }
            y += 1;
        }
        x += 1;
    }
    false
}

/// Three lit nodes in a straight line win the board, wherever the line
/// stands: any three in one row (starting in columns 0 to 2) or in one column
/// (starting on rows 0 or 1). A line none of whose nodes is burned or empty
/// can still be completed.
pub proof fn law_a_lit_line_wins(b: Seq<HackNode>, x: int, y: int)
    requires
        b.len() == 20,
    ensures
        0 <= x < 5 && 0 <= y <= 1 && b[y * 5 + x] is Lit && b[(y + 1) * 5 + x] is Lit && b[(y + 2) * 5 + x] is Lit
            ==> connected_three(b),
        0 <= x <= 2 && 0 <= y < 4 && b[y * 5 + x] is Lit && b[y * 5 + x + 1] is Lit && b[y * 5 + x + 2] is Lit
            ==> connected_three(b),
        0 <= x < 5 && 0 <= y <= 1 && !(b[y * 5 + x] is Burned || b[y * 5 + x] is Empty) && !(b[(y + 1) * 5 + x] is Burned
            || b[(y + 1) * 5 + x] is Empty) && !(b[(y + 2) * 5 + x] is Burned || b[(y + 2) * 5 + x] is Empty)
            ==> potential_path(b),
        0 <= x <= 2 && 0 <= y < 4 && !(b[y * 5 + x] is Burned || b[y * 5 + x] is Empty) && !(b[y * 5 + x + 1] is Burned
            || b[y * 5 + x + 1] is Empty) && !(b[y * 5 + x + 2] is Burned || b[y * 5 + x + 2] is Empty)
            ==> potential_path(b),
{
    if 0 <= x < 5 && 0 <= y <= 1 {
        assert(spec_index(x, y) == y * 5 + x);
        assert(spec_index(x, y + 1) == (y + 1) * 5 + x);
        assert(spec_index(x, y + 2) == (y + 2) * 5 + x);
        if column_run(b, x, y, false) {
        }
        if column_run(b, x, y, true) {
        }
    }
    if 0 <= x <= 2 && 0 <= y < 4 {
        assert(spec_index(x, y) == y * 5 + x);
        assert(spec_index(x + 1, y) == y * 5 + x + 1);
        assert(spec_index(x + 2, y) == y * 5 + x + 2);
        if row_run(b, x, y, false) {
        }
        if row_run(b, x, y, true) {
        }
    }
}

/// A won board has a lit line: the board counts as won only when three lit
/// nodes stand in one row or one column of it.
pub proof fn law_a_win_needs_a_lit_line(b: Seq<HackNode>)
    requires
        b.len() == 20,
    ensures
        connected_three(b) ==> (exists|x: int, y: int|
            #![trigger b[spec_index(x, y)]]
            (0 <= x <= 2 && 0 <= y < 4 && b[y * 5 + x] is Lit && b[y * 5 + x + 1] is Lit && b[y * 5 + x + 2] is Lit)
                || (0 <= x < 5 && 0 <= y <= 1 && b[y * 5 + x] is Lit && b[(y + 1) * 5 + x] is Lit && b[(y + 2) * 5
                + x] is Lit)),
{
    if connected_three(b) {
        if exists|x: int, y: int| 0 <= x <= 2 && 0 <= y < 4 && #[trigger] row_run(b, x, y, false) {
            let (x, y) = choose|x: int, y: int| 0 <= x <= 2 && 0 <= y < 4 && #[trigger] row_run(b, x, y, false);
            assert(b[spec_index(x, y)] is Lit);
        } else {
            let (x, y) = choose|x: int, y: int| 0 <= x < 5 && 0 <= y <= 1 && #[trigger] column_run(b, x, y, false);
            assert(b[spec_index(x, y)] is Lit);
        }
    }
}

/// Whether three lit nodes stand in a straight line.
pub fn has_connected_three(nodes: &[HackNode; 20]) -> (r: bool)
    ensures
        r == connected_three(nodes@),
{
    find_run(nodes, false)
}

/// Whether some straight line of three could still be lit.
pub fn board_has_potential_path(nodes: &[HackNode; 20]) -> (r: bool)
    ensures
        r == potential_path(nodes@),
{
    find_run(nodes, true)
}


/// A board in play: its phase, its nodes and its generator.
#[derive(Clone, Copy, Debug, PartialEq, Eq)]
pub struct HackState {
    pub phase: HackPhase,
    pub nodes: [HackNode; 20],
    pub rng_state: u64,
}

impl Default for HackState {
    /// An unpaid hacking board.
    fn default() -> (s: HackState)
        ensures
            s.phase == HackPhase::Unpaid,
            s.nodes@ == hack_shape(),
            s.rng_state == 0,
    {
        let nodes = base_hack_board();
        HackState { phase: HackPhase::Unpaid, nodes, rng_state: 0 }
    }
}

/// Input to a keypad or an HRM board.
#[derive(Clone, Copy, Debug, PartialEq, Eq, Structural)]
pub enum KeyPadMsg {
    ButtonPressed(u32),
    Clear,
    StartHack,
    PlayNode { x: usize, y: usize },
}

/// A won or lost board takes no more input.
pub open spec fn finished(phase: HackPhase) -> bool {
    phase is Won || phase is Lost
}

/// What one board input does: the state after it and the effect it emits.
///
/// `chance` and `mine_count` are the effective values of
/// [`effective_hrm_values`]; `payment` is the effect that takes the board's
/// cost from the player, or `None` when the player cannot pay; `seed` seeds a
/// newly dealt board ([`mix_hack_seed`]); `success` and `critical_failure` are
/// what winning and losing do to the object.
pub open spec fn board_step_holds(
    entity_id: EntityId,
    state: HackState,
    msg: KeyPadMsg,
    context: HrmContext,
    chance: i32,
    mine_count: i32,
    payment: Option<Effect>,
    seed: u64,
    success: Effect,
    critical_failure: Effect,
    r: (HackState, Effect),
) -> bool {
    match msg {
        KeyPadMsg::StartHack if !finished(state.phase) => match payment {
            None => r.0 == (HackState { phase: HackPhase::InsufficientNanites, ..state }) && r.1
                == sound_from(entity_id, Sound::Login),
            Some(paid) => {
                &&& r.0.phase == HackPhase::Playing
                &&& (r.0.nodes@, r.0.rng_state) == dealt_board(context, mine_count, seed)
                &&& combines(r.1, seq![paid, sound_from(entity_id, Sound::StartHack)])
            },
        },
        KeyPadMsg::PlayNode { x, y } if x < 5 && y < 4 && state.phase == HackPhase::Playing => {
            let i = spec_index(x as int, y as int);
            let node = state.nodes@[i];
            let next = xorshift(state.rng_state);
            let roll = (next % 100) as int;
            if !(node is Free || node is Mine) {
                r.0 == state && r.1 == sound_from(entity_id, Sound::Login)
            } else if roll < chance {
                let lit = state.nodes@.update(i, HackNode::Lit);
                &&& r.0.nodes@ == lit
                &&& r.0.rng_state == next
                &&& if connected_three(lit) {
                    r.0.phase == HackPhase::Won && combines(
                        r.1,
                        seq![success, sound_from(entity_id, Sound::HackSuccess)],
                    )
                } else {
                    r.0.phase == HackPhase::Playing && r.1 == sound_from(entity_id, Sound::Hacking)
                }
            } else if node is Mine {
                &&& r.0 == (HackState { phase: HackPhase::Lost, rng_state: next, ..state })
                &&& combines(r.1, seq![critical_failure, sound_from(entity_id, Sound::HackCritical)])
            } else {
                let burned = state.nodes@.update(i, HackNode::Burned);
                &&& r.0.nodes@ == burned
                &&& r.0.rng_state == next
                &&& r.0.phase == if potential_path(burned) {
                    HackPhase::Playing
                } else {
                    HackPhase::Unwinnable
                }
                &&& r.1 == sound_from(entity_id, Sound::Hacking)
            }
        },
        _ => r.0 == state && r.1 is NoEffect,
    }
}

/// Plays one input on an HRM board. See [`board_step_holds`] for what each
/// input does.
pub fn handle_hrm_msg(
    entity_id: EntityId,
    state: &HackState,
    msg: &KeyPadMsg,
    context: HrmContext,
    chance: i32,
    mine_count: i32,
    payment: Option<Effect>,
    seed: u64,
    success: Effect,
    critical_failure: Effect,
) -> (r: (HackState, Effect))
    ensures
        board_step_holds(
            entity_id,
            *state,
            *msg,
            context,
            chance,
            mine_count,
            payment,
            seed,
            success,
            critical_failure,
            r,
        ),
{
    let mut new_state = *state;
    match msg {
        KeyPadMsg::StartHack => {
            if matches!(new_state.phase, HackPhase::Won | HackPhase::Lost) {
                return (new_state, Effect::NoEffect);
            }
            match payment {
                None => {
                    new_state.phase = HackPhase::InsufficientNanites;
                    (new_state, play_sound(entity_id, Sound::Login))
                },
                Some(paid) => {
                    let mut rng_state = seed;
                    let nodes = board_with_mines(context, mine_count, &mut rng_state);
                    let dealt = HackState { phase: HackPhase::Playing, nodes, rng_state };
                    (dealt, combine_two(paid, play_sound(entity_id, Sound::StartHack)))
                },
            }
        },
        KeyPadMsg::PlayNode { x, y } => {
            let (x, y) = (*x, *y);
            if !(x < BOARD_WIDTH && y < BOARD_HEIGHT && new_state.phase == HackPhase::Playing) {
                return (new_state, Effect::NoEffect);
            }
            let index = board_index(x, y);
            let node = new_state.nodes[index];
            if !matches!(node, HackNode::Free | HackNode::Mine) {
                return (new_state, play_sound(entity_id, Sound::Login));
            }
            let was_mine = node == HackNode::Mine;
            let roll = outcome_roll(&mut new_state.rng_state);
            if roll_succeeds(roll, chance) {
                new_state.nodes[index] = HackNode::Lit;
                if has_connected_three(&new_state.nodes) {
                    new_state.phase = HackPhase::Won;
                    return (
                        new_state,
                        combine_two(success, play_sound(entity_id, Sound::HackSuccess)),
                    );
                }
            } else if was_mine {
                new_state.phase = HackPhase::Lost;
                return (
                    new_state,
                    combine_two(critical_failure, play_sound(entity_id, Sound::HackCritical)),
                );
            } else {
                new_state.nodes[index] = HackNode::Burned;
                if !board_has_potential_path(&new_state.nodes) {
                    new_state.phase = HackPhase::Unwinnable;
                }
            }
            (new_state, play_sound(entity_id, Sound::Hacking))
        },
        _ => (new_state, Effect::NoEffect),
    }
}

/// A won or lost board is final: no input changes it or has any effect.
pub proof fn law_finished_boards_are_final(
    entity_id: EntityId,
    state: HackState,
    msg: KeyPadMsg,
    context: HrmContext,
    chance: i32,
    mine_count: i32,
    payment: Option<Effect>,
    seed: u64,
    success: Effect,
    critical_failure: Effect,
    r: (HackState, Effect),
)
    requires
        finished(state.phase),
        board_step_holds(
            entity_id,
            state,
            msg,
            context,
            chance,
            mine_count,
            payment,
            seed,
            success,
            critical_failure,
            r,
        ),
    ensures
        r.0 == state,
        r.1 is NoEffect,
{
}


proof fn lemma_free_before_sorted_free(board: Seq<HackNode>, n: nat)
    requires
        n <= board.len(),
        n <= 20,
    ensures
        forall|k: int| 0 <= k < free_before(board, n).len() ==> (#[trigger] board[free_before(board, n)[k] as int]) is Free,
        forall|j: int, k: int| 0 <= j < k < free_before(board, n).len() ==> free_before(board, n)[j] < free_before(board, n)[k],
        forall|k: int| 0 <= k < free_before(board, n).len() ==> #[trigger] free_before(board, n)[k] < n,
    decreases n,
{
    if n > 0 {
        lemma_free_before_sorted_free(board, (n - 1) as nat);
        let prev = free_before(board, (n - 1) as nat);
        let cur = free_before(board, n);
        if board[n - 1] == HackNode::Free {
            assert(((n - 1) as usize) as int == n - 1);
            assert(cur == prev.push((n - 1) as usize));
            assert forall|k: int| 0 <= k < cur.len() implies (#[trigger] board[cur[k] as int]) is Free by {
                if k < prev.len() {
                    assert(cur[k] == prev[k]);
                }
            }
            assert forall|j: int, k: int| 0 <= j < k < cur.len() implies cur[j] < cur[k] by {
                assert(cur[j] == prev[j]);
                if k < prev.len() {
                    assert(cur[k] == prev[k]);
                } else {
                    assert(prev[j] < n - 1);
                }
            }
            assert forall|k: int| 0 <= k < cur.len() implies #[trigger] cur[k] < n by {
                if k < prev.len() {
                    assert(cur[k] == prev[k]);
                }
            }
        }
    }
}

proof fn lemma_deal_keeps_shape(nodes: Seq<HackNode>, free: Seq<usize>, count: nat, rng: u64)
    requires
        forall|k: int| 0 <= k < free.len() ==> #[trigger] free[k] < nodes.len(),
        forall|k: int| 0 <= k < free.len() ==> (#[trigger] nodes[free[k] as int]) is Free,
        free.no_duplicates(),
        free.len() <= 20,
    ensures
        deal_mines(nodes, free, count, rng).0.len() == nodes.len(),
        forall|i: int| 0 <= i < nodes.len() && !(nodes[i] is Free) ==> #[trigger] deal_mines(nodes, free, count, rng).0[i] == nodes[i],
        forall|i: int| 0 <= i < nodes.len() && nodes[i] is Free ==> (#[trigger] deal_mines(nodes, free, count, rng).0[i] is Free || deal_mines(nodes, free, count, rng).0[i] is Mine),
    decreases count,
{
    if count == 0 || free.len() == 0 {
    } else {
        let next = xorshift(rng);
        let len = free.len() as u64;
        assert(len == free.len());
        assert(next % len < len) by (nonlinear_arith)
            requires
                len > 0,
        ;
        let pick = (next % len) as int;
        let nodes2 = nodes.update(free[pick] as int, HackNode::Mine);
        let free2 = free.remove(pick);
        free.remove_ensures(pick);
        assert forall|k: int| 0 <= k < free2.len() implies (#[trigger] nodes2[free2[k] as int]) is Free by {
            if k < pick {
                assert(free2[k] == free[k]);
                assert(free[k] != free[pick]);
            } else {
                assert(free2[k] == free[k + 1]);
                assert(free[k + 1] != free[pick]);
            }
        }
        assert forall|k: int| 0 <= k < free2.len() implies #[trigger] free2[k] < nodes2.len() by {
            if k < pick {
                assert(free2[k] == free[k]);
            } else {
                assert(free2[k] == free[k + 1]);
            }
        }
        assert(free2.no_duplicates()) by {
            assert forall|a: int, b: int| 0 <= a < free2.len() && 0 <= b < free2.len() && a != b implies free2[a] != free2[b] by {
                let ia = if a < pick { a } else { a + 1 };
                let ib = if b < pick { b } else { b + 1 };
                assert(free2[a] == free[ia]);
                assert(free2[b] == free[ib]);
            }
        }
        lemma_deal_keeps_shape(nodes2, free2, (count - 1) as nat, next);
    }
}

proof fn lemma_free_before_agree(n: Seq<HackNode>, n2: Seq<HackNode>, m: nat)
    requires
        m <= n.len(),
        m <= n2.len(),
        forall|j: int| 0 <= j < m ==> n[j] == n2[j],
    ensures
        free_before(n, m) == free_before(n2, m),
    decreases m,
{
    if m > 0 {
        lemma_free_before_agree(n, n2, (m - 1) as nat);
    }
}

/// Mining the free node `i` takes it out of the free list and nothing else.
proof fn lemma_free_before_mine(n: Seq<HackNode>, i: int, m: nat)
    requires
        0 <= i < m <= n.len(),
        n.len() <= 20,
        n[i] is Free,
    ensures
        free_before(n, i as nat).len() < free_before(n, m).len(),
        free_before(n, m)[free_before(n, i as nat).len() as int] == i,
        free_before(n.update(i, HackNode::Mine), m) == free_before(n, m).remove(free_before(n, i as nat).len() as int),
    decreases m,
{
    let n2 = n.update(i, HackNode::Mine);
    let q = free_before(n, i as nat).len() as int;
    assert((i as usize) as int == i);
    if m == i + 1 {
        lemma_free_before_agree(n, n2, i as nat);
        assert(free_before(n, m) == free_before(n, i as nat).push(i as usize));
        assert(free_before(n2, m) == free_before(n2, i as nat));
        assert(free_before(n, m).remove(q) =~= free_before(n, i as nat));
    } else {
        lemma_free_before_mine(n, i, (m - 1) as nat);
        let h = free_before(n, (m - 1) as nat);
        assert(n2[m - 1] == n[m - 1]);
        if n[m - 1] == HackNode::Free {
            assert(h.push((m - 1) as usize).remove(q) =~= h.remove(q).push((m - 1) as usize));
        }
    }
}

/// One more mine from a board whose free list is its free nodes in order.
proof fn lemma_deal_one_more(nodes: Seq<HackNode>, free: Seq<usize>, k: nat, rng: u64)
    requires
        nodes.len() == 20,
        free == free_indices(nodes),
    ensures
        ({
            let (b, s) = deal_mines(nodes, free, k, rng);
            let rem = free_indices(b);
            &&& b.len() == 20
            &&& deal_mines(nodes, free, k + 1, rng) == if rem.len() == 0 {
                (b, s)
            } else {
                (b.update(rem[(xorshift(s) % (rem.len() as u64)) as int] as int, HackNode::Mine), xorshift(s))
            }
        }),
    decreases k,
{
    lemma_free_before_sorted_free(nodes, 20);
    lemma_free_before_bounded(nodes, 20);
    if free.len() == 0 {
    } else {
        let next = xorshift(rng);
        let len = free.len() as u64;
        assert(len == free.len());
        assert(next % len < len) by (nonlinear_arith)
            requires
                len > 0,
        ;
        let pick = (next % len) as int;
        let i = free[pick] as int;
        assert(nodes[i] is Free);
        let q = free_before(nodes, i as nat).len() as int;
        lemma_free_before_mine(nodes, i, 20);
        assert(q == pick) by {
            if q < pick {
                assert(free[q] < free[pick]);
            } else if q > pick {
                assert(free[pick] < free[q]);
            }
        }
        let nodes2 = nodes.update(i, HackNode::Mine);
        let free2 = free.remove(pick);
        assert(free2 == free_indices(nodes2));
        assert(deal_mines(nodes, free, k + 1, rng) == deal_mines(nodes2, free2, k, next));
        if k > 0 {
            assert(deal_mines(nodes, free, k, rng) == deal_mines(nodes2, free2, (k - 1) as nat, next));
            lemma_deal_one_more(nodes2, free2, (k - 1) as nat, next);
        } else {
            assert(deal_mines(nodes2, free2, 0, next) == (nodes2, next));
            assert(deal_mines(nodes, free, 0, rng) == (nodes, rng));
        }
    }
}

/// Every mine is the generator's draw among the nodes still free: dealing
/// one mine more than `mine_count` mines, from the same seed, is the board
/// with `mine_count` mines plus a mine on the still-free node (in board order)
/// that the generator's next value picks, with the generator advanced once;
/// when no node is left free nothing changes. With no mines the board is the
/// mode's shape and the generator is untouched.
pub proof fn law_each_mine_is_the_generators_draw(context: HrmContext, mine_count: i32, seed: u64)
    requires
        mine_count < i32::MAX,
    ensures
        mine_count <= 0 ==> dealt_board(context, mine_count, seed) == (shape_of(context), seed),
        mine_count >= 0 ==> ({
            let (b, s) = dealt_board(context, mine_count, seed);
            let rem = free_indices(b);
            dealt_board(context, (mine_count + 1) as i32, seed) == if rem.len() == 0 {
                (b, s)
            } else {
                (b.update(rem[(xorshift(s) % (rem.len() as u64)) as int] as int, HackNode::Mine), xorshift(s))
            }
        }),
{
    let shape = shape_of(context);
    assert(shape.len() == 20);
    if mine_count >= 0 {
        lemma_deal_one_more(shape, free_indices(shape), mine_count as nat, seed);
    }
}

/// A dealt board keeps its mode's shape: the holes of the shape stay holes,
/// and every playable node is dealt either free or mined.
pub proof fn law_dealt_board_keeps_the_shape(context: HrmContext, mine_count: i32, seed: u64)
    ensures
        dealt_board(context, mine_count, seed).0.len() == 20,
        forall|i: int| 0 <= i < 20 ==> ((#[trigger] dealt_board(context, mine_count, seed).0[i]) is Empty <==> shape_of(context)[i] is Empty),
        forall|i: int| 0 <= i < 20 && !(shape_of(context)[i] is Empty) ==> (#[trigger] dealt_board(context, mine_count, seed).0[i] is Free || dealt_board(context, mine_count, seed).0[i] is Mine),
{
    let shape = shape_of(context);
    assert(shape.len() == 20);
    assert forall|i: int| 0 <= i < 20 implies (#[trigger] shape[i] is Empty || shape[i] is Free) by {
        match context {
            HrmContext::Hack { .. } => { assert(shape == hack_shape()); },
            HrmContext::Repair => { assert(shape == repair_shape()); },
            HrmContext::Modify => { assert(shape == modify_shape()); },
        }
    }
    lemma_free_before_sorted_free(shape, 20);
    let free = free_indices(shape);
    assert(free.no_duplicates()) by {
        assert forall|a: int, b: int| 0 <= a < free.len() && 0 <= b < free.len() && a != b implies free[a] != free[b] by {
            if a < b {
                assert(free[a] < free[b]);
            } else {
                assert(free[b] < free[a]);
            }
        }
    }
    let count: nat = if mine_count < 0 { 0 } else { mine_count as nat };
    lemma_free_before_bounded(shape, 20);
    lemma_deal_keeps_shape(shape, free, count, seed);
}

} // verus!
