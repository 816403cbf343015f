//! Role catalog: body compositions, their derived counts and spawn cost.

use vstd::prelude::*;

verus! {

/// One body part kind of a creep.
#[derive(Clone, Copy, Debug, PartialEq, Eq, Structural)]
pub enum BodyPart {
    Move,
    Work,
    Carry,
    Attack,
    RangedAttack,
    Tough,
    Heal,
    Claim,
}

/// Spawn cost of one part of the given kind.
pub open spec fn part_cost(p: BodyPart) -> nat {
    match p {
        BodyPart::Move => 50,
        BodyPart::Work => 100,
        BodyPart::Carry => 50,
        BodyPart::Attack => 80,
        BodyPart::RangedAttack => 150,
        BodyPart::Tough => 10,
        BodyPart::Heal => 250,
        BodyPart::Claim => 600,
    }
}

/// Sum of the per-part costs of a body.
pub open spec fn parts_cost(parts: Seq<BodyPart>) -> nat
    decreases parts.len(),
{
    if parts.len() == 0 {
        0
    } else {
        parts_cost(parts.drop_last()) + part_cost(parts.last())
    }
}

/// The body described by a list of `(part, count)` entries, in order.
pub open spec fn expand(compose: Seq<(BodyPart, u8)>) -> Seq<BodyPart>
    decreases compose.len(),
{
    if compose.len() == 0 {
        Seq::empty()
    } else {
        expand(compose.drop_last()) + Seq::new(compose.last().1 as nat, |_i: int| compose.last().0)
    }
}

/// Number of parts of the given kind in a body.
pub open spec fn count_of(parts: Seq<BodyPart>, part: BodyPart) -> nat
    decreases parts.len(),
{
    if parts.len() == 0 {
        0
    } else {
        count_of(parts.drop_last(), part) + if parts.last() == part {
            1nat
        } else {
            0nat
        }
    }
}

/// Counting parts of two bodies laid end to end adds their counts.
pub proof fn lemma_count_concat(a: Seq<BodyPart>, b: Seq<BodyPart>, part: BodyPart)
    ensures
        count_of(a + b, part) == count_of(a, part) + count_of(b, part),
    decreases b.len(),
{
    if b.len() == 0 {
        assert(a + b =~= a);
    } else {
        assert((a + b).drop_last() =~= a + b.drop_last());
        lemma_count_concat(a, b.drop_last(), part);
    }
}

/// `n` parts of kind `q` hold `n` parts of kind `q` and none of another.
pub proof fn lemma_count_repeat(n: nat, q: BodyPart, part: BodyPart)
    ensures
        count_of(Seq::new(n, |_i: int| q), part) == (if q == part {
            n
        } else {
            0
        }),
    decreases n,
{
    if n > 0 {
        assert(Seq::new(n, |_i: int| q).drop_last() =~= Seq::new((n - 1) as nat, |_i: int| q));
        lemma_count_repeat((n - 1) as nat, q, part);
    }
}

/// Laying out one more entry adds its count to the count of its kind.
proof fn lemma_count_step(compose: Seq<(BodyPart, u8)>, i: int, part: BodyPart)
    requires
        0 <= i < compose.len(),
    ensures
        count_of(expand(compose.take(i + 1)), part) == count_of(expand(compose.take(i)), part) + if compose[i].0
            == part {
            compose[i].1 as nat
        } else {
            0nat
        },
{
    assert(compose.take(i + 1).drop_last() =~= compose.take(i));
    lemma_count_concat(
        expand(compose.take(i)),
        Seq::new(compose[i].1 as nat, |_j: int| compose[i].0),
        part,
    );
    lemma_count_repeat(compose[i].1 as nat, compose[i].0, part);
}

/// A prefix of the entries never holds more parts of a kind than all of them.
proof fn lemma_count_prefix_bounded(compose: Seq<(BodyPart, u8)>, i: int, part: BodyPart)
    requires
        0 <= i <= compose.len(),
    ensures
        count_of(expand(compose.take(i)), part) <= count_of(expand(compose), part),
    decreases compose.len() - i,
{
    if i < compose.len() {
        lemma_count_prefix_bounded(compose, i + 1, part);
        lemma_count_step(compose, i, part);
    } else {
        assert(compose.take(i) =~= compose);
    }
}

/// Relies on screeps::Part::cost: the game's BODYPART_COST table.
#[verifier::external_body]
fn body_part_cost(p: BodyPart) -> (r: u32)
    ensures
        r == part_cost(p),
{
    let part = match p {
        BodyPart::Move => screeps::Part::Move,
        BodyPart::Work => screeps::Part::Work,
        BodyPart::Carry => screeps::Part::Carry,
        BodyPart::Attack => screeps::Part::Attack,
        BodyPart::RangedAttack => screeps::Part::RangedAttack,
        BodyPart::Tough => screeps::Part::Tough,
        BodyPart::Heal => screeps::Part::Heal,
        BodyPart::Claim => screeps::Part::Claim,
    };
    part.cost()
}

/// A body: the flat list of parts and the number of carry and work parts.
pub struct CreepComposition {
    carry_cnt: u8,
    work_cnt: u8,
    part_vec: Vec<BodyPart>,
}

impl CreepComposition {
    /// The parts of the body, in spawn order.
    pub closed spec fn parts(&self) -> Seq<BodyPart> {
        self.part_vec@
    }

    /// Number of carry parts.
    pub closed spec fn carry(&self) -> u8 {
        self.carry_cnt
    }

    /// Number of work parts.
    pub closed spec fn work(&self) -> u8 {
        self.work_cnt
    }

    /// Builds a body from `(part, count)` entries: the parts are laid out in
    /// entry order, and the carry and work counts are the numbers of carry and
    /// work parts of the body, which must fit a byte.
    pub fn new(compose: &Vec<(BodyPart, u8)>) -> (r: CreepComposition)
        requires
            count_of(expand(compose@), BodyPart::Carry) <= u8::MAX,
            count_of(expand(compose@), BodyPart::Work) <= u8::MAX,
        ensures
            r.parts() == expand(compose@),
            r.carry() == count_of(r.parts(), BodyPart::Carry),
            r.work() == count_of(r.parts(), BodyPart::Work),
    {
        let mut carry_cnt: u8 = 0;
        let mut work_cnt: u8 = 0;
        let mut part_vec: Vec<BodyPart> = Vec::new();
        let mut i: usize = 0;
        while i < compose.len()
            invariant
                i <= compose@.len(),
                part_vec@ == expand(compose@.take(i as int)),
                carry_cnt == count_of(expand(compose@.take(i as int)), BodyPart::Carry),
                work_cnt == count_of(expand(compose@.take(i as int)), BodyPart::Work),
                count_of(expand(compose@), BodyPart::Carry) <= u8::MAX,
                count_of(expand(compose@), BodyPart::Work) <= u8::MAX,
            decreases compose@.len() - i,
        {
            let item = compose[i];
            assert(compose@.take(i + 1).drop_last() == compose@.take(i as int));
            proof {
                lemma_count_step(compose@, i as int, BodyPart::Carry);
                lemma_count_step(compose@, i as int, BodyPart::Work);
                lemma_count_prefix_bounded(compose@, i + 1, BodyPart::Carry);
                lemma_count_prefix_bounded(compose@, i + 1, BodyPart::Work);
            }
            if item.0 == BodyPart::Carry {
                carry_cnt = carry_cnt + item.1;
            }
            if item.0 == BodyPart::Work {
                work_cnt = work_cnt + item.1;
            }
            let ghost before = part_vec@;
            let mut k: u8 = 0;
            while k < item.1
                invariant
                    k <= item.1,
                    part_vec@ == before + Seq::new(k as nat, |_j: int| item.0),
                decreases item.1 - k,
            {
                part_vec.push(item.0);
                k = k + 1;
                assert(part_vec@ =~= before + Seq::new(k as nat, |_j: int| item.0));
            }
            i = i + 1;
        }
        assert(compose@.take(compose@.len() as int) == compose@);
        CreepComposition { carry_cnt, work_cnt, part_vec }
    }

    /// Total spawn cost: the sum of the per-part costs.
    pub fn cost(&self) -> (r: u32)
        requires
            parts_cost(self.parts()) <= u32::MAX,
        ensures
            r == parts_cost(self.parts()),
    {
        let mut sum: u32 = 0;
        let mut i: usize = 0;
        while i < self.part_vec.len()
            invariant
                i <= self.part_vec@.len(),
                sum == parts_cost(self.part_vec@.take(i as int)),
                parts_cost(self.part_vec@) <= u32::MAX,
            decreases self.part_vec@.len() - i,
        {
            assert(self.part_vec@.take(i + 1).drop_last() == self.part_vec@.take(i as int));
            proof {
                lemma_prefix_cost_bounded(self.part_vec@, i + 1);
            }
            let c = body_part_cost(self.part_vec[i]);
            sum = sum + c;
            i = i + 1;
        }
        assert(self.part_vec@.take(self.part_vec@.len() as int) == self.part_vec@);
        sum
    }
}

/// The cost of a prefix of a body never exceeds the cost of the whole body.
pub proof fn lemma_prefix_cost_bounded(parts: Seq<BodyPart>, n: int)
    requires
        0 <= n <= parts.len(),
    ensures
        parts_cost(parts.take(n)) <= parts_cost(parts),
    decreases parts.len() - n,
{
    if n < parts.len() {
        lemma_prefix_cost_bounded(parts, n + 1);
        assert(parts.take(n + 1).drop_last() == parts.take(n));
    } else {
        assert(parts.take(n) == parts);
    }
}

/// Total cost of `(part, count)` entries, counted entry by entry.
pub open spec fn entries_cost(compose: Seq<(BodyPart, u8)>) -> nat
    decreases compose.len(),
{
    if compose.len() == 0 {
        0
    } else {
        entries_cost(compose.drop_last()) + compose.last().1 as nat * part_cost(compose.last().0)
    }
}

/// The cost of two bodies laid end to end is the sum of their costs.
pub proof fn lemma_parts_cost_concat(a: Seq<BodyPart>, b: Seq<BodyPart>)
    ensures
        parts_cost(a + b) == parts_cost(a) + parts_cost(b),
    decreases b.len(),
{
    if b.len() == 0 {
        assert(a + b =~= a);
    } else {
        assert((a + b).drop_last() =~= a + b.drop_last());
        lemma_parts_cost_concat(a, b.drop_last());
    }
}

/// `n` parts of one kind cost `n` times that kind's cost.
pub proof fn lemma_parts_cost_repeat(n: nat, p: BodyPart)
    ensures
        parts_cost(Seq::new(n, |_i: int| p)) == n * part_cost(p),
    decreases n,
{
    if n > 0 {
        assert(Seq::new(n, |_i: int| p).drop_last() =~= Seq::new((n - 1) as nat, |_i: int| p));
        lemma_parts_cost_repeat((n - 1) as nat, p);
        assert(n * part_cost(p) == (n - 1) * part_cost(p) + part_cost(p)) by (nonlinear_arith);
    }
}

/// The cost of a body is the sum, over its `(part, count)` entries, of
/// `count` times the part's cost.
pub proof fn lemma_cost_is_sum_over_entries(compose: Seq<(BodyPart, u8)>)
    ensures
        parts_cost(expand(compose)) == entries_cost(compose),
    decreases compose.len(),
{
    if compose.len() > 0 {
        lemma_cost_is_sum_over_entries(compose.drop_last());
        let last = compose.last();
        lemma_parts_cost_concat(
            expand(compose.drop_last()),
            Seq::new(last.1 as nat, |_i: int| last.0),
        );
        lemma_parts_cost_repeat(last.1 as nat, last.0);
    }
}

/// The `(part, count)` entries that every role is built from.
pub open spec fn standard_entries() -> Seq<(BodyPart, u8)> {
    seq![(BodyPart::Work, 1u8), (BodyPart::Carry, 1u8), (BodyPart::Move, 2u8)]
}

fn standard_compose() -> (r: Vec<(BodyPart, u8)>)
    ensures
        r@ == standard_entries(),
{
    let mut compose: Vec<(BodyPart, u8)> = Vec::new();
    compose.push((BodyPart::Work, 1));
    compose.push((BodyPart::Carry, 1));
    compose.push((BodyPart::Move, 2));
    assert(compose@ =~= standard_entries());
    compose
}

/// A creep's role together with its body.
pub enum CreepType {
    Normal(CreepComposition),
    Upgrader(CreepComposition),
    Builder(CreepComposition),
    Carrier(CreepComposition),
    Miner(CreepComposition),
}

fn text_is(a: &str, b: &str) -> (r: bool)
    ensures
        r == (a@ == b@),
{
    let x = a.to_owned();
    let y = b.to_owned();
    x == y
}

impl CreepType {
    /// The body of this role.
    pub open spec fn composition(self) -> CreepComposition {
        match self {
            CreepType::Normal(c) => c,
            CreepType::Upgrader(c) => c,
            CreepType::Builder(c) => c,
            CreepType::Carrier(c) => c,
            CreepType::Miner(c) => c,
        }
    }

    /// The role named by a name prefix: "upgrader", "builder", "carrier" and
    /// "miner" name their roles, anything else is a normal worker. Every role
    /// gets the standard body.
    pub fn new(name: &str) -> (r: CreepType)
        ensures
            (r is Upgrader) == (name@ == "upgrader"@),
            (r is Builder) == (name@ == "builder"@),
            (r is Carrier) == (name@ == "carrier"@),
            (r is Miner) == (name@ == "miner"@),
            r.composition().parts() == expand(standard_entries()),
            r.composition().carry() == 1,
            r.composition().work() == 1,
    {
        proof {
            reveal_strlit("upgrader");
            reveal_strlit("builder");
            reveal_strlit("carrier");
            reveal_strlit("miner");
            assert("upgrader"@.len() != "builder"@.len());
            assert("upgrader"@.len() != "carrier"@.len());
            assert("upgrader"@.len() != "miner"@.len());
            assert("builder"@[0] != "carrier"@[0]);
            assert("builder"@.len() != "miner"@.len());
            assert("carrier"@.len() != "miner"@.len());
        }
        proof {
            lemma_standard_body();
        }
        let compose = standard_compose();
        let c = CreepComposition::new(&compose);
        if text_is(name, "upgrader") {
            CreepType::Upgrader(c)
        } else if text_is(name, "builder") {
            CreepType::Builder(c)
        } else if text_is(name, "carrier") {
            CreepType::Carrier(c)
        } else if text_is(name, "miner") {
            CreepType::Miner(c)
        } else {
            CreepType::Normal(c)
        }
    }

    /// Spawn cost of this role's body.
    pub fn cost(&self) -> (r: u32)
        requires
            parts_cost(self.composition().parts()) <= u32::MAX,
        ensures
            r == parts_cost(self.composition().parts()),
    {
        match self {
            CreepType::Normal(c) => c.cost(),
            CreepType::Upgrader(c) => c.cost(),
            CreepType::Builder(c) => c.cost(),
            CreepType::Carrier(c) => c.cost(),
            CreepType::Miner(c) => c.cost(),
        }
    }

    /// The parts of this role's body, in spawn order.
    pub fn part_vec(&self) -> (r: &Vec<BodyPart>)
        ensures
            r@ == self.composition().parts(),
    {
        match self {
            CreepType::Normal(c) => &c.part_vec,
            CreepType::Upgrader(c) => &c.part_vec,
            CreepType::Builder(c) => &c.part_vec,
            CreepType::Carrier(c) => &c.part_vec,
            CreepType::Miner(c) => &c.part_vec,
        }
    }

    /// Number of carry parts of this role's body.
    pub fn carry_cnt(&self) -> (r: u8)
        ensures
            r == self.composition().carry(),
    {
        match self {
            CreepType::Normal(c) => c.carry_cnt,
            CreepType::Upgrader(c) => c.carry_cnt,
            CreepType::Builder(c) => c.carry_cnt,
            CreepType::Carrier(c) => c.carry_cnt,
            CreepType::Miner(c) => c.carry_cnt,
        }
    }

    /// Number of work parts of this role's body.
    pub fn work_cnt(&self) -> (r: u8)
        ensures
            r == self.composition().work(),
    {
        match self {
            CreepType::Normal(c) => c.work_cnt,
            CreepType::Upgrader(c) => c.work_cnt,
            CreepType::Builder(c) => c.work_cnt,
            CreepType::Carrier(c) => c.work_cnt,
            CreepType::Miner(c) => c.work_cnt,
        }
    }
}

/// The standard body: one work part, one carry part and two move parts,
/// costing 250 in all.
pub proof fn lemma_standard_body()
    ensures
        expand(standard_entries()) == seq![BodyPart::Work, BodyPart::Carry, BodyPart::Move, BodyPart::Move],
        parts_cost(expand(standard_entries())) == 250,
        count_of(expand(standard_entries()), BodyPart::Carry) == 1,
        count_of(expand(standard_entries()), BodyPart::Work) == 1,
{
    reveal_with_fuel(expand, 4);
    assert(expand(standard_entries()) =~= seq![BodyPart::Work, BodyPart::Carry, BodyPart::Move, BodyPart::Move]);
    let s = seq![BodyPart::Work, BodyPart::Carry, BodyPart::Move, BodyPart::Move];
    assert(s.drop_last() =~= seq![BodyPart::Work, BodyPart::Carry, BodyPart::Move]);
    assert(s.drop_last().drop_last() =~= seq![BodyPart::Work, BodyPart::Carry]);
    assert(s.drop_last().drop_last().drop_last() =~= seq![BodyPart::Work]);
    assert(s.drop_last().drop_last().drop_last().drop_last() =~= Seq::<BodyPart>::empty());
    reveal_with_fuel(parts_cost, 5);
    reveal_with_fuel(count_of, 5);
}

} // verus!
