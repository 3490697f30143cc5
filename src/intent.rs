use vstd::prelude::*;
use crate::ast::Constraint;

verus! {

/// Relies on `uuid::Uuid::new_v4` and `Uuid::as_u128`: a random 128-bit
/// identifier.
#[verifier::external_body]
fn fresh_id() -> (r: u128) {
    uuid::Uuid::new_v4().as_u128()
}

/// One requirement of an intent.
#[derive(Debug, Clone)]
pub struct Requirement {
    pub id: u128,
    pub content: String,
    pub verified: bool,
    pub constraints: Vec<Constraint>,
}

impl Requirement {
    /// A copy of the requirement.
    pub fn duplicate(&self) -> (r: Requirement)
        ensures
            r.id == self.id,
            r.content == self.content,
            r.verified == self.verified,
            r.constraints@ == self.constraints@,
    {
        let mut constraints: Vec<Constraint> = Vec::new();
        let mut i: usize = 0;
        while i < self.constraints.len()
            invariant
                i <= self.constraints@.len(),
                constraints@ == self.constraints@.subrange(0, i as int),
            decreases self.constraints@.len() - i,
        {
            constraints.push(self.constraints[i].duplicate());
            proof {
                assert(constraints@ =~= self.constraints@.subrange(0, i + 1));
            }
            i = i + 1;
        }
        proof {
            assert(constraints@ =~= self.constraints@);
        }
        Requirement {
            id: self.id,
            content: self.content.clone(),
            verified: self.verified,
            constraints,
        }
    }
}

/// The share of verified requirements: `100 × verified / total`, and 0
/// when there are none.
#[derive(Debug, Clone, Copy, PartialEq, Eq, Structural)]
pub struct Score {
    pub verified: usize,
    pub total: usize,
}

impl Score {
    /// The score as a fraction `(numerator, denominator)` of 100 points.
    pub open spec fn value(&self) -> (int, int) {
        if self.total == 0 {
            (0, 1)
        } else {
            (100 * self.verified, self.total as int)
        }
    }

    /// The score in whole percent, rounded down.
    pub fn percent(&self) -> (r: u64)
        requires
            self.verified <= self.total,
        ensures
            self.total == 0 ==> r == 0,
            self.total > 0 ==> r as int == (100 * self.verified as int) / (self.total as int),
    {
        if self.total == 0 {
            0
        } else {
            proof {
                assert(100 * (self.verified as int) <= 100 * (self.total as int)) by (nonlinear_arith)
                    requires
                        self.verified <= self.total,
                ;
                assert((100 * self.verified as int) / (self.total as int) <= 100) by (
                nonlinear_arith)
                    requires
                        self.verified <= self.total,
                        self.total > 0,
                ;
            }
            ((100 * (self.verified as u128)) / (self.total as u128)) as u64
        }
    }
}

/// Number of verified requirements.
pub open spec fn verified_count(rs: Seq<Requirement>) -> nat
    decreases rs.len(),
{
    if rs.len() == 0 {
        0
    } else {
        verified_count(rs.drop_last()) + if rs.last().verified {
            1nat
        } else {
            0nat
        }
    }
}

/// The score a list of requirements has.
pub open spec fn score_of(rs: Seq<Requirement>) -> Score {
    Score { verified: verified_count(rs) as usize, total: rs.len() as usize }
}

proof fn lemma_verified_count_le(rs: Seq<Requirement>)
    ensures
        verified_count(rs) <= rs.len(),
    decreases rs.len(),
{
    if rs.len() > 0 {
        lemma_verified_count_le(rs.drop_last());
    }
}

/// An intent: requirements in insertion order, and their score.
#[derive(Debug, Clone)]
pub struct IntentAst {
    pub id: u128,
    pub requirements: Vec<Requirement>,
    pub correctness_score: Score,
}

/// No two requirements share an identifier.
pub open spec fn ids_unique(rs: Seq<Requirement>) -> bool {
    forall|i: int, j: int|
        0 <= i < rs.len() && 0 <= j < rs.len() && i != j ==> (#[trigger] rs[i]).id != (#[trigger] rs[j]).id
}

/// Whether some requirement has identifier `id`.
pub open spec fn id_used(rs: Seq<Requirement>, id: u128) -> bool {
    exists|i: int| 0 <= i < rs.len() && (#[trigger] rs[i]).id == id
}

fn id_taken(rs: &Vec<Requirement>, id: u128) -> (r: bool)
    ensures
        r == id_used(rs@, id),
{
    let mut i: usize = 0;
    while i < rs.len()
        invariant
            i <= rs@.len(),
            forall|j: int| 0 <= j < i ==> (#[trigger] rs@[j]).id != id,
        decreases rs@.len() - i,
    {
        if rs[i].id == id {
            return true;
        }
        i = i + 1;
    }
    false
}

/// If every identifier up to `c` is used, there are more than `c`
/// requirements.
proof fn lemma_used_ids_bound(rs: Seq<Requirement>, c: int)
    requires
        0 <= c,
        forall|x: int| 0 <= x <= c ==> #[trigger] id_used(rs, x as u128),
        c <= u128::MAX,
    ensures
        c + 1 <= rs.len(),
{
    let ids = rs.map_values(|q: Requirement| q.id as int);
    let s = ids.to_set();
    ids.lemma_cardinality_of_set();
    vstd::seq_lib::seq_to_set_is_finite(ids);
    vstd::set_lib::lemma_int_range(0, c + 1);
    let range = vstd::set_lib::set_int_range(0, c + 1);
    assert forall|x: int| range.contains(x) implies s.contains(x) by {
        assert(id_used(rs, x as u128));
        let i = choose|i: int| 0 <= i < rs.len() && (#[trigger] rs[i]).id == x as u128;
        assert(ids[i] == x);
    }
    vstd::set_lib::lemma_len_subset(range, s);
}

/// The least identifier no requirement uses.
fn unused_id(rs: &Vec<Requirement>) -> (r: u128)
    ensures
        !id_used(rs@, r),
{
    let n = rs.len();
    let mut c: u128 = 0;
    while id_taken(rs, c)
        invariant
            n == rs@.len(),
            c as int <= rs@.len(),
            forall|x: int| 0 <= x < c ==> #[trigger] id_used(rs@, x as u128),
        decreases rs@.len() - c,
    {
        proof {
            assert forall|x: int| 0 <= x <= c implies #[trigger] id_used(rs@, x as u128) by {
                if x < c {
                } else {
                    assert(x as u128 == c);
                }
            }
            lemma_used_ids_bound(rs@, c as int);
        }
        c = c + 1;
    }
    c
}

impl IntentAst {
    /// Well-formed: the score is the one the requirements have, and the
    /// requirement identifiers are distinct.
    pub open spec fn wf(&self) -> bool {
        self.correctness_score == score_of(self.requirements@) && ids_unique(self.requirements@)
    }

    /// An empty intent with a fresh identifier.
    pub fn new() -> (r: IntentAst)
        ensures
            r.wf(),
            r.requirements@.len() == 0,
            r.correctness_score == (Score { verified: 0, total: 0 }),
    {
        IntentAst { id: fresh_id(), requirements: Vec::new(), correctness_score: Score { verified: 0, total: 0 } }
    }

    /// Computes the score of the requirements.
    pub fn compute_score(&self) -> (r: Score)
        ensures
            r == score_of(self.requirements@),
    {
        let mut verified: usize = 0;
        let mut i: usize = 0;
        while i < self.requirements.len()
            invariant
                i <= self.requirements@.len(),
                verified as nat == verified_count(self.requirements@.subrange(0, i as int)),
            decreases self.requirements@.len() - i,
        {
            proof {
                let q = self.requirements@.subrange(0, i + 1);
                assert(q.drop_last() == self.requirements@.subrange(0, i as int));
                lemma_verified_count_le(self.requirements@.subrange(0, i as int));
            }
            if self.requirements[i].verified {
                verified = verified + 1;
            }
            i = i + 1;
        }
        proof {
            assert(self.requirements@.subrange(0, self.requirements@.len() as int)
                == self.requirements@);
        }
        Score { verified, total: self.requirements.len() }
    }

    fn update_score(&mut self)
        requires
            ids_unique(old(self).requirements@),
        ensures
            final(self).wf(),
            final(self).id == old(self).id,
            final(self).requirements == old(self).requirements,
    {
        self.correctness_score = self.compute_score();
    }

    /// Appends a new, unverified requirement with no constraints and an
    /// identifier no other requirement has, and recomputes the score.
    pub fn add_requirement(&mut self, content: String)
        requires
            old(self).wf(),
        ensures
            !id_used(old(self).requirements@, final(self).requirements@.last().id),
            final(self).wf(),
            final(self).id == old(self).id,
            final(self).requirements@.len() == old(self).requirements@.len() + 1,
            final(self).requirements@.drop_last() == old(self).requirements@,
            final(self).requirements@.last().content == content,
            !final(self).requirements@.last().verified,
            final(self).requirements@.last().constraints@.len() == 0,
    {
        let drawn = fresh_id();
        let id = if id_taken(&self.requirements, drawn) {
            unused_id(&self.requirements)
        } else {
            drawn
        };
        let req = Requirement { id, content, verified: false, constraints: Vec::new() };
        self.requirements.push(req);
        proof {
            assert(self.requirements@.drop_last() == old(self).requirements@);
            assert forall|i: int, j: int|
                0 <= i < self.requirements@.len() && 0 <= j < self.requirements@.len() && i != j
                    implies (#[trigger] self.requirements@[i]).id != (
                #[trigger] self.requirements@[j]).id by {
                if i == self.requirements@.len() - 1 {
                    assert(self.requirements@[j] == old(self).requirements@[j]);
                } else if j == self.requirements@.len() - 1 {
                    assert(self.requirements@[i] == old(self).requirements@[i]);
                } else {
                    assert(self.requirements@[i] == old(self).requirements@[i]);
                    assert(self.requirements@[j] == old(self).requirements@[j]);
                }
            }
        }
        self.update_score();
    }

    /// Records a verification pass over requirement `index`: it is verified
    /// only when every one of its constraints passed. An index out of range
    /// changes nothing.
    pub fn record_verification(&mut self, index: usize, passed: &Vec<bool>)
        requires
            old(self).wf(),
        ensures
            final(self).wf(),
            final(self).id == old(self).id,
            final(self).requirements@.len() == old(self).requirements@.len(),
            index >= old(self).requirements@.len() ==> final(self).requirements@
                == old(self).requirements@,
            index < old(self).requirements@.len() ==> {
                let before = old(self).requirements@[index as int];
                let after = final(self).requirements@[index as int];
                &&& forall|j: int|
                    0 <= j < old(self).requirements@.len() && j != index
                        ==> final(self).requirements@[j] == old(self).requirements@[j]
                &&& after.id == before.id
                &&& after.content == before.content
                &&& after.constraints@ == before.constraints@
                &&& after.verified == (passed@.len() == before.constraints@.len() && forall|t: int|
                    0 <= t < passed@.len() ==> #[trigger] passed@[t])
            },
    {
        if index >= self.requirements.len() {
            self.update_score();
            return;
        }
        let mut all = passed.len() == self.requirements[index].constraints.len();
        let mut j: usize = 0;
        while j < passed.len()
            invariant
                j <= passed@.len(),
                all == (passed@.len() == old(self).requirements@[index as int].constraints@.len()
                    && forall|t: int| 0 <= t < j ==> #[trigger] passed@[t]),
                self == old(self),
            decreases passed@.len() - j,
        {
            all = all && passed[j];
            j = j + 1;
        }
        let mut req = self.requirements[index].duplicate();
        req.verified = all;
        self.requirements.set(index, req);
        self.update_score();
    }
}

/// Computing the score twice, with no change in between, gives the same
/// value.
pub proof fn lemma_score_idempotent(ast: IntentAst, first: Score, second: Score)
    requires
        first == score_of(ast.requirements@),
        second == score_of(ast.requirements@),
    ensures
        first == second,
{
}

} // verus!
