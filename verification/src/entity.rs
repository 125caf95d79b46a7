//! The kinds of entity that the feed carries and the fixed order in which
//! they depend on each other.

use vstd::prelude::*;

verus! {

/// Number of dependency levels.
pub const LEVEL_COUNT: u8 = 5;

/// A kind of entity mirrored from the feed.
#[derive(Clone, Copy, Debug, PartialEq, Eq, Structural)]
pub enum EntityKind {
    Users,
    Tokens,
    Pools,
    LpTokens,
    Requests,
    Claims,
    Transfers,
    Transactions,
}

/// The dependency level of a kind: a kind may refer only to kinds of a lower
/// level, and kinds of one level do not refer to each other.
pub open spec fn level_of(kind: EntityKind) -> nat {
    match kind {
        EntityKind::Users => 0,
        EntityKind::Tokens => 1,
        EntityKind::Pools => 2,
        EntityKind::LpTokens => 3,
        EntityKind::Requests => 3,
        EntityKind::Claims => 3,
        EntityKind::Transfers => 3,
        EntityKind::Transactions => 4,
    }
}

/// Entities of kind `first` have to be in the store before any entity of
/// kind `second` is applied.
pub open spec fn must_precede(first: EntityKind, second: EntityKind) -> bool {
    level_of(first) < level_of(second)
}

/// Every kind once, in the order in which a full snapshot is applied.
pub open spec fn snapshot_order() -> Seq<EntityKind> {
    seq![
        EntityKind::Users,
        EntityKind::Tokens,
        EntityKind::Pools,
        EntityKind::LpTokens,
        EntityKind::Requests,
        EntityKind::Claims,
        EntityKind::Transfers,
        EntityKind::Transactions,
    ]
}

impl EntityKind {
    /// The dependency level of this kind.
    pub fn level(self) -> (level: u8)
        ensures
            level as nat == level_of(self),
            level < LEVEL_COUNT,
    {
        match self {
            EntityKind::Users => 0,
            EntityKind::Tokens => 1,
            EntityKind::Pools => 2,
            EntityKind::LpTokens => 3,
            EntityKind::Requests => 3,
            EntityKind::Claims => 3,
            EntityKind::Transfers => 3,
            EntityKind::Transactions => 4,
        }
    }

    /// Whether entities of this kind have to be in the store before any of
    /// kind `other` is applied.
    pub fn precedes(self, other: EntityKind) -> (r: bool)
        ensures
            r == must_precede(self, other),
    {
        self.level() < other.level()
    }

    /// Whether this kind and `other` may be applied at the same time.
    pub fn independent_of(self, other: EntityKind) -> (r: bool)
        ensures
            r == (!must_precede(self, other) && !must_precede(other, self)),
            r == (level_of(self) == level_of(other)),
    {
        self.level() == other.level()
    }
}

/// Every kind once, in the order in which a full snapshot is applied: each
/// kind after all the kinds it may refer to.
pub fn full_order() -> (order: Vec<EntityKind>)
    ensures
        order@ == snapshot_order(),
{
    let mut order: Vec<EntityKind> = Vec::new();
    order.push(EntityKind::Users);
    order.push(EntityKind::Tokens);
    order.push(EntityKind::Pools);
    order.push(EntityKind::LpTokens);
    order.push(EntityKind::Requests);
    order.push(EntityKind::Claims);
    order.push(EntityKind::Transfers);
    order.push(EntityKind::Transactions);
    assert(order@ =~= snapshot_order());
    order
}

/// The snapshot order names every kind exactly once and never places a kind
/// before one that it depends on.
pub proof fn lemma_snapshot_order_respects_levels()
    ensures
        snapshot_order().len() == 8,
        forall|kind: EntityKind| #[trigger] snapshot_order().contains(kind),
        forall|i: int, j: int|
            0 <= i < j < 8 ==> snapshot_order()[i] != snapshot_order()[j] && level_of(
                snapshot_order()[i],
            ) <= level_of(snapshot_order()[j]),
        forall|i: int, j: int|
            0 <= i < 8 && 0 <= j < 8 && must_precede(snapshot_order()[i], snapshot_order()[j])
                ==> i < j,
{
    let order = snapshot_order();
    assert forall|kind: EntityKind| #[trigger] order.contains(kind) by {
        match kind {
            EntityKind::Users => assert(order[0] == kind),
            EntityKind::Tokens => assert(order[1] == kind),
            EntityKind::Pools => assert(order[2] == kind),
            EntityKind::LpTokens => assert(order[3] == kind),
            EntityKind::Requests => assert(order[4] == kind),
            EntityKind::Claims => assert(order[5] == kind),
            EntityKind::Transfers => assert(order[6] == kind),
            EntityKind::Transactions => assert(order[7] == kind),
        }
    }
}

/// The dependency order is a strict order on kinds, every level below
/// [`LEVEL_COUNT`], and the chain runs from users through tokens and pools to
/// transactions.
pub proof fn lemma_dependency_order(a: EntityKind, b: EntityKind, c: EntityKind)
    ensures
        !must_precede(a, a),
        must_precede(a, b) && must_precede(b, c) ==> must_precede(a, c),
        !(must_precede(a, b) && must_precede(b, a)),
        level_of(a) < LEVEL_COUNT,
        must_precede(EntityKind::Users, EntityKind::Tokens),
        must_precede(EntityKind::Tokens, EntityKind::Pools),
        must_precede(EntityKind::Pools, EntityKind::LpTokens),
        must_precede(EntityKind::Pools, EntityKind::Requests),
        must_precede(EntityKind::Pools, EntityKind::Claims),
        must_precede(EntityKind::Pools, EntityKind::Transfers),
        must_precede(EntityKind::LpTokens, EntityKind::Transactions),
        must_precede(EntityKind::Requests, EntityKind::Transactions),
        must_precede(EntityKind::Claims, EntityKind::Transactions),
        must_precede(EntityKind::Transfers, EntityKind::Transactions),
{
}

} // verus!
