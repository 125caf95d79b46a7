//! Applying one batch of updates in dependency order. The batch is taken
//! level by level; the updates of one level go to their mappers together, and
//! only when each of them finds everything it refers to in the caches.

use vstd::prelude::*;
use crate::caches::CachesView;
use crate::caches::EntityCaches;
use crate::entity::level_of;
use crate::entity::EntityKind;
use crate::entity::LEVEL_COUNT;

verus! {

/// What the engine reads of one update of the feed.
#[derive(Clone, Debug, PartialEq, Eq)]
pub struct Update {
    /// The kind of entity that the update writes.
    pub kind: EntityKind,
    /// The key of that entity.
    pub key: u64,
    /// The row that stands for the entity once it is written.
    pub row: u64,
    /// Keys of the tokens that the entity refers to.
    pub tokens: Vec<u64>,
    /// Keys of the pools that the entity refers to.
    pub pools: Vec<u64>,
}

/// Why a batch could not be applied.
#[derive(Clone, Debug, PartialEq, Eq)]
pub enum ApplyCause {
    /// The update with key `record` refers to a token that is not in the store.
    MissingToken { record: u64, token: u64 },
    /// The update with key `record` refers to a pool that is not in the store.
    MissingPool { record: u64, pool: u64 },
    /// A record could not be decoded.
    Decode { message: String },
    /// The store refused a write.
    Store { message: String },
}

/// A failed apply: the kind of entity at which it failed, and why.
#[derive(Clone, Debug, PartialEq, Eq)]
pub struct ApplyError {
    pub kind: EntityKind,
    pub cause: ApplyCause,
}

/// What the mapper of one kind reports when its part of a level is done.
#[derive(Clone, Debug, PartialEq, Eq)]
pub struct MapperReport {
    pub kind: EntityKind,
    /// `None` where every write went through.
    pub failure: Option<ApplyCause>,
}

/// What to do next with a batch.
#[derive(Clone, Debug, PartialEq, Eq)]
pub enum StagePlan {
    /// Hand the updates at these positions of the batch, all of level
    /// `level`, to their mappers, and wait for all of them.
    Run { level: u8, members: Vec<usize> },
    /// Every update of the batch has been applied.
    Done,
    /// The batch cannot be applied any further.
    Failed(ApplyError),
}

/// Everything that `update` refers to is in the caches.
pub open spec fn resolved(update: Update, caches: CachesView) -> bool {
    &&& forall|j: int|
        0 <= j < update.tokens@.len() ==> caches.tokens.contains_key(#[trigger] update.tokens@[j])
    &&& forall|j: int|
        0 <= j < update.pools@.len() ==> caches.pools.contains_key(#[trigger] update.pools@[j])
}

/// `cause` names the first reference of `update` that the caches do not
/// hold: its tokens are looked up first, in order, then its pools.
pub open spec fn names_first_missing(update: Update, caches: CachesView, cause: ApplyCause) -> bool {
    match cause {
        ApplyCause::MissingToken { record, token } => {
            &&& record == update.key
            &&& exists|j: int|
                {
                    &&& 0 <= j < update.tokens@.len()
                    &&& #[trigger] update.tokens@[j] == token
                    &&& !caches.tokens.contains_key(token)
                    &&& forall|h: int|
                        0 <= h < j ==> caches.tokens.contains_key(#[trigger] update.tokens@[h])
                }
        },
        ApplyCause::MissingPool { record, pool } => {
            &&& record == update.key
            &&& forall|h: int|
                0 <= h < update.tokens@.len() ==> caches.tokens.contains_key(
                    #[trigger] update.tokens@[h],
                )
            &&& exists|j: int|
                {
                    &&& 0 <= j < update.pools@.len()
                    &&& #[trigger] update.pools@[j] == pool
                    &&& !caches.pools.contains_key(pool)
                    &&& forall|h: int|
                        0 <= h < j ==> caches.pools.contains_key(#[trigger] update.pools@[h])
                }
        },
        _ => false,
    }
}

/// Position `i` of the batch holds an update of level `level`.
pub open spec fn at_level(batch: Seq<Update>, i: int, level: nat) -> bool {
    0 <= i < batch.len() && level_of(batch[i].kind) == level
}

/// The batch holds an update of level `level`.
pub open spec fn occupied(batch: Seq<Update>, level: nat) -> bool {
    exists|i: int| at_level(batch, i, level)
}

/// No level from `from` up to, not including, `level` holds an update.
pub open spec fn vacant_between(batch: Seq<Update>, from: nat, level: nat) -> bool {
    forall|l: nat| from <= l < level ==> !occupied(batch, l)
}

/// `members` are the positions of the updates of level `level`, each once,
/// in the order of the batch.
pub open spec fn is_stage(batch: Seq<Update>, level: nat, members: Seq<usize>) -> bool {
    &&& forall|a: int, b: int| 0 <= a < b < members.len() ==> members[a] < members[b]
    &&& forall|a: int| 0 <= a < members.len() ==> at_level(batch, #[trigger] members[a] as int, level)
    &&& forall|i: int| #[trigger]
        at_level(batch, i, level) ==> exists|a: int|
            0 <= a < members.len() && #[trigger] members[a] == i
}

/// The update at position `i` is the first of its level that the caches
/// cannot resolve, and `error` says so.
pub open spec fn fails_at(batch: Seq<Update>, i: int, caches: CachesView, error: ApplyError) -> bool {
    &&& 0 <= i < batch.len()
    &&& error.kind == batch[i].kind
    &&& names_first_missing(batch[i], caches, error.cause)
    &&& forall|h: int|
        0 <= h < i && #[trigger] at_level(batch, h, level_of(batch[i].kind)) ==> resolved(
            batch[h],
            caches,
        )
}

/// `plan` is the right thing to do with a batch whose levels below `from`
/// are done: run the lowest level that holds an update, if each of its
/// updates is resolved; fail at the first one that is not; be done where no
/// level is left.
pub open spec fn plan_fits(plan: StagePlan, batch: Seq<Update>, from: nat, caches: CachesView) -> bool {
    match plan {
        StagePlan::Done => vacant_between(batch, from, LEVEL_COUNT as nat),
        StagePlan::Run { level, members } => {
            &&& from <= level < LEVEL_COUNT
            &&& vacant_between(batch, from, level as nat)
            &&& members@.len() > 0
            &&& is_stage(batch, level as nat, members@)
            &&& forall|a: int|
                0 <= a < members@.len() ==> resolved(#[trigger] batch[members@[a] as int], caches)
        },
        StagePlan::Failed(error) => {
            &&& from <= level_of(error.kind)
            &&& vacant_between(batch, from, level_of(error.kind))
            &&& exists|i: int| #[trigger] fails_at(batch, i, caches, error)
        },
    }
}

/// The caches after `update` was written, where it belongs to the level that
/// was run: a token or a pool is now known under its key.
pub open spec fn commit_one(caches: CachesView, update: Update, level: nat) -> CachesView {
    if level_of(update.kind) != level {
        caches
    } else {
        match update.kind {
            EntityKind::Tokens => CachesView {
                tokens: caches.tokens.insert(update.key, update.row),
                ..caches
            },
            EntityKind::Pools => CachesView {
                pools: caches.pools.insert(update.key, update.row),
                ..caches
            },
            _ => caches,
        }
    }
}

/// The caches after the updates of level `level` were written, in the order
/// of the batch.
pub open spec fn committed(caches: CachesView, batch: Seq<Update>, level: nat) -> CachesView
    decreases batch.len(),
{
    if batch.len() == 0 {
        caches
    } else {
        commit_one(committed(caches, batch.drop_last(), level), batch.last(), level)
    }
}

/// The first failure among the reports of one level, in their order.
pub open spec fn first_failure(reports: Seq<MapperReport>) -> Option<ApplyError>
    decreases reports.len(),
{
    if reports.len() == 0 {
        None
    } else {
        match reports[0].failure {
            Some(cause) => Some(ApplyError { kind: reports[0].kind, cause }),
            None => first_failure(reports.drop_first()),
        }
    }
}

fn copy_cause(cause: &ApplyCause) -> (copy: ApplyCause)
    ensures
        copy == *cause,
{
    match cause {
        ApplyCause::MissingToken { record, token } => ApplyCause::MissingToken {
            record: *record,
            token: *token,
        },
        ApplyCause::MissingPool { record, pool } => ApplyCause::MissingPool {
            record: *record,
            pool: *pool,
        },
        ApplyCause::Decode { message } => ApplyCause::Decode { message: message.clone() },
        ApplyCause::Store { message } => ApplyCause::Store { message: message.clone() },
    }
}

/// Joins the reports of the mappers of one level: the level succeeded if all
/// of them did, and failed with the first failure otherwise.
pub fn join_reports(reports: &Vec<MapperReport>) -> (joined: Result<(), ApplyError>)
    ensures
        joined is Ok <==> first_failure(reports@) is None,
        joined matches Err(error) ==> first_failure(reports@) == Some(error),
        joined is Ok <==> forall|i: int| 0 <= i < reports@.len() ==> reports@[i].failure is None,
{
    let mut i: usize = 0;
    assert(reports@.skip(0) =~= reports@);
    while i < reports.len()
        invariant
            i <= reports@.len(),
            first_failure(reports@) == first_failure(reports@.skip(i as int)),
            forall|h: int| 0 <= h < i ==> reports@[h].failure is None,
        decreases reports@.len() - i,
    {
        let ghost rest = reports@.skip(i as int);
        assert(rest[0] == reports@[i as int]);
        assert(rest.drop_first() =~= reports@.skip(i + 1));
        match &reports[i].failure {
            Some(cause) => {
                return Err(ApplyError { kind: reports[i].kind, cause: copy_cause(cause) });
            },
            None => {},
        }
        i = i + 1;
    }
    assert(reports@.skip(i as int).len() == 0);
    Ok(())
}

/// Looks up everything that `update` refers to.
pub fn check_references(update: &Update, caches: &EntityCaches) -> (checked: Result<
    (),
    ApplyCause,
>)
    ensures
        checked is Ok <==> resolved(*update, caches@),
        checked matches Err(cause) ==> names_first_missing(*update, caches@, cause),
{
    let mut j: usize = 0;
    while j < update.tokens.len()
        invariant
            j <= update.tokens@.len(),
            forall|h: int| 0 <= h < j ==> caches@.tokens.contains_key(#[trigger] update.tokens@[h]),
        decreases update.tokens@.len() - j,
    {
        let token: u64 = update.tokens[j];
        if !caches.has_token(token) {
            assert(update.tokens@[j as int] == token);
            return Err(ApplyCause::MissingToken { record: update.key, token });
        }
        j = j + 1;
    }
    let mut k: usize = 0;
    while k < update.pools.len()
        invariant
            k <= update.pools@.len(),
            forall|h: int|
                0 <= h < update.tokens@.len() ==> caches@.tokens.contains_key(
                    #[trigger] update.tokens@[h],
                ),
            forall|h: int| 0 <= h < k ==> caches@.pools.contains_key(#[trigger] update.pools@[h]),
        decreases update.pools@.len() - k,
    {
        let pool: u64 = update.pools[k];
        if !caches.has_pool(pool) {
            assert(update.pools@[k as int] == pool);
            return Err(ApplyCause::MissingPool { record: update.key, pool });
        }
        k = k + 1;
    }
    Ok(())
}

/// The positions of the updates of one level, in the order of the batch.
pub fn stage_members(batch: &Vec<Update>, level: u8) -> (members: Vec<usize>)
    ensures
        is_stage(batch@, level as nat, members@),
        members@.len() == 0 <==> !occupied(batch@, level as nat),
{
    let mut members: Vec<usize> = Vec::new();
    let mut i: usize = 0;
    while i < batch.len()
        invariant
            i <= batch@.len(),
            forall|a: int, b: int| 0 <= a < b < members@.len() ==> members@[a] < members@[b],
            forall|a: int|
                0 <= a < members@.len() ==> #[trigger] members@[a] < i && at_level(
                    batch@,
                    members@[a] as int,
                    level as nat,
                ),
            forall|h: int|
                0 <= h < i && #[trigger] at_level(batch@, h, level as nat) ==> exists|a: int|
                    0 <= a < members@.len() && #[trigger] members@[a] == h,
        decreases batch@.len() - i,
    {
        if batch[i].kind.level() == level {
            let ghost before = members@;
            members.push(i);
            assert forall|h: int|
                0 <= h < i + 1 && #[trigger] at_level(batch@, h, level as nat) implies exists|
                a: int,
            |
                0 <= a < members@.len() && #[trigger] members@[a] == h by {
                if h < i {
                    let a = choose|a: int| 0 <= a < before.len() && #[trigger] before[a] == h;
                    assert(members@[a] == h);
                } else {
                    assert(members@[before.len() as int] == h);
                }
            }
        }
        i = i + 1;
    }
    proof {
        if members@.len() == 0 {
            assert forall|h: int| !at_level(batch@, h, level as nat) by {
                if at_level(batch@, h, level as nat) {
                    let a = choose|a: int| 0 <= a < members@.len() && #[trigger] members@[a] == h;
                }
            }
        } else {
            assert(at_level(batch@, members@[0] as int, level as nat));
        }
    }
    members
}

/// Records in the caches the tokens and pools that the updates of level
/// `level` have written.
pub fn commit_stage(batch: &Vec<Update>, level: u8, caches: &mut EntityCaches)
    ensures
        final(caches)@ == committed(old(caches)@, batch@, level as nat),
{
    let mut i: usize = 0;
    assert(batch@.take(0).len() == 0);
    while i < batch.len()
        invariant
            i <= batch@.len(),
            caches@ == committed(old(caches)@, batch@.take(i as int), level as nat),
        decreases batch@.len() - i,
    {
        let ghost upto = batch@.take(i + 1);
        assert(upto.drop_last() =~= batch@.take(i as int));
        assert(upto.last() == batch@[i as int]);
        if batch[i].kind.level() == level {
            match batch[i].kind {
                EntityKind::Tokens => caches.insert_token(batch[i].key, batch[i].row),
                EntityKind::Pools => caches.insert_pool(batch[i].key, batch[i].row),
                _ => {},
            }
        }
        i = i + 1;
    }
    assert(batch@.take(i as int) =~= batch@);
}

/// Plans the lowest level, from `from` upwards, that holds an update: its
/// updates are to be run if the caches resolve each of them, and the batch
/// fails at the first of them that they do not resolve. Where no such level
/// is left, the batch is done.
pub fn plan_from(batch: &Vec<Update>, from: u8, caches: &EntityCaches) -> (plan: StagePlan)
    ensures
        plan_fits(plan, batch@, from as nat, caches@),
{
    let mut level: u8 = from;
    while level < LEVEL_COUNT
        invariant
            from <= level,
            vacant_between(batch@, from as nat, level as nat),
        decreases LEVEL_COUNT - level,
    {
        let members: Vec<usize> = stage_members(batch, level);
        if members.len() > 0 {
            let mut a: usize = 0;
            while a < members.len()
                invariant
                    a <= members@.len(),
                    from <= level < LEVEL_COUNT,
                    is_stage(batch@, level as nat, members@),
                    vacant_between(batch@, from as nat, level as nat),
                    forall|b: int|
                        0 <= b < a ==> resolved(#[trigger] batch@[members@[b] as int], caches@),
                decreases members@.len() - a,
            {
                let position: usize = members[a];
                assert(at_level(batch@, members@[a as int] as int, level as nat));
                match check_references(&batch[position], caches) {
                    Err(cause) => {
                        let error = ApplyError { kind: batch[position].kind, cause };
                        proof {
                            assert forall|h: int|
                                0 <= h < position && #[trigger] at_level(
                                    batch@,
                                    h,
                                    level as nat,
                                ) implies resolved(batch@[h], caches@) by {
                                let b = choose|b: int|
                                    0 <= b < members@.len() && #[trigger] members@[b] == h;
                                if b >= a {
                                    assert(members@[a as int] <= members@[b]);
                                }
                                assert(resolved(batch@[members@[b] as int], caches@));
                            }
                            assert(fails_at(batch@, position as int, caches@, error));
                        }
                        return StagePlan::Failed(error);
                    },
                    Ok(()) => {},
                }
                a = a + 1;
            }
            return StagePlan::Run { level, members };
        }
        level = level + 1;
    }
    StagePlan::Done
}

/// The first thing to do with a batch.
pub fn first_stage(batch: &Vec<Update>, caches: &EntityCaches) -> (plan: StagePlan)
    ensures
        plan_fits(plan, batch@, 0, caches@),
{
    plan_from(batch, 0, caches)
}

/// What to do after the mappers of level `level` have reported. Where one of
/// them failed, the batch fails with the first failure and the caches stay as
/// they were. Where all succeeded, what they wrote is recorded in the caches
/// and the next level is planned.
pub fn next_stage(
    batch: &Vec<Update>,
    level: u8,
    reports: &Vec<MapperReport>,
    caches: &mut EntityCaches,
) -> (plan: StagePlan)
    ensures
        first_failure(reports@) matches Some(error) ==> plan == StagePlan::Failed(error)
            && final(caches)@ == old(caches)@,
        first_failure(reports@) is None ==> final(caches)@ == committed(
            old(caches)@,
            batch@,
            level as nat,
        ) && plan_fits(plan, batch@, level as nat + 1, final(caches)@),
{
    match join_reports(reports) {
        Err(error) => StagePlan::Failed(error),
        Ok(()) => {
            commit_stage(batch, level, caches);
            if level < LEVEL_COUNT {
                plan_from(batch, level + 1, caches)
            } else {
                StagePlan::Done
            }
        },
    }
}

/// Writing the updates of a level only adds to the caches: every token and
/// pool that was known stays known, and every token and pool of that level is
/// known afterwards. Levels other than those of tokens and pools leave the
/// caches as they were.
pub proof fn lemma_committed_grows(caches: CachesView, batch: Seq<Update>, level: nat)
    ensures
        caches.within(committed(caches, batch, level)),
        forall|i: int|
            #![trigger batch[i]]
            at_level(batch, i, level) && batch[i].kind == EntityKind::Tokens ==> committed(
                caches,
                batch,
                level,
            ).tokens.contains_key(batch[i].key),
        forall|i: int|
            #![trigger batch[i]]
            at_level(batch, i, level) && batch[i].kind == EntityKind::Pools ==> committed(
                caches,
                batch,
                level,
            ).pools.contains_key(batch[i].key),
        level != level_of(EntityKind::Tokens) ==> committed(caches, batch, level).tokens
            == caches.tokens,
        level != level_of(EntityKind::Pools) ==> committed(caches, batch, level).pools
            == caches.pools,
    decreases batch.len(),
{
    if batch.len() > 0 {
        let front = batch.drop_last();
        lemma_committed_grows(caches, front, level);
        let before = committed(caches, front, level);
        let after = committed(caches, batch, level);
        assert(after == commit_one(before, batch.last(), level));
        assert forall|i: int|
            #![trigger batch[i]]
            at_level(batch, i, level) && batch[i].kind == EntityKind::Tokens implies after.tokens.contains_key(
            batch[i].key,
        ) by {
            if i < batch.len() - 1 {
                assert(front[i] == batch[i]);
                assert(at_level(front, i, level));
            }
        }
        assert forall|i: int|
            #![trigger batch[i]]
            at_level(batch, i, level) && batch[i].kind == EntityKind::Pools implies after.pools.contains_key(
            batch[i].key,
        ) by {
            if i < batch.len() - 1 {
                assert(front[i] == batch[i]);
                assert(at_level(front, i, level));
            }
        }
    }
}

/// An update is never handed to its mapper while something it refers to is
/// missing: where the lowest level that is left holds an update that the
/// caches cannot resolve, the only plan that fits is to fail.
pub proof fn lemma_unresolved_reference_fails(
    plan: StagePlan,
    batch: Seq<Update>,
    from: nat,
    caches: CachesView,
    i: int,
)
    requires
        plan_fits(plan, batch, from, caches),
        0 <= i < batch.len(),
        from <= level_of(batch[i].kind),
        vacant_between(batch, from, level_of(batch[i].kind)),
        !resolved(batch[i], caches),
    ensures
        plan is Failed,
        plan matches StagePlan::Failed(error) ==> level_of(error.kind) == level_of(batch[i].kind),
{
    let here = level_of(batch[i].kind);
    assert(at_level(batch, i, here));
    assert(occupied(batch, here));
    crate::entity::lemma_dependency_order(batch[i].kind, batch[i].kind, batch[i].kind);
    match plan {
        StagePlan::Done => {
            assert(false);
        },
        StagePlan::Run { level, members } => {
            if level as nat == here {
                let a = choose|a: int| 0 <= a < members@.len() && #[trigger] members@[a] == i;
                assert(resolved(batch[members@[a] as int], caches));
            } else if (level as nat) < here {
                assert(at_level(batch, members@[0] as int, level as nat));
                assert(occupied(batch, level as nat));
            }
            assert(false);
        },
        StagePlan::Failed(error) => {
            let h = choose|h: int| #[trigger] fails_at(batch, h, caches, error);
            assert(at_level(batch, h, level_of(error.kind)));
            assert(occupied(batch, level_of(error.kind)));
        },
    }
}

/// A token that arrives in the same batch as a pool that refers to it is in
/// the caches once the level of the tokens has been written, which is before
/// the level of the pools is planned.
pub proof fn lemma_token_known_before_pool(
    caches: CachesView,
    batch: Seq<Update>,
    token_at: int,
    pool_at: int,
    reference: int,
)
    requires
        0 <= token_at < batch.len(),
        0 <= pool_at < batch.len(),
        batch[token_at].kind == EntityKind::Tokens,
        batch[pool_at].kind == EntityKind::Pools,
        0 <= reference < batch[pool_at].tokens@.len(),
        batch[pool_at].tokens@[reference] == batch[token_at].key,
    ensures
        level_of(EntityKind::Tokens) < level_of(EntityKind::Pools),
        committed(caches, batch, level_of(EntityKind::Tokens)).tokens.contains_key(
            batch[pool_at].tokens@[reference],
        ),
{
    lemma_committed_grows(caches, batch, level_of(EntityKind::Tokens));
    assert(at_level(batch, token_at, level_of(EntityKind::Tokens)));
}

/// No update is passed over: of the updates whose level is still to come,
/// those of the level that is run are exactly the ones handed out, all others
/// belong to a higher level, and the batch is done only when none is left.
pub proof fn lemma_no_update_skipped(
    plan: StagePlan,
    batch: Seq<Update>,
    from: nat,
    caches: CachesView,
    i: int,
)
    requires
        plan_fits(plan, batch, from, caches),
        0 <= i < batch.len(),
        from <= level_of(batch[i].kind),
    ensures
        !(plan is Done),
        plan matches StagePlan::Run { level, members } ==> level <= level_of(batch[i].kind) && (
        level_of(batch[i].kind) == level <==> exists|a: int|
            0 <= a < members@.len() && #[trigger] members@[a] == i),
{
    let here = level_of(batch[i].kind);
    assert(at_level(batch, i, here));
    assert(occupied(batch, here));
    crate::entity::lemma_dependency_order(batch[i].kind, batch[i].kind, batch[i].kind);
    match plan {
        StagePlan::Run { level, members } => {
            if exists|a: int| 0 <= a < members@.len() && #[trigger] members@[a] == i {
                let a = choose|a: int| 0 <= a < members@.len() && #[trigger] members@[a] == i;
                assert(at_level(batch, members@[a] as int, level as nat));
            }
        },
        _ => {},
    }
}

} // verus!
