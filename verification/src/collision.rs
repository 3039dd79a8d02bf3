//! The typed collision-event resolver.
//!
//! The physics collaborator reports raw "contact started" notifications,
//! each naming two participant identifiers.  Every participant that can
//! matter carries a [`CollidingObj`] role tag; the resolver looks both
//! tags up, classifies the unordered pair, and emits typed outcome
//! events plus a running score.  Untagged participants are silently
//! ignored.

use vstd::prelude::*;

verus! {

/// Role of a collidable entity, fixed for its lifetime and used only to
/// classify contacts.
#[derive(Clone, Copy, Debug, PartialEq, Eq, Structural)]
pub enum CollidingObj {
    Player,
    Bullet,
    Enemy { dmg: u32 },
    Environment,
}

/// The player took `.0` damage from touching an enemy.
#[derive(Clone, Copy, Debug, PartialEq, Eq, Structural)]
pub struct PlayerDamage(pub u32);

/// Enemy `.0` was hit and should start dying.
#[derive(Clone, Copy, Debug, PartialEq, Eq, Structural)]
pub struct EnemyReceiveHitEvent(pub u64);

/// Bullet `.0` was consumed by a contact.
#[derive(Clone, Copy, Debug, PartialEq, Eq, Structural)]
pub struct BulletCollided(pub u64);

/// Two collidable entities began touching this tick (edge-triggered).
#[derive(Clone, Copy, Debug, PartialEq, Eq, Structural)]
pub struct ContactStarted {
    pub first: u64,
    pub second: u64,
}

/// Running score: enemies killed by bullets.  Monotonically
/// non-decreasing; additions saturate.
#[derive(Clone, Copy, Debug, PartialEq, Eq, Structural)]
pub struct GameScore(pub u32);

/// What one contact notification amounts to, once both participants'
/// roles are known.
#[derive(Clone, Copy, Debug, PartialEq, Eq, Structural)]
pub enum ContactOutcome {
    /// An enemy touched the player: the player takes damage and the
    /// enemy is hit in return.
    PlayerHit { dmg: u32, enemy: u64 },
    /// A bullet touched an enemy: the bullet is consumed, the enemy is
    /// hit, and the score rises by one.
    EnemyShot { bullet: u64, enemy: u64 },
    /// A bullet touched the environment and is consumed.
    BulletStopped { bullet: u64 },
    /// Any other pair, or an untagged participant: no effect.
    Nothing,
}

/// Classification of one contact by the unordered pair of roles.  A
/// missing role tag never matches, so contacts naming unknown entities
/// fall through to `Nothing`.
pub open spec fn spec_outcome(
    role_a: Option<CollidingObj>,
    role_b: Option<CollidingObj>,
    id_a: u64,
    id_b: u64,
) -> ContactOutcome {
    match (role_a, role_b) {
        (Some(CollidingObj::Enemy { dmg }), Some(CollidingObj::Player)) => ContactOutcome::PlayerHit {
            dmg,
            enemy: id_a,
        },
        (Some(CollidingObj::Player), Some(CollidingObj::Enemy { dmg })) => ContactOutcome::PlayerHit {
            dmg,
            enemy: id_b,
        },
        (Some(CollidingObj::Enemy { dmg: _ }), Some(CollidingObj::Bullet)) => ContactOutcome::EnemyShot {
            bullet: id_b,
            enemy: id_a,
        },
        (Some(CollidingObj::Bullet), Some(CollidingObj::Enemy { dmg: _ })) => ContactOutcome::EnemyShot {
            bullet: id_a,
            enemy: id_b,
        },
        (Some(CollidingObj::Environment), Some(CollidingObj::Bullet)) => ContactOutcome::BulletStopped {
            bullet: id_b,
        },
        (Some(CollidingObj::Bullet), Some(CollidingObj::Environment)) => ContactOutcome::BulletStopped {
            bullet: id_a,
        },
        _ => ContactOutcome::Nothing,
    }
}

/// Classifies one contact notification from the two participants' role
/// tags.
pub fn resolve_contact(
    role_a: Option<CollidingObj>,
    role_b: Option<CollidingObj>,
    id_a: u64,
    id_b: u64,
) -> (r: ContactOutcome)
    ensures
        r == spec_outcome(role_a, role_b, id_a, id_b),
{
    match (role_a, role_b) {
        (Some(CollidingObj::Enemy { dmg }), Some(CollidingObj::Player)) => ContactOutcome::PlayerHit {
            dmg,
            enemy: id_a,
        },
        (Some(CollidingObj::Player), Some(CollidingObj::Enemy { dmg })) => ContactOutcome::PlayerHit {
            dmg,
            enemy: id_b,
        },
        (Some(CollidingObj::Enemy { dmg: _ }), Some(CollidingObj::Bullet)) => ContactOutcome::EnemyShot {
            bullet: id_b,
            enemy: id_a,
        },
        (Some(CollidingObj::Bullet), Some(CollidingObj::Enemy { dmg: _ })) => ContactOutcome::EnemyShot {
            bullet: id_a,
            enemy: id_b,
        },
        (Some(CollidingObj::Environment), Some(CollidingObj::Bullet)) => ContactOutcome::BulletStopped {
            bullet: id_b,
        },
        (Some(CollidingObj::Bullet), Some(CollidingObj::Environment)) => ContactOutcome::BulletStopped {
            bullet: id_a,
        },
        _ => ContactOutcome::Nothing,
    }
}

/// Contacts are classified by the unordered pair of roles: swapping the
/// two participants of a notification yields the same outcome.
pub proof fn lemma_outcome_symmetric(
    role_a: Option<CollidingObj>,
    role_b: Option<CollidingObj>,
    id_a: u64,
    id_b: u64,
)
    ensures
        spec_outcome(role_a, role_b, id_a, id_b) == spec_outcome(role_b, role_a, id_b, id_a),
{
}

/// A notification with an untagged participant is silently ignored:
/// whatever the other participant is, the outcome is `Nothing`.
pub proof fn lemma_untagged_participant_ignored(
    role: Option<CollidingObj>,
    id_a: u64,
    id_b: u64,
)
    ensures
        spec_outcome(None, role, id_a, id_b) == ContactOutcome::Nothing,
        spec_outcome(role, None, id_a, id_b) == ContactOutcome::Nothing,
{
}

/// The role tag of `id` in a registry of tagged entities: the tag of the
/// first entry carrying that identifier, or `None` when the entity is
/// unknown (despawned, or never tagged).
pub open spec fn spec_role_of(table: Seq<(u64, CollidingObj)>, id: u64) -> Option<CollidingObj>
    decreases table.len(),
{
    if table.len() == 0 {
        None
    } else if table[0].0 == id {
        Some(table[0].1)
    } else {
        spec_role_of(table.skip(1), id)
    }
}

/// Looks up the role tag of `id` in the registry.
pub fn role_of(table: &Vec<(u64, CollidingObj)>, id: u64) -> (r: Option<CollidingObj>)
    ensures
        r == spec_role_of(table@, id),
{
    let mut i: usize = 0;
    assert(table@.skip(0) =~= table@);
    while i < table.len()
        invariant
            0 <= i <= table@.len(),
            spec_role_of(table@, id) == spec_role_of(table@.skip(i as int), id),
        decreases table@.len() - i,
    {
        if table[i].0 == id {
            assert(table@.skip(i as int)[0] == table@[i as int]);
            return Some(table[i].1);
        }
        assert(table@.skip(i as int).skip(1) =~= table@.skip(i as int + 1));
        i = i + 1;
    }
    assert(table@.skip(i as int).len() == 0);
    None
}

/// The outcome of one contact under a given registry.
pub open spec fn spec_contact_outcome(
    table: Seq<(u64, CollidingObj)>,
    c: ContactStarted,
) -> ContactOutcome {
    spec_outcome(spec_role_of(table, c.first), spec_role_of(table, c.second), c.first, c.second)
}

/// Damage events emitted by resolving `contacts` in order.
pub open spec fn spec_damage_events(
    table: Seq<(u64, CollidingObj)>,
    contacts: Seq<ContactStarted>,
) -> Seq<PlayerDamage>
    decreases contacts.len(),
{
    if contacts.len() == 0 {
        seq![]
    } else {
        spec_damage_events(table, contacts.drop_last()) + (match spec_contact_outcome(
            table,
            contacts.last(),
        ) {
            ContactOutcome::PlayerHit { dmg, .. } => seq![PlayerDamage(dmg)],
            _ => seq![],
        })
    }
}

/// Enemy-hit events emitted by resolving `contacts` in order.
pub open spec fn spec_hit_events(
    table: Seq<(u64, CollidingObj)>,
    contacts: Seq<ContactStarted>,
) -> Seq<EnemyReceiveHitEvent>
    decreases contacts.len(),
{
    if contacts.len() == 0 {
        seq![]
    } else {
        spec_hit_events(table, contacts.drop_last()) + (match spec_contact_outcome(
            table,
            contacts.last(),
        ) {
            ContactOutcome::PlayerHit { enemy, .. } => seq![EnemyReceiveHitEvent(enemy)],
            ContactOutcome::EnemyShot { enemy, .. } => seq![EnemyReceiveHitEvent(enemy)],
            _ => seq![],
        })
    }
}

/// Bullet-consumed events emitted by resolving `contacts` in order.
pub open spec fn spec_bullet_events(
    table: Seq<(u64, CollidingObj)>,
    contacts: Seq<ContactStarted>,
) -> Seq<BulletCollided>
    decreases contacts.len(),
{
    if contacts.len() == 0 {
        seq![]
    } else {
        spec_bullet_events(table, contacts.drop_last()) + (match spec_contact_outcome(
            table,
            contacts.last(),
        ) {
            ContactOutcome::EnemyShot { bullet, .. } => seq![BulletCollided(bullet)],
            ContactOutcome::BulletStopped { bullet } => seq![BulletCollided(bullet)],
            _ => seq![],
        })
    }
}

/// How many of `contacts` resolve to a bullet-enemy hit: the score
/// increment of one resolution pass.
pub open spec fn spec_shot_count(
    table: Seq<(u64, CollidingObj)>,
    contacts: Seq<ContactStarted>,
) -> int
    decreases contacts.len(),
{
    if contacts.len() == 0 {
        0
    } else {
        spec_shot_count(table, contacts.drop_last()) + (if spec_contact_outcome(
            table,
            contacts.last(),
        ) is EnemyShot {
            1int
        } else {
            0int
        })
    }
}

/// 32-bit saturating addition.
pub open spec fn spec_sat_add_u32(a: int, b: int) -> int {
    if a + b > u32::MAX {
        u32::MAX as int
    } else {
        a + b
    }
}

/// The typed events emitted by one resolution pass.
#[derive(Debug)]
pub struct CollisionEvents {
    pub player_damage: Vec<PlayerDamage>,
    pub enemy_hits: Vec<EnemyReceiveHitEvent>,
    pub bullet_hits: Vec<BulletCollided>,
}

/// Resolves one tick's contact notifications against the role registry.
/// Each contact contributes exactly the events its classification calls
/// for, in notification order; the score rises (saturating) by one per
/// bullet-enemy hit and never otherwise.
pub fn handle_collision(
    contacts: &Vec<ContactStarted>,
    table: &Vec<(u64, CollidingObj)>,
    score: &mut GameScore,
) -> (ev: CollisionEvents)
    ensures
        ev.player_damage@ == spec_damage_events(table@, contacts@),
        ev.enemy_hits@ == spec_hit_events(table@, contacts@),
        ev.bullet_hits@ == spec_bullet_events(table@, contacts@),
        final(score).0 == spec_sat_add_u32(old(score).0 as int, spec_shot_count(table@, contacts@)),
        old(score).0 <= final(score).0,
{
    let mut ev = CollisionEvents {
        player_damage: Vec::new(),
        enemy_hits: Vec::new(),
        bullet_hits: Vec::new(),
    };
    let mut i: usize = 0;
    while i < contacts.len()
        invariant
            0 <= i <= contacts@.len(),
            ev.player_damage@ == spec_damage_events(table@, contacts@.take(i as int)),
            ev.enemy_hits@ == spec_hit_events(table@, contacts@.take(i as int)),
            ev.bullet_hits@ == spec_bullet_events(table@, contacts@.take(i as int)),
            score.0 == spec_sat_add_u32(
                old(score).0 as int,
                spec_shot_count(table@, contacts@.take(i as int)),
            ),
            old(score).0 <= score.0,
            spec_shot_count(table@, contacts@.take(i as int)) >= 0,
        decreases contacts@.len() - i,
    {
        let c = contacts[i];
        let outcome = resolve_contact(role_of(table, c.first), role_of(table, c.second), c.first, c.second);
        proof {
            assert(contacts@.take(i as int + 1).drop_last() =~= contacts@.take(i as int));
            assert(contacts@.take(i as int + 1).last() == contacts@[i as int]);
        }
        match outcome {
            ContactOutcome::PlayerHit { dmg, enemy } => {
                ev.player_damage.push(PlayerDamage(dmg));
                ev.enemy_hits.push(EnemyReceiveHitEvent(enemy));
            },
            ContactOutcome::EnemyShot { bullet, enemy } => {
                ev.bullet_hits.push(BulletCollided(bullet));
                ev.enemy_hits.push(EnemyReceiveHitEvent(enemy));
                score.0 = score.0.saturating_add(1);
            },
            ContactOutcome::BulletStopped { bullet } => {
                ev.bullet_hits.push(BulletCollided(bullet));
            },
            ContactOutcome::Nothing => {},
        }
        i = i + 1;
    }
    proof {
        assert(contacts@.take(contacts@.len() as int) =~= contacts@);
    }
    ev
}

/// Score changes only through bullet-enemy contacts: a resolution pass
/// in which no contact classifies as a bullet hitting an enemy leaves
/// the score exactly where it was.
pub proof fn lemma_score_only_from_shots(
    table: Seq<(u64, CollidingObj)>,
    contacts: Seq<ContactStarted>,
    score: int,
)
    requires
        forall|i: int|
            0 <= i < contacts.len() ==> !(#[trigger] spec_contact_outcome(table, contacts[i])
                is EnemyShot),
        0 <= score <= u32::MAX,
    ensures
        spec_shot_count(table, contacts) == 0,
        spec_sat_add_u32(score, spec_shot_count(table, contacts)) == score,
    decreases contacts.len(),
{
    if contacts.len() > 0 {
        assert(spec_contact_outcome(table, contacts[contacts.len() - 1]) == spec_contact_outcome(
            table,
            contacts.last(),
        ));
        assert(forall|i: int|
            0 <= i < contacts.drop_last().len() ==> contacts.drop_last()[i] == contacts[i]);
        lemma_score_only_from_shots(table, contacts.drop_last(), score);
    }
}

} // verus!
