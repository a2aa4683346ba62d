use vstd::prelude::*;
use crate::components::{
    Body, EntityId, Hp, Range, Shield, Targets, Turret, Unit, UnitPath, Velocity,
};

verus! {

/// The marker fragments an entity may carry.
#[derive(Clone, Copy, PartialEq, Eq, Structural, Debug)]
pub struct RoleTags {
    pub selectable: bool,
    pub movable: bool,
    pub targeterable: bool,
    pub targeteeable: bool,
    pub subunit: bool,
}

/// The kinds of fragment an entity can carry.
#[derive(Clone, Copy, PartialEq, Eq, Structural, Debug)]
pub enum FragmentKind {
    Unit,
    Body,
    Velocity,
    Hp,
    Shield,
    Range,
    Targets,
    UnitPath,
    Turret,
    Parent,
    Selectable,
    Movable,
    Targeterable,
    Targeteeable,
    Subunit,
}

/// Number of fragment kinds.
pub const FRAGMENT_KINDS: usize = 15;

/// One fragment, with its data, as handed to `World::attach`.
pub enum Fragment {
    Unit(Unit),
    Body(Body),
    Velocity(Velocity),
    Hp(Hp),
    Shield(Shield),
    Range(Range),
    Targets(Targets),
    UnitPath(UnitPath),
    Turret(Turret),
    Parent(EntityId),
    Selectable,
    Movable,
    Targeterable,
    Targeteeable,
    Subunit,
}

/// The fragments attached to one entity: at most one of each kind.
pub struct EntityRecord {
    pub unit: Option<Unit>,
    pub body: Option<Body>,
    pub velocity: Option<Velocity>,
    pub hp: Option<Hp>,
    pub shield: Option<Shield>,
    pub range: Option<Range>,
    pub targets: Option<Targets>,
    pub path: Option<UnitPath>,
    pub turret: Option<Turret>,
    /// The unit this entity belongs to; the parent does not list its children.
    pub parent: Option<EntityId>,
    pub tags: RoleTags,
}

/// The kind of a fragment.
pub open spec fn kind_of(f: Fragment) -> FragmentKind {
    match f {
        Fragment::Unit(_) => FragmentKind::Unit,
        Fragment::Body(_) => FragmentKind::Body,
        Fragment::Velocity(_) => FragmentKind::Velocity,
        Fragment::Hp(_) => FragmentKind::Hp,
        Fragment::Shield(_) => FragmentKind::Shield,
        Fragment::Range(_) => FragmentKind::Range,
        Fragment::Targets(_) => FragmentKind::Targets,
        Fragment::UnitPath(_) => FragmentKind::UnitPath,
        Fragment::Turret(_) => FragmentKind::Turret,
        Fragment::Parent(_) => FragmentKind::Parent,
        Fragment::Selectable => FragmentKind::Selectable,
        Fragment::Movable => FragmentKind::Movable,
        Fragment::Targeterable => FragmentKind::Targeterable,
        Fragment::Targeteeable => FragmentKind::Targeteeable,
        Fragment::Subunit => FragmentKind::Subunit,
    }
}

/// The kinds in the order in which `World::fragments_of` lists them.
pub open spec fn kind_at(i: nat) -> FragmentKind {
    if i == 0 {
        FragmentKind::Unit
    } else if i == 1 {
        FragmentKind::Body
    } else if i == 2 {
        FragmentKind::Velocity
    } else if i == 3 {
        FragmentKind::Hp
    } else if i == 4 {
        FragmentKind::Shield
    } else if i == 5 {
        FragmentKind::Range
    } else if i == 6 {
        FragmentKind::Targets
    } else if i == 7 {
        FragmentKind::UnitPath
    } else if i == 8 {
        FragmentKind::Turret
    } else if i == 9 {
        FragmentKind::Parent
    } else if i == 10 {
        FragmentKind::Selectable
    } else if i == 11 {
        FragmentKind::Movable
    } else if i == 12 {
        FragmentKind::Targeterable
    } else if i == 13 {
        FragmentKind::Targeteeable
    } else {
        FragmentKind::Subunit
    }
}

/// Position of `k` in the listing order.
pub open spec fn kind_index(k: FragmentKind) -> nat {
    match k {
        FragmentKind::Unit => 0,
        FragmentKind::Body => 1,
        FragmentKind::Velocity => 2,
        FragmentKind::Hp => 3,
        FragmentKind::Shield => 4,
        FragmentKind::Range => 5,
        FragmentKind::Targets => 6,
        FragmentKind::UnitPath => 7,
        FragmentKind::Turret => 8,
        FragmentKind::Parent => 9,
        FragmentKind::Selectable => 10,
        FragmentKind::Movable => 11,
        FragmentKind::Targeterable => 12,
        FragmentKind::Targeteeable => 13,
        FragmentKind::Subunit => 14,
    }
}

/// The first `n` listed kinds of `rec` are exactly its attached kinds placed
/// before `n`.
pub proof fn lemma_kinds_upto_contains(rec: EntityRecord, n: nat, k: FragmentKind)
    requires
        n <= FRAGMENT_KINDS,
    ensures
        rec.kinds_upto(n).contains(k) <==> (rec.has_spec(k) && kind_index(k) < n),
    decreases n,
{
    if n > 0 {
        let m = (n - 1) as nat;
        lemma_kinds_upto_contains(rec, m, k);
        let s = rec.kinds_upto(m);
        let x = kind_at(m);
        assert(kind_at(kind_index(k)) == k);
        assert(kind_index(x) == m);
        if rec.has_spec(x) {
            assert(s.push(x).contains(k) <==> (s.contains(k) || x == k)) by {
                if s.push(x).contains(k) {
                    let j = choose|j: int| 0 <= j < s.push(x).len() && s.push(x)[j] == k;
                    if j < s.len() {
                        assert(s[j] == k);
                    }
                }
                if s.contains(k) {
                    let j = choose|j: int| 0 <= j < s.len() && s[j] == k;
                    assert(s.push(x)[j] == k);
                }
                if x == k {
                    assert(s.push(x)[s.len() as int] == k);
                }
            }
        }
    }
}

/// `fragments_of` lists a kind exactly when a fragment of that kind is attached.
pub proof fn lemma_kinds_are_attached(rec: EntityRecord, k: FragmentKind)
    ensures
        rec.kinds().contains(k) <==> rec.has_spec(k),
{
    lemma_kinds_upto_contains(rec, FRAGMENT_KINDS as nat, k);
}

fn kind_at_exec(i: usize) -> (r: FragmentKind)
    requires
        i < FRAGMENT_KINDS,
    ensures
        r == kind_at(i as nat),
{
    if i == 0 {
        FragmentKind::Unit
    } else if i == 1 {
        FragmentKind::Body
    } else if i == 2 {
        FragmentKind::Velocity
    } else if i == 3 {
        FragmentKind::Hp
    } else if i == 4 {
        FragmentKind::Shield
    } else if i == 5 {
        FragmentKind::Range
    } else if i == 6 {
        FragmentKind::Targets
    } else if i == 7 {
        FragmentKind::UnitPath
    } else if i == 8 {
        FragmentKind::Turret
    } else if i == 9 {
        FragmentKind::Parent
    } else if i == 10 {
        FragmentKind::Selectable
    } else if i == 11 {
        FragmentKind::Movable
    } else if i == 12 {
        FragmentKind::Targeterable
    } else if i == 13 {
        FragmentKind::Targeteeable
    } else {
        FragmentKind::Subunit
    }
}

impl EntityRecord {
    /// A record with no fragment.
    pub open spec fn empty_spec() -> EntityRecord {
        EntityRecord {
            unit: None,
            body: None,
            velocity: None,
            hp: None,
            shield: None,
            range: None,
            targets: None,
            path: None,
            turret: None,
            parent: None,
            tags: RoleTags {
                selectable: false,
                movable: false,
                targeterable: false,
                targeteeable: false,
                subunit: false,
            },
        }
    }

    pub fn empty() -> (r: EntityRecord)
        ensures
            r == EntityRecord::empty_spec(),
    {
        EntityRecord {
            unit: None,
            body: None,
            velocity: None,
            hp: None,
            shield: None,
            range: None,
            targets: None,
            path: None,
            turret: None,
            parent: None,
            tags: RoleTags {
                selectable: false,
                movable: false,
                targeterable: false,
                targeteeable: false,
                subunit: false,
            },
        }
    }

    /// Whether a fragment of kind `k` is attached.
    pub open spec fn has_spec(&self, k: FragmentKind) -> bool {
        match k {
            FragmentKind::Unit => self.unit.is_some(),
            FragmentKind::Body => self.body.is_some(),
            FragmentKind::Velocity => self.velocity.is_some(),
            FragmentKind::Hp => self.hp.is_some(),
            FragmentKind::Shield => self.shield.is_some(),
            FragmentKind::Range => self.range.is_some(),
            FragmentKind::Targets => self.targets.is_some(),
            FragmentKind::UnitPath => self.path.is_some(),
            FragmentKind::Turret => self.turret.is_some(),
            FragmentKind::Parent => self.parent.is_some(),
            FragmentKind::Selectable => self.tags.selectable,
            FragmentKind::Movable => self.tags.movable,
            FragmentKind::Targeterable => self.tags.targeterable,
            FragmentKind::Targeteeable => self.tags.targeteeable,
            FragmentKind::Subunit => self.tags.subunit,
        }
    }

    /// Whether a fragment of kind `k` is attached.
    pub fn has(&self, k: FragmentKind) -> (r: bool)
        ensures
            r == self.has_spec(k),
    {
        match k {
            FragmentKind::Unit => self.unit.is_some(),
            FragmentKind::Body => self.body.is_some(),
            FragmentKind::Velocity => self.velocity.is_some(),
            FragmentKind::Hp => self.hp.is_some(),
            FragmentKind::Shield => self.shield.is_some(),
            FragmentKind::Range => self.range.is_some(),
            FragmentKind::Targets => self.targets.is_some(),
            FragmentKind::UnitPath => self.path.is_some(),
            FragmentKind::Turret => self.turret.is_some(),
            FragmentKind::Parent => self.parent.is_some(),
            FragmentKind::Selectable => self.tags.selectable,
            FragmentKind::Movable => self.tags.movable,
            FragmentKind::Targeterable => self.tags.targeterable,
            FragmentKind::Targeteeable => self.tags.targeteeable,
            FragmentKind::Subunit => self.tags.subunit,
        }
    }

    /// The attached kinds among the first `n` of the listing order.
    pub open spec fn kinds_upto(&self, n: nat) -> Seq<FragmentKind>
        decreases n,
    {
        if n == 0 {
            seq![]
        } else {
            let s = self.kinds_upto((n - 1) as nat);
            if self.has_spec(kind_at((n - 1) as nat)) {
                s.push(kind_at((n - 1) as nat))
            } else {
                s
            }
        }
    }

    /// Every attached kind, once each, in listing order.
    pub open spec fn kinds(&self) -> Seq<FragmentKind> {
        self.kinds_upto(FRAGMENT_KINDS as nat)
    }
}

/// The record after `f` is attached, replacing any fragment of its kind.
pub open spec fn with_fragment(r: EntityRecord, f: Fragment) -> EntityRecord {
    match f {
        Fragment::Unit(u) => EntityRecord { unit: Some(u), ..r },
        Fragment::Body(b) => EntityRecord { body: Some(b), ..r },
        Fragment::Velocity(v) => EntityRecord { velocity: Some(v), ..r },
        Fragment::Hp(h) => EntityRecord { hp: Some(h), ..r },
        Fragment::Shield(s) => EntityRecord { shield: Some(s), ..r },
        Fragment::Range(g) => EntityRecord { range: Some(g), ..r },
        Fragment::Targets(t) => EntityRecord { targets: Some(t), ..r },
        Fragment::UnitPath(p) => EntityRecord { path: Some(p), ..r },
        Fragment::Turret(t) => EntityRecord { turret: Some(t), ..r },
        Fragment::Parent(e) => EntityRecord { parent: Some(e), ..r },
        Fragment::Selectable => EntityRecord { tags: RoleTags { selectable: true, ..r.tags }, ..r },
        Fragment::Movable => EntityRecord { tags: RoleTags { movable: true, ..r.tags }, ..r },
        Fragment::Targeterable => EntityRecord {
            tags: RoleTags { targeterable: true, ..r.tags },
            ..r
        },
        Fragment::Targeteeable => EntityRecord {
            tags: RoleTags { targeteeable: true, ..r.tags },
            ..r
        },
        Fragment::Subunit => EntityRecord { tags: RoleTags { subunit: true, ..r.tags }, ..r },
    }
}

/// The record after the fragment of kind `k`, if any, is removed.
pub open spec fn without_kind(r: EntityRecord, k: FragmentKind) -> EntityRecord {
    match k {
        FragmentKind::Unit => EntityRecord { unit: None, ..r },
        FragmentKind::Body => EntityRecord { body: None, ..r },
        FragmentKind::Velocity => EntityRecord { velocity: None, ..r },
        FragmentKind::Hp => EntityRecord { hp: None, ..r },
        FragmentKind::Shield => EntityRecord { shield: None, ..r },
        FragmentKind::Range => EntityRecord { range: None, ..r },
        FragmentKind::Targets => EntityRecord { targets: None, ..r },
        FragmentKind::UnitPath => EntityRecord { path: None, ..r },
        FragmentKind::Turret => EntityRecord { turret: None, ..r },
        FragmentKind::Parent => EntityRecord { parent: None, ..r },
        FragmentKind::Selectable => EntityRecord {
            tags: RoleTags { selectable: false, ..r.tags },
            ..r
        },
        FragmentKind::Movable => EntityRecord { tags: RoleTags { movable: false, ..r.tags }, ..r },
        FragmentKind::Targeterable => EntityRecord {
            tags: RoleTags { targeterable: false, ..r.tags },
            ..r
        },
        FragmentKind::Targeteeable => EntityRecord {
            tags: RoleTags { targeteeable: false, ..r.tags },
            ..r
        },
        FragmentKind::Subunit => EntityRecord { tags: RoleTags { subunit: false, ..r.tags }, ..r },
    }
}

/// Every unit number in `s` is below `next`, and no two entities share one.
pub open spec fn unit_ids_fresh(s: Seq<EntityRecord>, next: nat) -> bool {
    &&& forall|i: int|
        0 <= i < s.len() && (#[trigger] s[i]).unit is Some ==> s[i].unit->0.id < next
    &&& forall|i: int, j: int|
        0 <= i < s.len() && 0 <= j < s.len() && i != j && (#[trigger] s[i]).unit is Some && (
        #[trigger] s[j]).unit is Some ==> s[i].unit->0.id != s[j].unit->0.id
}

/// Adding an entity numbered `next` keeps the numbers distinct and below the
/// following one.
pub proof fn lemma_push_keeps_ids_fresh(s: Seq<EntityRecord>, next: nat, rec: EntityRecord)
    requires
        unit_ids_fresh(s, next),
        rec.unit matches Some(u) && u.id == next,
    ensures
        unit_ids_fresh(s.push(rec), next + 1),
{
    let t = s.push(rec);
    assert forall|i: int| 0 <= i < t.len() && (#[trigger] t[i]).unit is Some implies t[i].unit->0.id
        < next + 1 by {
        if i < s.len() {
            assert(t[i] == s[i]);
        }
    }
    assert forall|i: int, j: int|
        0 <= i < t.len() && 0 <= j < t.len() && i != j && (#[trigger] t[i]).unit is Some && (
        #[trigger] t[j]).unit is Some implies t[i].unit->0.id != t[j].unit->0.id by {
        if i < s.len() {
            assert(t[i] == s[i]);
        }
        if j < s.len() {
            assert(t[j] == s[j]);
        }
    }
}

/// Entities and the fragments attached to each, indexed by handle.
pub struct World {
    entities: Vec<EntityRecord>,
}

impl View for World {
    type V = Seq<EntityRecord>;

    closed spec fn view(&self) -> Seq<EntityRecord> {
        self.entities@
    }
}

impl World {
    /// Whether `e` names an entity of this world.
    pub open spec fn exists_spec(&self, e: EntityId) -> bool {
        e.0 < self@.len()
    }

    pub fn new() -> (r: World)
        ensures
            r@.len() == 0,
            unit_ids_fresh(r@, 0),
    {
        World { entities: Vec::new() }
    }

    /// Number of entities ever created.
    pub fn len(&self) -> (r: usize)
        ensures
            r == self@.len(),
    {
        self.entities.len()
    }

    /// Whether `e` names an entity of this world.
    pub fn contains(&self, e: EntityId) -> (r: bool)
        ensures
            r == self.exists_spec(e),
    {
        e.0 < self.entities.len()
    }

    /// A new entity with no fragment.
    pub fn create_entity(&mut self) -> (r: EntityId)
        ensures
            r.0 == old(self)@.len(),
            final(self)@ == old(self)@.push(EntityRecord::empty_spec()),
    {
        self.spawn_record(EntityRecord::empty())
    }

    /// A new entity that carries the fragments of `rec`.
    pub fn spawn_record(&mut self, rec: EntityRecord) -> (r: EntityId)
        ensures
            r.0 == old(self)@.len(),
            final(self)@ == old(self)@.push(rec),
    {
        let e = EntityId(self.entities.len());
        self.entities.push(rec);
        proof {
            assert(self.entities@ == old(self)@.push(rec));
        }
        e
    }

    /// The fragments attached to `e`, or `None` where `e` is not an entity of
    /// this world.
    pub fn get(&self, e: EntityId) -> (r: Option<&EntityRecord>)
        ensures
            self.exists_spec(e) ==> r == Some(&self@[e.0 as int]),
            !self.exists_spec(e) ==> r.is_none(),
    {
        if e.0 < self.entities.len() {
            Some(&self.entities[e.0])
        } else {
            None
        }
    }

    /// Attaches `f` to `e`, replacing the fragment of the same kind if there
    /// is one. Attaching to a handle the world does not know is a programming
    /// error, ruled out by the precondition. A unit's identity is fixed once
    /// attached, so a second `Unit` fragment is refused too.
    pub fn attach(&mut self, e: EntityId, f: Fragment)
        requires
            old(self).exists_spec(e),
            f is Unit ==> old(self)@[e.0 as int].unit is None,
        ensures
            final(self)@ == old(self)@.update(e.0 as int, with_fragment(old(self)@[e.0 as int], f)),
            final(self)@[e.0 as int].has_spec(kind_of(f)),
    {
        let ghost before = self.entities@[e.0 as int];
        let mut rec = EntityRecord::empty();
        std::mem::swap(&mut self.entities[e.0], &mut rec);
        match f {
            Fragment::Unit(u) => rec.unit = Some(u),
            Fragment::Body(b) => rec.body = Some(b),
            Fragment::Velocity(v) => rec.velocity = Some(v),
            Fragment::Hp(h) => rec.hp = Some(h),
            Fragment::Shield(s) => rec.shield = Some(s),
            Fragment::Range(g) => rec.range = Some(g),
            Fragment::Targets(t) => rec.targets = Some(t),
            Fragment::UnitPath(p) => rec.path = Some(p),
            Fragment::Turret(t) => rec.turret = Some(t),
            Fragment::Parent(p) => rec.parent = Some(p),
            Fragment::Selectable => rec.tags.selectable = true,
            Fragment::Movable => rec.tags.movable = true,
            Fragment::Targeterable => rec.tags.targeterable = true,
            Fragment::Targeteeable => rec.tags.targeteeable = true,
            Fragment::Subunit => rec.tags.subunit = true,
        }
        assert(rec == with_fragment(before, f));
        self.entities[e.0] = rec;
    }

    /// Removes the fragment of kind `k` from `e`, if it has one.
    pub fn detach(&mut self, e: EntityId, k: FragmentKind)
        requires
            old(self).exists_spec(e),
        ensures
            final(self)@ == old(self)@.update(e.0 as int, without_kind(old(self)@[e.0 as int], k)),
            !final(self)@[e.0 as int].has_spec(k),
    {
        let ghost before = self.entities@[e.0 as int];
        let mut rec = EntityRecord::empty();
        std::mem::swap(&mut self.entities[e.0], &mut rec);
        match k {
            FragmentKind::Unit => rec.unit = None,
            FragmentKind::Body => rec.body = None,
            FragmentKind::Velocity => rec.velocity = None,
            FragmentKind::Hp => rec.hp = None,
            FragmentKind::Shield => rec.shield = None,
            FragmentKind::Range => rec.range = None,
            FragmentKind::Targets => rec.targets = None,
            FragmentKind::UnitPath => rec.path = None,
            FragmentKind::Turret => rec.turret = None,
            FragmentKind::Parent => rec.parent = None,
            FragmentKind::Selectable => rec.tags.selectable = false,
            FragmentKind::Movable => rec.tags.movable = false,
            FragmentKind::Targeterable => rec.tags.targeterable = false,
            FragmentKind::Targeteeable => rec.tags.targeteeable = false,
            FragmentKind::Subunit => rec.tags.subunit = false,
        }
        assert(rec == without_kind(before, k));
        self.entities[e.0] = rec;
    }

    /// The kinds of fragment attached to `e`, each once, or `None` where `e`
    /// is not an entity of this world. The lookup is by handle, not a scan.
    pub fn fragments_of(&self, e: EntityId) -> (r: Option<Vec<FragmentKind>>)
        ensures
            self.exists_spec(e) ==> (r matches Some(v) && v@ == self@[e.0 as int].kinds()),
            self.exists_spec(e) ==> (r matches Some(v) && forall|k: FragmentKind|
                v@.contains(k) <==> #[trigger] self@[e.0 as int].has_spec(k)),
            !self.exists_spec(e) ==> r.is_none(),
    {
        proof {
            if self.exists_spec(e) {
                assert forall|k: FragmentKind|
                    self@[e.0 as int].kinds().contains(k) <==> #[trigger] self@[e.0 as int].has_spec(
                        k,
                    ) by {
                    lemma_kinds_are_attached(self@[e.0 as int], k);
                }
            }
        }
        if e.0 >= self.entities.len() {
            return None;
        }
        let rec = &self.entities[e.0];
        let mut v: Vec<FragmentKind> = Vec::new();
        let mut i: usize = 0;
        while i < FRAGMENT_KINDS
            invariant
                i <= FRAGMENT_KINDS,
                v@ == rec.kinds_upto(i as nat),
            decreases FRAGMENT_KINDS - i,
        {
            let k = kind_at_exec(i);
            if rec.has(k) {
                v.push(k);
            }
            i = i + 1;
        }
        Some(v)
    }
}

} // verus!
