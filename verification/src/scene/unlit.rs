//! Which materials of a scene are shown without lighting.
//!
//! A model is exempt from lighting when its root entity is registered as
//! unlit. A material belongs to such a model when the entity that carries
//! it, or one of that entity's ancestors, is registered. The hierarchy is
//! given as a list of links from child to parent.

use vstd::prelude::*;

verus! {

/// Names an entity of the scene.
#[derive(Clone, Copy, Debug, PartialEq, Eq, Hash, Structural)]
pub struct EntityId(pub u64);

/// A link of the hierarchy: `child` hangs below `parent`.
#[derive(Clone, Copy, Debug, PartialEq, Eq, Hash, Structural)]
pub struct ChildLink {
    pub child: EntityId,
    pub parent: EntityId,
}

/// The entities that are registered as roots of unlit models.
#[derive(Clone, Debug, Default, PartialEq, Eq)]
pub struct UnlitGltfs(pub Vec<EntityId>);

/// The parent of an entity: the parent of the first link whose child it is.
pub open spec fn spec_parent(links: Seq<ChildLink>, entity: EntityId) -> Option<EntityId>
    decreases links.len(),
{
    if links.len() == 0 {
        None
    } else if links[0].child == entity {
        Some(links[0].parent)
    } else {
        spec_parent(links.drop_first(), entity)
    }
}

/// Whether an entity is registered, or an ancestor of it that is reached in
/// at most `steps` links.
pub open spec fn marked_within(
    unlit: Seq<EntityId>,
    links: Seq<ChildLink>,
    entity: EntityId,
    steps: nat,
) -> bool
    decreases steps,
{
    unlit.contains(entity) || (steps > 0 && match spec_parent(links, entity) {
        Some(parent) => marked_within(unlit, links, parent, (steps - 1) as nat),
        None => false,
    })
}

/// The ancestor of an entity that is `k` links up, if the chain of parents
/// reaches that far. The entity is its own ancestor at `k = 0`.
pub open spec fn ancestor(links: Seq<ChildLink>, entity: EntityId, k: nat) -> Option<EntityId>
    decreases k,
{
    if k == 0 {
        Some(entity)
    } else {
        match spec_parent(links, entity) {
            Some(parent) => ancestor(links, parent, (k - 1) as nat),
            None => None,
        }
    }
}

/// Whether the ancestor `k` links up exists and is registered.
pub open spec fn marked_ancestor(
    unlit: Seq<EntityId>,
    links: Seq<ChildLink>,
    entity: EntityId,
    k: nat,
) -> bool {
    match ancestor(links, entity, k) {
        Some(a) => unlit.contains(a),
        None => false,
    }
}

/// Whether the hierarchy has no cycle: no entity is its own ancestor
/// further up.
pub open spec fn acyclic(links: Seq<ChildLink>) -> bool {
    forall|e: EntityId, k: nat| k > 0 ==> #[trigger] ancestor(links, e, k) != Some(e)
}

/// Whether an entity belongs to an unlit model. The walk follows at most as
/// many links as the hierarchy has; in a hierarchy without cycles that
/// reaches every ancestor (see [`lemma_walk_reaches_every_ancestor`]).
pub open spec fn spec_is_unlit(unlit: Seq<EntityId>, links: Seq<ChildLink>, entity: EntityId) -> bool {
    marked_within(unlit, links, entity, links.len())
}

proof fn lemma_parent_skips_other_children(links: Seq<ChildLink>, entity: EntityId, n: int)
    requires
        0 <= n <= links.len(),
        forall|k: int| 0 <= k < n ==> links[k].child != entity,
    ensures
        spec_parent(links, entity) == spec_parent(links.subrange(n, links.len() as int), entity),
    decreases n,
{
    if n == 0 {
        assert(links.subrange(0, links.len() as int) =~= links);
    } else {
        let rest = links.drop_first();
        assert forall|k: int| 0 <= k < n - 1 implies rest[k].child != entity by {
            assert(rest[k] == links[k + 1]);
        }
        lemma_parent_skips_other_children(rest, entity, n - 1);
        assert(rest.subrange(n - 1, rest.len() as int) =~= links.subrange(n, links.len() as int));
    }
}

/// Whether `entity` is among `list`.
fn contains_entity(list: &Vec<EntityId>, entity: EntityId) -> (found: bool)
    ensures
        found == list@.contains(entity),
{
    let mut i: usize = 0;
    while i < list.len()
        invariant
            i <= list.len(),
            forall|k: int| 0 <= k < i ==> list@[k] != entity,
        decreases list.len() - i,
    {
        if list[i].0 == entity.0 {
            return true;
        }
        i = i + 1;
    }
    false
}

/// The parent of `entity` in the hierarchy, if it has one.
pub fn parent_of(links: &Vec<ChildLink>, entity: EntityId) -> (parent: Option<EntityId>)
    ensures
        parent == spec_parent(links@, entity),
{
    let mut i: usize = 0;
    while i < links.len()
        invariant
            i <= links.len(),
            forall|k: int| 0 <= k < i ==> links@[k].child != entity,
        decreases links.len() - i,
    {
        if links[i].child.0 == entity.0 {
            proof {
                lemma_parent_skips_other_children(links@, entity, i as int);
            }
            return Some(links[i].parent);
        }
        i = i + 1;
    }
    proof {
        lemma_parent_skips_other_children(links@, entity, links@.len() as int);
    }
    None
}

/// Whether `entity` belongs to an unlit model: whether it, or one of its
/// ancestors, is registered in `unlit`.
pub fn is_unlit(unlit: &UnlitGltfs, links: &Vec<ChildLink>, entity: EntityId) -> (marked: bool)
    ensures
        marked == spec_is_unlit(unlit.0@, links@, entity),
        acyclic(links@) ==> (marked <==> exists|k: nat| #[trigger]
            marked_ancestor(unlit.0@, links@, entity, k)),
{
    proof {
        if acyclic(links@) {
            lemma_unlit_is_registered_ancestor(unlit.0@, links@, entity);
        }
    }
    let mut current = entity;
    let mut steps: usize = links.len();
    loop
        invariant
            steps <= links.len(),
            acyclic(links@) ==> (spec_is_unlit(unlit.0@, links@, entity) <==> exists|k: nat|
                #[trigger] marked_ancestor(unlit.0@, links@, entity, k)),
            spec_is_unlit(unlit.0@, links@, entity) == marked_within(
                unlit.0@,
                links@,
                current,
                steps as nat,
            ),
        decreases steps,
    {
        if contains_entity(&unlit.0, current) {
            return true;
        }
        if steps == 0 {
            return false;
        }
        match parent_of(links, current) {
            Some(parent) => {
                current = parent;
                steps = steps - 1;
            },
            None => {
                return false;
            },
        }
    }
}

/// Of the entities that received a material, those that belong to an unlit
/// model, in the order in which they were given. While nothing is
/// registered, there are none.
pub fn materials_unlit(
    unlit: &UnlitGltfs,
    links: &Vec<ChildLink>,
    added_materials: &Vec<EntityId>,
) -> (marked: Vec<EntityId>)
    ensures
        marked@ == added_materials@.filter(|e: EntityId| spec_is_unlit(unlit.0@, links@, e)),
        unlit.0@.len() == 0 ==> marked@.len() == 0,
{
    let ghost pred = |e: EntityId| spec_is_unlit(unlit.0@, links@, e);
    let mut marked: Vec<EntityId> = Vec::new();
    if unlit.0.len() == 0 {
        proof {
            lemma_nothing_registered(unlit.0@, links@, added_materials@);
        }
        return marked;
    }
    let mut i: usize = 0;
    proof {
        reveal(Seq::filter);
        assert(added_materials@.take(0) =~= Seq::<EntityId>::empty());
    }
    while i < added_materials.len()
        invariant
            i <= added_materials.len(),
            pred == |e: EntityId| spec_is_unlit(unlit.0@, links@, e),
            marked@ == added_materials@.take(i as int).filter(pred),
        decreases added_materials.len() - i,
    {
        let entity = added_materials[i];
        let is_marked = is_unlit(unlit, links, entity);
        proof {
            reveal(Seq::filter);
            let next = added_materials@.take(i + 1);
            assert(next.drop_last() =~= added_materials@.take(i as int));
            assert(next.last() == entity);
            assert(pred(entity) == is_marked);
        }
        if is_marked {
            marked.push(entity);
        }
        i = i + 1;
    }
    proof {
        assert(added_materials@.take(added_materials@.len() as int) =~= added_materials@);
    }
    marked
}

/// While nothing is registered, no entity belongs to an unlit model.
pub proof fn lemma_nothing_registered(
    unlit: Seq<EntityId>,
    links: Seq<ChildLink>,
    added_materials: Seq<EntityId>,
)
    requires
        unlit.len() == 0,
    ensures
        forall|e: EntityId, steps: nat| !marked_within(unlit, links, e, steps),
        added_materials.filter(|e: EntityId| spec_is_unlit(unlit, links, e)).len() == 0,
{
    assert forall|e: EntityId, steps: nat| !marked_within(unlit, links, e, steps) by {
        lemma_empty_marks_nothing(unlit, links, e, steps);
    }
    lemma_filter_none(added_materials, |e: EntityId| spec_is_unlit(unlit, links, e));
}

proof fn lemma_empty_marks_nothing(
    unlit: Seq<EntityId>,
    links: Seq<ChildLink>,
    entity: EntityId,
    steps: nat,
)
    requires
        unlit.len() == 0,
    ensures
        !marked_within(unlit, links, entity, steps),
    decreases steps,
{
    if steps > 0 {
        match spec_parent(links, entity) {
            Some(parent) => {
                lemma_empty_marks_nothing(unlit, links, parent, (steps - 1) as nat);
            },
            None => {},
        }
    }
}

proof fn lemma_filter_none(s: Seq<EntityId>, pred: spec_fn(EntityId) -> bool)
    requires
        forall|e: EntityId| !#[trigger] pred(e),
    ensures
        s.filter(pred).len() == 0,
    decreases s.len(),
{
    reveal(Seq::filter);
    if s.len() > 0 {
        lemma_filter_none(s.drop_last(), pred);
    }
}

/// A registered entity is unlit itself, and so is every child of an unlit
/// entity that the walk can still follow to it.
pub proof fn lemma_marks_descend(
    unlit: Seq<EntityId>,
    links: Seq<ChildLink>,
    entity: EntityId,
    steps: nat,
)
    ensures
        unlit.contains(entity) ==> marked_within(unlit, links, entity, steps),
        spec_parent(links, entity) matches Some(parent) && marked_within(
            unlit,
            links,
            parent,
            steps,
        ) ==> marked_within(unlit, links, entity, steps + 1),
{
}

/// The walk finds exactly the registered ancestors that are at most
/// `steps` links up.
pub proof fn lemma_marked_within_is_marked_ancestor(
    unlit: Seq<EntityId>,
    links: Seq<ChildLink>,
    entity: EntityId,
    steps: nat,
)
    ensures
        marked_within(unlit, links, entity, steps) <==> exists|k: nat|
            k <= steps && #[trigger] marked_ancestor(unlit, links, entity, k),
    decreases steps,
{
    if unlit.contains(entity) {
        assert(marked_ancestor(unlit, links, entity, 0));
    } else if steps > 0 {
        match spec_parent(links, entity) {
            Some(parent) => {
                let rest = (steps - 1) as nat;
                lemma_marked_within_is_marked_ancestor(unlit, links, parent, rest);
                if marked_within(unlit, links, parent, rest) {
                    let k = choose|k: nat|
                        k <= rest && #[trigger] marked_ancestor(unlit, links, parent, k);
                    assert(marked_ancestor(unlit, links, entity, k + 1));
                }
                if exists|k: nat|
                    k <= steps && #[trigger] marked_ancestor(unlit, links, entity, k) {
                    let k = choose|k: nat|
                        k <= steps && #[trigger] marked_ancestor(unlit, links, entity, k);
                    assert(k > 0);
                    assert(marked_ancestor(unlit, links, parent, (k - 1) as nat));
                }
            },
            None => {
                assert forall|k: nat| k <= steps implies !#[trigger] marked_ancestor(
                    unlit,
                    links,
                    entity,
                    k,
                ) by {}
            },
        }
    } else {
        assert forall|k: nat| k <= steps implies !#[trigger] marked_ancestor(
            unlit,
            links,
            entity,
            k,
        ) by {}
    }
}

proof fn lemma_ancestor_of_ancestor(links: Seq<ChildLink>, entity: EntityId, i: nat, m: nat)
    ensures
        ancestor(links, entity, i + m) == (match ancestor(links, entity, i) {
            Some(a) => ancestor(links, a, m),
            None => None,
        }),
    decreases i,
{
    if i > 0 {
        match spec_parent(links, entity) {
            Some(parent) => {
                lemma_ancestor_of_ancestor(links, parent, (i - 1) as nat, m);
                assert((i - 1) as nat + m == (i + m - 1) as nat);
            },
            None => {},
        }
    }
}

proof fn lemma_parent_is_child_of_a_link(links: Seq<ChildLink>, entity: EntityId)
    requires
        spec_parent(links, entity) is Some,
    ensures
        exists|i: int| 0 <= i < links.len() && #[trigger] links[i].child == entity,
    decreases links.len(),
{
    if links[0].child != entity {
        let rest = links.drop_first();
        lemma_parent_is_child_of_a_link(rest, entity);
        let i = choose|i: int| 0 <= i < rest.len() && #[trigger] rest[i].child == entity;
        assert(links[i + 1].child == entity);
    }
}

/// In a hierarchy without cycles no chain of ancestors is longer than the
/// number of links.
pub proof fn lemma_acyclic_chains_are_short(links: Seq<ChildLink>, entity: EntityId, k: nat)
    requires
        acyclic(links),
        k > links.len(),
    ensures
        ancestor(links, entity, k) is None,
{
    if ancestor(links, entity, k) is Some {
        let n = links.len();
        let chain = Seq::new(n + 1, |i: int| ancestor(links, entity, i as nat).unwrap());
        let children = Seq::new(n, |i: int| links[i].child);
        assert forall|i: int| 0 <= i <= n implies ancestor(links, entity, i as nat) is Some
            && spec_parent(links, #[trigger] chain[i]) is Some by {
            lemma_ancestor_of_ancestor(links, entity, i as nat, (k - i) as nat);
            assert(i as nat + (k - i) as nat == k);
        }
        assert(chain.to_set().subset_of(children.to_set())) by {
            assert forall|a: EntityId| chain.to_set().contains(a) implies children.to_set().contains(
                a,
            ) by {
                let i = choose|i: int| 0 <= i < chain.len() && chain[i] == a;
                lemma_parent_is_child_of_a_link(links, a);
                let j = choose|j: int| 0 <= j < links.len() && #[trigger] links[j].child == a;
                assert(children[j] == a);
            }
        }
        vstd::seq_lib::seq_to_set_is_finite(children);
        vstd::set_lib::lemma_len_subset(chain.to_set(), children.to_set());
        children.lemma_cardinality_of_set();
        if chain.no_duplicates() {
            chain.unique_seq_to_set();
        } else {
            let (i, j) = choose|i: int, j: int|
                0 <= i < chain.len() && 0 <= j < chain.len() && i != j && chain[i] == chain[j];
            let lo = if i < j {
                i
            } else {
                j
            };
            let hi = if i < j {
                j
            } else {
                i
            };
            lemma_ancestor_of_ancestor(links, entity, lo as nat, (hi - lo) as nat);
            assert(lo as nat + (hi - lo) as nat == hi as nat);
            assert(ancestor(links, chain[lo], (hi - lo) as nat) == Some(chain[lo]));
        }
    }
}

/// In a hierarchy without cycles the walk reaches every ancestor: looking
/// further than the number of links finds nothing more.
pub proof fn lemma_walk_reaches_every_ancestor(
    unlit: Seq<EntityId>,
    links: Seq<ChildLink>,
    entity: EntityId,
    steps: nat,
)
    requires
        acyclic(links),
        steps >= links.len(),
    ensures
        marked_within(unlit, links, entity, steps) == spec_is_unlit(unlit, links, entity),
{
    lemma_marked_within_is_marked_ancestor(unlit, links, entity, steps);
    lemma_marked_within_is_marked_ancestor(unlit, links, entity, links.len());
    if marked_within(unlit, links, entity, steps) {
        let k = choose|k: nat| k <= steps && #[trigger] marked_ancestor(unlit, links, entity, k);
        if k > links.len() {
            lemma_acyclic_chains_are_short(links, entity, k);
        }
        assert(k <= links.len());
    }
    if spec_is_unlit(unlit, links, entity) {
        let k = choose|k: nat|
            k <= links.len() && #[trigger] marked_ancestor(unlit, links, entity, k);
        assert(k <= steps);
    }
}

/// In a hierarchy without cycles an entity belongs to an unlit model
/// exactly when it, or one of its ancestors however far up, is registered.
pub proof fn lemma_unlit_is_registered_ancestor(
    unlit: Seq<EntityId>,
    links: Seq<ChildLink>,
    entity: EntityId,
)
    requires
        acyclic(links),
    ensures
        spec_is_unlit(unlit, links, entity) <==> exists|k: nat| #[trigger]
            marked_ancestor(unlit, links, entity, k),
{
    lemma_marked_within_is_marked_ancestor(unlit, links, entity, links.len());
    if spec_is_unlit(unlit, links, entity) {
        let k = choose|k: nat|
            k <= links.len() && #[trigger] marked_ancestor(unlit, links, entity, k);
        assert(marked_ancestor(unlit, links, entity, k));
    }
    if exists|k: nat| #[trigger] marked_ancestor(unlit, links, entity, k) {
        let k = choose|k: nat| #[trigger] marked_ancestor(unlit, links, entity, k);
        if k > links.len() {
            lemma_acyclic_chains_are_short(links, entity, k);
        }
        assert(k <= links.len() && marked_ancestor(unlit, links, entity, k));
    }
}

} // verus!
