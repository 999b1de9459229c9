//! A tree of settings addressed by paths of keys.

use vstd::prelude::*;
use vstd::string::StringExecFns;

verus! {

/// Why a node of the tree could not be reached.
#[derive(Debug)]
pub enum Error {
    /// The path names a key that the tree does not hold.
    NonexistantKey,
}

/// A map from paths of keys to values. Every node has a key, may hold a
/// value and has a child for each key that continues a path through it. No
/// node ever has two children with the same key.
pub struct TreeMap<V> {
    children: Vec<TreeMap<V>>,
    key: String,
    value: Option<V>,
}

/// The path that a list of keys spells.
pub open spec fn path_of(key: Seq<&str>) -> Seq<Seq<char>> {
    key.map_values(|s: &str| s@)
}

/// The index of the first of `children` from index `from` on whose key is
/// `k`, or the number of children if there is none.
pub open spec fn first_named<V>(children: Seq<TreeMap<V>>, k: Seq<char>, from: int) -> int
    decreases children.len() - from,
{
    if from < 0 || from >= children.len() {
        children.len() as int
    } else if children[from].spec_key() == k {
        from
    } else {
        first_named(children, k, from + 1)
    }
}

/// Where `first_named` points: at a child with the key and past all earlier
/// children without it.
pub proof fn lemma_first_named<V>(children: Seq<TreeMap<V>>, k: Seq<char>, from: int)
    requires
        0 <= from <= children.len(),
    ensures
        from <= first_named(children, k, from) <= children.len(),
        first_named(children, k, from) < children.len() ==> children[first_named(
            children,
            k,
            from,
        )].spec_key() == k,
        forall|j: int|
            from <= j < first_named(children, k, from) ==> (#[trigger] children[j]).spec_key() != k,
    decreases children.len() - from,
{
    if from < children.len() && children[from].spec_key() != k {
        lemma_first_named(children, k, from + 1);
    }
}

/// Children with the same keys in the same places name the same child.
proof fn lemma_first_named_by_keys<V>(
    a: Seq<TreeMap<V>>,
    b: Seq<TreeMap<V>>,
    k: Seq<char>,
    from: int,
)
    requires
        0 <= from <= a.len(),
        a.len() == b.len(),
        forall|j: int| 0 <= j < a.len() ==> (#[trigger] a[j]).spec_key() == b[j].spec_key(),
    ensures
        first_named(a, k, from) == first_named(b, k, from),
    decreases a.len() - from,
{
    if from < a.len() {
        assert(a[from].spec_key() == b[from].spec_key());
        if a[from].spec_key() != k {
            lemma_first_named_by_keys(a, b, k, from + 1);
        }
    }
}

/// One more child at the end is named only where no earlier child is.
proof fn lemma_first_named_push<V>(a: Seq<TreeMap<V>>, c: TreeMap<V>, k: Seq<char>, from: int)
    requires
        0 <= from <= a.len(),
    ensures
        first_named(a.push(c), k, from) == if first_named(a, k, from) < a.len() {
            first_named(a, k, from)
        } else if c.spec_key() == k {
            a.len() as int
        } else {
            (a.len() + 1) as int
        },
    decreases a.len() - from,
{
    let b = a.push(c);
    if from < a.len() {
        assert(b[from] == a[from]);
        if a[from].spec_key() != k {
            lemma_first_named_push(a, c, k, from + 1);
        }
    } else {
        assert(b[from] == c);
        assert(first_named(b, k, from + 1) == b.len());
    }
}

/// Whether `after` is `before` with `value` stored at the end of `path`:
/// the path leads to the value, every other path leads to what it led to, and
/// the nodes along the path exist beside those that existed.
pub open spec fn stored<V>(
    before: TreeMap<V>,
    after: TreeMap<V>,
    path: Seq<Seq<char>>,
    value: V,
) -> bool {
    &&& after.spec_key() == before.spec_key()
    &&& forall|q: Seq<Seq<char>>| #[trigger]
        after.lookup(q) == if q == path {
            Some(value)
        } else {
            before.lookup(q)
        }
    &&& forall|q: Seq<Seq<char>>| #[trigger]
        after.has_node(q) == (before.has_node(q) || q.is_prefix_of(path))
}

impl<V> TreeMap<V> {
    /// The children of the node, in the order in which they were added.
    pub closed spec fn spec_children(self) -> Seq<TreeMap<V>> {
        self.children@
    }

    /// The key of the node.
    pub closed spec fn spec_key(self) -> Seq<char> {
        self.key@
    }

    /// The value of the node, if it holds one.
    pub closed spec fn spec_value(self) -> Option<V> {
        self.value
    }

    /// Whether no node of the tree has two children with the same key.
    #[verifier::type_invariant]
    pub open spec fn unique_keys(self) -> bool
        decreases self,
    {
        &&& forall|i: int, j: int|
            0 <= i < j < self.spec_children().len() ==> (#[trigger] self.spec_children()[i]).spec_key()
                != (#[trigger] self.spec_children()[j]).spec_key()
        &&& forall|i: int|
            0 <= i < self.spec_children().len() ==> (#[trigger] self.spec_children()[i]).unique_keys()
    }

    /// The node that `path` leads to from this node, if every key of the path
    /// names a child.
    pub open spec fn subtree(self, path: Seq<Seq<char>>) -> Option<TreeMap<V>>
        decreases path.len(),
    {
        if path.len() == 0 {
            Some(self)
        } else {
            let i = first_named(self.spec_children(), path[0], 0);
            if 0 <= i < self.spec_children().len() {
                self.spec_children()[i].subtree(path.drop_first())
            } else {
                None
            }
        }
    }

    /// Whether `path` leads to a node.
    pub open spec fn has_node(self, path: Seq<Seq<char>>) -> bool {
        self.subtree(path) is Some
    }

    /// The value at the end of `path`, if the path leads to a node that holds
    /// one.
    pub open spec fn lookup(self, path: Seq<Seq<char>>) -> Option<V> {
        match self.subtree(path) {
            Some(node) => node.spec_value(),
            None => None,
        }
    }

    /// An empty tree: a single node without key, value or children.
    pub fn new() -> (r: Self)
        ensures
            r.spec_children().len() == 0,
            r.spec_key().len() == 0,
            r.spec_value() is None,
            r.unique_keys(),
    {
        TreeMap::<V> { children: Vec::new(), key: String::new(), value: None }
    }

    /// How many children the node has.
    pub fn child_count(&self) -> (r: usize)
        ensures
            r == self.spec_children().len(),
    {
        self.children.len()
    }

    /// The key of the node.
    pub fn key(&self) -> (r: &String)
        ensures
            r@ == self.spec_key(),
    {
        &self.key
    }

    /// The value of the node, if it holds one.
    pub fn value(&self) -> (r: Option<&V>)
        ensures
            r.is_some() == self.spec_value().is_some(),
            r matches Some(v) ==> self.spec_value() == Some(*v),
    {
        self.value.as_ref()
    }

    /// The index of the child called `name`, or the number of children if
    /// there is none.
    fn find_child(&self, name: &str) -> (r: usize)
        ensures
            r == first_named(self.spec_children(), name@, 0),
            r <= self.spec_children().len(),
    {
        let wanted = String::from_str(name);
        let mut i: usize = 0;
        while i < self.children.len()
            invariant
                i <= self.children.len(),
                wanted@ == name@,
                first_named(self.spec_children(), name@, 0) == first_named(
                    self.spec_children(),
                    name@,
                    i as int,
                ),
            decreases self.children.len() - i,
        {
            if self.children[i].key == wanted {
                return i;
            }
            i = i + 1;
        }
        i
    }

    /// The node that `key` leads to.
    fn map_at(&self, key: &Vec<&str>) -> (res: Result<&TreeMap<V>, Error>)
        ensures
            match self.subtree(path_of(key@)) {
                Some(node) => res matches Ok(found) && *found == node,
                None => res matches Err(Error::NonexistantKey),
            },
    {
        let ghost path = path_of(key@);
        let mut cur = self;
        let mut at: usize = 0;
        assert(path.skip(0) == path);
        while at < key.len()
            invariant
                at <= key.len(),
                path == path_of(key@),
                self.subtree(path) == cur.subtree(path.skip(at as int)),
            decreases key.len() - at,
        {
            let ghost rest = path.skip(at as int);
            assert(rest[0] == key@[at as int]@);
            assert(rest.drop_first() == path.skip(at + 1));
            let i = cur.find_child(key[at]);
            if i >= cur.children.len() {
                return Err(Error::NonexistantKey);
            }
            cur = &cur.children[i];
            at = at + 1;
        }
        Ok(cur)
    }

    /// The value that `key` leads to, or `None` if the path does not exist or
    /// ends at a node without value.
    pub fn get(&self, key: Vec<&str>) -> (r: Option<&V>)
        ensures
            r.is_some() == self.lookup(path_of(key@)).is_some(),
            r matches Some(v) ==> self.lookup(path_of(key@)) == Some(*v),
    {
        match self.map_at(&key) {
            Ok(map) => map.value.as_ref(),
            Err(Error::NonexistantKey) => None,
        }
    }

    /// Stores `value` at the end of the path that `key` spells from index
    /// `at` on, adding the nodes that the path lacks.
    fn add_from(&mut self, key: &Vec<&str>, at: usize, value: V)
        requires
            at <= key.len(),
        ensures
            stored(*old(self), *final(self), path_of(key@).skip(at as int), value),
            final(self).unique_keys(),
        decreases key.len() - at,
    {
        let ghost before = *self;
        let ghost rest = path_of(key@).skip(at as int);
        if at == key.len() {
            proof {
                use_type_invariant(&*self);
            }
            self.value = Some(value);
            proof {
                let after = *self;
                assert(rest =~= Seq::<Seq<char>>::empty());
                assert forall|q: Seq<Seq<char>>| #[trigger]
                    after.lookup(q) == if q == rest {
                        Some(value)
                    } else {
                        before.lookup(q)
                    } by {
                    if q.len() == 0 {
                        assert(q =~= rest);
                    }
                }
                assert forall|q: Seq<Seq<char>>| #[trigger]
                    after.has_node(q) == (before.has_node(q) || q.is_prefix_of(rest)) by {}
                assert(after.children@ == before.children@);
            }
        } else {
            let name = key[at];
            let ghost tail = path_of(key@).skip(at + 1);
            assert(rest[0] == name@);
            assert(rest.drop_first() =~= tail);
            let i = self.find_child(name);
            proof {
                use_type_invariant(&*self);
                lemma_first_named(before.children@, name@, 0);
            }
            // The children leave the node while they change, so that the node
            // is never seen with a child half added.
            let mut children: Vec<TreeMap<V>> = Vec::new();
            core::mem::swap(&mut self.children, &mut children);
            if i == children.len() {
                let mut child = TreeMap::new();
                child.key = String::from_str(name);
                children.push(child);
            }
            let ghost mid = children@;
            proof {
                if before.children@.len() == i {
                    lemma_first_named_push(before.children@, mid[i as int], name@, 0);
                } else {
                    assert(mid == before.children@);
                }
            }
            let child = &mut children[i];
            child.add_from(key, at + 1, value);
            proof {
                assert(children@ == mid.update(i as int, children@[i as int]));
                assert(stored(mid[i as int], children@[i as int], tail, value));
                assert forall|a: int, b: int| 0 <= a < b < children@.len() implies (
                #[trigger] children@[a]).spec_key() != (#[trigger] children@[b]).spec_key() by {
                    assert(children@[a].spec_key() == mid[a].spec_key());
                    assert(children@[b].spec_key() == mid[b].spec_key());
                    if b < before.children@.len() {
                        assert(mid[a] == before.children@[a]);
                        assert(mid[b] == before.children@[b]);
                    } else {
                        assert(mid[a] == before.children@[a]);
                    }
                }
                assert forall|a: int| 0 <= a < children@.len() implies (
                #[trigger] children@[a]).unique_keys() by {
                    if a != i {
                        assert(children@[a] == mid[a]);
                        if a < before.children@.len() {
                            assert(mid[a] == before.children@[a]);
                        }
                    }
                }
            }
            self.children = children;
            proof {
                let after = *self;
                let fresh = before.children@.len() == i;
                assert(after.children@ == mid.update(i as int, after.children@[i as int]));
                assert(stored(mid[i as int], after.children@[i as int], tail, value));
                assert forall|q: Seq<Seq<char>>|
                    #![trigger after.lookup(q)]
                    #![trigger after.has_node(q)]
                    (after.lookup(q) == if q == rest {
                        Some(value)
                    } else {
                        before.lookup(q)
                    }) && (after.has_node(q) == (before.has_node(q) || q.is_prefix_of(rest))) by {
                    if q.len() > 0 {
                        let k = q[0];
                        lemma_first_named_by_keys(mid, after.children@, k, 0);
                        lemma_first_named(mid, k, 0);
                        lemma_first_named(before.children@, k, 0);
                        if fresh {
                            lemma_first_named_push(before.children@, mid[i as int], k, 0);
                        }
                        let j = first_named(mid, k, 0);
                        assert(q == rest <==> (k == name@ && q.drop_first() == tail)) by {
                            if k == name@ && q.drop_first() == tail {
                                assert(q =~= seq![k] + q.drop_first());
                                assert(rest =~= seq![name@] + tail);
                            }
                        }
                        assert(q.is_prefix_of(rest) <==> (k == name@ && q.drop_first().is_prefix_of(
                            tail,
                        ))) by {
                            if q.is_prefix_of(rest) {
                                assert(q.drop_first() =~= tail.subrange(0, q.len() - 1));
                            }
                            if k == name@ && q.drop_first().is_prefix_of(tail) {
                                assert(q =~= seq![k] + q.drop_first());
                                assert(rest =~= seq![name@] + tail);
                                assert(q =~= rest.subrange(0, q.len() as int));
                            }
                        }
                        if j == i {
                            assert(after.children@[i as int].lookup(q.drop_first())
                                == if q.drop_first() == tail {
                                Some(value)
                            } else {
                                mid[i as int].lookup(q.drop_first())
                            });
                            assert(after.children@[i as int].has_node(q.drop_first()) == (
                            mid[i as int].has_node(q.drop_first())
                                || q.drop_first().is_prefix_of(tail)));
                            if fresh {
                                let made = mid[i as int];
                                assert(made.children@.len() == 0);
                                if q.drop_first().len() > 0 {
                                    assert(made.subtree(q.drop_first()) is None);
                                }
                            }
                        } else if j < mid.len() {
                            assert(after.children@[j] == mid[j]);
                        }
                    } else {
                        assert(q.is_prefix_of(rest));
                        assert(q != rest);
                    }
                }
            }
        }
    }

    /// Stores `value` at the end of the path that `key` spells, adding the
    /// nodes that the path lacks.
    pub fn add(&mut self, key: Vec<&str>, value: V)
        ensures
            stored(*old(self), *final(self), path_of(key@), value),
            final(self).unique_keys(),
    {
        assert(path_of(key@).skip(0) == path_of(key@));
        self.add_from(&key, 0, value);
    }

    /// Every path that is the beginning of a path to a node leads to a node
    /// too.
    pub proof fn lemma_prefixes_have_nodes(self, path: Seq<Seq<char>>, q: Seq<Seq<char>>)
        requires
            self.has_node(path),
            q.is_prefix_of(path),
        ensures
            self.has_node(q),
        decreases path.len(),
    {
        if q.len() > 0 {
            let i = first_named(self.spec_children(), path[0], 0);
            assert(q[0] == path[0]);
            assert(q.drop_first() =~= path.drop_first().subrange(0, q.len() - 1));
            self.spec_children()[i].lemma_prefixes_have_nodes(path.drop_first(), q.drop_first());
        }
    }

    /// Stores `value` at the end of the path that `key` spells, if the path
    /// leads to a node. Otherwise the tree stays as it is.
    pub fn set(&mut self, key: Vec<&str>, value: V) -> (res: Result<(), Error>)
        ensures
            old(self).has_node(path_of(key@)) ==> res is Ok && stored(
                *old(self),
                *final(self),
                path_of(key@),
                value,
            ),
            old(self).has_node(path_of(key@)) ==> forall|q: Seq<Seq<char>>| #[trigger]
                final(self).has_node(q) == old(self).has_node(q),
            final(self).unique_keys(),
            !old(self).has_node(path_of(key@)) ==> (res matches Err(Error::NonexistantKey)),
            !old(self).has_node(path_of(key@)) ==> *final(self) == *old(self),
    {
        let ghost before = *self;
        let ghost path = path_of(key@);
        proof {
            use_type_invariant(&*self);
        }
        match self.map_at(&key) {
            Ok(_) => {},
            Err(error) => {
                return Err(error);
            },
        }
        assert(path.skip(0) == path);
        self.add_from(&key, 0, value);
        proof {
            let after = *self;
            assert forall|q: Seq<Seq<char>>| #[trigger]
                after.has_node(q) == before.has_node(q) by {
                if q.is_prefix_of(path) {
                    before.lemma_prefixes_have_nodes(path, q);
                }
            }
        }
        Ok(())
    }
}

} // verus!
