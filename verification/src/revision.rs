use vstd::prelude::*;

verus! {

/// `philharmonic_types::ScalarValue`: a small typed attribute value (a
/// boolean or a 64-bit integer). Carried through as is.
#[verifier::external_type_specification]
#[verifier::external_body]
pub struct ExScalarValue(philharmonic_types::ScalarValue);

/// Whether no attribute name occurs twice among the entries.
pub open spec fn names_distinct<A>(s: Seq<(String, A)>) -> bool {
    forall|i: int, j: int|
        0 <= i < s.len() && 0 <= j < s.len() && i != j ==> #[trigger] s[i].0@ != #[trigger] s[j].0@
}

/// Whether some entry carries the attribute name `k`.
pub open spec fn has_name<A>(s: Seq<(String, A)>, k: Seq<char>) -> bool {
    exists|i: int| 0 <= i < s.len() && #[trigger] s[i].0@ == k
}

/// The index of an entry that carries the attribute name `k`.
pub open spec fn position_of<A>(s: Seq<(String, A)>, k: Seq<char>) -> int {
    choose|i: int| 0 <= i < s.len() && #[trigger] s[i].0@ == k
}

/// The map from attribute name to value that the entries stand for.
pub open spec fn entries_map<A>(s: Seq<(String, A)>) -> Map<Seq<char>, A> {
    Map::new(|k: Seq<char>| has_name(s, k), |k: Seq<char>| s[position_of(s, k)].1)
}

/// Among distinct names, the entry found for the name of entry `i` is `i`.
proof fn lemma_position_of<A>(s: Seq<(String, A)>, i: int)
    requires
        names_distinct(s),
        0 <= i < s.len(),
    ensures
        has_name(s, s[i].0@),
        position_of(s, s[i].0@) == i,
{
    let k = s[i].0@;
    assert(has_name(s, k));
    let p = position_of(s, k);
    assert(s[p].0@ == k);
}

/// Replacing the value of an entry keeps the names distinct and sets that
/// name's value in the map.
proof fn lemma_replace_entry<A>(s: Seq<(String, A)>, i: int, name: String, value: A)
    requires
        names_distinct(s),
        0 <= i < s.len(),
        s[i].0@ == name@,
    ensures
        names_distinct(s.update(i, (name, value))),
        entries_map(s.update(i, (name, value))) == entries_map(s).insert(name@, value),
{
    let t = s.update(i, (name, value));
    assert forall|j: int| 0 <= j < t.len() implies #[trigger] t[j].0@ == s[j].0@ by {}
    assert(names_distinct(t)) by {
        assert forall|a: int, b: int| 0 <= a < t.len() && 0 <= b < t.len() && a != b implies
            #[trigger] t[a].0@ != #[trigger] t[b].0@ by {
            assert(t[a].0@ == s[a].0@);
            assert(t[b].0@ == s[b].0@);
        }
    }
    let m = entries_map(s).insert(name@, value);
    assert forall|k: Seq<char>| #[trigger] has_name(t, k) == m.dom().contains(k) by {
        if has_name(t, k) {
            let p = choose|p: int| 0 <= p < t.len() && #[trigger] t[p].0@ == k;
            assert(s[p].0@ == k);
        }
        if has_name(s, k) {
            let p = choose|p: int| 0 <= p < s.len() && #[trigger] s[p].0@ == k;
            assert(t[p].0@ == k);
        }
        if k == name@ {
            assert(t[i].0@ == k);
        }
    }
    assert forall|k: Seq<char>| has_name(t, k) implies #[trigger] entries_map(t)[k] == m[k] by {
        let p = position_of(t, k);
        assert(t[p].0@ == k);
        lemma_position_of(t, p);
        if k == name@ {
            lemma_position_of(t, i);
        } else {
            assert(s[p].0@ == k);
            lemma_position_of(s, p);
        }
    }
    assert(entries_map(t) =~= m);
}

/// Appending an entry with a new name keeps the names distinct and adds that
/// name to the map.
proof fn lemma_push_entry<A>(s: Seq<(String, A)>, name: String, value: A)
    requires
        names_distinct(s),
        !has_name(s, name@),
    ensures
        names_distinct(s.push((name, value))),
        entries_map(s.push((name, value))) == entries_map(s).insert(name@, value),
{
    let t = s.push((name, value));
    let n = s.len() as int;
    assert forall|j: int| 0 <= j < s.len() implies #[trigger] t[j] == s[j] by {}
    assert(names_distinct(t)) by {
        assert forall|a: int, b: int| 0 <= a < t.len() && 0 <= b < t.len() && a != b implies
            #[trigger] t[a].0@ != #[trigger] t[b].0@ by {
            if a < n && b < n {
                assert(t[a] == s[a]);
                assert(t[b] == s[b]);
            } else if a == n {
                assert(t[b] == s[b]);
                if s[b].0@ == name@ {
                    assert(has_name(s, name@));
                }
            } else {
                assert(t[a] == s[a]);
                if s[a].0@ == name@ {
                    assert(has_name(s, name@));
                }
            }
        }
    }
    let m = entries_map(s).insert(name@, value);
    assert forall|k: Seq<char>| #[trigger] has_name(t, k) == m.dom().contains(k) by {
        if has_name(t, k) {
            let p = choose|p: int| 0 <= p < t.len() && #[trigger] t[p].0@ == k;
            if p < n {
                assert(t[p] == s[p]);
                assert(s[p].0@ == k);
            }
        }
        if has_name(s, k) {
            let p = choose|p: int| 0 <= p < s.len() && #[trigger] s[p].0@ == k;
            assert(t[p] == s[p]);
            assert(t[p].0@ == k);
        }
        if k == name@ {
            assert(t[n].0@ == k);
        }
    }
    assert forall|k: Seq<char>| has_name(t, k) implies #[trigger] entries_map(t)[k] == m[k] by {
        let p = position_of(t, k);
        assert(t[p].0@ == k);
        lemma_position_of(t, p);
        if k == name@ {
            lemma_position_of(t, n);
        } else {
            assert(p != n);
            assert(t[p] == s[p]);
            assert(s[p].0@ == k);
            lemma_position_of(s, p);
        }
    }
    assert(entries_map(t) =~= m);
}

/// With distinct names, the map has one name per entry.
proof fn lemma_entries_map_len<A>(s: Seq<(String, A)>)
    requires
        names_distinct(s),
    ensures
        entries_map(s).dom().finite(),
        entries_map(s).dom().len() == s.len(),
    decreases s.len(),
{
    if s.len() == 0 {
        assert(entries_map(s).dom() =~= Set::<Seq<char>>::empty());
    } else {
        let p = s.drop_last();
        let n = p.len() as int;
        let last = s[n].0@;
        assert forall|a: int, b: int| 0 <= a < p.len() && 0 <= b < p.len() && a != b implies
            #[trigger] p[a].0@ != #[trigger] p[b].0@ by {
            assert(p[a] == s[a]);
            assert(p[b] == s[b]);
        }
        lemma_entries_map_len(p);
        assert forall|k: Seq<char>| #[trigger] has_name(s, k) == (has_name(p, k) || k == last) by {
            if has_name(s, k) {
                let i = choose|i: int| 0 <= i < s.len() && #[trigger] s[i].0@ == k;
                if i < n {
                    assert(p[i] == s[i]);
                }
            }
            if has_name(p, k) {
                let i = choose|i: int| 0 <= i < p.len() && #[trigger] p[i].0@ == k;
                assert(p[i] == s[i]);
                assert(s[i].0@ == k);
            }
            if k == last {
                assert(s[n].0@ == k);
            }
        }
        assert(entries_map(s).dom() =~= entries_map(p).dom().insert(last));
        if has_name(p, last) {
            let i = choose|i: int| 0 <= i < p.len() && #[trigger] p[i].0@ == last;
            assert(p[i] == s[i]);
            assert(s[i].0@ != s[n].0@);
        }
        assert(!entries_map(p).dom().contains(last));
    }
}

/// Named attributes of one kind on a revision: at most one value per name.
/// Setting a name that is already present replaces its value.
#[derive(Debug)]
pub struct AttrMap<A> {
    entries: Vec<(String, A)>,
}

impl<A> View for AttrMap<A> {
    type V = Map<Seq<char>, A>;

    closed spec fn view(&self) -> Map<Seq<char>, A> {
        entries_map(self.entries@)
    }
}

impl<A> AttrMap<A> {
    #[verifier::type_invariant]
    spec fn names_unique(self) -> bool {
        names_distinct(self.entries@)
    }

    /// The entries in the order their names were first set.
    pub closed spec fn entries_view(&self) -> Seq<(String, A)> {
        self.entries@
    }

    /// An attribute map with no names.
    pub fn new() -> (m: Self)
        ensures
            m@ == Map::<Seq<char>, A>::empty(),
            m.entries_view() == Seq::<(String, A)>::empty(),
    {
        let m = AttrMap { entries: Vec::new() };
        assert(m@ =~= Map::<Seq<char>, A>::empty());
        m
    }

    /// Set the attribute `name` to `value`, replacing any value it had. A
    /// name already present keeps its place among the entries; a new name is
    /// placed last.
    pub fn insert(&mut self, name: String, value: A)
        ensures
            final(self)@ == old(self)@.insert(name@, value),
            final(self).entries_view() == if has_name(old(self).entries_view(), name@) {
                old(self).entries_view().update(position_of(old(self).entries_view(), name@), (name, value))
            } else {
                old(self).entries_view().push((name, value))
            },
    {
        proof { use_type_invariant(&*self); }
        let mut entries: Vec<(String, A)> = Vec::new();
        std::mem::swap(&mut entries, &mut self.entries);
        let ghost before = entries@;
        let n = entries.len();
        let mut i: usize = 0;
        while i < n
            invariant
                n == entries.len(),
                entries@ == before,
                i <= n,
                forall|j: int| 0 <= j < i ==> #[trigger] before[j].0@ != name@,
            ensures
                i <= n,
                i < n ==> before[i as int].0@ == name@,
                forall|j: int| 0 <= j < i ==> #[trigger] before[j].0@ != name@,
            decreases n - i,
        {
            if entries[i].0 == name {
                break;
            }
            i = i + 1;
        }
        if i < n {
            proof {
                lemma_position_of(before, i as int);
                lemma_replace_entry(before, i as int, name, value);
            }
            entries.set(i, (name, value));
        } else {
            proof {
                assert(!has_name(before, name@));
                lemma_push_entry(before, name, value);
            }
            entries.push((name, value));
        }
        self.entries = entries;
    }

    /// The value of the attribute `name`, if it is set.
    pub fn get(&self, name: &str) -> (r: Option<&A>)
        ensures
            r == if self@.contains_key(name@) {
                Some(&self@[name@])
            } else {
                None
            },
    {
        proof { use_type_invariant(self); }
        let key = String::from_str(name);
        let n = self.entries.len();
        let mut i: usize = 0;
        while i < n
            invariant
                n == self.entries@.len(),
                names_distinct(self.entries@),
                key@ == name@,
                i <= n,
                forall|j: int| 0 <= j < i ==> #[trigger] self.entries@[j].0@ != name@,
            decreases n - i,
        {
            if self.entries[i].0 == key {
                proof { lemma_position_of(self.entries@, i as int); }
                return Some(&self.entries[i].1);
            }
            i = i + 1;
        }
        proof {
            if has_name(self.entries@, name@) {
                let j = choose|j: int| 0 <= j < self.entries@.len() && #[trigger] self.entries@[j].0@ == name@;
                assert(self.entries@[j].0@ != name@);
            }
        }
        None
    }

    /// The number of names set.
    pub fn len(&self) -> (n: usize)
        ensures
            n == self.entries_view().len(),
            n == self@.dom().len(),
            self@.dom().finite(),
    {
        proof {
            use_type_invariant(self);
            lemma_entries_map_len(self.entries@);
        }
        self.entries.len()
    }

    /// The entries, each name once, in the order their names were first set.
    pub fn entries(&self) -> (v: &[(String, A)])
        ensures
            v@ == self.entries_view(),
            names_distinct(v@),
            entries_map(v@) == self@,
    {
        proof { use_type_invariant(self); }
        self.entries.as_slice()
    }

    /// The entries, each name once, in the order their names were first set.
    pub fn into_entries(self) -> (v: Vec<(String, A)>)
        ensures
            v@ == self.entries_view(),
            names_distinct(v@),
            entries_map(v@) == self@,
    {
        proof { use_type_invariant(&self); }
        self.entries
    }
}

/// Setting attributes one after the other: setting a name twice keeps only
/// the last value, and settings of two different names commute.
pub proof fn lemma_attribute_settings<A>(
    attrs: Map<Seq<char>, A>,
    name: Seq<char>,
    other: Seq<char>,
    first: A,
    second: A,
)
    ensures
        attrs.insert(name, first).insert(name, second) == attrs.insert(name, second),
        name != other ==> attrs.insert(name, first).insert(other, second) == attrs.insert(other, second).insert(name, first),
        attrs.insert(name, first).contains_key(name) && attrs.insert(name, first)[name] == first,
{
    assert(attrs.insert(name, first).insert(name, second) =~= attrs.insert(name, second));
    if name != other {
        assert(attrs.insert(name, first).insert(other, second) =~= attrs.insert(other, second).insert(name, first));
    }
}

impl<A: Clone> Clone for AttrMap<A> {
    /// A copy with the same names in the same order, each value cloned.
    fn clone(&self) -> (r: Self)
        ensures
            r@.dom() == self@.dom(),
            r.entries_view().len() == self.entries_view().len(),
            forall|i: int| #![trigger r.entries_view()[i]] 0 <= i < self.entries_view().len() ==> {
                &&& r.entries_view()[i].0@ == self.entries_view()[i].0@
                &&& cloned(self.entries_view()[i].1, r.entries_view()[i].1)
            },
    {
        proof { use_type_invariant(self); }
        let ghost src = self.entries@;
        let n = self.entries.len();
        let mut entries: Vec<(String, A)> = Vec::new();
        for i in 0..n
            invariant
                n == src.len(),
                src == self.entries@,
                entries@.len() == i,
                forall|j: int| 0 <= j < i ==> {
                    &&& #[trigger] entries@[j].0@ == src[j].0@
                    &&& cloned(src[j].1, entries@[j].1)
                },
        {
            let name = self.entries[i].0.clone();
            let value = self.entries[i].1.clone();
            entries.push((name, value));
        }
        proof {
            let t = entries@;
            assert forall|a: int, b: int| 0 <= a < t.len() && 0 <= b < t.len() && a != b implies
                #[trigger] t[a].0@ != #[trigger] t[b].0@ by {
                assert(t[a].0@ == src[a].0@);
                assert(t[b].0@ == src[b].0@);
            }
            assert forall|k: Seq<char>| #[trigger] has_name(t, k) == has_name(src, k) by {
                if has_name(t, k) {
                    let i = choose|i: int| 0 <= i < t.len() && #[trigger] t[i].0@ == k;
                    assert(src[i].0@ == k);
                }
                if has_name(src, k) {
                    let i = choose|i: int| 0 <= i < src.len() && #[trigger] src[i].0@ == k;
                    assert(t[i].0@ == k);
                }
            }
            assert(entries_map(t).dom() =~= entries_map(src).dom());
        }
        let r = AttrMap { entries };
        assert forall|i: int| #![trigger r.entries_view()[i]] 0 <= i < self.entries_view().len() implies {
            &&& r.entries_view()[i].0@ == self.entries_view()[i].0@
            &&& cloned(self.entries_view()[i].1, r.entries_view()[i].1)
        } by {
            assert(r.entries_view()[i] == entries@[i]);
            assert(entries@[i].0@ == src[i].0@);
        }
        r
    }
}

/// Input to an entity revision append: content-hash attributes (SHA-256
/// digests of blobs already in the content store), entity-reference
/// attributes and scalar attributes, each keyed by attribute name.
#[derive(Clone, Debug)]
pub struct RevisionInput {
    /// Attribute name to the SHA-256 digest of a stored content blob.
    pub content_attrs: AttrMap<[u8; 32]>,
    /// Attribute name to a reference to another entity.
    pub entity_attrs: AttrMap<EntityRefValue>,
    /// Attribute name to a typed scalar value.
    pub scalar_attrs: AttrMap<philharmonic_types::ScalarValue>,
}

impl RevisionInput {
    /// An empty revision input, to be built up with the `with_*` methods.
    pub fn new() -> (r: Self)
        ensures
            r.content_attrs@ == Map::<Seq<char>, [u8; 32]>::empty(),
            r.entity_attrs@ == Map::<Seq<char>, EntityRefValue>::empty(),
            r.scalar_attrs@ == Map::<Seq<char>, philharmonic_types::ScalarValue>::empty(),
    {
        RevisionInput { content_attrs: AttrMap::new(), entity_attrs: AttrMap::new(), scalar_attrs: AttrMap::new() }
    }

    /// Set a content-hash attribute, returning `self` for chaining.
    pub fn with_content(self, name: String, hash: [u8; 32]) -> (r: Self)
        ensures
            r.content_attrs@ == self.content_attrs@.insert(name@, hash),
            r.entity_attrs@ == self.entity_attrs@,
            r.scalar_attrs@ == self.scalar_attrs@,
    {
        let mut r = self;
        r.content_attrs.insert(name, hash);
        r
    }

    /// Set an entity-reference attribute, returning `self` for chaining.
    pub fn with_entity(self, name: String, reference: EntityRefValue) -> (r: Self)
        ensures
            r.content_attrs@ == self.content_attrs@,
            r.entity_attrs@ == self.entity_attrs@.insert(name@, reference),
            r.scalar_attrs@ == self.scalar_attrs@,
    {
        let mut r = self;
        r.entity_attrs.insert(name, reference);
        r
    }

    /// Set a scalar attribute, returning `self` for chaining.
    pub fn with_scalar(self, name: String, value: philharmonic_types::ScalarValue) -> (r: Self)
        ensures
            r.content_attrs@ == self.content_attrs@,
            r.entity_attrs@ == self.entity_attrs@,
            r.scalar_attrs@ == self.scalar_attrs@.insert(name@, value),
    {
        let mut r = self;
        r.scalar_attrs.insert(name, value);
        r
    }
}

impl Default for RevisionInput {
    /// An empty revision input, as [`RevisionInput::new`].
    fn default() -> (r: Self)
        ensures
            r.content_attrs@ == Map::<Seq<char>, [u8; 32]>::empty(),
            r.entity_attrs@ == Map::<Seq<char>, EntityRefValue>::empty(),
            r.scalar_attrs@ == Map::<Seq<char>, philharmonic_types::ScalarValue>::empty(),
    {
        RevisionInput::new()
    }
}

/// A reference from a revision to another entity (by internal ID), pinned to
/// a specific revision of the target or tracking its latest revision.
#[derive(Clone, Copy, Debug, PartialEq, Eq, Structural)]
pub struct EntityRefValue {
    /// Internal ID of the target entity.
    pub target_entity_id: u128,
    /// `Some(seq)` pins the reference to revision `seq`; `None` tracks the
    /// target's latest revision.
    pub target_revision_seq: Option<u64>,
}

impl EntityRefValue {
    /// A reference that tracks the target's latest revision.
    pub fn latest(target: u128) -> (r: Self)
        ensures
            r == (EntityRefValue { target_entity_id: target, target_revision_seq: None }),
    {
        EntityRefValue { target_entity_id: target, target_revision_seq: None }
    }

    /// A reference pinned to revision `revision_seq` of the target.
    pub fn pinned(target: u128, revision_seq: u64) -> (r: Self)
        ensures
            r == (EntityRefValue { target_entity_id: target, target_revision_seq: Some(revision_seq) }),
    {
        EntityRefValue { target_entity_id: target, target_revision_seq: Some(revision_seq) }
    }

    /// Whether this reference is pinned to a specific revision.
    pub open spec fn pinned_spec(&self) -> bool {
        self.target_revision_seq is Some
    }

    /// Whether this reference is pinned to a specific revision.
    pub fn is_pinned(&self) -> (b: bool)
        ensures
            b == self.pinned_spec(),
    {
        self.target_revision_seq.is_some()
    }
}

/// A reference built as pinned is pinned, and one built as tracking the
/// latest revision is not.
pub proof fn lemma_pinning(target: u128, revision_seq: u64)
    ensures
        (EntityRefValue { target_entity_id: target, target_revision_seq: Some(revision_seq) }).pinned_spec(),
        !(EntityRefValue { target_entity_id: target, target_revision_seq: None }).pinned_spec(),
{
}

/// An entity revision as read from storage: its entity, its sequence number,
/// its creation time in milliseconds since the Unix epoch, and its attributes.
#[derive(Clone, Debug)]
pub struct RevisionRow {
    /// Internal ID of the entity this revision belongs to.
    pub entity_id: u128,
    /// Sequence number of this revision within the entity.
    pub revision_seq: u64,
    /// When this revision was appended, in milliseconds since the Unix epoch.
    pub created_at: i64,
    /// Content-hash attributes on this revision.
    pub content_attrs: AttrMap<[u8; 32]>,
    /// Entity-reference attributes on this revision.
    pub entity_attrs: AttrMap<EntityRefValue>,
    /// Scalar attributes on this revision.
    pub scalar_attrs: AttrMap<philharmonic_types::ScalarValue>,
}

/// A reference to one revision of an entity, without its attributes.
#[derive(Clone, Copy, Debug, PartialEq, Eq, Hash, Structural)]
pub struct RevisionRef {
    /// Internal ID of the entity.
    pub entity_id: u128,
    /// Sequence number of the revision.
    pub revision_seq: u64,
}

impl RevisionRef {
    /// A reference to revision `revision_seq` of entity `entity_id`.
    pub fn new(entity_id: u128, revision_seq: u64) -> (r: Self)
        ensures
            r == (RevisionRef { entity_id, revision_seq }),
    {
        RevisionRef { entity_id, revision_seq }
    }
}

} // verus!
