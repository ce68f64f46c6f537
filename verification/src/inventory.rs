//! The remote inventory: the name → clone-URL mapping for a scope, built
//! page by page, with unique names (a later entry for a name overwrites an
//! earlier one).

use vstd::prelude::*;

verus! {

/// One repository as the remote inventory reports it.
#[derive(Debug)]
pub struct RepoEntry {
    /// The repository's name, unique within a scope.
    pub name: String,
    /// The repository's SSH clone URL.
    pub ssh_url: String,
}

/// No two entries share a name.
pub open spec fn unique_names(s: Seq<RepoEntry>) -> bool {
    forall|i: int, j: int| 0 <= i < j < s.len() ==> s[i].name@ != s[j].name@
}

/// The name → URL map that a sequence of entries denotes: entries are
/// folded in order, so a later entry for a name overwrites an earlier one.
pub open spec fn map_of(s: Seq<RepoEntry>) -> Map<Seq<char>, Seq<char>>
    decreases s.len(),
{
    if s.len() == 0 {
        Map::empty()
    } else {
        map_of(s.drop_last()).insert(s.last().name@, s.last().ssh_url@)
    }
}

/// The map after folding one more page of entries, in order, into `m`.
pub open spec fn extend_map(m: Map<Seq<char>, Seq<char>>, es: Seq<RepoEntry>) -> Map<
    Seq<char>,
    Seq<char>,
>
    decreases es.len(),
{
    if es.len() == 0 {
        m
    } else {
        extend_map(m.insert(es.first().name@, es.first().ssh_url@), es.drop_first())
    }
}

/// A name is in the map of `s` exactly when some entry of `s` carries it.
pub proof fn lemma_map_of_dom(s: Seq<RepoEntry>, n: Seq<char>)
    ensures
        map_of(s).dom().contains(n) <==> exists|i: int| 0 <= i < s.len() && s[i].name@ == n,
    decreases s.len(),
{
    if s.len() == 0 {
    } else {
        lemma_map_of_dom(s.drop_last(), n);
        if map_of(s).dom().contains(n) {
            if s.last().name@ == n {
                assert(s[s.len() - 1].name@ == n);
            } else {
                let i = choose|i: int| 0 <= i < s.drop_last().len() && s.drop_last()[i].name@
                    == n;
                assert(s[i].name@ == n);
            }
        }
        if exists|i: int| 0 <= i < s.len() && s[i].name@ == n {
            let i = choose|i: int| 0 <= i < s.len() && s[i].name@ == n;
            if i < s.len() - 1 {
                assert(s.drop_last()[i].name@ == n);
            }
        }
    }
}

/// With unique names, the map of `s` sends each entry's name to that
/// entry's URL.
pub proof fn lemma_map_of_at(s: Seq<RepoEntry>, i: int)
    requires
        unique_names(s),
        0 <= i < s.len(),
    ensures
        map_of(s).dom().contains(s[i].name@),
        map_of(s)[s[i].name@] == s[i].ssh_url@,
    decreases s.len(),
{
    if i == s.len() - 1 {
    } else {
        assert(s[i].name@ != s.last().name@);
        assert(s.drop_last()[i] == s[i]);
        lemma_map_of_at(s.drop_last(), i);
    }
}

/// The entry list after recording one repository: the first entry of the
/// same name is overwritten in place; a name not yet present is appended.
pub open spec fn spec_insert_entry(s: Seq<RepoEntry>, e: RepoEntry) -> Seq<RepoEntry>
    decreases s.len(),
{
    if s.len() == 0 {
        seq![e]
    } else if s.first().name@ == e.name@ {
        seq![e] + s.drop_first()
    } else {
        seq![s.first()] + spec_insert_entry(s.drop_first(), e)
    }
}

/// The entry list after recording one page of entries, in order.
pub open spec fn spec_insert_all(s: Seq<RepoEntry>, page: Seq<RepoEntry>) -> Seq<RepoEntry>
    decreases page.len(),
{
    if page.len() == 0 {
        s
    } else {
        spec_insert_all(spec_insert_entry(s, page.first()), page.drop_first())
    }
}

/// Where the first entry of the new name sits at `i`, recording is an
/// in-place overwrite there.
proof fn lemma_spec_insert_update(s: Seq<RepoEntry>, i: int, e: RepoEntry)
    requires
        0 <= i < s.len(),
        s[i].name@ == e.name@,
        forall|j: int| 0 <= j < i ==> s[j].name@ != e.name@,
    ensures
        spec_insert_entry(s, e) == s.update(i, e),
    decreases s.len(),
{
    if i == 0 {
        assert(seq![e] + s.drop_first() =~= s.update(0, e));
    } else {
        assert(s[0].name@ != e.name@);
        let t = s.drop_first();
        assert forall|j: int| 0 <= j < i - 1 implies t[j].name@ != e.name@ by {
            assert(t[j] == s[j + 1]);
        }
        assert(t[i - 1] == s[i]);
        lemma_spec_insert_update(t, i - 1, e);
        assert(seq![s.first()] + t.update(i - 1, e) =~= s.update(i, e));
    }
}

/// Where no entry carries the new name, recording appends.
proof fn lemma_spec_insert_push(s: Seq<RepoEntry>, e: RepoEntry)
    requires
        forall|j: int| 0 <= j < s.len() ==> s[j].name@ != e.name@,
    ensures
        spec_insert_entry(s, e) == s.push(e),
    decreases s.len(),
{
    if s.len() == 0 {
        assert(seq![e] =~= s.push(e));
    } else {
        let t = s.drop_first();
        assert forall|j: int| 0 <= j < t.len() implies t[j].name@ != e.name@ by {
            assert(t[j] == s[j + 1]);
        }
        lemma_spec_insert_push(t, e);
        assert(seq![s.first()] + t.push(e) =~= s.push(e));
    }
}

/// With unique names the map is exactly as large as the entry list: the
/// inventory holds no duplicate names.
pub proof fn lemma_map_of_len(s: Seq<RepoEntry>)
    requires
        unique_names(s),
    ensures
        map_of(s).dom().finite(),
        map_of(s).dom().len() == s.len(),
    decreases s.len(),
{
    broadcast use vstd::set::group_set_axioms;

    if s.len() == 0 {
        assert(map_of(s).dom() =~= Set::<Seq<char>>::empty());
    } else {
        lemma_map_of_len(s.drop_last());
        lemma_map_of_dom(s.drop_last(), s.last().name@);
        assert(!map_of(s.drop_last()).dom().contains(s.last().name@)) by {
            if map_of(s.drop_last()).dom().contains(s.last().name@) {
                let i = choose|i: int|
                    0 <= i < s.drop_last().len() && s.drop_last()[i].name@ == s.last().name@;
                assert(s[i].name@ == s.last().name@);
                assert(s[i].name@ != s[s.len() - 1].name@);
            }
        }
        assert(map_of(s).dom() =~= map_of(s.drop_last()).dom().insert(s.last().name@));
    }
}

/// Overwriting the entry that already carries a name changes the map as a
/// single insert for that name does.
proof fn lemma_map_of_update(s: Seq<RepoEntry>, i: int, e: RepoEntry)
    requires
        unique_names(s),
        0 <= i < s.len(),
        s[i].name@ == e.name@,
    ensures
        map_of(s.update(i, e)) == map_of(s).insert(e.name@, e.ssh_url@),
    decreases s.len(),
{
    let t = s.update(i, e);
    if i == s.len() - 1 {
        assert(t.drop_last() =~= s.drop_last());
        assert(t.last() == e);
        assert(map_of(s).insert(e.name@, e.ssh_url@) =~= map_of(s.drop_last()).insert(
            e.name@,
            e.ssh_url@,
        ));
    } else {
        assert(t.drop_last() =~= s.drop_last().update(i, e));
        assert(t.last() == s.last());
        assert(s.drop_last()[i] == s[i]);
        lemma_map_of_update(s.drop_last(), i, e);
        assert(s[i].name@ != s.last().name@);
        assert(map_of(s.drop_last()).insert(e.name@, e.ssh_url@).insert(
            s.last().name@,
            s.last().ssh_url@,
        ) =~= map_of(s.drop_last()).insert(s.last().name@, s.last().ssh_url@).insert(
            e.name@,
            e.ssh_url@,
        ));
    }
}

/// The complete inventory for a scope: a name-keyed mapping to clone URLs,
/// kept in a deterministic order with unique names.
pub struct Inventory {
    entries: Vec<RepoEntry>,
}

impl View for Inventory {
    type V = Map<Seq<char>, Seq<char>>;

    open spec fn view(&self) -> Map<Seq<char>, Seq<char>> {
        map_of(self.spec_entries())
    }
}

impl Inventory {
    /// The entries held, in their deterministic order.
    pub closed spec fn spec_entries(&self) -> Seq<RepoEntry> {
        self.entries@
    }

    /// Well-formedness: no two entries share a name.
    pub open spec fn wf(&self) -> bool {
        unique_names(self.spec_entries())
    }

    /// An empty inventory.
    pub fn new() -> (inv: Inventory)
        ensures
            inv.wf(),
            inv@ == Map::<Seq<char>, Seq<char>>::empty(),
            inv.spec_entries().len() == 0,
    {
        Inventory { entries: Vec::new() }
    }

    /// How many repositories the inventory holds.
    pub fn len(&self) -> (n: usize)
        ensures
            n == self.spec_entries().len(),
    {
        self.entries.len()
    }

    /// The entries, in their deterministic order, for classification and
    /// reporting.
    pub fn entries(&self) -> (es: &Vec<RepoEntry>)
        ensures
            es@ == self.spec_entries(),
    {
        &self.entries
    }

    /// Records one repository: a repository of that name already present is
    /// overwritten (last page wins), any other entry is untouched.
    #[verifier::loop_isolation(false)]
    pub fn insert(&mut self, name: String, ssh_url: String)
        requires
            old(self).wf(),
        ensures
            final(self).wf(),
            final(self)@ == old(self)@.insert(name@, ssh_url@),
            final(self).spec_entries() == spec_insert_entry(
                old(self).spec_entries(),
                (RepoEntry { name, ssh_url }),
            ),
            final(self).spec_entries().len() <= old(self).spec_entries().len() + 1,
    {
        let n = self.entries.len();
        let mut i: usize = 0;
        while i < n
            invariant
                i <= n,
                n == self.entries@.len(),
                self.entries@ == old(self).spec_entries(),
                forall|k: int| 0 <= k < i ==> self.entries@[k].name@ != name@,
            decreases n - i,
        {
            if self.entries[i].name == name {
                proof {
                    lemma_map_of_update(self.entries@, i as int, RepoEntry { name, ssh_url });
                    lemma_spec_insert_update(self.entries@, i as int, RepoEntry { name, ssh_url });
                }
                let e = RepoEntry { name, ssh_url };
                self.entries[i] = e;
                proof {
                    assert forall|a: int, b: int|
                        0 <= a < b < self.entries@.len() implies self.entries@[a].name@
                        != self.entries@[b].name@ by {}
                }
                return ;
            }
            i += 1;
        }
        proof {
            lemma_map_of_dom(self.entries@, name@);
            lemma_spec_insert_push(self.entries@, RepoEntry { name, ssh_url });
        }
        let e = RepoEntry { name, ssh_url };
        self.entries.push(e);
        proof {
            assert(self.entries@.drop_last() =~= old(self).spec_entries());
        }
    }

    /// Folds one page of entries, in order, into the inventory.
    #[verifier::loop_isolation(false)]
    pub fn insert_page(&mut self, page: &Vec<RepoEntry>)
        requires
            old(self).wf(),
        ensures
            final(self).wf(),
            final(self)@ == extend_map(old(self)@, page@),
            final(self).spec_entries() == spec_insert_all(old(self).spec_entries(), page@),
    {
        let ghost m0 = self@;
        let ghost e0 = self.spec_entries();
        proof {
            assert(page@.skip(0) =~= page@);
        }
        let n = page.len();
        let mut i: usize = 0;
        while i < n
            invariant
                i <= n,
                n == page@.len(),
                self.wf(),
                extend_map(m0, page@) == extend_map(self@, page@.skip(i as int)),
                spec_insert_all(e0, page@) == spec_insert_all(
                    self.spec_entries(),
                    page@.skip(i as int),
                ),
            decreases n - i,
        {
            let name = page[i].name.clone();
            let ssh_url = page[i].ssh_url.clone();
            proof {
                assert(page@.skip(i as int).first() == page@[i as int]);
                assert(page@.skip(i as int).drop_first() =~= page@.skip(i as int + 1));
                assert((RepoEntry { name, ssh_url }) == page@[i as int]);
            }
            self.insert(name, ssh_url);
            i += 1;
        }
        proof {
            assert(page@.skip(n as int) =~= Seq::<RepoEntry>::empty());
        }
    }

    /// Looks a repository's clone URL up by name.
    #[verifier::loop_isolation(false)]
    pub fn get(&self, name: &String) -> (r: Option<&String>)
        requires
            self.wf(),
        ensures
            r is Some <==> self@.dom().contains(name@),
            r matches Some(u) ==> u@ == self@[name@],
    {
        proof {
            lemma_map_of_dom(self.spec_entries(), name@);
        }
        let n = self.entries.len();
        let mut i: usize = 0;
        while i < n
            invariant
                i <= n,
                n == self.entries@.len(),
                self.wf(),
                forall|k: int| 0 <= k < i ==> self.entries@[k].name@ != name@,
            decreases n - i,
        {
            if self.entries[i].name == *name {
                proof {
                    lemma_map_of_at(self.spec_entries(), i as int);
                }
                return Some(&self.entries[i].ssh_url);
            }
            i += 1;
        }
        None
    }
}

} // verus!
