//! The parameters of a request's query string: each name at most once, with
//! its value, as the web framework hands them over in a hash map.

use vstd::prelude::*;

verus! {

/// Query parameters, each name at most once.
pub struct Query {
    entries: Vec<(String, String)>,
}

impl Query {
    /// The names, in the order they were first inserted.
    pub closed spec fn names(self) -> Seq<Seq<char>> {
        self.entries@.map_values(|e: (String, String)| e.0@)
    }

    #[verifier::type_invariant]
    spec fn names_distinct(self) -> bool {
        self.names().no_duplicates()
    }

    /// No parameters.
    pub fn new() -> (q: Query)
        ensures
            q@ == Map::<Seq<char>, Seq<char>>::empty(),
            q@.dom().finite(),
    {
        let q = Query { entries: Vec::new() };
        assert(q@ =~= Map::<Seq<char>, Seq<char>>::empty());
        q
    }

    /// Sets the parameter `name` to `value`, replacing an earlier value.
    pub fn insert(&mut self, name: String, value: String)
        ensures
            final(self)@ == old(self)@.insert(name@, value@),
            final(self)@.dom().finite(),
    {
        proof {
            use_type_invariant(&*self);
        }
        let ghost before = self.entries@;
        let n = self.entries.len();
        let mut i: usize = 0;
        while i < n && !(self.entries[i].0 == name)
            invariant
                0 <= i <= n,
                n == self.entries@.len(),
                self.entries@ == before,
                forall|k: int| 0 <= k < i ==> (#[trigger] before[k]).0@ != name@,
            decreases n - i,
        {
            i = i + 1;
        }
        let ghost old_names = self.names();
        let ghost old_view = self@;
        assert(old_names.len() == n);
        if i < n {
            assert(old_names[i as int] == name@);
            let mut entries: Vec<(String, String)> = Vec::new();
            std::mem::swap(&mut entries, &mut self.entries);
            entries.set(i, (name, value));
            assert(entries@.map_values(|e: (String, String)| e.0@) =~= old_names);
            self.entries = entries;
            assert(self.names() =~= old_names);
            proof {
                lemma_index_of_unique(old_names, i as int);
                assert forall|k: Seq<char>| #[trigger] self@.contains_key(k) implies old_view.insert(
                    name@,
                    value@,
                ).contains_key(k) && self@[k] == old_view.insert(name@, value@)[k] by {
                    if k != name@ {
                        let j = old_names.index_of(k);
                        assert(0 <= j < n && old_names[j] == k);
                        assert(j != i);
                    }
                }
                assert forall|k: Seq<char>| #[trigger] old_view.insert(name@, value@).contains_key(
                    k,
                ) implies self@.contains_key(k) by {
                    if k == name@ {
                        assert(self.names()[i as int] == k);
                    }
                }
                assert(self@ =~= old_view.insert(name@, value@));
                lemma_domain_is_names(*self);
            }
        } else {
            assert(!old_names.contains(name@)) by {
                assert forall|k: int| 0 <= k < n implies old_names[k] != name@ by {
                    assert(old_names[k] == before[k].0@);
                }
            }
            let ghost name_view = name@;
            let mut entries: Vec<(String, String)> = Vec::new();
            std::mem::swap(&mut entries, &mut self.entries);
            entries.push((name, value));
            proof {
                let new_names = entries@.map_values(|e: (String, String)| e.0@);
                assert(new_names =~= old_names.push(name_view));
                assert forall|a: int, b: int|
                    0 <= a < new_names.len() && 0 <= b < new_names.len() && a != b implies new_names[a]
                    != new_names[b] by {
                    if a < n && b < n {
                        assert(new_names[a] == old_names[a] && new_names[b] == old_names[b]);
                    } else if a == n {
                        assert(new_names[b] == old_names[b]);
                    } else {
                        assert(new_names[a] == old_names[a]);
                    }
                }
            }
            self.entries = entries;
            assert(self.names() =~= old_names.push(name_view));
            proof {
                let new_names = self.names();
                lemma_index_of_unique(new_names, n as int);
                assert forall|k: Seq<char>| #[trigger] self@.contains_key(k) implies old_view.insert(
                    name_view,
                    value@,
                ).contains_key(k) && self@[k] == old_view.insert(name_view, value@)[k] by {
                    if k != name_view {
                        let j = new_names.index_of(k);
                        assert(0 <= j < new_names.len() && new_names[j] == k);
                        assert(j < n);
                        assert(old_names[j] == k);
                        lemma_index_of_unique(old_names, j);
                        lemma_index_of_unique(new_names, j);
                    }
                }
                assert forall|k: Seq<char>| #[trigger] old_view.insert(name_view, value@).contains_key(
                    k,
                ) implies self@.contains_key(k) by {
                    if k == name_view {
                        assert(new_names[n as int] == k);
                    } else {
                        let j = old_names.index_of(k);
                        assert(new_names[j] == k);
                    }
                }
                assert(self@ =~= old_view.insert(name_view, value@));
                lemma_domain_is_names(*self);
            }
        }
    }

    /// The number of parameters.
    pub fn len(&self) -> (n: usize)
        ensures
            n == self@.len(),
            self@.dom().finite(),
    {
        proof {
            use_type_invariant(self);
            self.names().unique_seq_to_set();
            lemma_domain_is_names(*self);
        }
        self.entries.len()
    }

    /// The value of the parameter `name`, if the query has it.
    pub fn get(&self, name: &String) -> (r: Option<&String>)
        ensures
            r is Some <==> self@.contains_key(name@),
            r matches Some(v) ==> v@ == self@[name@],
    {
        proof {
            use_type_invariant(self);
        }
        let n = self.entries.len();
        let mut i: usize = 0;
        while i < n
            invariant
                0 <= i <= n,
                n == self.entries@.len(),
                self.names().no_duplicates(),
                forall|k: int| 0 <= k < i ==> (#[trigger] self.entries@[k]).0@ != name@,
            decreases n - i,
        {
            if self.entries[i].0 == *name {
                proof {
                    assert(self.names()[i as int] == name@);
                    lemma_index_of_unique(self.names(), i as int);
                }
                return Some(&self.entries[i].1);
            }
            i = i + 1;
        }
        assert(!self.names().contains(name@)) by {
            assert forall|k: int| 0 <= k < n implies self.names()[k] != name@ by {
                assert(self.names()[k] == self.entries@[k].0@);
            }
        }
        None
    }
}

/// A query holds finitely many parameters, so one of length zero holds none.
pub proof fn lemma_query_finite(q: Query)
    ensures
        q@.dom().finite(),
        q@.len() == 0 ==> q@ == Map::<Seq<char>, Seq<char>>::empty(),
{
    lemma_domain_is_names(q);
    if q@.len() == 0 {
        q@.dom().lemma_len0_is_empty();
        assert(q@ =~= Map::<Seq<char>, Seq<char>>::empty());
    }
}

/// The names of a query are the domain of its view, a finite set.
proof fn lemma_domain_is_names(q: Query)
    ensures
        q@.dom() == q.names().to_set(),
        q@.dom().finite(),
{
    assert(q@.dom() =~= q.names().to_set());
    vstd::seq_lib::seq_to_set_is_finite(q.names());
}

/// In a sequence without repeats, an element's index is where it stands.
proof fn lemma_index_of_unique(s: Seq<Seq<char>>, i: int)
    requires
        s.no_duplicates(),
        0 <= i < s.len(),
    ensures
        s.index_of(s[i]) == i,
{
    assert(s.contains(s[i]));
}

impl View for Query {
    type V = Map<Seq<char>, Seq<char>>;

    closed spec fn view(&self) -> Map<Seq<char>, Seq<char>> {
        Map::new(
            |k: Seq<char>| self.names().contains(k),
            |k: Seq<char>| self.entries@[self.names().index_of(k)].1@,
        )
    }
}

} // verus!
