//! Sets of advisory identifiers, and the comments kept with them.

use vstd::prelude::*;

verus! {

/// A set of advisory identifiers. Identifiers come out in the order in which
/// they were first put in.
#[derive(Debug)]
pub struct IdSet {
    items: Vec<String>,
}

impl View for IdSet {
    type V = Set<Seq<char>>;

    closed spec fn view(&self) -> Set<Seq<char>> {
        self.items.deep_view().to_set()
    }
}

impl Default for IdSet {
    fn default() -> (set: IdSet)
        ensures
            set@ == Set::<Seq<char>>::empty(),
    {
        IdSet::new()
    }
}

impl IdSet {
    #[verifier::type_invariant]
    spec fn distinct(self) -> bool {
        self.items.deep_view().no_duplicates()
    }

    /// The empty set.
    pub fn new() -> (set: IdSet)
        ensures
            set@ == Set::<Seq<char>>::empty(),
    {
        let set = IdSet { items: Vec::new() };
        assert(set@ =~= Set::<Seq<char>>::empty());
        set
    }

    /// Whether `id` is in the set.
    pub fn contains(&self, id: &str) -> (b: bool)
        ensures
            b == self@.contains(id@),
    {
        let wanted = id.to_owned();
        let ghost items = self.items.deep_view();
        for i in 0..self.items.len()
            invariant
                items == self.items.deep_view(),
                wanted@ == id@,
                forall|j: int| 0 <= j < i ==> items[j] != id@,
        {
            if self.items[i] == wanted {
                assert(items[i as int] == id@);
                return true;
            }
        }
        false
    }

    /// Puts `id` into the set, and tells whether it is new there.
    pub fn insert(&mut self, id: String) -> (new: bool)
        ensures
            final(self)@ == old(self)@.insert(id@),
            new == !old(self)@.contains(id@),
    {
        proof {
            use_type_invariant(&*self);
        }
        if self.contains(id.as_str()) {
            assert(self@.insert(id@) =~= self@);
            return false;
        }
        let mut items: Vec<String> = Vec::new();
        std::mem::swap(&mut items, &mut self.items);
        let ghost before = items.deep_view();
        items.push(id);
        assert(items.deep_view() =~= before.push(id@));
        proof {
            before.lemma_push_to_set_commute(id@);
        }
        self.items = items;
        true
    }

    /// The number of identifiers in the set.
    pub fn len(&self) -> (n: usize)
        ensures
            n == self@.len(),
            self@.finite(),
    {
        proof {
            use_type_invariant(self);
            self.items.deep_view().unique_seq_to_set();
        }
        self.items.len()
    }

    /// Whether the set is empty.
    pub fn is_empty(&self) -> (b: bool)
        ensures
            b == (self@ =~= Set::<Seq<char>>::empty()),
    {
        if self.items.len() > 0 {
            assert(self@.contains(self.items.deep_view()[0]));
            false
        } else {
            true
        }
    }

    /// The identifiers of the set, each once.
    pub fn items(&self) -> (items: &Vec<String>)
        ensures
            items.deep_view().to_set() == self@,
            items.deep_view().no_duplicates(),
    {
        proof {
            use_type_invariant(self);
        }
        &self.items
    }

    /// The set of the identifiers in `list`.
    pub fn from_list(list: &Vec<String>) -> (set: IdSet)
        ensures
            set@ == list.deep_view().to_set(),
    {
        let mut set = IdSet::new();
        let ghost ids = list.deep_view();
        for i in 0..list.len()
            invariant
                ids == list.deep_view(),
                set@ == ids.take(i as int).to_set(),
        {
            set.insert(list[i].clone());
            proof {
                assert(ids.take(i + 1) =~= ids.take(i as int).push(ids[i as int]));
                ids.take(i as int).lemma_push_to_set_commute(ids[i as int]);
            }
        }
        assert(ids.take(list.len() as int) =~= ids);
        set
    }

    /// The identifiers that are in `self` or in `other`.
    pub fn union(&self, other: &IdSet) -> (set: IdSet)
        ensures
            set@ == self@.union(other@),
    {
        let mut set = IdSet::from_list(&self.items);
        let ghost ids = other.items.deep_view();
        assert(ids.take(0).to_set() =~= Set::<Seq<char>>::empty());
        assert(self@.union(Set::<Seq<char>>::empty()) =~= self@);
        for i in 0..other.items.len()
            invariant
                ids == other.items.deep_view(),
                set@ == self@.union(ids.take(i as int).to_set()),
        {
            set.insert(other.items[i].clone());
            proof {
                assert(ids.take(i + 1) =~= ids.take(i as int).push(ids[i as int]));
                ids.take(i as int).lemma_push_to_set_commute(ids[i as int]);
                assert(set@ =~= self@.union(ids.take(i + 1).to_set()));
            }
        }
        assert(ids.take(other.items.len() as int) =~= ids);
        set
    }
}

/// The comment kept with one advisory identifier.
#[derive(Debug)]
pub struct Comment {
    /// The advisory identifier.
    pub id: String,
    /// What the comment says.
    pub text: String,
}

/// The comments kept with advisory identifiers, at most one with each.
#[derive(Debug)]
pub struct Comments {
    entries: Vec<Comment>,
}

/// The comment that `entries` keeps with `id`: that of the first entry for it.
spec fn comment_at(entries: Seq<Comment>, id: Seq<char>) -> Option<Seq<char>>
    decreases entries.len(),
{
    if entries.len() == 0 {
        None
    } else if comment_at(entries.drop_last(), id) is Some {
        comment_at(entries.drop_last(), id)
    } else if entries.last().id@ == id {
        Some(entries.last().text@)
    } else {
        None
    }
}

impl View for Comments {
    type V = Map<Seq<char>, Seq<char>>;

    closed spec fn view(&self) -> Map<Seq<char>, Seq<char>> {
        Map::new(
            |id: Seq<char>| comment_at(self.entries@, id) is Some,
            |id: Seq<char>| comment_at(self.entries@, id)->0,
        )
    }
}

impl Comments {
    /// No comments.
    pub fn new() -> (comments: Comments)
        ensures
            comments@ == Map::<Seq<char>, Seq<char>>::empty(),
    {
        let comments = Comments { entries: Vec::new() };
        assert(comments@ =~= Map::<Seq<char>, Seq<char>>::empty());
        comments
    }

    /// The comment kept with `id`, if there is one.
    pub fn get(&self, id: &str) -> (text: Option<&String>)
        ensures
            text is Some <==> self@.contains_key(id@),
            text matches Some(t) ==> t@ == self@[id@],
    {
        let wanted = id.to_owned();
        for i in 0..self.entries.len()
            invariant
                wanted@ == id@,
                comment_at(self.entries@.take(i as int), id@) is None,
        {
            proof {
                assert(self.entries@.take(i + 1).drop_last() =~= self.entries@.take(i as int));
            }
            if self.entries[i].id == wanted {
                proof {
                    lemma_first_comment_stays(self.entries@, i + 1, id@);
                }
                return Some(&self.entries[i].text);
            }
        }
        assert(self.entries@.take(self.entries.len() as int) =~= self.entries@);
        None
    }

    /// Keeps `text` with `id`, unless a comment is kept with it already.
    pub fn insert_if_absent(&mut self, id: &String, text: &String)
        ensures
            old(self)@.contains_key(id@) ==> final(self)@ == old(self)@,
            !old(self)@.contains_key(id@) ==> final(self)@ == old(self)@.insert(id@, text@),
    {
        if self.get(id.as_str()).is_some() {
            return ;
        }
        let ghost before = self.entries@;
        self.entries.push(Comment { id: id.clone(), text: text.clone() });
        proof {
            assert(self.entries@.drop_last() =~= before);
            assert(self@ =~= old(self)@.insert(id@, text@));
        }
    }

    /// Whether there are no comments.
    pub fn is_empty(&self) -> (b: bool)
        ensures
            b == (self@ =~= Map::<Seq<char>, Seq<char>>::empty()),
    {
        if self.entries.len() > 0 {
            proof {
                let last = self.entries@.last().id@;
                assert(comment_at(self.entries@, last) is Some);
                assert(self@.contains_key(last));
            }
            false
        } else {
            true
        }
    }
}

/// A comment found among the first `n` entries is the one found among all.
proof fn lemma_first_comment_stays(entries: Seq<Comment>, n: int, id: Seq<char>)
    requires
        0 <= n <= entries.len(),
        comment_at(entries.take(n), id) is Some,
    ensures
        comment_at(entries, id) == comment_at(entries.take(n), id),
    decreases entries.len(),
{
    if n < entries.len() {
        assert(entries.drop_last().take(n) =~= entries.take(n));
        lemma_first_comment_stays(entries.drop_last(), n, id);
    } else {
        assert(entries.take(n) =~= entries);
    }
}

} // verus!
