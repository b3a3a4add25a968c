use vstd::prelude::*;
use vstd::assert_by_contradiction;
use vstd::set_lib::{lemma_int_range, lemma_len_subset, set_int_range};
use crate::user::{User, UserModel};

verus! {

/// Some record of `s` carries `id`.
pub open spec fn has_id(s: Seq<UserModel>, id: u128) -> bool {
    exists|i: int| 0 <= i < s.len() && s[i].id == id
}

/// No two records of `s` share an identifier.
pub open spec fn ids_distinct(s: Seq<UserModel>) -> bool {
    forall|i: int, j: int|
        0 <= i < s.len() && 0 <= j < s.len() && i != j ==> s[i].id != s[j].id
}

/// The active records of `s`, in order.
pub open spec fn active_records(s: Seq<UserModel>) -> Seq<UserModel>
    decreases s.len(),
{
    if s.len() == 0 {
        Seq::empty()
    } else {
        let rest = active_records(s.drop_last());
        if s.last().is_active {
            rest.push(s.last())
        } else {
            rest
        }
    }
}

/// The first record of `s` that carries `id`, if any.
pub open spec fn find_record(s: Seq<UserModel>, id: u128) -> Option<UserModel>
    decreases s.len(),
{
    if s.len() == 0 {
        None
    } else if s[0].id == id {
        Some(s[0])
    } else {
        find_record(s.drop_first(), id)
    }
}

/// Some value `0..=s.len()` is not an identifier of `s`: otherwise `s` would
/// hold more distinct identifiers than records.
proof fn lemma_some_small_id_unused(s: Seq<UserModel>)
    requires
        s.len() < u128::MAX,
    ensures
        exists|c: u128| c <= s.len() && !has_id(s, c),
{
    broadcast use vstd::seq_lib::seq_to_set_is_finite;

    assert_by_contradiction!(exists|c: u128| c <= s.len() && !has_id(s, c), {
        let n = s.len() as int;
        let ids = s.map_values(|u: UserModel| u.id as int);
        let range = set_int_range(0, n + 1);
        assert(range.subset_of(ids.to_set())) by {
            assert forall|d: int| range.contains(d) implies ids.to_set().contains(d) by {
                assert(0 <= d <= n);
                let c = d as u128;
                assert(c as int == d);
                assert(has_id(s, c));
                let i = choose|i: int| 0 <= i < s.len() && s[i].id == c;
                assert(ids[i] == d);
            }
        }
        lemma_int_range(0, n + 1);
        lemma_len_subset(range, ids.to_set());
        ids.lemma_cardinality_of_set();
    });
}

/// The collection of user records, in insertion order.
///
/// All access goes through one owner at a time (callers that share a store
/// between threads put it behind a single lock), so every operation is a
/// plain scan or append.
pub struct UserStore {
    users: Vec<User>,
}

impl View for UserStore {
    type V = Seq<UserModel>;

    closed spec fn view(&self) -> Seq<UserModel> {
        self.users@.map_values(|u: User| u@)
    }
}

impl UserStore {
    /// Identifiers are unique across the store.
    pub open spec fn wf(&self) -> bool {
        ids_distinct(self@)
    }

    /// An empty store.
    pub fn new() -> (r: UserStore)
        ensures
            r@ == Seq::<UserModel>::empty(),
            r.wf(),
    {
        let r = UserStore { users: Vec::new() };
        assert(r@ =~= Seq::<UserModel>::empty());
        r
    }

    /// The number of records held.
    pub fn len(&self) -> (r: usize)
        ensures
            r == self@.len(),
    {
        self.users.len()
    }

    /// Whether a record carries `id`.
    pub fn contains_id(&self, id: u128) -> (r: bool)
        ensures
            r == has_id(self@, id),
    {
        let mut i: usize = 0;
        while i < self.users.len()
            invariant
                i <= self.users.len(),
                forall|k: int| 0 <= k < i ==> self@[k].id != id,
            decreases self.users.len() - i,
        {
            if self.users[i].id == id {
                assert(self@[i as int].id == id);
                return true;
            }
            i += 1;
        }
        false
    }

    /// An identifier that no record carries: `drawn` itself when it is unused,
    /// else the smallest unused value.
    pub fn fresh_id(&self, drawn: u128) -> (r: u128)
        ensures
            !has_id(self@, r),
            !has_id(self@, drawn) ==> r == drawn,
    {
        if !self.contains_id(drawn) {
            return drawn;
        }
        let n = self.users.len() as u128;
        let mut c: u128 = 0;
        loop
            invariant
                c <= n,
                n == self@.len(),
                n <= usize::MAX,
                has_id(self@, drawn),
                forall|d: u128| d < c ==> #[trigger] has_id(self@, d),
            decreases n - c,
        {
            if !self.contains_id(c) {
                return c;
            }
            if c == n {
                proof {
                    assert(self@.len() == self.users@.len());
                    lemma_some_small_id_unused(self@);
                    let d = choose|d: u128| d <= n && !has_id(self@, d);
                    assert(d < c || d == c);
                }
                return c;
            }
            c += 1;
        }
    }

    /// Appends `user`, whose identifier no record carries yet, and hands back
    /// a copy of it.
    pub fn insert(&mut self, user: User) -> (r: User)
        requires
            old(self).wf(),
            !has_id(old(self)@, user.id),
        ensures
            final(self)@ == old(self)@.push(user@),
            final(self).wf(),
            r@ == user@,
    {
        let r = user.clone();
        self.users.push(user);
        assert(self@ =~= old(self)@.push(r@));
        r
    }

    /// Every active record, in insertion order.
    pub fn list_active(&self) -> (r: Vec<User>)
        ensures
            r@.map_values(|u: User| u@) == active_records(self@),
    {
        let mut out: Vec<User> = Vec::new();
        let mut i: usize = 0;
        while i < self.users.len()
            invariant
                i <= self.users.len(),
                out@.map_values(|u: User| u@) == active_records(self@.subrange(0, i as int)),
            decreases self.users.len() - i,
        {
            assert(self@.subrange(0, i + 1).drop_last() =~= self@.subrange(0, i as int));
            if self.users[i].is_active {
                let u = self.users[i].clone();
                let ghost before = out@;
                out.push(u);
                assert(out@.map_values(|u: User| u@) =~= before.map_values(|u: User| u@).push(
                    u@,
                ));
            }
            i += 1;
        }
        assert(self@.subrange(0, self@.len() as int) =~= self@);
        out
    }

    /// The first record that carries `id`; as identifiers are unique, the only
    /// one.
    pub fn find_by_id(&self, id: u128) -> (r: Option<User>)
        ensures
            match r {
                Some(u) => find_record(self@, id) == Some(u@),
                None => find_record(self@, id) is None,
            },
    {
        assert(self@.subrange(0, self@.len() as int) =~= self@);
        let mut i: usize = 0;
        while i < self.users.len()
            invariant
                i <= self.users.len(),
                find_record(self@.subrange(i as int, self@.len() as int), id) == find_record(
                    self@,
                    id,
                ),
            decreases self.users.len() - i,
        {
            let ghost rest = self@.subrange(i as int, self@.len() as int);
            assert(rest.drop_first() =~= self@.subrange(i + 1, self@.len() as int));
            if self.users[i].id == id {
                return Some(self.users[i].clone());
            }
            i += 1;
        }
        None
    }
}

} // verus!
