//! Properties that relate several operations of the registry.

use vstd::prelude::*;
use crate::handlers::{create_step, lookup_reply, not_found_message, ReplyModel};
use crate::ident::uuid_text;
use crate::store::{active_records, find_record, has_id, ids_distinct};
use crate::user::{public_views, record_for, RequestModel, ResponseModel, UserModel};

verus! {

/// A record whose identifier `s` does not hold is found at the end of `s.push(u)`.
proof fn lemma_find_pushed(s: Seq<UserModel>, u: UserModel)
    requires
        !has_id(s, u.id),
    ensures
        find_record(s.push(u), u.id) == Some(u),
    decreases s.len(),
{
    if s.len() > 0 {
        assert(s[0].id != u.id);
        assert(s.push(u)[0] == s[0]);
        assert(s.push(u).drop_first() =~= s.drop_first().push(u));
        assert(!has_id(s.drop_first(), u.id)) by {
            if has_id(s.drop_first(), u.id) {
                let i = choose|i: int| 0 <= i < s.drop_first().len() && s.drop_first()[i].id == u.id;
                assert(s[i + 1].id == u.id);
            }
        }
        lemma_find_pushed(s.drop_first(), u);
    } else {
        assert(s.push(u)[0] == u);
    }
}

/// When every record of `s` is active, the active records are `s` itself.
proof fn lemma_all_active(s: Seq<UserModel>)
    requires
        forall|i: int| 0 <= i < s.len() ==> #[trigger] s[i].is_active,
    ensures
        active_records(s) == s,
    decreases s.len(),
{
    if s.len() > 0 {
        lemma_all_active(s.drop_last());
        assert(s.drop_last().push(s.last()) =~= s);
    }
}

/// After a run of creations that starts from an empty store, the store holds
/// exactly one record per creation, the i-th made from the i-th request, and
/// no two of them share an identifier.
pub proof fn lemma_creations_count_and_distinct(
    states: Seq<Seq<UserModel>>,
    reqs: Seq<RequestModel>,
)
    requires
        states.len() == reqs.len() + 1,
        states[0].len() == 0,
        forall|i: int|
            0 <= i < reqs.len() ==> #[trigger] create_step(states[i], reqs[i], states[i + 1]),
    ensures
        states.last().len() == reqs.len(),
        ids_distinct(states.last()),
        forall|i: int|
            0 <= i < reqs.len() ==> #[trigger] states.last()[i] == record_for(
                reqs[i],
                states.last()[i].id,
            ),
    decreases reqs.len(),
{
    let n = reqs.len() as int;
    if n > 0 {
        let prev = states.drop_last();
        let preqs = reqs.drop_last();
        assert forall|i: int| 0 <= i < preqs.len() implies #[trigger] create_step(
            prev[i],
            preqs[i],
            prev[i + 1],
        ) by {
            assert(create_step(states[i], reqs[i], states[i + 1]));
        }
        lemma_creations_count_and_distinct(prev, preqs);
        let s = states[n - 1];
        let s2 = states[n];
        assert(create_step(s, reqs[n - 1], s2));
        assert(prev.last() == s);
        assert forall|i: int, j: int|
            0 <= i < s2.len() && 0 <= j < s2.len() && i != j implies s2[i].id != s2[j].id by {
            if i < n - 1 && j < n - 1 {
                assert(s2[i] == s[i] && s2[j] == s[j]);
            } else if i == n - 1 {
                assert(s2[j] == s[j]);
            } else {
                assert(s2[i] == s[i]);
            }
        }
        assert forall|i: int| 0 <= i < reqs.len() implies #[trigger] s2[i] == record_for(
            reqs[i],
            s2[i].id,
        ) by {
            if i < n - 1 {
                assert(s2[i] == s[i]);
                assert(s[i] == record_for(preqs[i], s[i].id));
            }
        }
    }
}

/// After a run of creations that starts from an empty store, the listing is
/// the public view of every created record, in creation order.
pub proof fn lemma_list_after_creations(states: Seq<Seq<UserModel>>, reqs: Seq<RequestModel>)
    requires
        states.len() == reqs.len() + 1,
        states[0].len() == 0,
        forall|i: int|
            0 <= i < reqs.len() ==> #[trigger] create_step(states[i], reqs[i], states[i + 1]),
    ensures
        active_records(states.last()) == states.last(),
        public_views(active_records(states.last())).len()
            == reqs.len(),
        forall|i: int|
            0 <= i < reqs.len() ==> #[trigger] public_views(active_records(states.last()))[i] == (ResponseModel {
                id: states.last()[i].id,
                username: reqs[i].username,
                is_active: true,
            }),
{
    lemma_creations_count_and_distinct(states, reqs);
    let s = states.last();
    assert forall|i: int| 0 <= i < s.len() implies #[trigger] s[i].is_active by {
        assert(s[i] == record_for(reqs[i], s[i].id));
    }
    lemma_all_active(s);
}

/// The listing holds active records only.
pub proof fn lemma_list_only_active(s: Seq<UserModel>)
    ensures
        forall|i: int|
            0 <= i < active_records(s).len() ==> (#[trigger] active_records(s)[i]).is_active,
        forall|i: int|
            0 <= i < active_records(s).len() ==> #[trigger] public_views(active_records(s))[i].is_active,
    decreases s.len(),
{
    if s.len() > 0 {
        lemma_list_only_active(s.drop_last());
        let rest = active_records(s.drop_last());
        assert forall|i: int| 0 <= i < active_records(s).len() implies (#[trigger] active_records(
            s,
        )[i]).is_active by {
            if i < rest.len() {
                assert(active_records(s)[i] == rest[i]);
            }
        }
    }
    assert forall|i: int| 0 <= i < active_records(s).len() implies #[trigger] public_views(
        active_records(s),
    )[i].is_active by {
        assert(active_records(s)[i].is_active);
    }
}

/// A lookup right after a creation, by the new record's identifier, finds that
/// record: its identifier, the request's username, and active.
pub proof fn lemma_get_after_create(s: Seq<UserModel>, req: RequestModel, s2: Seq<UserModel>)
    requires
        create_step(s, req, s2),
    ensures
        lookup_reply(s2, Some(s2.last().id)) == ReplyModel::Found(
            ResponseModel { id: s2.last().id, username: req.username, is_active: true },
        ),
{
    assert(s.push(s2.last()) =~= s2);
    lemma_find_pushed(s, s2.last());
}

/// A well-formed identifier that no record carries gets a not-found reply with
/// one error, whose reason is "user not found" and whose message holds the
/// identifier's text.
pub proof fn lemma_not_found_names_id(s: Seq<UserModel>, id: u128)
    requires
        find_record(s, id) is None,
    ensures
        lookup_reply(s, Some(id)) matches ReplyModel::NotFound(errs) && errs.len() == 1
            && errs[0].reason == "user not found"@ && errs[0].message.subrange(
            9,
            9 + uuid_text(id).len() as int,
        ) == uuid_text(id),
{
    reveal_strlit("The user ");
    let t = uuid_text(id);
    let m = not_found_message(t);
    assert(m.subrange(9, 9 + t.len() as int) =~= t);
}

} // verus!
