//! The traits that drive cursor pagination over Stripe list endpoints.
//!
//! A list request (`PageParam`) is walked page by page: each response page
//! (`PageMeta`) reports the ids of its first and last object and whether more
//! pages follow, and the next request is the same query with one cursor moved.
use vstd::prelude::*;

verus! {

/// An object that the Stripe API identifies by an `id` string.
pub trait GetId {
    /// Whether the object carries its id (only invoice previews have none).
    spec fn has_id(&self) -> bool;

    /// The object's id.
    spec fn id_of(&self) -> String;

    /// Returns a copy of the object's id.
    fn get_id(&self) -> (r: String)
        requires
            self.has_id(),
        ensures
            r == self.id_of(),
    ;
}

/// A type whose tag names the object type in the Stripe HTTP API.
pub trait SelfTag {
    /// Serde's internally tagged enums, but where the tag is part of the struct.
    /// Returns the type of object as named in the external HTTP API interface.
    fn get_tag() -> &'static str;
}

/// One page of a Stripe list response.
pub trait PageMeta {
    /// Whether the first and the last object of the page carry their ids.
    spec fn page_ready(&self) -> bool;

    /// The ids of the objects on this page, in the order the API listed them.
    spec fn page_ids(&self) -> Seq<String>;

    /// Whether the API reported more objects after this page.
    spec fn page_has_more(&self) -> bool;

    /// The ids of the first and the last object of the page, or `None` for an empty page.
    fn get_from_to(&self) -> (r: Option<(String, String)>)
        requires
            self.page_ready(),
        ensures
            r is None <==> self.page_ids().len() == 0,
            r matches Some(p) ==> p.0 == self.page_ids()[0] && p.1 == self.page_ids().last(),
    ;

    /// Whether more objects follow this page.
    fn get_has_more(&self) -> (r: bool)
        ensures
            r == self.page_has_more(),
    ;
}

/// A list request that can be moved to another page by its cursors.
pub trait PageParam {
    /// The `ending_before` cursor: list the objects before this id.
    spec fn before_cursor(&self) -> Option<String>;

    /// The `starting_after` cursor: list the objects after this id.
    spec fn after_cursor(&self) -> Option<String>;

    /// Whether `self` and `other` are the same request apart from the two cursors.
    spec fn same_query(&self, other: &Self) -> bool;

    /// `same_query` is an equivalence relation.
    proof fn lemma_same_query_is_equivalence(a: &Self, b: &Self, c: &Self)
        ensures
            a.same_query(a),
            a.same_query(b) ==> b.same_query(a),
            a.same_query(b) && b.same_query(c) ==> a.same_query(c),
    ;

    /// Two requests that are the same query and have the same cursors are the same request.
    proof fn lemma_same_query_and_cursors(a: &Self, b: &Self)
        requires
            a.same_query(b),
            a.before_cursor() == b.before_cursor(),
            a.after_cursor() == b.after_cursor(),
        ensures
            a == b,
    ;

    /// Moves the request to the page that ends before the object with id `s`.
    fn set_before(&mut self, s: String)
        ensures
            final(self).before_cursor() == Some(s),
            final(self).after_cursor() is None,
            final(self).same_query(old(self)),
    ;

    /// Moves the request to the page that starts after the object with id `s`.
    fn set_after(&mut self, s: String)
        ensures
            final(self).after_cursor() == Some(s),
            final(self).before_cursor() is None,
            final(self).same_query(old(self)),
    ;
}

/// Paging never changes the query: after any number of cursor moves (each one a
/// `set_before` or a `set_after`, so each state is the same query as the one before it),
/// the request is the same query as the one the walk started from.
pub proof fn law_paging_keeps_query<T: PageParam>(states: Seq<T>)
    requires
        states.len() > 0,
        forall|i: int| 0 <= i < states.len() - 1 ==> #[trigger] states[i + 1].same_query(&states[i]),
    ensures
        states.last().same_query(&states[0]),
    decreases states.len(),
{
    if states.len() == 1 {
        T::lemma_same_query_is_equivalence(&states[0], &states[0], &states[0]);
    } else {
        let prefix = states.drop_last();
        assert forall|i: int| 0 <= i < prefix.len() - 1 implies #[trigger] prefix[i + 1].same_query(&prefix[i]) by {
            assert(prefix[i + 1] == states[i + 1]);
            assert(prefix[i] == states[i]);
        }
        law_paging_keeps_query(prefix);
        let n: int = states.len() - 1;
        let i = n - 1;
        assert(states[i + 1].same_query(&states[i]));
        assert(prefix.last() == states[n - 1]);
        T::lemma_same_query_is_equivalence(&states[n], &states[n - 1], &states[0]);
    }
}

/// The last cursor move wins: moving a request to the page before `s` and then to the page
/// after `t` gives the same request as moving it to the page after `t` at once (and the same
/// with the two moves swapped).
pub proof fn law_last_cursor_move_wins<T: PageParam>(p: T, first: T, second: T, direct: T)
    requires
        first.same_query(&p),
        second.same_query(&first),
        direct.same_query(&p),
        second.before_cursor() == direct.before_cursor(),
        second.after_cursor() == direct.after_cursor(),
    ensures
        second == direct,
{
    T::lemma_same_query_is_equivalence(&second, &first, &p);
    T::lemma_same_query_is_equivalence(&direct, &p, &second);
    T::lemma_same_query_is_equivalence(&second, &p, &direct);
    T::lemma_same_query_is_equivalence(&p, &direct, &second);
    T::lemma_same_query_and_cursors(&second, &direct);
}

} // verus!
