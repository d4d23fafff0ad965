//! The contextual state (user, tags, extras, breadcrumbs) that the application
//! mirrors into its reporter, and the updates that carry it.
use vstd::prelude::*;
use crate::keyed::{
    find_key, keys_unique, lemma_map_of_absent, lemma_map_of_push, lemma_map_of_remove,
    lemma_map_of_update, map_of,
};

verus! {

/// sentry's `Breadcrumb`, carried through unopened: kept and handed on in order.
#[verifier::external_type_specification]
#[verifier::external_body]
pub struct ExBreadcrumb(sentry::protocol::Breadcrumb);

/// sentry's `User`, carried through unopened.
#[verifier::external_type_specification]
#[verifier::external_body]
pub struct ExUser(sentry::protocol::User);

/// `serde_json::Value`, the value of an extra, carried through unopened.
#[verifier::external_type_specification]
#[verifier::external_body]
pub struct ExValue(serde_json::Value);

/// The message kind that carries a serialized scope update; kind 0 belongs to
/// the transport.
pub const SCOPE_UPDATE_KIND: u32 = 1;

/// One change to the mirrored scope.
pub enum ScopeUpdate {
    AddBreadcrumb(sentry::protocol::Breadcrumb),
    ClearBreadcrumbs,
    SetUser(Option<sentry::protocol::User>),
    SetExtra(String, Option<serde_json::Value>),
    RemoveExtra(String),
    SetTag(String, Option<String>),
    RemoveTag(String),
}

/// The scope that the reporter holds on behalf of its application.
pub struct MirroredScope {
    user: Option<sentry::protocol::User>,
    tags: Vec<(String, String)>,
    extras: Vec<(String, serde_json::Value)>,
    breadcrumbs: Vec<sentry::protocol::Breadcrumb>,
}

/// The tags' entries as character sequences.
pub open spec fn tag_entries(v: Seq<(String, String)>) -> Seq<(Seq<char>, Seq<char>)> {
    v.map_values(|p: (String, String)| (p.0@, p.1@))
}

/// The extras' entries with their keys as character sequences.
pub open spec fn extra_entries(v: Seq<(String, serde_json::Value)>) -> Seq<(Seq<char>, serde_json::Value)> {
    v.map_values(|p: (String, serde_json::Value)| (p.0@, p.1))
}

/// The user after `u`.
pub open spec fn applied_user(user: Option<sentry::protocol::User>, u: ScopeUpdate) -> Option<
    sentry::protocol::User,
> {
    match u {
        ScopeUpdate::SetUser(n) => n,
        _ => user,
    }
}

/// The tags after `u`: last write wins, `None` removes.
pub open spec fn applied_tags(tags: Map<Seq<char>, Seq<char>>, u: ScopeUpdate) -> Map<Seq<char>, Seq<char>> {
    match u {
        ScopeUpdate::SetTag(k, Some(v)) => tags.insert(k@, v@),
        ScopeUpdate::SetTag(k, None) => tags.remove(k@),
        ScopeUpdate::RemoveTag(k) => tags.remove(k@),
        _ => tags,
    }
}

/// The extras after `u`: last write wins, `None` removes.
pub open spec fn applied_extras(extras: Map<Seq<char>, serde_json::Value>, u: ScopeUpdate) -> Map<
    Seq<char>,
    serde_json::Value,
> {
    match u {
        ScopeUpdate::SetExtra(k, Some(v)) => extras.insert(k@, v),
        ScopeUpdate::SetExtra(k, None) => extras.remove(k@),
        ScopeUpdate::RemoveExtra(k) => extras.remove(k@),
        _ => extras,
    }
}

/// The breadcrumbs after `u`: appended in order until cleared.
pub open spec fn applied_breadcrumbs(
    crumbs: Seq<sentry::protocol::Breadcrumb>,
    u: ScopeUpdate,
) -> Seq<sentry::protocol::Breadcrumb> {
    match u {
        ScopeUpdate::AddBreadcrumb(b) => crumbs.push(b),
        ScopeUpdate::ClearBreadcrumbs => Seq::empty(),
        _ => crumbs,
    }
}

/// The tag key that `u` writes or removes, if any.
pub open spec fn tag_key(u: ScopeUpdate) -> Option<Seq<char>> {
    match u {
        ScopeUpdate::SetTag(k, _) => Some(k@),
        ScopeUpdate::RemoveTag(k) => Some(k@),
        _ => None,
    }
}

/// The extra key that `u` writes or removes, if any.
pub open spec fn extra_key(u: ScopeUpdate) -> Option<Seq<char>> {
    match u {
        ScopeUpdate::SetExtra(k, _) => Some(k@),
        ScopeUpdate::RemoveExtra(k) => Some(k@),
        _ => None,
    }
}

/// `u1` and `u2` write the same keyed field: the user, one tag or one extra.
pub open spec fn same_field(u1: ScopeUpdate, u2: ScopeUpdate) -> bool {
    (u1 is SetUser && u2 is SetUser) || (tag_key(u1) is Some && tag_key(u1) == tag_key(u2)) || (
    extra_key(u1) is Some && extra_key(u1) == extra_key(u2))
}

/// Keyed fields are last-write-wins: of two updates to the same user, tag or
/// extra, applied in order, only the second shows, and the breadcrumbs are
/// untouched.
pub proof fn lemma_last_write_wins(
    user: Option<sentry::protocol::User>,
    tags: Map<Seq<char>, Seq<char>>,
    extras: Map<Seq<char>, serde_json::Value>,
    crumbs: Seq<sentry::protocol::Breadcrumb>,
    u1: ScopeUpdate,
    u2: ScopeUpdate,
)
    requires
        same_field(u1, u2),
    ensures
        applied_user(applied_user(user, u1), u2) == applied_user(user, u2),
        applied_tags(applied_tags(tags, u1), u2) == applied_tags(tags, u2),
        applied_extras(applied_extras(extras, u1), u2) == applied_extras(extras, u2),
        applied_breadcrumbs(applied_breadcrumbs(crumbs, u1), u2) == crumbs,
{
    assert(applied_tags(applied_tags(tags, u1), u2) =~= applied_tags(tags, u2));
    assert(applied_extras(applied_extras(extras, u1), u2) =~= applied_extras(extras, u2));
}

/// Breadcrumbs are append-only until cleared: each added one goes last, in order.
pub proof fn lemma_breadcrumbs_append_in_order(
    crumbs: Seq<sentry::protocol::Breadcrumb>,
    u1: ScopeUpdate,
    u2: ScopeUpdate,
)
    requires
        u1 is AddBreadcrumb,
        u2 is AddBreadcrumb,
    ensures
        applied_breadcrumbs(applied_breadcrumbs(crumbs, u1), u2) == crumbs.push(u1->AddBreadcrumb_0).push(
            u2->AddBreadcrumb_0,
        ),
{
}

impl MirroredScope {
    /// Tags and extras each hold a key at most once.
    pub closed spec fn wf(&self) -> bool {
        keys_unique(tag_entries(self.tags@)) && keys_unique(extra_entries(self.extras@))
    }

    pub closed spec fn user_view(&self) -> Option<sentry::protocol::User> {
        self.user
    }

    pub closed spec fn tag_map(&self) -> Map<Seq<char>, Seq<char>> {
        map_of(tag_entries(self.tags@))
    }

    pub closed spec fn extra_map(&self) -> Map<Seq<char>, serde_json::Value> {
        map_of(extra_entries(self.extras@))
    }

    pub closed spec fn breadcrumb_seq(&self) -> Seq<sentry::protocol::Breadcrumb> {
        self.breadcrumbs@
    }

    /// An empty scope: no user, tags, extras or breadcrumbs.
    pub fn new() -> (r: MirroredScope)
        ensures
            r.wf(),
            r.user_view() is None,
            r.tag_map() == Map::<Seq<char>, Seq<char>>::empty(),
            r.extra_map() == Map::<Seq<char>, serde_json::Value>::empty(),
            r.breadcrumb_seq() == Seq::<sentry::protocol::Breadcrumb>::empty(),
    {
        let r = MirroredScope { user: None, tags: Vec::new(), extras: Vec::new(), breadcrumbs: Vec::new() };
        assert(tag_entries(r.tags@) =~= Seq::empty());
        assert(extra_entries(r.extras@) =~= Seq::empty());
        r
    }

    fn set_tag(&mut self, key: String, value: String)
        requires
            old(self).wf(),
        ensures
            final(self).wf(),
            final(self).tag_map() == old(self).tag_map().insert(key@, value@),
            final(self).user == old(self).user,
            final(self).extras == old(self).extras,
            final(self).breadcrumbs == old(self).breadcrumbs,
    {
        let ghost e = tag_entries(self.tags@);
        match find_key(&self.tags, &key) {
            Some(i) => {
                proof {
                    lemma_map_of_update(e, i as int, value@);
                }
                self.tags.set(i, (key, value));
                assert(tag_entries(self.tags@) =~= e.update(i as int, (e[i as int].0, value@)));
            },
            None => {
                let ghost k = key@;
                let ghost v = value@;
                proof {
                    lemma_map_of_push(e, k, v);
                }
                self.tags.push((key, value));
                assert(tag_entries(self.tags@) =~= e.push((k, v)));
            },
        }
    }

    fn remove_tag(&mut self, key: &String)
        requires
            old(self).wf(),
        ensures
            final(self).wf(),
            final(self).tag_map() == old(self).tag_map().remove(key@),
            final(self).user == old(self).user,
            final(self).extras == old(self).extras,
            final(self).breadcrumbs == old(self).breadcrumbs,
    {
        let ghost e = tag_entries(self.tags@);
        match find_key(&self.tags, key) {
            Some(i) => {
                proof {
                    lemma_map_of_remove(e, i as int);
                }
                self.tags.remove(i);
                assert(tag_entries(self.tags@) =~= e.remove(i as int));
            },
            None => {
                proof {
                    lemma_map_of_absent(e, key@);
                }
            },
        }
    }

    fn set_extra(&mut self, key: String, value: serde_json::Value)
        requires
            old(self).wf(),
        ensures
            final(self).wf(),
            final(self).extra_map() == old(self).extra_map().insert(key@, value),
            final(self).user == old(self).user,
            final(self).tags == old(self).tags,
            final(self).breadcrumbs == old(self).breadcrumbs,
    {
        let ghost e = extra_entries(self.extras@);
        let ghost k = key@;
        let ghost v = value;
        match find_key(&self.extras, &key) {
            Some(i) => {
                proof {
                    lemma_map_of_update(e, i as int, v);
                }
                self.extras.set(i, (key, value));
                assert(extra_entries(self.extras@) =~= e.update(i as int, (e[i as int].0, v)));
            },
            None => {
                proof {
                    lemma_map_of_push(e, k, v);
                }
                self.extras.push((key, value));
                assert(extra_entries(self.extras@) =~= e.push((k, v)));
            },
        }
    }

    fn remove_extra(&mut self, key: &String)
        requires
            old(self).wf(),
        ensures
            final(self).wf(),
            final(self).extra_map() == old(self).extra_map().remove(key@),
            final(self).user == old(self).user,
            final(self).tags == old(self).tags,
            final(self).breadcrumbs == old(self).breadcrumbs,
    {
        let ghost e = extra_entries(self.extras@);
        match find_key(&self.extras, key) {
            Some(i) => {
                proof {
                    lemma_map_of_remove(e, i as int);
                }
                self.extras.remove(i);
                assert(extra_entries(self.extras@) =~= e.remove(i as int));
            },
            None => {
                proof {
                    lemma_map_of_absent(e, key@);
                }
            },
        }
    }

    /// The user, tags, extras and breadcrumbs, taken out of the scope.
    pub fn into_parts(self) -> (r: (
        Option<sentry::protocol::User>,
        Vec<(String, String)>,
        Vec<(String, serde_json::Value)>,
        Vec<sentry::protocol::Breadcrumb>,
    ))
        requires
            self.wf(),
        ensures
            r.0 == self.user_view(),
            keys_unique(tag_entries(r.1@)),
            map_of(tag_entries(r.1@)) == self.tag_map(),
            keys_unique(extra_entries(r.2@)),
            map_of(extra_entries(r.2@)) == self.extra_map(),
            r.3@ == self.breadcrumb_seq(),
    {
        (self.user, self.tags, self.extras, self.breadcrumbs)
    }

    /// Applies one update: the user is replaced, a tag or extra is set or
    /// removed (last write wins), a breadcrumb is appended or all are cleared.
    pub fn apply(&mut self, update: ScopeUpdate)
        requires
            old(self).wf(),
        ensures
            final(self).wf(),
            final(self).user_view() == applied_user(old(self).user_view(), update),
            final(self).tag_map() == applied_tags(old(self).tag_map(), update),
            final(self).extra_map() == applied_extras(old(self).extra_map(), update),
            final(self).breadcrumb_seq() == applied_breadcrumbs(old(self).breadcrumb_seq(), update),
    {
        match update {
            ScopeUpdate::AddBreadcrumb(b) => {
                self.breadcrumbs.push(b);
            },
            ScopeUpdate::ClearBreadcrumbs => {
                self.breadcrumbs.clear();
            },
            ScopeUpdate::SetUser(u) => {
                self.user = u;
            },
            ScopeUpdate::SetExtra(k, Some(v)) => {
                self.set_extra(k, v);
            },
            ScopeUpdate::SetExtra(k, None) => {
                self.remove_extra(&k);
            },
            ScopeUpdate::RemoveExtra(k) => {
                self.remove_extra(&k);
            },
            ScopeUpdate::SetTag(k, Some(v)) => {
                self.set_tag(k, v);
            },
            ScopeUpdate::SetTag(k, None) => {
                self.remove_tag(&k);
            },
            ScopeUpdate::RemoveTag(k) => {
                self.remove_tag(&k);
            },
        }
    }
}

} // verus!
