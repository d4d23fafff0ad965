use sentry::protocol::{Breadcrumb, User, Value};
use sentry_rust_minidump::scope::{MirroredScope, ScopeUpdate, SCOPE_UPDATE_KIND};

fn crumb(msg: &str) -> Breadcrumb {
    Breadcrumb { message: Some(msg.to_string()), ..Default::default() }
}

fn john() -> User {
    User {
        username: Some("john_doe".into()),
        email: Some("john@doe.town".into()),
        ..Default::default()
    }
}

#[test]
fn scope_update_kind_is_one() {
    assert_eq!(SCOPE_UPDATE_KIND, 1);
}

#[test]
fn new_scope_is_empty() {
    let (user, tags, extras, crumbs) = MirroredScope::new().into_parts();
    assert!(user.is_none());
    assert!(tags.is_empty());
    assert!(extras.is_empty());
    assert!(crumbs.is_empty());
}

#[test]
fn set_user_and_clear_it() {
    let mut s = MirroredScope::new();
    s.apply(ScopeUpdate::SetUser(Some(john())));
    let mut t = MirroredScope::new();
    t.apply(ScopeUpdate::SetUser(Some(john())));
    t.apply(ScopeUpdate::SetUser(None));
    assert_eq!(s.into_parts().0, Some(john()));
    assert_eq!(t.into_parts().0, None);
}

#[test]
fn tags_last_write_wins() {
    let mut s = MirroredScope::new();
    s.apply(ScopeUpdate::SetTag("a".into(), Some("1".into())));
    s.apply(ScopeUpdate::SetTag("b".into(), Some("2".into())));
    s.apply(ScopeUpdate::SetTag("a".into(), Some("3".into())));
    let tags = s.into_parts().1;
    assert_eq!(tags, vec![("a".to_string(), "3".to_string()), ("b".to_string(), "2".to_string())]);
}

#[test]
fn tag_removed_by_none_and_by_remove() {
    let mut s = MirroredScope::new();
    s.apply(ScopeUpdate::SetTag("a".into(), Some("1".into())));
    s.apply(ScopeUpdate::SetTag("b".into(), Some("2".into())));
    s.apply(ScopeUpdate::SetTag("a".into(), None));
    s.apply(ScopeUpdate::RemoveTag("missing".into()));
    assert_eq!(s.into_parts().1, vec![("b".to_string(), "2".to_string())]);
    let mut t = MirroredScope::new();
    t.apply(ScopeUpdate::SetTag("b".into(), Some("2".into())));
    t.apply(ScopeUpdate::RemoveTag("b".into()));
    assert!(t.into_parts().1.is_empty());
}

#[test]
fn extras_set_replace_and_remove() {
    let mut s = MirroredScope::new();
    s.apply(ScopeUpdate::SetExtra("k".into(), Some(Value::from(1))));
    s.apply(ScopeUpdate::SetExtra("j".into(), Some(Value::from("x"))));
    s.apply(ScopeUpdate::SetExtra("k".into(), Some(Value::from(2))));
    s.apply(ScopeUpdate::SetExtra("j".into(), None));
    assert_eq!(s.into_parts().2, vec![("k".to_string(), Value::from(2))]);
    let mut t = MirroredScope::new();
    t.apply(ScopeUpdate::SetExtra("k".into(), Some(Value::Null)));
    t.apply(ScopeUpdate::RemoveExtra("k".into()));
    assert!(t.into_parts().2.is_empty());
}

#[test]
fn breadcrumbs_append_in_order_until_cleared() {
    let mut s = MirroredScope::new();
    s.apply(ScopeUpdate::AddBreadcrumb(crumb("one")));
    s.apply(ScopeUpdate::AddBreadcrumb(crumb("two")));
    let mut t = MirroredScope::new();
    t.apply(ScopeUpdate::AddBreadcrumb(crumb("one")));
    t.apply(ScopeUpdate::ClearBreadcrumbs);
    t.apply(ScopeUpdate::AddBreadcrumb(crumb("three")));
    let crumbs = s.into_parts().3;
    assert_eq!(crumbs.len(), 2);
    assert_eq!(crumbs[0].message.as_deref(), Some("one"));
    assert_eq!(crumbs[1].message.as_deref(), Some("two"));
    let crumbs = t.into_parts().3;
    assert_eq!(crumbs.len(), 1);
    assert_eq!(crumbs[0].message.as_deref(), Some("three"));
}
