use gutp::build_app;
use gutp::model::EntityKind;
use gutp::moderator::GutpModeratorModule;
use gutp::request::Method;
use gutp::router::{Action, Filter, Router};
use gutp::subspace::GutpSubspaceModule;

#[test]
fn every_route_of_the_app_resolves_to_its_handler() {
    let app = build_app();
    let expected = [
        (Method::Get, "/v1/subspace", EntityKind::Subspace, Action::GetOne),
        (Method::Get, "/v1/subspace/list", EntityKind::Subspace, Action::GetList),
        (Method::Get, "/v1/subspace/list_by_owner", EntityKind::Subspace, Action::ListBy(Filter::Owner)),
        (Method::Get, "/v1/subspace/list_by_profession", EntityKind::Subspace, Action::ListBy(Filter::Profession)),
        (Method::Get, "/v1/subspace/list_by_appid", EntityKind::Subspace, Action::ListBy(Filter::AppId)),
        (Method::Post, "/v1/subspace/create", EntityKind::Subspace, Action::Create),
        (Method::Post, "/v1/subspace/update", EntityKind::Subspace, Action::Update),
        (Method::Post, "/v1/subspace/delete", EntityKind::Subspace, Action::Delete),
        (Method::Get, "/v1/comment", EntityKind::Comment, Action::GetOne),
        (Method::Get, "/v1/comment/list", EntityKind::Comment, Action::GetList),
        (Method::Get, "/v1/comment/list_by_post", EntityKind::Comment, Action::ListBy(Filter::Post)),
        (Method::Get, "/v1/comment/list_by_author", EntityKind::Comment, Action::ListBy(Filter::Author)),
        (Method::Post, "/v1/comment/create", EntityKind::Comment, Action::Create),
        (Method::Post, "/v1/comment/update", EntityKind::Comment, Action::Update),
        (Method::Post, "/v1/comment/delete", EntityKind::Comment, Action::Delete),
        (Method::Get, "/v1/post", EntityKind::Post, Action::GetOne),
        (Method::Get, "/v1/post/list", EntityKind::Post, Action::GetList),
        (Method::Get, "/v1/post/list_by_subspace", EntityKind::Post, Action::ListBy(Filter::Subspace)),
        (Method::Get, "/v1/post/list_by_author", EntityKind::Post, Action::ListBy(Filter::Author)),
        (Method::Post, "/v1/post/create", EntityKind::Post, Action::Create),
        (Method::Post, "/v1/post/update", EntityKind::Post, Action::Update),
        (Method::Post, "/v1/post/delete", EntityKind::Post, Action::Delete),
        (Method::Get, "/v1/user", EntityKind::User, Action::GetOne),
        (Method::Get, "/v1/user/get_by_account", EntityKind::User, Action::ListBy(Filter::Account)),
        (Method::Post, "/v1/user/create", EntityKind::User, Action::Create),
        (Method::Post, "/v1/user/update", EntityKind::User, Action::Update),
        (Method::Post, "/v1/user/delete", EntityKind::User, Action::Delete),
        (Method::Get, "/v1/tag", EntityKind::Tag, Action::GetOne),
        (Method::Get, "/v1/tag/list", EntityKind::Tag, Action::GetList),
        (Method::Get, "/v1/tag/list_by_subspace", EntityKind::Tag, Action::ListBy(Filter::Subspace)),
        (Method::Get, "/v1/tag/list_by_creator", EntityKind::Tag, Action::ListBy(Filter::Creator)),
        (Method::Post, "/v1/tag/create", EntityKind::Tag, Action::Create),
        (Method::Post, "/v1/tag/update", EntityKind::Tag, Action::Update),
        (Method::Post, "/v1/tag/delete", EntityKind::Tag, Action::Delete),
        (Method::Get, "/v1/posttag", EntityKind::PostTag, Action::GetOne),
        (Method::Get, "/v1/posttag/list", EntityKind::PostTag, Action::GetList),
        (Method::Get, "/v1/posttag/list_by_post", EntityKind::PostTag, Action::ListBy(Filter::Post)),
        (Method::Get, "/v1/posttag/list_by_tag", EntityKind::PostTag, Action::ListBy(Filter::Tag)),
        (Method::Post, "/v1/posttag/create", EntityKind::PostTag, Action::Create),
        (Method::Post, "/v1/posttag/update", EntityKind::PostTag, Action::Update),
        (Method::Post, "/v1/posttag/delete", EntityKind::PostTag, Action::Delete),
        (Method::Get, "/v1/postdiff", EntityKind::PostDiff, Action::GetOne),
        (Method::Get, "/v1/postdiff/list", EntityKind::PostDiff, Action::GetList),
        (Method::Get, "/v1/postdiff/list_by_post", EntityKind::PostDiff, Action::ListBy(Filter::Post)),
        (Method::Post, "/v1/postdiff/create", EntityKind::PostDiff, Action::Create),
        (Method::Post, "/v1/postdiff/update", EntityKind::PostDiff, Action::Update),
        (Method::Post, "/v1/postdiff/delete", EntityKind::PostDiff, Action::Delete),
        (Method::Get, "/gutp/v1/moderator", EntityKind::Moderator, Action::GetOne),
        (Method::Get, "/gutp/v1/moderator/list", EntityKind::Moderator, Action::GetList),
        (Method::Get, "/gutp/v1/moderator/list_by_subspace", EntityKind::Moderator, Action::ListBy(Filter::Subspace)),
        (Method::Get, "/gutp/v1/moderator/list_by_user", EntityKind::Moderator, Action::ListBy(Filter::User)),
        (Method::Get, "/gutp/v1/moderator/list_by_tag", EntityKind::Moderator, Action::ListBy(Filter::Tag)),
        (Method::Post, "/gutp/v1/moderator/create", EntityKind::Moderator, Action::Create),
        (Method::Post, "/gutp/v1/moderator/update", EntityKind::Moderator, Action::Update),
        (Method::Post, "/gutp/v1/moderator/delete", EntityKind::Moderator, Action::Delete),
        (Method::Get, "/v1/extobj", EntityKind::Extobj, Action::GetOne),
        (Method::Get, "/v1/extobj/list", EntityKind::Extobj, Action::GetList),
        (Method::Post, "/v1/extobj/create", EntityKind::Extobj, Action::Create),
        (Method::Post, "/v1/extobj/update", EntityKind::Extobj, Action::Update),
        (Method::Post, "/v1/extobj/delete", EntityKind::Extobj, Action::Delete),
    ];
    assert_eq!(app.routes.len(), expected.len());
    for (i, (method, path, kind, action)) in expected.iter().enumerate() {
        assert_eq!(app.routes[i].method, *method);
        assert_eq!(app.routes[i].path, *path);
        assert_eq!(app.resolve(*method, path), Some((*kind, *action)), "{}", path);
    }
}

#[test]
fn no_two_routes_share_verb_and_path() {
    let app = build_app();
    for i in 0..app.routes.len() {
        for j in 0..i {
            assert!(
                app.routes[i].method != app.routes[j].method
                    || app.routes[i].path != app.routes[j].path
            );
        }
    }
}

#[test]
fn matching_is_exact_on_verb_and_path() {
    let app = build_app();
    assert_eq!(app.resolve(Method::Post, "/v1/subspace"), None);
    assert_eq!(app.resolve(Method::Get, "/v1/subspace/create"), None);
    assert_eq!(app.resolve(Method::Get, "/v1/subspace/"), None);
    assert_eq!(app.resolve(Method::Get, "/v1/subspac"), None);
    assert_eq!(app.resolve(Method::Get, "/v1/subspace/list/"), None);
    assert_eq!(app.resolve(Method::Get, "/V1/subspace"), None);
    assert_eq!(app.resolve(Method::Get, ""), None);
    assert_eq!(app.resolve(Method::Get, "/v1/post/list_by_tag"), None);
    assert_eq!(app.resolve(Method::Get, "/v1/moderator"), None);
}

#[test]
fn the_first_registration_of_a_route_wins() {
    let mut r = Router::new();
    assert_eq!(r.resolve(Method::Get, "/x"), None);
    r.get("/x", EntityKind::Tag, Action::GetOne);
    r.get("/x", EntityKind::User, Action::GetList);
    r.post("/x", EntityKind::Post, Action::Create);
    assert_eq!(r.resolve(Method::Get, "/x"), Some((EntityKind::Tag, Action::GetOne)));
    assert_eq!(r.resolve(Method::Post, "/x"), Some((EntityKind::Post, Action::Create)));
}

#[test]
fn a_module_adds_its_routes_behind_those_that_are_there() {
    let mut r = Router::new();
    GutpModeratorModule.router(&mut r);
    assert_eq!(r.routes.len(), 8);
    GutpSubspaceModule.router(&mut r);
    assert_eq!(r.routes.len(), 16);
    assert_eq!(r.routes[0].path, "/gutp/v1/moderator");
    assert_eq!(r.routes[8].path, "/v1/subspace");
    assert_eq!(r.routes[15].path, "/v1/subspace/delete");
}

#[test]
fn every_entity_kind_has_its_module_once() {
    let app = build_app();
    let kinds = [
        EntityKind::User,
        EntityKind::Subspace,
        EntityKind::Post,
        EntityKind::Comment,
        EntityKind::Tag,
        EntityKind::PostTag,
        EntityKind::PostDiff,
        EntityKind::Moderator,
        EntityKind::Extobj,
    ];
    for kind in kinds {
        for action in [Action::GetOne, Action::Create, Action::Update, Action::Delete] {
            let hits = app.routes.iter().filter(|r| r.kind == kind && r.action == action).count();
            assert_eq!(hits, 1, "{:?} {:?}", kind, action);
        }
    }
    let again = build_app();
    assert_eq!(app, again);
}
