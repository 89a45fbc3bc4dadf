use mangadex::api::account::{
    ActivateAccount, CompleteAccountRecover, CreateAccount, RecoverAccount, ResendActivationCode,
};
use mangadex::api::at_home::GetAtHomeServer;
use mangadex::api::auth::{CheckToken, Login, Logout, RefreshToken};
use mangadex::api::author::{CreateAuthor, DeleteAuthor, GetAuthor, ListAuthors, UpdateAuthor};
use mangadex::api::captcha::SolveCaptcha;
use mangadex::api::chapter::{
    DeleteChapter, GetChapter, ListChapters, MarkChapterRead, MarkChapterUnread,
};
use mangadex::api::cover::{DeleteCover, EditCover, GetCover, ListCovers, UploadCover};
use mangadex::api::feed::{CustomListMangaFeed, FollowedMangaFeed, GetMangaFeed};
use mangadex::api::group::{
    DeleteGroup, FollowGroup, FollowedGroups, ListGroupReq, ListGroups, UnfollowGroup, ViewGroup,
};
use mangadex::api::legacy::LegacyMapping;
use mangadex::api::list::{
    AddMangaToCustomList, DeleteCustomList, GetCustomList, GetLoggedUserCustomLists,
    GetUserCustomLists, RemoveMangaFromCustomList,
};
use mangadex::api::manga::{
    AllMangaStatus, CreateManga, DeleteManga, FollowManga, GetBatchMangaReadMarkers, GetManga,
    GetMangaReadMarkers, GetMangaStatus, ListManga, ListTags, RandomManga, UnfollowManga,
    UpdateManga, UpdateMangaStatus,
};
use mangadex::api::report::{CreateReport, ListReports};
use mangadex::api::user::{
    ApproveUserDeletion, DeleteUser, GetLoggedUser, GetUser, ListFollowedGroups,
    ListFollowedUsers, ListUsers, UpdateEmail, UpdatePassword,
};
use mangadex::client::Client;
use mangadex::common::Method::{Delete, Get, Post, Put};
use mangadex::common::PayloadKind::{Body, NoData, Query};
use mangadex::common::{Endpoint, Method, PayloadKind, Shape};
use mangadex::errors::{Errors, HttpError};
use mangadex::ident::Uuid;
use mangadex::schema::common::PaginationQuery;
use mangadex::schema::legacy::MappingType;
use mangadex::schema::manga::{MangaReadingStatus, MangaRequest};
use mangadex::schema::report::ReportCategory;
use mangadex::schema::auth::AuthTokens;

const ID: &str = "0e94efb5-6cb5-49fd-b522-51b4460c9821";
const OTHER: &str = "24b6d026-a7cb-498e-8717-26b2831cf318";

fn check<E: Endpoint>(
    endpoint: &E,
    method: Method,
    path: &str,
    auth: bool,
    payload: PayloadKind,
    answer: Shape,
) {
    let d = endpoint.descriptor();
    assert_eq!(d.method, method, "{}", path);
    assert_eq!(d.path, path);
    assert_eq!(d.require_auth, auth, "{}", path);
    assert_eq!(d.payload, payload, "{}", path);
    assert_eq!(d.answer, answer, "{}", path);
    assert!(d.multipart.is_none(), "{}", path);
}

#[test]
fn account_and_auth_endpoints() {
    check(
        &CreateAccount { username: "u", password: "p", email: "e" },
        Post, "/account/create", false, Body, Shape::Single,
    );
    check(&ActivateAccount { code: "abc" }, Get, "/account/activate/abc", false, NoData, Shape::Empty);
    check(&ResendActivationCode { email: "e" }, Post, "/account/activate/resend", false, Body, Shape::Empty);
    check(&RecoverAccount { email: "e" }, Post, "/account/recover", false, Body, Shape::Empty);
    check(
        &CompleteAccountRecover { code: "c0de", new_password: "p" },
        Post, "/account/recover/c0de", false, Body, Shape::Empty,
    );
    check(&Login { username: "u", password: "p" }, Post, "/auth/login", false, Body, Shape::Single);
    check(&CheckToken, Get, "/auth/check", true, NoData, Shape::Single);
    check(&Logout, Post, "/auth/logout", true, NoData, Shape::Empty);
    check(&RefreshToken { refresh_token: "r" }, Post, "/auth/refresh", false, Body, Shape::Single);
    check(&SolveCaptcha { captcha_challenge: "x" }, Post, "/captcha/solve", false, Body, Shape::Empty);
    assert_eq!(
        RefreshToken { refresh_token: "r\"" }.body().as_deref(),
        Some(r#"{"token":"r\""}"#)
    );
}

#[test]
fn resource_endpoints() {
    let id = Uuid::parse_str(ID).unwrap();
    let other = Uuid::parse_str(OTHER).unwrap();
    let at = |prefix: &str, suffix: &str| format!("{}{}{}", prefix, ID, suffix);

    check(&ListAuthors::default(), Get, "/author", false, Query, Shape::Page);
    check(&CreateAuthor { name: "n", version: 1 }, Post, "/author", true, Body, Shape::Single);
    check(&GetAuthor { id: &id }, Get, &at("/author/", ""), false, NoData, Shape::Single);
    check(&UpdateAuthor { id: &id, name: "n", version: 2 }, Put, &at("/author/", ""), true, Body, Shape::Single);
    check(&DeleteAuthor { id: &id }, Delete, &at("/author/", ""), true, NoData, Shape::Empty);

    check(&ListChapters::default(), Get, "/chapter", false, Query, Shape::Page);
    check(&GetChapter { chapter_id: &id }, Get, &at("/chapter/", ""), false, NoData, Shape::Single);
    check(&DeleteChapter { chapter_id: &id }, Delete, &at("/chapter/", ""), true, NoData, Shape::Empty);
    check(&MarkChapterRead { chapter_id: &id }, Post, &at("/chapter/", "/read"), true, NoData, Shape::Empty);
    check(&MarkChapterUnread { chapter_id: &id }, Delete, &at("/chapter/", "/read"), true, NoData, Shape::Empty);

    check(&ListCovers::default(), Get, "/cover", false, Query, Shape::Page);
    check(&GetCover { cover_id: &id }, Get, &at("/cover/", ""), false, NoData, Shape::Single);
    check(
        &EditCover { cover_id: &id, volume: None, description: None, version: 1 },
        Put, &at("/cover/", ""), true, Body, Shape::Single,
    );
    check(&DeleteCover { cover_id: &id }, Delete, &at("/cover/", ""), true, NoData, Shape::Empty);

    check(&FollowedMangaFeed::default(), Get, "/user/follows/manga/feed", true, Body, Shape::Page);
    check(
        &GetMangaFeed {
            manga_id: &id, limit: None, offset: None, translated_language: vec![],
            created_at_since: None, updated_at_since: None, publish_at_since: None, order: None,
        },
        Get, &at("/manga/", "/feed"), false, Query, Shape::Page,
    );
    check(
        &CustomListMangaFeed {
            list_id: &id, limit: None, offset: None, translated_language: vec![],
            created_at_since: None, updated_at_since: None, publish_at_since: None, order: None,
        },
        Get, &at("/list/", "/feed"), false, Query, Shape::Page,
    );

    check(&ListGroups::default(), Get, "/group", false, Query, Shape::Page);
    check(&ViewGroup { id: &id }, Get, &at("/group/", ""), false, NoData, Shape::Single);
    check(&DeleteGroup { id: &id }, Delete, &at("/group/", ""), true, NoData, Shape::Empty);
    check(&FollowGroup { id: &id }, Post, &at("/group/", "/follow"), true, NoData, Shape::Empty);
    check(&UnfollowGroup { id: &id }, Delete, &at("/group/", "/follow"), true, NoData, Shape::Empty);
    let pagination = PaginationQuery::new(Some(5), None);
    check(&FollowedGroups { pagination: &pagination }, Get, "/user/follows/group", true, Query, Shape::Page);

    check(
        &LegacyMapping { kind: MappingType::Manga, ids: vec![1] },
        Post, "/legacy/mapping", false, Body, Shape::List,
    );

    check(&GetCustomList { id: &id }, Get, &at("/list/", ""), false, NoData, Shape::Single);
    check(&DeleteCustomList { id: &id }, Delete, &at("/list/", ""), true, NoData, Shape::Empty);
    let nested = format!("/manga/{}/list/{}", ID, OTHER);
    check(
        &AddMangaToCustomList { manga_id: &id, list_id: &other },
        Post, &nested, true, NoData, Shape::Empty,
    );
    check(
        &RemoveMangaFromCustomList { manga_id: &id, list_id: &other },
        Delete, &nested, true, NoData, Shape::Empty,
    );
    check(&GetLoggedUserCustomLists::default(), Get, "/user/list", true, Query, Shape::Page);
    check(
        &GetUserCustomLists { user_id: &id, pagination: PaginationQuery::default() },
        Get, &at("/user/", "/list"), true, Query, Shape::Page,
    );

    check(&ListUsers::default(), Get, "/user", true, Query, Shape::Page);
    check(&GetUser { user_id: &id }, Get, &at("/user/", ""), false, NoData, Shape::Single);
    check(&DeleteUser { user_id: &id }, Delete, &at("/user/", ""), true, NoData, Shape::Empty);
    check(&ApproveUserDeletion { code: &id }, Post, &at("/user/delete/", ""), true, NoData, Shape::Empty);
    check(&UpdatePassword { old_password: "a", new_password: "b" }, Post, "/user/password", true, Body, Shape::Empty);
    check(&UpdateEmail { email: "e" }, Post, "/user/email", true, Body, Shape::Empty);
    check(&GetLoggedUser, Get, "/user/me", true, NoData, Shape::Single);
    check(&ListFollowedGroups::default(), Get, "/user/follows/group", true, Query, Shape::Page);
    check(&ListFollowedUsers::default(), Get, "/user/follows/user", true, Query, Shape::Page);
    check(
        &mangadex::api::user::ListFollowedManga::default(),
        Get, "/user/follows/manga", true, Query, Shape::Page,
    );
}

#[test]
fn manga_endpoints() {
    let id = Uuid::parse_str(ID).unwrap();
    let at = |prefix: &str, suffix: &str| format!("{}{}{}", prefix, ID, suffix);
    let request = MangaRequest::default();

    check(&ListManga::default(), Get, "/manga", false, Query, Shape::Page);
    check(&CreateManga { request: &request }, Post, "/manga", true, Body, Shape::Single);
    check(&GetManga { id: &id }, Get, &at("/manga/", ""), false, NoData, Shape::Single);
    check(&UpdateManga { id: &id, request: &request }, Put, &at("/manga/", ""), true, Body, Shape::Single);
    check(&DeleteManga { id: &id }, Delete, &at("/manga/", ""), true, NoData, Shape::Empty);
    check(&UnfollowManga { id: &id }, Delete, &at("/manga/", "/follow"), true, NoData, Shape::Empty);
    check(&FollowManga { id: &id }, Post, &at("/manga/", "/follow"), true, NoData, Shape::Empty);
    check(&GetMangaReadMarkers { manga_id: &id }, Get, &at("/manga/", "/read"), true, NoData, Shape::Single);
    check(&GetBatchMangaReadMarkers::default(), Get, "/manga/read", true, Query, Shape::Single);
    check(&RandomManga, Get, "/manga/random", false, NoData, Shape::Single);
    check(&ListTags, Get, "/manga/tag", false, NoData, Shape::List);
    let page = PaginationQuery::default();
    check(
        &mangadex::api::manga::ListFollowedManga { query: &page },
        Get, "/user/follows/manga", true, Query, Shape::Page,
    );
    check(&AllMangaStatus::default(), Get, "/manga/status", true, Query, Shape::Single);
    check(&GetMangaStatus { id: &id }, Get, &at("/manga/", "/status"), true, NoData, Shape::Single);
    check(
        &UpdateMangaStatus { id: &id, status: MangaReadingStatus::Reading },
        Post, &at("/manga/", "/status"), true, Body, Shape::Empty,
    );
}

#[test]
fn report_endpoints() {
    let id = Uuid::parse_str(ID).unwrap();
    for (category, name) in [
        (ReportCategory::Manga, "manga"),
        (ReportCategory::Chapter, "chapter"),
        (ReportCategory::ScanlationGroup, "scanlation_group"),
        (ReportCategory::User, "user"),
    ] {
        assert_eq!(category.fmt(), name);
        assert_eq!(category.as_str(), name);
        check(
            &ListReports { category },
            Get, &format!("/reports/reasons/{}", name), false, Query, Shape::Page,
        );
    }
    check(
        &CreateReport { category: ReportCategory::User, reason: "r", object_id: &id, details: "d" },
        Post, "/report", true, Body, Shape::Single,
    );
}

#[test]
fn list_group_req_new() {
    let ids = vec![Uuid::from_u128(1), Uuid::from_u128(2)];
    let query = ListGroupReq::new(10, 20, ids.clone(), "name");
    assert_eq!(query.limit, Some(10));
    assert_eq!(query.offset, Some(20));
    assert_eq!(query.ids, Some(ids));
    assert_eq!(query.name.as_deref(), Some("name"));
    check(&query, Method::Get, "/group", false, PayloadKind::Query, Shape::Page);
    let empty = ListGroupReq::default();
    assert_eq!(empty.limit, None);
    assert_eq!(empty.ids, None);
}

#[test]
fn pagination_query_new() {
    let query = PaginationQuery::new(Some(3), Some(-4));
    assert_eq!(query.limit, Some(3));
    assert_eq!(query.offset, Some(-4));
    assert_eq!(PaginationQuery::new(None, None), PaginationQuery::default());
}

#[test]
fn upload_cover_sends_the_image_as_a_file() {
    let id = Uuid::parse_str(ID).unwrap();
    let upload = UploadCover { manga_id: &id, image_bytes: vec![1, 2, 3, 255] };
    assert_eq!(upload.path(), format!("/cover/{}", ID));
    assert_eq!(upload.method(), Method::Post);
    assert!(upload.require_auth());
    let part = upload.multipart().unwrap();
    assert_eq!(part.name, "file");
    assert_eq!(part.bytes, vec![1, 2, 3, 255]);

    let d = upload.descriptor();
    assert_eq!(d.method, Method::Post);
    assert_eq!(d.path, format!("/cover/{}", ID));
    assert!(d.require_auth);
    assert_eq!(d.payload, PayloadKind::NoData);
    assert_eq!(d.answer, Shape::Single);
    assert_eq!(d.multipart.unwrap().bytes, vec![1, 2, 3, 255]);

    let mut client = Client::new("http://127.0.0.1:5000").unwrap();
    assert!(matches!(upload.send(&client), Err(Errors::MissingTokens)));
    client.set_tokens(Some(AuthTokens { session: "s".to_string(), refresh: "r".to_string() }));
    let request = upload.send(&client).unwrap();
    assert_eq!(request.url, format!("http://127.0.0.1:5000/cover/{}", ID));
    assert_eq!(request.bearer.as_deref(), Some("s"));
    assert_eq!(request.body, None);
    let part = request.multipart.unwrap();
    assert_eq!(part.name, "file");
    assert_eq!(part.bytes, vec![1, 2, 3, 255]);
}

#[test]
fn at_home_at_home() {
    let client = Client::default();
    let chapter_id = &Uuid::parse_str("0e94efb5-6cb5-49fd-b522-51b4460c9821").unwrap();
    let request = GetAtHomeServer { chapter_id, force_port443: false }
        .send(&client)
        .expect("Failed to resolve at-home request");
    assert_eq!(request.method, Method::Get);
    assert_eq!(
        request.url,
        "https://api.mangadex.org/at-home/server/0e94efb5-6cb5-49fd-b522-51b4460c9821?forcePort443=false"
    );
    assert_eq!(request.bearer, None);
    let url = GetAtHomeServer::receive(Ok(r#"{"baseUrl":"https://s2.example.org:8443"}"#.to_string()))
        .expect("Failed to resolve at-home request");
    assert_eq!(url, "https://s2.example.org:8443/");
}

#[test]
fn at_home_at_home_force443() {
    let client = Client::default();
    let chapter_id = &Uuid::parse_str("0e94efb5-6cb5-49fd-b522-51b4460c9821").unwrap();
    let request = GetAtHomeServer { chapter_id, force_port443: true }
        .send(&client)
        .expect("Failed to resolve at-home request");
    assert!(request.url.ends_with("?forcePort443=true"));
    let res = GetAtHomeServer::receive(Ok(r#"{"baseUrl":"https://abc.mangadex.network:443/token"}"#.to_string()))
        .expect("Failed to resolve at-home request");
    // The default port of the scheme is left out of the normal form.
    assert_eq!(res, "https://abc.mangadex.network/token");
}

#[test]
fn at_home_answers_that_name_no_server() {
    assert!(matches!(
        GetAtHomeServer::receive(Ok(r#"{"baseUrl":"not a url"}"#.to_string())),
        Err(Errors::ParseUrl(_))
    ));
    assert!(matches!(
        GetAtHomeServer::receive(Ok(r#"{"base_url":"https://example.org"}"#.to_string())),
        Err(Errors::Http(HttpError::Decode))
    ));
    assert!(matches!(
        GetAtHomeServer::receive(Ok(r#"{"baseUrl":1}"#.to_string())),
        Err(Errors::Http(HttpError::Decode))
    ));
    assert!(matches!(
        GetAtHomeServer::receive(Ok("nothing".to_string())),
        Err(Errors::Http(HttpError::Decode))
    ));
    assert!(matches!(
        GetAtHomeServer::receive(Err(HttpError::Transport("reset".to_string()))),
        Err(Errors::Http(HttpError::Transport(_)))
    ));
}
