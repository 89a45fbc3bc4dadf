use mangadex::common::Shape;
use mangadex::errors::{Errors, HttpError};
use mangadex::ident::Uuid;
use mangadex::json::Json;
use mangadex::reply::{decode, payload, read_reply, Answer};
use mangadex::schema::common::{
    api_page, api_result, api_results, read_api_data, read_api_object, NoData, Relationship,
    ResourceType, WireName,
};
use mangadex::schema::errors::{ApiError, ApiErrors};
use mangadex::schema::{ApiResult, FromResponse, Results};

fn json(text: &str) -> Json {
    Json::parse(text).expect("the test's document is JSON")
}

fn text_of<'a>(json: &'a Json, key: &str) -> &'a str {
    json.get(key).and_then(Json::as_str).expect("a string member")
}

#[test]
fn ok_envelope_yields_its_data_exactly() {
    let text = r#"{
        "result": "ok",
        "data": {
            "id": "32d76d19-8a05-4db0-9fc2-e0b0648fe9d0",
            "type": "manga",
            "attributes": {"originalLanguage": "ko", "version": 3, "tags": [null, true]}
        },
        "relationships": [
            {"id": "24b6d026-a7cb-498e-8717-26b2831cf318", "type": "author"},
            {"id": "c0ee660b-f9f2-45c3-8068-5123ff53f84a", "type": "cover_art"}
        ]
    }"#;
    let document = json(text);
    let found = payload(&document).unwrap();

    let data = read_api_data(found).unwrap();
    let expected = json(
        r#"{"id":"32d76d19-8a05-4db0-9fc2-e0b0648fe9d0","type":"manga",
            "attributes":{"originalLanguage":"ko","version":3,"tags":[null,true]}}"#,
    );
    assert_eq!(format!("{:?}", data.data), format!("{:?}", expected));
    assert_eq!(
        data.relationships,
        vec![
            Relationship {
                id: Uuid::parse_str("24b6d026-a7cb-498e-8717-26b2831cf318").unwrap(),
                kind: ResourceType::Author,
            },
            Relationship {
                id: Uuid::parse_str("c0ee660b-f9f2-45c3-8068-5123ff53f84a").unwrap(),
                kind: ResourceType::CoverArt,
            },
        ]
    );

    let manga = read_api_object(data.data).unwrap();
    assert_eq!(
        manga.id,
        Uuid::parse_str("32d76d19-8a05-4db0-9fc2-e0b0648fe9d0").unwrap()
    );
    assert_eq!(manga.kind, ResourceType::Manga);
    assert_eq!(text_of(manga.attributes, "originalLanguage"), "ko");
    assert_eq!(manga.attributes.get("version").unwrap().as_i32(), Some(3));
}

#[test]
fn error_envelope_yields_its_records() {
    let text = r#"{"result":"error","errors":[{"id":"5e50fc7b-e185-45b1-a692-58e8091b22d2","status":503,"title":"The service is unavailable","detail":"Servers are burning"}]}"#;
    let document = json(text);
    match payload(&document) {
        Err(Errors::Api(errors)) => {
            assert_eq!(errors.errors.len(), 1);
            let error = &errors.errors[0];
            assert_eq!(error.id.as_u128(), 0x5e50fc7b_e185_45b1_a692_58e8091b22d2);
            assert_eq!(error.status, 503);
            assert_eq!(error.title.as_deref(), Some("The service is unavailable"));
            assert_eq!(error.detail.as_deref(), Some("Servers are burning"));
        }
        other => panic!("unexpected outcome: {:?}", other),
    }
}

#[test]
fn error_envelope_without_errors_is_an_empty_list() {
    let document = json(r#"{"result":"error"}"#);
    assert!(matches!(payload(&document), Err(Errors::Api(e)) if e.errors.is_empty()));
    let document = json(r#"{"result":"error","errors":[]}"#);
    assert!(matches!(payload(&document), Err(Errors::Api(e)) if e.errors.is_empty()));
}

#[test]
fn error_envelope_with_bad_records_is_malformed() {
    for text in [
        r#"{"result":"error","errors":null}"#,
        r#"{"result":"error","errors":{}}"#,
        r#"{"result":"error","errors":[{}]}"#,
        r#"{"result":"error","errors":[{"id":"nope","status":1}]}"#,
        r#"{"result":"error","errors":[{"id":"5e50fc7b-e185-45b1-a692-58e8091b22d2","status":"503"}]}"#,
        r#"{"result":"error","errors":[{"id":"5e50fc7b-e185-45b1-a692-58e8091b22d2","status":1.5}]}"#,
        r#"{"result":"error","errors":[{"id":"5e50fc7b-e185-45b1-a692-58e8091b22d2","status":2147483648}]}"#,
        r#"{"result":"error","errors":[{"id":"5e50fc7b-e185-45b1-a692-58e8091b22d2","status":1,"title":3}]}"#,
    ] {
        let document = json(text);
        assert!(
            matches!(payload(&document), Err(Errors::Http(HttpError::Decode))),
            "{}",
            text
        );
    }
}

#[test]
fn error_record_fields() {
    let record = json(
        r#"{"id":"5E50FC7BE18545B1A69258E8091B22D2","status":-2147483648,"title":null}"#,
    );
    let error = ApiError::from_json(&record).unwrap();
    assert_eq!(error.id.as_u128(), 0x5e50fc7b_e185_45b1_a692_58e8091b22d2);
    assert_eq!(error.status, i32::MIN);
    assert_eq!(error.title, None);
    assert_eq!(error.detail, None);
    assert_eq!(error.message(), "api error");

    let list = json(r#"{"errors":[{"id":"5e50fc7b-e185-45b1-a692-58e8091b22d2","status":7}]}"#);
    let errors = ApiErrors::from_json(&list).unwrap();
    assert_eq!(errors.errors.len(), 1);
    assert_eq!(errors.errors[0].status, 7);
}

#[test]
fn unknown_or_missing_result_is_malformed() {
    for text in [
        r#"{"result":"maybe","data":{}}"#,
        r#"{"result":"OK","data":{}}"#,
        r#"{"result":"","data":{}}"#,
        r#"{"result":true,"data":{}}"#,
        r#"{"result":null}"#,
        r#"{"data":{}}"#,
        r#"{}"#,
        r#"[]"#,
        r#"["ok"]"#,
        r#""ok""#,
        r#"null"#,
        r#"1"#,
    ] {
        let document = json(text);
        assert!(api_result(&document).is_none(), "{}", text);
        for shape in [Shape::Single, Shape::Empty] {
            assert!(
                matches!(decode(shape, &document), Err(Errors::Http(HttpError::Decode))),
                "{}",
                text
            );
        }
    }
}

#[test]
fn body_that_is_no_json_is_malformed() {
    for text in ["", "pong", "{", r#"{"result":"ok""#, "{} {}", "<html></html>"] {
        assert!(
            matches!(
                read_reply(Ok(text.to_string())),
                Err(Errors::Http(HttpError::Decode))
            ),
            "{}",
            text
        );
    }
    assert!(matches!(
        read_reply(Err(HttpError::Transport("dns".to_string()))),
        Err(Errors::Http(HttpError::Transport(reason))) if reason == "dns"
    ));
    assert!(read_reply(Ok(" {\"result\":\"ok\"} ".to_string())).is_ok());
}

#[test]
fn page_items_are_decoded_one_by_one() {
    let text = r#"{
        "results": [
            {"result": "ok", "data": {"n": 1}},
            {"result": "error", "errors": [
                {"id": "5e50fc7b-e185-45b1-a692-58e8091b22d2", "status": 404, "title": "gone"}
            ]},
            {"result": "ok", "data": {"n": 3}}
        ],
        "limit": 10,
        "offset": 20,
        "total": 300
    }"#;
    let document = json(text);
    let page = match decode(Shape::Page, &document).unwrap() {
        Answer::Page(page) => page,
        other => panic!("unexpected answer: {:?}", other),
    };
    assert_eq!(page.limit, 10);
    assert_eq!(page.offset, 20);
    assert_eq!(page.total, 300);
    assert_eq!(page.results.len(), 3);
    let first = page.results[0].as_ref().unwrap();
    assert_eq!(
        first.get("data").unwrap().get("n").unwrap().as_i32(),
        Some(1)
    );
    match &page.results[1] {
        Err(Errors::Api(errors)) => {
            assert_eq!(errors.errors.len(), 1);
            assert_eq!(errors.errors[0].status, 404);
            assert_eq!(errors.errors[0].title.as_deref(), Some("gone"));
            assert_eq!(errors.errors[0].detail, None);
        }
        other => panic!("unexpected item: {:?}", other),
    }
    let third = page.results[2].as_ref().unwrap();
    assert_eq!(
        third.get("data").unwrap().get("n").unwrap().as_i32(),
        Some(3)
    );
}

#[test]
fn page_needs_all_its_parts() {
    for text in [
        r#"{"results":[],"limit":1,"offset":0}"#,
        r#"{"results":[],"limit":1,"total":0}"#,
        r#"{"results":[],"offset":1,"total":0}"#,
        r#"{"limit":1,"offset":0,"total":0}"#,
        r#"{"results":{},"limit":1,"offset":0,"total":0}"#,
        r#"{"results":[],"limit":"1","offset":0,"total":0}"#,
        r#"{"results":[{"result":"what"}],"limit":1,"offset":0,"total":0}"#,
        r#"{"results":[{"data":1}],"limit":1,"offset":0,"total":0}"#,
        r#"[]"#,
    ] {
        let document = json(text);
        assert!(api_page(&document).is_none(), "{}", text);
        assert!(
            matches!(
                decode(Shape::Page, &document),
                Err(Errors::Http(HttpError::Decode))
            ),
            "{}",
            text
        );
    }
    let empty = json(r#"{"results":[],"limit":10,"offset":0,"total":0}"#);
    let page = api_page(&empty).unwrap();
    assert!(page.results.is_empty());
    assert_eq!(page.limit, 10);
}

#[test]
fn list_items_are_decoded_one_by_one() {
    let document = json(
        r#"[{"result":"error","errors":[]},{"result":"ok","data":{"x":true}}]"#,
    );
    let list = match decode(Shape::List, &document).unwrap() {
        Answer::List(list) => list,
        other => panic!("unexpected answer: {:?}", other),
    };
    assert_eq!(list.len(), 2);
    assert!(matches!(&list[0], Err(Errors::Api(e)) if e.errors.is_empty()));
    let second = list[1].as_ref().unwrap();
    assert_eq!(
        second.get("data").unwrap().get("x").unwrap().as_bool(),
        Some(true)
    );

    let broken = json(r#"[{"result":"ok"},{"result":"nope"}]"#);
    assert!(api_results(&broken).is_none());
    assert!(matches!(
        decode(Shape::List, &broken),
        Err(Errors::Http(HttpError::Decode))
    ));
    let no_list = json(r#"{"result":"ok"}"#);
    assert!(matches!(
        decode(Shape::List, &no_list),
        Err(Errors::Http(HttpError::Decode))
    ));
}

#[test]
fn legacy_legacy_mapping() {
    let document = json(
        r#"[
            {
                "result": "ok",
                "data": {
                    "id": "24b6d026-a7cb-498e-8717-26b2831cf318",
                    "type": "mapping_id",
                    "attributes": {
                        "type": "manga",
                        "legacyId": 1,
                        "newId": "c0ee660b-f9f2-45c3-8068-5123ff53f84a"
                    }
                }
            }
        ]"#,
    );
    let mappings = match decode(Shape::List, &document).expect("Failed to parse") {
        Answer::List(list) => list,
        other => panic!("unexpected answer: {:?}", other),
    };
    assert_eq!(mappings.len(), 1);

    let mapping = read_api_data(mappings[0].as_ref().unwrap()).unwrap();
    assert_eq!(mapping.relationships.len(), 0);
    assert_eq!(
        text_of(mapping.data, "id"),
        "24b6d026-a7cb-498e-8717-26b2831cf318"
    );
    assert_eq!(text_of(mapping.data, "type"), "mapping_id");
    let attributes = mapping.data.get("attributes").unwrap();
    assert_eq!(text_of(attributes, "type"), "manga");
    assert_eq!(attributes.get("legacyId").unwrap().as_i64(), Some(1));
    assert_eq!(
        Uuid::parse_str(text_of(attributes, "newId")),
        Uuid::parse_str("c0ee660b-f9f2-45c3-8068-5123ff53f84a")
    );
    // `mapping_id` is the name of no kind of resource.
    assert!(read_api_object(mapping.data).is_none());
}

#[test]
fn bare_and_empty_answers() {
    let document = json(r#"{"baseUrl":"https://example.org"}"#);
    match decode(Shape::Bare, &document).unwrap() {
        Answer::Bare(found) => assert_eq!(text_of(found, "baseUrl"), "https://example.org"),
        other => panic!("unexpected answer: {:?}", other),
    }
    let ok = json(r#"{"result":"ok"}"#);
    assert!(matches!(decode(Shape::Empty, &ok), Ok(Answer::Empty)));
    assert_eq!(NoData::from_json(&ok), Some(NoData));
    let more = json(r#"{"result":"ok","data":null}"#);
    assert!(matches!(
        decode(Shape::Empty, &more),
        Err(Errors::Http(HttpError::Decode))
    ));
    assert_eq!(NoData::from_json(&json("{}")), Some(NoData));
    assert_eq!(NoData::from_json(&json("[]")), None);
    let failed = json(r#"{"result":"error","errors":[]}"#);
    assert!(matches!(decode(Shape::Empty, &failed), Err(Errors::Api(_))));
}

#[test]
fn from_response_lifts_each_item() {
    let single: Result<u8, Errors> = FromResponse::from_response(ApiResult(Ok(7u8)));
    assert!(matches!(single, Ok(7)));
    let failed: Result<u8, Errors> =
        FromResponse::from_response(ApiResult(Err(ApiErrors { errors: vec![] })));
    assert!(matches!(failed, Err(Errors::Api(e)) if e.errors.is_empty()));

    let list: Vec<Result<u8, Errors>> = FromResponse::from_response(vec![
        ApiResult(Ok(1u8)),
        ApiResult(Err(ApiErrors { errors: vec![] })),
        ApiResult(Ok(3u8)),
    ]);
    assert_eq!(list.len(), 3);
    assert!(matches!(list[0], Ok(1)));
    assert!(matches!(list[1], Err(Errors::Api(_))));
    assert!(matches!(list[2], Ok(3)));

    let page: Results<Result<u8, Errors>> = FromResponse::from_response(Results {
        results: vec![ApiResult(Err(ApiErrors { errors: vec![] })), ApiResult(Ok(2u8))],
        limit: 5,
        offset: 6,
        total: 7,
    });
    assert_eq!((page.limit, page.offset, page.total), (5, 6, 7));
    assert!(matches!(page.results[0], Err(Errors::Api(_))));
    assert!(matches!(page.results[1], Ok(2)));

    assert_eq!(ApiResult::<u8, u16>(Ok(1)).into_result(), Ok(1));
    assert_eq!(ApiResult::<u8, u16>(Err(2)).into_result(), Err(2));
}

#[test]
fn resource_type_names() {
    let all = [
        (ResourceType::Manga, "manga"),
        (ResourceType::Chapter, "chapter"),
        (ResourceType::CoverArt, "cover_art"),
        (ResourceType::Author, "author"),
        (ResourceType::Artist, "artist"),
        (ResourceType::ScanlationGroup, "scanlation_group"),
        (ResourceType::Tag, "tag"),
        (ResourceType::User, "user"),
        (ResourceType::CustomList, "custom_list"),
    ];
    for (kind, name) in all {
        assert_eq!(kind.as_str(), name);
        assert_eq!(ResourceType::from_name(name), Some(kind));
    }
    assert_eq!(ResourceType::from_name("Manga"), None);
    assert_eq!(ResourceType::from_name(""), None);
}

#[test]
fn relationships_default_to_none() {
    let document = json(r#"{"data":[1,2]}"#);
    let data = read_api_data(&document).unwrap();
    assert!(data.relationships.is_empty());
    assert_eq!(data.data.as_array().unwrap().len(), 2);
    assert!(read_api_data(&json(r#"{"relationships":[]}"#)).is_none());
    assert!(read_api_data(&json(r#"{"data":1,"relationships":null}"#)).is_none());
    assert!(read_api_data(&json(r#"{"data":1,"relationships":[{"id":"x","type":"tag"}]}"#))
        .is_none());
    assert!(Relationship::from_json(&json(
        r#"{"id":"24b6d026-a7cb-498e-8717-26b2831cf318","type":"nothing"}"#
    ))
    .is_none());
}
