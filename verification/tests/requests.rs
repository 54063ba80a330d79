use hermes::database::Database;
use hermes::error::PostError;
use hermes::handlers::{
    FeedHandler, JsonAfterMiddleware, MakePostHandler, PostHandler, Reply, Status,
};
use hermes::ident::PostId;
use hermes::model::{Author, Post};
use hermes::timestamp::Timestamp;
use router::Params;

const ID_TEXT: &str = "936da01f-9abd-4d9d-80c7-02af85c822a8";
const PAYLOAD: &str = "{\"summary\":\"s\",\"contents\":\"c\",\"author_handle\":\"mathieu\",\"date_time\":\"2024-01-01T00:00:00Z\",\"uuid\":\"936da01f-9abd-4d9d-80c7-02af85c822a8\"}";

fn given(text: &str) -> Params {
    let mut params = Params::new();
    params.insert("id".to_string(), text.to_string());
    params
}

fn unwritable() -> Post {
    Post::new("s", "c", &Author::new("m"), Timestamp::new(i64::MAX, 0), PostId::new(5))
}

#[test]
fn feed_of_an_empty_store_is_an_empty_array() {
    let database = Database::new();
    let reply = FeedHandler.handle(&database);
    assert_eq!(reply.status, Status::Okay);
    assert_eq!(reply.status.code(), 200);
    assert_eq!(reply.body, "[]");
    assert_eq!(reply.content_type, None);
}

#[test]
fn making_a_post_echoes_the_payload() {
    let mut database = Database::new();
    let reply = MakePostHandler.handle(&mut database, Ok(PAYLOAD.to_string()));
    assert_eq!(reply.status, Status::Created);
    assert_eq!(reply.status.code(), 201);
    assert_eq!(reply.body, PAYLOAD);
    assert_eq!(database.posts().len(), 1);
    assert_eq!(database.posts()[0].summary(), "s");
    assert_eq!(database.posts()[0].author_handle(), "mathieu");
}

#[test]
fn making_a_post_echoes_the_payload_as_it_came() {
    let mut database = Database::new();
    let payload = " {\"uuid\":\"936DA01F9ABD4D9D80C702AF85C822A8\", \"more\":true,\n\"date_time\":\"2024-01-01 00:00:00Z\",\"author_handle\":\"m\",\"contents\":\"c\",\"summary\":\"s\"}\n";
    let reply = MakePostHandler.handle(&mut database, Ok(payload.to_string()));
    assert_eq!(reply.status, Status::Created);
    assert_eq!(reply.body, payload);
    assert_eq!(database.posts().len(), 1);
}

#[test]
fn making_a_post_from_text_that_is_no_json_is_a_bad_request() {
    let mut database = Database::new();
    let reply = MakePostHandler.handle(&mut database, Ok("not json".to_string()));
    assert_eq!(reply.status, Status::BadRequest);
    assert_eq!(reply.status.code(), 400);
    assert_eq!(reply.body, "malformed JSON");
    assert_eq!(database.posts().len(), 0);
}

#[test]
fn making_a_post_from_incomplete_json_is_a_bad_request() {
    let mut database = Database::new();
    let reply = MakePostHandler.handle(
        &mut database,
        Ok("{\"summary\":\"s\",\"contents\":\"c\",\"author_handle\":\"mathieu\"}".to_string()),
    );
    assert_eq!(reply.status, Status::BadRequest);
    assert_eq!(reply.body, "missing field: date_time");
    assert_eq!(database.posts().len(), 0);
    let reply = MakePostHandler.handle(
        &mut database,
        Ok("{\"summary\":\"s\",\"contents\":\"c\",\"author_handle\":\"mathieu\",\"date_time\":\"2024-01-01T00:00:00Z\",\"uuid\":\"nope\"}".to_string()),
    );
    assert_eq!(reply.status, Status::BadRequest);
    assert_eq!(reply.body, "invalid UUID");
    assert_eq!(database.posts().len(), 0);
}

#[test]
fn making_a_post_from_an_unreadable_body_is_a_bad_request() {
    let mut database = Database::new();
    let reply =
        MakePostHandler.handle(&mut database, Err("stream did not contain valid UTF-8".to_string()));
    assert_eq!(reply.status, Status::BadRequest);
    assert_eq!(reply.body, "stream did not contain valid UTF-8");
    assert_eq!(database.posts().len(), 0);
}

#[test]
fn making_a_post_twice_adds_it_twice() {
    let mut database = Database::new();
    assert_eq!(MakePostHandler.handle(&mut database, Ok(PAYLOAD.to_string())).status, Status::Created);
    assert_eq!(MakePostHandler.handle(&mut database, Ok(PAYLOAD.to_string())).status, Status::Created);
    assert_eq!(database.posts().len(), 2);
    assert_eq!(FeedHandler.handle(&database).body, format!("[{},{}]", PAYLOAD, PAYLOAD));
}

#[test]
fn made_post_is_fetched_by_its_id() {
    let mut database = Database::new();
    MakePostHandler.handle(&mut database, Ok(PAYLOAD.to_string()));
    let reply = PostHandler.handle(&database, Some(&given(ID_TEXT)));
    assert_eq!(reply.status, Status::Okay);
    assert_eq!(reply.body, PAYLOAD);
    let read = Post::from_json(&reply.body).unwrap();
    assert_eq!(read.summary(), "s");
    assert_eq!(read.contents(), "c");
    assert_eq!(read.author_handle(), "mathieu");
    assert_eq!(read.date_time(), Timestamp::new(1_704_067_200, 0));
    assert_eq!(read.uuid().to_text(), ID_TEXT);
}

#[test]
fn made_post_is_in_the_feed() {
    let mut database = Database::new();
    database.add_post(Post::new(
        "First post",
        "This is the first post ever",
        &Author::new("Mathieu"),
        Timestamp::new(0, 0),
        PostId::new(1),
    ));
    MakePostHandler.handle(&mut database, Ok(PAYLOAD.to_string()));
    let reply = FeedHandler.handle(&database);
    assert_eq!(reply.status, Status::Okay);
    assert_eq!(
        reply.body,
        format!(
            "[{},{}]",
            "{\"summary\":\"First post\",\"contents\":\"This is the first post ever\",\"author_handle\":\"Mathieu\",\"date_time\":\"1970-01-01T00:00:00Z\",\"uuid\":\"00000000-0000-0000-0000-000000000001\"}",
            PAYLOAD
        )
    );
}

#[test]
fn fetching_an_id_never_added_is_not_found() {
    let mut database = Database::new();
    MakePostHandler.handle(&mut database, Ok(PAYLOAD.to_string()));
    let reply = PostHandler.handle(&database, Some(&given("936da01f-9abd-4d9d-80c7-02af85c822a9")));
    assert_eq!(reply.status, Status::NotFound);
    assert_eq!(reply.status.code(), 404);
    assert_eq!(reply.body, "");
    let reply = PostHandler.handle(&Database::new(), Some(&given(ID_TEXT)));
    assert_eq!(reply.status, Status::NotFound);
    assert_eq!(reply.body, "");
}

#[test]
fn fetching_with_text_that_is_no_uuid_is_a_bad_request() {
    let mut database = Database::new();
    MakePostHandler.handle(&mut database, Ok(PAYLOAD.to_string()));
    let reply = PostHandler.handle(&database, Some(&given("not-a-uuid")));
    assert_eq!(reply.status, Status::BadRequest);
    assert_eq!(reply.body, "invalid UUID");
}

#[test]
fn fetching_without_the_parameter_is_a_bad_request() {
    let reply = PostHandler.handle(&Database::new(), Some(&Params::new()));
    assert_eq!(reply.status, Status::BadRequest);
    assert_eq!(reply.body, "missing parameter: id");
    let mut others = Params::new();
    others.insert("uuid".to_string(), ID_TEXT.to_string());
    others.insert("ID".to_string(), ID_TEXT.to_string());
    let reply = PostHandler.handle(&Database::new(), Some(&others));
    assert_eq!(reply.status, Status::BadRequest);
    assert_eq!(reply.body, "missing parameter: id");
}

#[test]
fn fetching_without_routing_parameters_is_an_internal_error() {
    let reply = PostHandler.handle(&Database::new(), None);
    assert_eq!(reply.status, Status::InternalServerError);
    assert_eq!(reply.status.code(), 500);
    assert_eq!(reply.body, "");
}

#[test]
fn fetching_a_repeated_id_gives_the_oldest() {
    let mut database = Database::new();
    let author = Author::new("m");
    database.add_post(Post::new("first", "c", &author, Timestamp::new(0, 0), PostId::new(3)));
    database.add_post(Post::new("second", "c", &author, Timestamp::new(0, 0), PostId::new(3)));
    let reply = PostHandler.handle(&database, Some(&given("00000000-0000-0000-0000-000000000003")));
    assert_eq!(reply.status, Status::Okay);
    assert_eq!(Post::from_json(&reply.body).unwrap().summary(), "first");
}

#[test]
fn feed_with_a_post_that_cannot_be_written_is_an_internal_error() {
    let mut database = Database::new();
    database.add_post(unwritable());
    let reply = FeedHandler.handle(&database);
    assert_eq!(reply.status, Status::InternalServerError);
    assert_eq!(reply.body, "post cannot be encoded");
}

#[test]
fn fetching_a_post_that_cannot_be_written_is_a_bad_request() {
    let mut database = Database::new();
    database.add_post(unwritable());
    let reply = PostHandler.handle(&database, Some(&given("00000000-0000-0000-0000-000000000005")));
    assert_eq!(reply.status, Status::BadRequest);
    assert_eq!(reply.body, "post cannot be encoded");
}

#[test]
fn middleware_marks_the_reply_as_json() {
    let reply = JsonAfterMiddleware.after(Reply::new(Status::Created, "{}".to_string()));
    assert_eq!(reply.status, Status::Created);
    assert_eq!(reply.body, "{}");
    assert_eq!(reply.content_type, Some("application/json"));
    let reply = JsonAfterMiddleware.after(PostHandler.handle(&Database::new(), None));
    assert_eq!(reply.status, Status::InternalServerError);
    assert_eq!(reply.body, "");
    assert_eq!(reply.content_type, Some("application/json"));
}

#[test]
fn replies_are_built_from_their_parts() {
    let reply = Reply::empty(Status::NotFound);
    assert_eq!((reply.status, reply.body.as_str(), reply.content_type), (Status::NotFound, "", None));
    let reply = Reply::failure(Status::BadRequest, PostError::InvalidId);
    assert_eq!((reply.status, reply.body.as_str()), (Status::BadRequest, "invalid UUID"));
    assert_eq!(Status::Okay.code(), 200);
    assert_eq!(Status::Created.code(), 201);
    assert_eq!(Status::BadRequest.code(), 400);
    assert_eq!(Status::NotFound.code(), 404);
    assert_eq!(Status::InternalServerError.code(), 500);
}

#[test]
fn feed_reply_follows_what_was_written() {
    let reply = FeedHandler.reply(Ok("[1,2]".to_string()));
    assert_eq!((reply.status, reply.body.as_str(), reply.content_type), (Status::Okay, "[1,2]", None));
    let reply = FeedHandler.reply(Err(PostError::Unencodable));
    assert_eq!(
        (reply.status, reply.body.as_str(), reply.content_type),
        (Status::InternalServerError, "post cannot be encoded", None)
    );
}

#[test]
fn post_reply_follows_what_was_written() {
    let reply = PostHandler.reply(Ok("{}".to_string()));
    assert_eq!((reply.status, reply.body.as_str(), reply.content_type), (Status::Okay, "{}", None));
    let reply = PostHandler.reply(Err(PostError::Unencodable));
    assert_eq!(
        (reply.status, reply.body.as_str(), reply.content_type),
        (Status::BadRequest, "post cannot be encoded", None)
    );
}

#[test]
fn accepting_a_post_that_was_read_stores_it() {
    let mut database = Database::new();
    let post = Post::new("s", "c", &Author::new("m"), Timestamp::new(0, 0), PostId::new(8));
    let reply = MakePostHandler.accept(&mut database, "as it came".to_string(), Ok(post));
    assert_eq!((reply.status, reply.body.as_str()), (Status::Created, "as it came"));
    assert_eq!(database.posts().len(), 1);
    assert_eq!(database.posts()[0].uuid().value, 8);
}

#[test]
fn accepting_an_error_stores_nothing() {
    let mut database = Database::new();
    database.add_post(Post::new("s", "c", &Author::new("m"), Timestamp::new(0, 0), PostId::new(8)));
    let reply = MakePostHandler.accept(
        &mut database,
        "as it came".to_string(),
        Err(PostError::InvalidTimestamp),
    );
    assert_eq!((reply.status, reply.body.as_str()), (Status::BadRequest, "invalid date and time"));
    assert_eq!(database.posts().len(), 1);
}

#[test]
fn looking_up_a_post_by_an_id_that_was_read() {
    let mut database = Database::new();
    database.add_post(Post::new("s", "c", &Author::new("mathieu"), Timestamp::new(1_704_067_200, 0), PostId::new(0x936da01f_9abd_4d9d_80c7_02af85c822a8)));
    let reply = PostHandler.lookup(&database, Ok(PostId::new(0x936da01f_9abd_4d9d_80c7_02af85c822a8)));
    assert_eq!((reply.status, reply.body.as_str()), (Status::Okay, PAYLOAD));
    let reply = PostHandler.lookup(&database, Ok(PostId::new(1)));
    assert_eq!((reply.status, reply.body.as_str()), (Status::NotFound, ""));
    let reply = PostHandler.lookup(&database, Err(PostError::InvalidId));
    assert_eq!((reply.status, reply.body.as_str()), (Status::BadRequest, "invalid UUID"));
}

#[test]
fn fetching_by_the_text_of_the_parameter() {
    let mut database = Database::new();
    MakePostHandler.handle(&mut database, Ok(PAYLOAD.to_string()));
    let reply = PostHandler.fetch(&database, Some(ID_TEXT));
    assert_eq!((reply.status, reply.body.as_str()), (Status::Okay, PAYLOAD));
    let reply = PostHandler.fetch(&database, Some("936DA01F9ABD4D9D80C702AF85C822A8"));
    assert_eq!((reply.status, reply.body.as_str()), (Status::Okay, PAYLOAD));
    let reply = PostHandler.fetch(&database, Some("not-a-uuid"));
    assert_eq!((reply.status, reply.body.as_str()), (Status::BadRequest, "invalid UUID"));
    let reply = PostHandler.fetch(&database, None);
    assert_eq!((reply.status, reply.body.as_str()), (Status::BadRequest, "missing parameter: id"));
}

#[test]
fn making_a_post_from_json_beyond_the_limits_is_a_bad_request() {
    let mut database = Database::new();
    let reply = MakePostHandler.handle(&mut database, Ok("[".repeat(200_000)));
    assert_eq!((reply.status, reply.body.as_str()), (Status::BadRequest, "unsupported JSON"));
    let reply = MakePostHandler.handle(
        &mut database,
        Ok(format!("{{\"n\":1e{},\"summary\":\"s\"}}", "9".repeat(30))),
    );
    assert_eq!((reply.status, reply.body.as_str()), (Status::BadRequest, "unsupported JSON"));
    assert_eq!(database.posts().len(), 0);
}

#[test]
fn every_bad_request_says_why() {
    let mut database = Database::new();
    database.add_post(unwritable());
    let replies = vec![
        MakePostHandler.handle(&mut database, Ok("not json".to_string())),
        MakePostHandler.handle(&mut database, Ok("{}".to_string())),
        MakePostHandler.handle(&mut database, Err("unreadable".to_string())),
        PostHandler.handle(&database, Some(&Params::new())),
        PostHandler.handle(&database, Some(&given("not-a-uuid"))),
        PostHandler.handle(&database, Some(&given("00000000-0000-0000-0000-000000000005"))),
    ];
    for reply in replies {
        assert_eq!(reply.status, Status::BadRequest);
        assert!(!reply.body.is_empty());
    }
}

#[test]
fn posts_made_in_turn_are_all_in_the_feed_and_found() {
    let mut database = Database::new();
    database.add_post(Post::new("old", "c", &Author::new("m"), Timestamp::new(0, 0), PostId::new(1)));
    let ids = ["00000000-0000-0000-0000-0000000000a3", "00000000-0000-0000-0000-0000000000a1", "00000000-0000-0000-0000-0000000000a2"];
    let payloads: Vec<String> = ids
        .iter()
        .map(|id| {
            format!(
                "{{\"summary\":\"s\",\"contents\":\"c\",\"author_handle\":\"m\",\"date_time\":\"1970-01-01T00:00:00Z\",\"uuid\":\"{}\"}}",
                id
            )
        })
        .collect();
    for payload in payloads.iter() {
        let reply = MakePostHandler.handle(&mut database, Ok(payload.clone()));
        assert_eq!((reply.status, reply.body.as_str()), (Status::Created, payload.as_str()));
    }
    assert_eq!(database.posts().len(), 4);
    let feed = FeedHandler.handle(&database);
    assert_eq!(feed.status, Status::Okay);
    assert_eq!(
        feed.body,
        format!(
            "[{},{},{},{}]",
            "{\"summary\":\"old\",\"contents\":\"c\",\"author_handle\":\"m\",\"date_time\":\"1970-01-01T00:00:00Z\",\"uuid\":\"00000000-0000-0000-0000-000000000001\"}",
            payloads[0],
            payloads[1],
            payloads[2]
        )
    );
    for (id, payload) in ids.iter().zip(payloads.iter()) {
        assert_eq!(feed.body.matches(id).count(), 1);
        let reply = PostHandler.handle(&database, Some(&given(id)));
        assert_eq!((reply.status, reply.body.as_str()), (Status::Okay, payload.as_str()));
    }
}

#[test]
fn making_a_post_with_a_comma_before_a_closing_brace_is_a_bad_request() {
    let mut database = Database::new();
    let reply = MakePostHandler.handle(&mut database, Ok("[{\"p\":{\"a\":1,},1}]".to_string()));
    assert_eq!((reply.status, reply.body.as_str()), (Status::BadRequest, "malformed JSON"));
    let reply = MakePostHandler.handle(
        &mut database,
        Ok("{\"extra\":{\"a\":1,},\"summary\":\"s\",\"contents\":\"c\",\"author_handle\":\"m\",\"date_time\":\"2024-01-01T00:00:00Z\",\"uuid\":\"936da01f-9abd-4d9d-80c7-02af85c822a8\"}".to_string()),
    );
    assert_eq!((reply.status, reply.body.as_str()), (Status::BadRequest, "malformed JSON"));
    assert_eq!(database.posts().len(), 0);
}

#[test]
fn post_made_from_a_body_is_always_written() {
    let mut database = Database::new();
    let bodies = [
        "{\"summary\":\"s\",\"contents\":\"c\",\"author_handle\":\"m\",\"date_time\":\"9999-12-31T23:59:59.999999999Z\",\"uuid\":\"00000000-0000-0000-0000-000000000001\"}",
        "{\"summary\":\"s\",\"contents\":\"c\",\"author_handle\":\"m\",\"date_time\":\"0000-01-01T00:00:00Z\",\"uuid\":\"00000000-0000-0000-0000-000000000002\"}",
        "{\"summary\":\"s\",\"contents\":\"c\",\"author_handle\":\"m\",\"date_time\":\"2016-12-31T23:59:60Z\",\"uuid\":\"00000000-0000-0000-0000-000000000003\"}",
    ];
    for body in bodies.iter() {
        let reply = MakePostHandler.handle(&mut database, Ok(body.to_string()));
        assert_eq!(reply.status, Status::Created);
    }
    assert_eq!(FeedHandler.handle(&database).status, Status::Okay);
    for post in database.posts().iter() {
        let written = post.to_json().unwrap();
        assert_eq!(Post::from_json(&written).unwrap().date_time(), post.date_time());
    }
}
