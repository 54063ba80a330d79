//! The request handlers: each turns the input of one operation into a call
//! on the post store and a reply.

use crate::database::{distinct_ids, first_with_id, lemma_lookup_finds_each, Database};
use crate::error::{Field, PostError};
use crate::ident::PostId;
use crate::json::json_document;
use crate::model::{
    id_of, lemma_read_post_holds_the_members, lemma_read_post_is_writable, member_of,
    posts_to_json, spec_array_json, spec_posts_json, Post, PostView,
};
use crate::routing::{find_param, path_params};
use router::Params;
use vstd::prelude::*;

verus! {

/// The status of a reply.
#[derive(Clone, Copy, Debug, PartialEq, Eq, Structural)]
pub enum Status {
    Okay,
    Created,
    BadRequest,
    NotFound,
    InternalServerError,
}

impl Status {
    /// The HTTP status code.
    pub open spec fn spec_code(self) -> u16 {
        match self {
            Status::Okay => 200,
            Status::Created => 201,
            Status::BadRequest => 400,
            Status::NotFound => 404,
            Status::InternalServerError => 500,
        }
    }

    /// The HTTP status code.
    pub fn code(self) -> (code: u16)
        ensures
            code == self.spec_code(),
    {
        match self {
            Status::Okay => 200,
            Status::Created => 201,
            Status::BadRequest => 400,
            Status::NotFound => 404,
            Status::InternalServerError => 500,
        }
    }
}

/// What a handler answers: a status, a body, and the content type where it
/// has been set.
#[derive(Debug)]
pub struct Reply {
    pub status: Status,
    pub body: String,
    pub content_type: Option<&'static str>,
}

/// What a reply holds.
pub ghost struct ReplyView {
    pub status: Status,
    pub body: Seq<char>,
    pub content_type: Option<Seq<char>>,
}

impl View for Reply {
    type V = ReplyView;

    open spec fn view(&self) -> ReplyView {
        ReplyView {
            status: self.status,
            body: self.body@,
            content_type: match self.content_type {
                Some(name) => Some(name@),
                None => None,
            },
        }
    }
}

impl Clone for Reply {
    /// A copy that holds the same as the reply.
    fn clone(&self) -> (copy: Reply)
        ensures
            copy@ == self@,
    {
        Reply { status: self.status, body: self.body.clone(), content_type: self.content_type }
    }
}

/// The reply with a status and a body, and no content type yet.
pub open spec fn reply_with(status: Status, body: Seq<char>) -> ReplyView {
    ReplyView { status, body, content_type: None }
}

impl Reply {
    /// The reply with a status and a body, and no content type yet.
    pub fn new(status: Status, body: String) -> (reply: Reply)
        ensures
            reply@ == reply_with(status, body@),
    {
        Reply { status, body, content_type: None }
    }

    /// The reply with a status and an empty body.
    pub fn empty(status: Status) -> (reply: Reply)
        ensures
            reply@ == reply_with(status, Seq::<char>::empty()),
    {
        Reply { status, body: String::new(), content_type: None }
    }

    /// The reply that reports an error under a status.
    pub fn failure(status: Status, error: PostError) -> (reply: Reply)
        ensures
            reply@ == reply_with(status, error.spec_description()),
    {
        Reply { status, body: error.description(), content_type: None }
    }
}

/// Lists the feed.
#[derive(Clone, Copy, Debug)]
pub struct FeedHandler;

impl FeedHandler {
    /// The reply for the feed as it was written: the JSON array with
    /// success, and an internal error with its description where the feed
    /// could not be written.
    pub open spec fn spec_reply(written: Result<String, PostError>) -> ReplyView {
        match written {
            Ok(json) => reply_with(Status::Okay, json@),
            Err(error) => reply_with(Status::InternalServerError, error.spec_description()),
        }
    }

    /// Makes the reply for the feed as it was written.
    pub fn reply(&self, written: Result<String, PostError>) -> (reply: Reply)
        ensures
            reply@ == Self::spec_reply(written),
    {
        match written {
            Ok(json) => Reply::new(Status::Okay, json),
            Err(error) => Reply::failure(Status::InternalServerError, error),
        }
    }

    /// The reply to a request for the feed: all posts as a JSON array, oldest
    /// first; an internal error where a post cannot be written.
    pub open spec fn spec_handle(posts: Seq<PostView>) -> ReplyView {
        match spec_posts_json(posts) {
            Some(json) => reply_with(Status::Okay, json),
            None => reply_with(
                Status::InternalServerError,
                PostError::Unencodable.spec_description(),
            ),
        }
    }

    /// Answers a request for the feed.
    pub fn handle(&self, database: &Database) -> (reply: Reply)
        ensures
            reply@ == Self::spec_handle(database@),
    {
        self.reply(posts_to_json(database.posts()))
    }
}

/// Creates a post.
#[derive(Clone, Copy, Debug)]
pub struct MakePostHandler;

impl MakePostHandler {
    /// The store and the reply after a payload was read as a post, or was
    /// not: a post is added at the end and the payload echoed as it came;
    /// an error leaves the store as it is and is a bad request with its
    /// description.
    pub open spec fn spec_accept(
        posts: Seq<PostView>,
        payload: Seq<char>,
        read: Result<PostView, PostError>,
    ) -> (Seq<PostView>, ReplyView) {
        match read {
            Ok(post) => (posts.push(post), reply_with(Status::Created, payload)),
            Err(error) => (posts, reply_with(Status::BadRequest, error.spec_description())),
        }
    }

    /// Stores the post that a payload was read as and makes the reply.
    pub fn accept(
        &self,
        database: &mut Database,
        payload: String,
        read: Result<Post, PostError>,
    ) -> (reply: Reply)
        ensures
            (final(database)@, reply@) == Self::spec_accept(
                old(database)@,
                payload@,
                match read {
                    Ok(post) => Ok(post@),
                    Err(error) => Err(error),
                },
            ),
    {
        match read {
            Ok(post) => {
                database.add_post(post);
                Reply::new(Status::Created, payload)
            },
            Err(error) => Reply::failure(Status::BadRequest, error),
        }
    }

    /// The store and the reply after a request to create a post. `body` is
    /// the request body as text, or the description of why it could not be
    /// read. A body that reads as a post is added and echoed as it came;
    /// anything else leaves the store as it is and is a bad request.
    pub open spec fn spec_handle(posts: Seq<PostView>, body: Result<String, String>) -> (
        Seq<PostView>,
        ReplyView,
    ) {
        match body {
            Err(description) => (posts, reply_with(Status::BadRequest, description@)),
            Ok(payload) => Self::spec_accept(posts, payload@, Post::spec_from_json(payload@)),
        }
    }

    /// Answers a request to create a post.
    pub fn handle(&self, database: &mut Database, body: Result<String, String>) -> (reply: Reply)
        ensures
            (final(database)@, reply@) == Self::spec_handle(old(database)@, body),
    {
        match body {
            Err(description) => Reply::new(Status::BadRequest, description),
            Ok(payload) => {
                let read = Post::from_json(payload.as_str());
                self.accept(database, payload, read)
            },
        }
    }
}

/// Fetches one post by its id.
#[derive(Clone, Copy, Debug)]
pub struct PostHandler;

impl PostHandler {
    /// The reply for a post as it was written: the JSON object with
    /// success, and a bad request with its description where the post could
    /// not be written, which is for a time that has no text.
    pub open spec fn spec_reply(written: Result<String, PostError>) -> ReplyView {
        match written {
            Ok(json) => reply_with(Status::Okay, json@),
            Err(error) => reply_with(Status::BadRequest, error.spec_description()),
        }
    }

    /// Makes the reply for a post as it was written.
    pub fn reply(&self, written: Result<String, PostError>) -> (reply: Reply)
        ensures
            reply@ == Self::spec_reply(written),
    {
        match written {
            Ok(json) => Reply::new(Status::Okay, json),
            Err(error) => Reply::failure(Status::BadRequest, error),
        }
    }

    /// The reply to a request for the post with an id that was read, or was
    /// not: an error is a bad request with its description; the oldest post
    /// with the id is written as JSON; where the store has none the reply is
    /// not found, with an empty body.
    pub open spec fn spec_lookup(
        posts: Seq<PostView>,
        id: Result<PostId, PostError>,
    ) -> ReplyView {
        match id {
            Err(error) => reply_with(Status::BadRequest, error.spec_description()),
            Ok(id) => match first_with_id(posts, id) {
                None => reply_with(Status::NotFound, Seq::<char>::empty()),
                Some(post) => match Post::spec_json(post) {
                    Some(json) => reply_with(Status::Okay, json),
                    None => reply_with(
                        Status::BadRequest,
                        PostError::Unencodable.spec_description(),
                    ),
                },
            },
        }
    }

    /// Looks the post up whose id was read, and answers with it.
    pub fn lookup(&self, database: &Database, id: Result<PostId, PostError>) -> (reply: Reply)
        ensures
            reply@ == Self::spec_lookup(database@, id),
    {
        let id = match id {
            Ok(id) => id,
            Err(error) => return Reply::failure(Status::BadRequest, error),
        };
        match database.find_by_id(&id) {
            Some(post) => self.reply(post.to_json()),
            None => Reply::empty(Status::NotFound),
        }
    }

    /// The reply to a request whose parameter `id` has the given text, or
    /// which has no such parameter: that is a bad request which says so.
    pub open spec fn spec_fetch(posts: Seq<PostView>, id: Option<Seq<char>>) -> ReplyView {
        match id {
            None => reply_with(
                Status::BadRequest,
                PostError::MissingParameter.spec_description(),
            ),
            Some(text) => Self::spec_lookup(posts, PostId::spec_parse(text)),
        }
    }

    /// Answers a request by the text of its parameter `id`.
    pub fn fetch(&self, database: &Database, id: Option<&str>) -> (reply: Reply)
        ensures
            reply@ == Self::spec_fetch(
                database@,
                match id {
                    Some(text) => Some(text@),
                    None => None,
                },
            ),
    {
        match id {
            Some(text) => self.lookup(database, PostId::parse(text)),
            None => Reply::failure(Status::BadRequest, PostError::MissingParameter),
        }
    }

    /// The reply to a request for one post. `params` are the path
    /// parameters of the request, or `None` where the routing layer has put
    /// none on it: that is an internal error with an empty body. Otherwise
    /// the parameter `id` decides.
    pub open spec fn spec_handle(
        posts: Seq<PostView>,
        params: Option<Map<Seq<char>, Seq<char>>>,
    ) -> ReplyView {
        match params {
            None => reply_with(Status::InternalServerError, Seq::<char>::empty()),
            Some(params) => Self::spec_fetch(
                posts,
                if params.contains_key("id"@) {
                    Some(params["id"@])
                } else {
                    None
                },
            ),
        }
    }

    /// Answers a request for one post.
    pub fn handle(&self, database: &Database, params: Option<&Params>) -> (reply: Reply)
        ensures
            reply@ == Self::spec_handle(
                database@,
                match params {
                    Some(params) => Some(path_params(*params)),
                    None => None,
                },
            ),
    {
        match params {
            Some(params) => self.fetch(database, find_param(params, "id")),
            None => Reply::empty(Status::InternalServerError),
        }
    }
}

/// Marks every reply as JSON on its way out.
#[derive(Clone, Copy, Debug)]
pub struct JsonAfterMiddleware;

impl JsonAfterMiddleware {
    /// Sets the content type of the reply to `application/json` and leaves
    /// the rest.
    pub fn after(&self, reply: Reply) -> (marked: Reply)
        ensures
            marked@ == (ReplyView { content_type: Some("application/json"@), ..reply@ }),
    {
        Reply { status: reply.status, body: reply.body, content_type: Some("application/json") }
    }
}

/// The body of a request was read, and reads as the post.
pub open spec fn reads_as(body: Result<String, String>, post: PostView) -> bool {
    match body {
        Ok(payload) => Post::spec_from_json(payload@) == Ok::<PostView, PostError>(post),
        Err(_) => false,
    }
}

/// The store after requests to create a post were answered in turn.
pub open spec fn after_creates(
    posts: Seq<PostView>,
    bodies: Seq<Result<String, String>>,
) -> Seq<PostView>
    decreases bodies.len(),
{
    if bodies.len() == 0 {
        posts
    } else {
        after_creates(MakePostHandler::spec_handle(posts, bodies[0]).0, bodies.drop_first())
    }
}

/// A post that was made under an id which the store did not hold is fetched
/// by a request whose parameter `id` is the text of the member `uuid` of the
/// payload that it was made from: the reply is a success with the JSON
/// object of that very post, which holds what the members of the payload
/// hold.
pub proof fn lemma_made_post_is_fetched(
    posts: Seq<PostView>,
    payload: String,
    post: PostView,
    params: Map<Seq<char>, Seq<char>>,
)
    requires
        Post::spec_from_json(payload@) == Ok::<PostView, PostError>(post),
        first_with_id(posts, post.uuid).is_none(),
        params.contains_key("id"@),
        member_of(json_document(payload@).unwrap(), Field::Uuid) == Ok::<Seq<char>, PostError>(
            params["id"@],
        ),
    ensures
        MakePostHandler::spec_handle(posts, Ok(payload)) == (
            posts.push(post),
            reply_with(Status::Created, payload@),
        ),
        Post::spec_json(post).is_some(),
        PostHandler::spec_handle(posts.push(post), Some(params)) == reply_with(
            Status::Okay,
            Post::spec_json(post).unwrap(),
        ),
{
    lemma_read_post_holds_the_members(payload@, post);
    lemma_read_post_is_writable(payload@, post);
    assert(id_of(Ok::<Seq<char>, PostError>(params["id"@])) == Ok::<PostId, PostError>(post.uuid));
    crate::database::lemma_lookup_after_add(posts, post, post.uuid);
}

/// Requests to create a post whose bodies all read as posts, answered in
/// whatever order, leave a store that holds what it held, followed by those
/// posts, once each. Each of them can be written. Where no two posts of that
/// store have the same id, a lookup by the id of each post that was made
/// finds it. Where every post that the store held can be written, the feed
/// is a success with the JSON array of as many objects as the store held
/// and were made, each the JSON object of one whole post.
pub proof fn lemma_creates_are_kept(
    posts: Seq<PostView>,
    bodies: Seq<Result<String, String>>,
    made: Seq<PostView>,
)
    requires
        bodies.len() == made.len(),
        forall|i: int| 0 <= i < bodies.len() ==> reads_as(#[trigger] bodies[i], made[i]),
    ensures
        after_creates(posts, bodies) == posts + made,
        after_creates(posts, bodies).len() == posts.len() + made.len(),
        distinct_ids(posts + made) ==> forall|i: int|
            0 <= i < made.len() ==> first_with_id(posts + made, (#[trigger] made[i]).uuid)
                == Some(made[i]),
        forall|i: int| 0 <= i < made.len() ==> Post::spec_json(#[trigger] made[i]).is_some(),
        (forall|k: int| 0 <= k < posts.len() ==> Post::spec_json(#[trigger] posts[k]).is_some())
            ==> FeedHandler::spec_handle(posts + made) == reply_with(
            Status::Okay,
            spec_array_json(
                (posts + made).map_values(|post: PostView| Post::spec_json(post).unwrap()),
            ),
        ),
    decreases bodies.len(),
{
    if bodies.len() == 0 {
        assert(posts + made =~= posts);
    } else {
        lemma_creates_are_kept(posts.push(made[0]), bodies.drop_first(), made.drop_first());
        assert(posts.push(made[0]) + made.drop_first() =~= posts + made);
    }
    assert forall|i: int| 0 <= i < made.len() implies Post::spec_json(
        #[trigger] made[i],
    ).is_some() by {
        assert(reads_as(bodies[i], made[i]));
        lemma_read_post_is_writable(bodies[i]->Ok_0@, made[i]);
    }
    if distinct_ids(posts + made) {
        assert forall|i: int| 0 <= i < made.len() implies first_with_id(
            posts + made,
            (#[trigger] made[i]).uuid,
        ) == Some(made[i]) by {
            lemma_lookup_finds_each(posts + made, posts.len() + i);
        }
    }
}

} // verus!
