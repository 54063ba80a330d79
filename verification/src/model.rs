//! The value types of the feed: authors and posts, and the JSON form of a
//! post.

use crate::error::{Field, PostError};
use crate::ident::PostId;
use crate::json::{
    encode_text, json_document, json_literal, parse_document, scan_text, spec_parsable,
    spec_scanned, text_member, text_members,
};
use crate::timestamp::Timestamp;
use rustc_serialize::json::Json;
use vstd::prelude::*;

verus! {

/// Somebody who writes posts, known by a handle.
#[derive(Debug)]
pub struct Author {
    handle: String,
}

impl View for Author {
    type V = Seq<char>;

    /// An author is its handle.
    closed spec fn view(&self) -> Seq<char> {
        self.handle@
    }
}

impl Clone for Author {
    /// A copy with the same handle.
    fn clone(&self) -> (copy: Author)
        ensures
            copy@ == self@,
    {
        Author { handle: self.handle.clone() }
    }
}

impl Author {
    /// Makes an author with the given handle.
    pub fn new(handle: &str) -> (author: Author)
        ensures
            author@ == handle@,
    {
        Author { handle: handle.to_owned() }
    }
}

/// A published item. It is never changed once made.
#[derive(Debug)]
pub struct Post {
    summary: String,
    contents: String,
    author_handle: String,
    date_time: Timestamp,
    uuid: PostId,
}

/// What a post holds.
pub ghost struct PostView {
    pub summary: Seq<char>,
    pub contents: Seq<char>,
    pub author_handle: Seq<char>,
    pub date_time: Timestamp,
    pub uuid: PostId,
}

impl View for Post {
    type V = PostView;

    closed spec fn view(&self) -> PostView {
        PostView {
            summary: self.summary@,
            contents: self.contents@,
            author_handle: self.author_handle@,
            date_time: self.date_time,
            uuid: self.uuid,
        }
    }
}

impl Clone for Post {
    /// A copy that holds the same as the post.
    fn clone(&self) -> (copy: Post)
        ensures
            copy@ == self@,
    {
        Post {
            summary: self.summary.clone(),
            contents: self.contents.clone(),
            author_handle: self.author_handle.clone(),
            date_time: self.date_time,
            uuid: self.uuid,
        }
    }
}

/// What a sequence of posts holds.
pub open spec fn views(posts: Seq<Post>) -> Seq<PostView> {
    posts.map_values(|post: Post| post@)
}

/// The texts that strings hold.
pub open spec fn texts(strings: Seq<String>) -> Seq<Seq<char>> {
    strings.map_values(|text: String| text@)
}

/// A text that was read, or the error in its place.
pub open spec fn text_of(read: Result<String, PostError>) -> Result<Seq<char>, PostError> {
    match read {
        Ok(text) => Ok(text@),
        Err(error) => Err(error),
    }
}

/// The string value of a member of a JSON object, or the error for its
/// absence.
pub open spec fn member_of(members: Map<Seq<char>, Seq<char>>, field: Field) -> Result<
    Seq<char>,
    PostError,
> {
    if members.contains_key(field.spec_name()) {
        Ok(members[field.spec_name()])
    } else {
        Err(PostError::MissingField(field))
    }
}

/// The point in time that the text of a member stands for.
pub open spec fn timestamp_of(member: Result<Seq<char>, PostError>) -> Result<
    Timestamp,
    PostError,
> {
    match member {
        Ok(text) => Timestamp::spec_parse(text),
        Err(error) => Err(error),
    }
}

/// The identifier that the text of a member stands for.
pub open spec fn id_of(member: Result<Seq<char>, PostError>) -> Result<PostId, PostError> {
    match member {
        Ok(text) => PostId::spec_parse(text),
        Err(error) => Err(error),
    }
}

/// The JSON object with the five members of a post, in their fixed order.
/// Each argument is the JSON text of a member's value.
pub open spec fn spec_object_json(
    summary: Seq<char>,
    contents: Seq<char>,
    author_handle: Seq<char>,
    date_time: Seq<char>,
    uuid: Seq<char>,
) -> Seq<char> {
    "{\"summary\":"@ + summary + ",\"contents\":"@ + contents + ",\"author_handle\":"@
        + author_handle + ",\"date_time\":"@ + date_time + ",\"uuid\":"@ + uuid + "}"@
}

/// The texts in their order, with a comma between each two.
pub open spec fn spec_joined(items: Seq<Seq<char>>) -> Seq<char>
    decreases items.len(),
{
    if items.len() == 0 {
        Seq::<char>::empty()
    } else if items.len() == 1 {
        items[0]
    } else {
        spec_joined(items.drop_last()) + ","@ + items.last()
    }
}

/// The JSON array with the given JSON texts as its items.
pub open spec fn spec_array_json(items: Seq<Seq<char>>) -> Seq<char> {
    "["@ + spec_joined(items) + "]"@
}

/// The post made of five parts that were read, or the error of the first
/// part, in their order, that was not read.
pub open spec fn spec_from_parts(
    summary: Result<Seq<char>, PostError>,
    contents: Result<Seq<char>, PostError>,
    author_handle: Result<Seq<char>, PostError>,
    date_time: Result<Timestamp, PostError>,
    uuid: Result<PostId, PostError>,
) -> Result<PostView, PostError> {
    match (summary, contents, author_handle, date_time, uuid) {
        (Err(error), _, _, _, _) => Err(error),
        (_, Err(error), _, _, _) => Err(error),
        (_, _, Err(error), _, _) => Err(error),
        (_, _, _, Err(error), _) => Err(error),
        (_, _, _, _, Err(error)) => Err(error),
        (Ok(summary), Ok(contents), Ok(author_handle), Ok(date_time), Ok(uuid)) => Ok(
            PostView { summary, contents, author_handle, date_time, uuid },
        ),
    }
}

/// Reads the string value of a member of a JSON document.
fn read_member(document: &Json, field: Field) -> (member: Result<String, PostError>)
    ensures
        text_of(member) == member_of(text_members(*document), field),
{
    match text_member(document, field.name()) {
        Some(text) => Ok(text),
        None => Err(PostError::MissingField(field)),
    }
}

/// Writes JSON texts as the items of a JSON array.
pub fn array_json(items: &Vec<String>) -> (json: String)
    ensures
        json@ == spec_array_json(texts(items@)),
{
    let ghost all = texts(items@);
    let mut json = "[".to_owned();
    let mut index: usize = 0;
    while index < items.len()
        invariant
            index <= items.len(),
            all == texts(items@),
            json@ == "["@ + spec_joined(all.take(index as int)),
        decreases items.len() - index,
    {
        proof {
            assert(all.take(index + 1).drop_last() =~= all.take(index as int));
            assert(all.take(index + 1).last() == items@[index as int]@);
        }
        if index > 0 {
            json.append(",");
        }
        json.append(items[index].as_str());
        index += 1;
        assert(json@ =~= "["@ + spec_joined(all.take(index as int)));
    }
    proof {
        assert(all.take(index as int) =~= all);
    }
    json.append("]");
    json
}

impl Post {
    /// Makes a post. Of the author only the handle is kept.
    pub fn new(
        summary: &str,
        contents: &str,
        author: &Author,
        date_time: Timestamp,
        uuid: PostId,
    ) -> (post: Post)
        ensures
            post@ == (PostView {
                summary: summary@,
                contents: contents@,
                author_handle: author@,
                date_time,
                uuid,
            }),
    {
        Post {
            summary: summary.to_owned(),
            contents: contents.to_owned(),
            author_handle: author.handle.clone(),
            date_time,
            uuid,
        }
    }

    /// The identifier of the post.
    pub fn uuid(&self) -> (uuid: &PostId)
        ensures
            *uuid == self@.uuid,
    {
        &self.uuid
    }

    /// The summary of the post.
    pub fn summary(&self) -> (summary: &str)
        ensures
            summary@ == self@.summary,
    {
        self.summary.as_str()
    }

    /// The contents of the post.
    pub fn contents(&self) -> (contents: &str)
        ensures
            contents@ == self@.contents,
    {
        self.contents.as_str()
    }

    /// The handle of the post's author.
    pub fn author_handle(&self) -> (handle: &str)
        ensures
            handle@ == self@.author_handle,
    {
        self.author_handle.as_str()
    }

    /// When the post was made.
    pub fn date_time(&self) -> (date_time: Timestamp)
        ensures
            date_time == self@.date_time,
    {
        self.date_time
    }

    /// Writes the JSON object of a post from the JSON texts of its five
    /// members' values.
    pub fn object_json(
        summary: &str,
        contents: &str,
        author_handle: &str,
        date_time: &str,
        uuid: &str,
    ) -> (json: String)
        ensures
            json@ == spec_object_json(summary@, contents@, author_handle@, date_time@, uuid@),
    {
        let mut json = "{\"summary\":".to_owned();
        json.append(summary);
        json.append(",\"contents\":");
        json.append(contents);
        json.append(",\"author_handle\":");
        json.append(author_handle);
        json.append(",\"date_time\":");
        json.append(date_time);
        json.append(",\"uuid\":");
        json.append(uuid);
        json.append("}");
        json
    }

    /// The JSON object of a post: each of its five members written as a
    /// JSON string. `None` where the time of the post has no text.
    pub open spec fn spec_json(post: PostView) -> Option<Seq<char>> {
        match post.date_time.spec_text() {
            Some(date_time) => Some(
                spec_object_json(
                    json_literal(post.summary),
                    json_literal(post.contents),
                    json_literal(post.author_handle),
                    json_literal(date_time),
                    json_literal(post.uuid.spec_text()),
                ),
            ),
            None => None,
        }
    }

    /// Writes the post as a JSON object.
    pub fn to_json(&self) -> (json: Result<String, PostError>)
        ensures
            match json {
                Ok(text) => Self::spec_json(self@) == Some(text@),
                Err(error) => error == PostError::Unencodable && Self::spec_json(self@).is_none(),
            },
    {
        let date_text = match self.date_time.to_text() {
            Some(text) => text,
            None => return Err(PostError::Unencodable),
        };
        let summary = encode_text(self.summary.as_str());
        let contents = encode_text(self.contents.as_str());
        let author_handle = encode_text(self.author_handle.as_str());
        let date_time = encode_text(date_text.as_str());
        let uuid = encode_text(self.uuid.to_text().as_str());
        Ok(
            Self::object_json(
                summary.as_str(),
                contents.as_str(),
                author_handle.as_str(),
                date_time.as_str(),
                uuid.as_str(),
            ),
        )
    }

    /// Makes a post of five parts that were read, or hands back the error
    /// of the first part, in their order, that was not read.
    pub fn from_parts(
        summary: Result<String, PostError>,
        contents: Result<String, PostError>,
        author_handle: Result<String, PostError>,
        date_time: Result<Timestamp, PostError>,
        uuid: Result<PostId, PostError>,
    ) -> (post: Result<Post, PostError>)
        ensures
            match post {
                Ok(post) => spec_from_parts(
                    text_of(summary),
                    text_of(contents),
                    text_of(author_handle),
                    date_time,
                    uuid,
                ) == Ok::<PostView, PostError>(post@),
                Err(error) => spec_from_parts(
                    text_of(summary),
                    text_of(contents),
                    text_of(author_handle),
                    date_time,
                    uuid,
                ) == Err::<PostView, PostError>(error),
            },
    {
        let summary = match summary {
            Ok(text) => text,
            Err(error) => return Err(error),
        };
        let contents = match contents {
            Ok(text) => text,
            Err(error) => return Err(error),
        };
        let author_handle = match author_handle {
            Ok(text) => text,
            Err(error) => return Err(error),
        };
        let date_time = match date_time {
            Ok(date_time) => date_time,
            Err(error) => return Err(error),
        };
        let uuid = match uuid {
            Ok(uuid) => uuid,
            Err(error) => return Err(error),
        };
        Ok(Post { summary, contents, author_handle, date_time, uuid })
    }

    /// The post that a JSON text stands for: the text passes the scan and
    /// is a JSON document with the five members of a post as strings, of
    /// which `date_time` is a date and time and `uuid` a UUID. A text with a
    /// comma before a closing brace is malformed, one beyond the limits of
    /// the scan unsupported. Otherwise the error is that of the first
    /// member, in their order, that is missing or unreadable.
    pub open spec fn spec_from_json(payload: Seq<char>) -> Result<PostView, PostError> {
        if spec_scanned(payload).trailing_comma {
            Err(PostError::MalformedJson)
        } else if spec_scanned(payload).refused {
            Err(PostError::UnsupportedJson)
        } else {
            match json_document(payload) {
                None => Err(PostError::MalformedJson),
                Some(members) => spec_from_parts(
                    member_of(members, Field::Summary),
                    member_of(members, Field::Contents),
                    member_of(members, Field::AuthorHandle),
                    timestamp_of(member_of(members, Field::DateTime)),
                    id_of(member_of(members, Field::Uuid)),
                ),
            }
        }
    }

    /// Reads a post from JSON text.
    pub fn from_json(payload: &str) -> (post: Result<Post, PostError>)
        ensures
            match post {
                Ok(post) => Self::spec_from_json(payload@) == Ok::<PostView, PostError>(post@),
                Err(error) => Self::spec_from_json(payload@) == Err::<PostView, PostError>(error),
            },
    {
        let scan = scan_text(payload);
        if scan.trailing_comma {
            return Err(PostError::MalformedJson);
        }
        if scan.refused {
            return Err(PostError::UnsupportedJson);
        }
        let document = match parse_document(payload) {
            Ok(document) => document,
            Err(_) => return Err(PostError::MalformedJson),
        };
        let summary = read_member(&document, Field::Summary);
        let contents = read_member(&document, Field::Contents);
        let author_handle = read_member(&document, Field::AuthorHandle);
        let date_time = match read_member(&document, Field::DateTime) {
            Ok(text) => Timestamp::parse(text.as_str()),
            Err(error) => Err(error),
        };
        let uuid = match read_member(&document, Field::Uuid) {
            Ok(text) => PostId::parse(text.as_str()),
            Err(error) => Err(error),
        };
        Self::from_parts(summary, contents, author_handle, date_time, uuid)
    }
}

/// A post that was read from a text holds what the members of the document
/// hold: the texts of `summary`, `contents` and `author_handle` as they are,
/// the time that the text of `date_time` reads as, and the id that the text
/// of `uuid` reads as.
pub proof fn lemma_read_post_holds_the_members(payload: Seq<char>, post: PostView)
    requires
        Post::spec_from_json(payload) == Ok::<PostView, PostError>(post),
    ensures
        spec_parsable(payload),
        json_document(payload).is_some(),
        member_of(json_document(payload).unwrap(), Field::Summary) == Ok::<Seq<char>, PostError>(
            post.summary,
        ),
        member_of(json_document(payload).unwrap(), Field::Contents) == Ok::<Seq<char>, PostError>(
            post.contents,
        ),
        member_of(json_document(payload).unwrap(), Field::AuthorHandle) == Ok::<
            Seq<char>,
            PostError,
        >(post.author_handle),
        timestamp_of(member_of(json_document(payload).unwrap(), Field::DateTime)) == Ok::<
            Timestamp,
            PostError,
        >(post.date_time),
        id_of(member_of(json_document(payload).unwrap(), Field::Uuid)) == Ok::<PostId, PostError>(
            post.uuid,
        ),
{
}

/// A post that was read from a text can be written.
pub proof fn lemma_read_post_is_writable(payload: Seq<char>, post: PostView)
    requires
        Post::spec_from_json(payload) == Ok::<PostView, PostError>(post),
    ensures
        Post::spec_json(post).is_some(),
{
    lemma_read_post_holds_the_members(payload, post);
    Timestamp::lemma_read_time_has_a_text(
        json_document(payload).unwrap()[Field::DateTime.spec_name()],
        post.date_time,
    );
}

/// The JSON array of the posts, oldest first. `None` where a post has no
/// JSON form.
pub open spec fn spec_posts_json(posts: Seq<PostView>) -> Option<Seq<char>> {
    if forall|i: int| 0 <= i < posts.len() ==> Post::spec_json(#[trigger] posts[i]).is_some() {
        Some(spec_array_json(posts.map_values(|post: PostView| Post::spec_json(post).unwrap())))
    } else {
        None
    }
}

/// Writes the posts as a JSON array.
pub fn posts_to_json(posts: &Vec<Post>) -> (json: Result<String, PostError>)
    ensures
        match json {
            Ok(text) => spec_posts_json(views(posts@)) == Some(text@),
            Err(error) => error == PostError::Unencodable && spec_posts_json(views(posts@)).is_none(),
        },
{
    let ghost all = views(posts@);
    let mut objects: Vec<String> = Vec::new();
    let mut index: usize = 0;
    while index < posts.len()
        invariant
            index <= posts.len(),
            all == views(posts@),
            objects.len() == index,
            forall|i: int|
                0 <= i < index ==> Post::spec_json(#[trigger] all[i]) == Some(objects@[i]@),
        decreases posts.len() - index,
    {
        match posts[index].to_json() {
            Ok(object) => {
                objects.push(object);
            },
            Err(error) => {
                assert(Post::spec_json(all[index as int]).is_none());
                return Err(error);
            },
        }
        index += 1;
    }
    proof {
        assert(texts(objects@) =~= all.map_values(|post: PostView| Post::spec_json(post).unwrap()));
    }
    Ok(array_json(&objects))
}

} // verus!
