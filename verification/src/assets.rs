//! The files that the HTTP server hands to a browser.
use crate::text::same_text;
use vstd::prelude::*;

verus! {

/// The media type that a path's extension stands for.
pub uninterp spec fn media_type_of(path: Seq<char>) -> Seq<char>;

/// `mime_guess::from_path` and `first_or_octet_stream`: the media type that
/// the table of extensions gives for a path, as text. A path without a dot
/// has no extension, and a path without an extension is taken for plain bytes.
#[verifier::external_body]
fn guess_media_type(path: &str) -> (media_type: String)
    ensures
        media_type@ == media_type_of(path@),
        !path@.contains('.') ==> media_type@ == "application/octet-stream"@,
{
    mime_guess::from_path(path).first_or_octet_stream().as_ref().to_owned()
}

/// The file that a request path stands for, given without its first slash.
pub open spec fn file_of(path: Seq<char>) -> Seq<char> {
    if path.len() == 0 || path == "/"@ {
        "index.html"@
    } else {
        path
    }
}

/// Finds the file that a request path stands for.
pub fn asset_path(path: &str) -> (file: String)
    ensures
        file@ == file_of(path@),
        path@.len() > 0 && path@ != "/"@ ==> file@ == path@,
{
    if path.is_empty() || same_text(path, "/") {
        "index.html".to_owned()
    } else {
        path.to_owned()
    }
}

/// A file on its way to a browser.
#[derive(Debug)]
pub struct AssetReply {
    /// The value of the `Content-Type` header.
    pub content_type: String,
    pub body: Vec<u8>,
}

/// The answer to a request for a file, given its content if there is such a
/// file. A name without a dot is that of plain bytes.
pub open spec fn answers(
    file: Seq<char>,
    content: Option<Vec<u8>>,
    reply: Option<AssetReply>,
) -> bool {
    match content {
        Some(content) => reply matches Some(reply) && {
            &&& reply.body == content
            &&& reply.content_type@ == media_type_of(file)
            &&& !file.contains('.') ==> reply.content_type@ == "application/octet-stream"@
        },
        None => reply is None,
    }
}

/// Answers a request for a file, given its content if there is such a file.
pub fn asset_reply(file: &str, content: Option<Vec<u8>>) -> (reply: Option<AssetReply>)
    ensures
        answers(file@, content, reply),
{
    match content {
        Some(body) => Some(AssetReply { content_type: guess_media_type(file), body }),
        None => None,
    }
}

/// The root, the index page by its name, and a lone slash stand for one file,
/// so requests for them get the same answer: the same file with the same media
/// type, or none.
pub proof fn law_the_root_is_the_index_page(
    files: spec_fn(Seq<char>) -> Option<Vec<u8>>,
    root: Option<AssetReply>,
    index: Option<AssetReply>,
)
    requires
        answers(file_of(Seq::empty()), files(file_of(Seq::empty())), root),
        answers(file_of("index.html"@), files(file_of("index.html"@)), index),
    ensures
        file_of(Seq::empty()) == file_of("index.html"@),
        file_of("/"@) == file_of("index.html"@),
        match (root, index) {
            (Some(root), Some(index)) => root.body == index.body && root.content_type@
                == index.content_type@,
            (None, None) => true,
            _ => false,
        },
{
}

/// Every path but the root stands for the file of that very name.
pub proof fn law_a_path_is_the_name_of_its_file(path: &str, file: String)
    requires
        call_ensures(asset_path, (path,), file),
    ensures
        path@.len() > 0 && path@ != "/"@ ==> file@ == path@,
        path@.len() == 0 || path@ == "/"@ ==> file@ == "index.html"@,
{
}

/// Different paths stand for different files, apart from the root, which
/// shares its file with the index page.
pub proof fn law_different_paths_are_different_files(
    first: &str,
    first_file: String,
    second: &str,
    second_file: String,
)
    requires
        call_ensures(asset_path, (first,), first_file),
        call_ensures(asset_path, (second,), second_file),
        first@ != second@,
        first@.len() > 0 && first@ != "/"@,
        second@.len() > 0 && second@ != "/"@,
    ensures
        first_file@ != second_file@,
{
}

/// A file that exists is served whole, as the media type of its name, and
/// only a file that does not exist is not served.
pub proof fn law_files_are_served_whole(
    file: &str,
    content: Option<Vec<u8>>,
    reply: Option<AssetReply>,
)
    requires
        call_ensures(asset_reply, (file, content), reply),
    ensures
        reply is Some <==> content is Some,
        content matches Some(bytes) ==> reply->0.body@ == bytes@ && reply->0.content_type@
            == media_type_of(file@),
        content is Some && !file@.contains('.') ==> reply->0.content_type@
            == "application/octet-stream"@,
{
}

/// What is answered to a request for a path is what the file of that name
/// holds.
pub proof fn law_a_request_gets_its_file(
    files: spec_fn(Seq<char>) -> Option<Vec<u8>>,
    path: Seq<char>,
    reply: Option<AssetReply>,
)
    requires
        path.len() > 0,
        path != "/"@,
        answers(file_of(path), files(file_of(path)), reply),
    ensures
        match files(path) {
            Some(content) => reply matches Some(reply) && reply.body@ == content@
                && reply.content_type@ == media_type_of(path),
            None => reply is None,
        },
{
}

} // verus!
