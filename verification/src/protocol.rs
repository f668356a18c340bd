//! The requests the plugin sends to the JSLab app on the watch. Each is a
//! compact JSON object whose members stand in `serde_json`'s default (sorted)
//! key order.
use vstd::prelude::*;
use crate::json::{object_text, object_text_of, fields_view, key_less};

verus! {

/// The interconnect package of the JSLab app on the watch.
pub open spec fn jslab_package() -> Seq<char> {
    "icu.ccicc.jslab"@
}

/// The package name the requests are addressed to.
pub fn jslab_package_name() -> (r: String)
    ensures
        r@ == jslab_package(),
{
    "icu.ccicc.jslab".to_owned()
}

/// `{"action":"list"}`: asks for the scripts on the watch.
pub open spec fn list_request_text() -> Seq<char> {
    object_text(seq![("action"@, "list"@)])
}

/// `{"action":"get","name":...}`: asks for the content of a script.
pub open spec fn download_request_text(name: Seq<char>) -> Seq<char> {
    object_text(seq![("action"@, "get"@), ("name"@, name)])
}

/// `{"action":"delete","name":...}`: asks the watch to delete a script.
pub open spec fn delete_request_text(name: Seq<char>) -> Seq<char> {
    object_text(seq![("action"@, "delete"@), ("name"@, name)])
}

/// `{"action":"save","content":...,"name":...}`: stores a script on the watch.
pub open spec fn upload_request_text(name: Seq<char>, content: Seq<char>) -> Seq<char> {
    object_text(seq![("action"@, "save"@), ("content"@, content), ("name"@, name)])
}

/// The request keys `action`, `content` and `name` stand in this order.
proof fn action_before_name()
    ensures
        key_less("action"@, "name"@),
        key_less("action"@, "content"@),
        key_less("content"@, "name"@),
{
    reveal_strlit("action");
    reveal_strlit("content");
    reveal_strlit("name");
}

/// The request that lists the watch's scripts.
pub fn list_request() -> (r: String)
    ensures
        r@ == list_request_text(),
{
    let fields = vec![("action", "list")];
    assert(fields_view(fields@) =~= seq![("action"@, "list"@)]);
    object_text_of(&fields)
}

/// The request that fetches the script `name` from the watch.
pub fn download_request(name: &str) -> (r: String)
    ensures
        r@ == download_request_text(name@),
{
    let fields = vec![("action", "get"), ("name", name)];
    proof {
        action_before_name();
    }
    assert(fields_view(fields@) =~= seq![("action"@, "get"@), ("name"@, name@)]);
    object_text_of(&fields)
}

/// The request that deletes the script `name` on the watch.
pub fn delete_request(name: &str) -> (r: String)
    ensures
        r@ == delete_request_text(name@),
{
    let fields = vec![("action", "delete"), ("name", name)];
    proof {
        action_before_name();
    }
    assert(fields_view(fields@) =~= seq![("action"@, "delete"@), ("name"@, name@)]);
    object_text_of(&fields)
}

/// The request that stores `content` as the script `name` on the watch.
pub fn upload_request(name: &str, content: &str) -> (r: String)
    ensures
        r@ == upload_request_text(name@, content@),
{
    let fields = vec![("action", "save"), ("content", content), ("name", name)];
    proof {
        action_before_name();
    }
    assert(fields_view(fields@) =~= seq![("action"@, "save"@), ("content"@, content@), ("name"@, name@)]);
    object_text_of(&fields)
}

} // verus!
