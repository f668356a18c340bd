//! What the requests sent to the watch contain, stated on their text.
use vstd::prelude::*;
use crate::json::{escape_all, escape_char, json_string_literal, members_text, object_text};
use crate::protocol::{list_request_text, download_request_text, delete_request_text, upload_request_text};

verus! {

/// A character that `serde_json` writes as it is inside a string literal.
pub open spec fn is_plain(c: char) -> bool {
    c != '"' && c != '\\' && (c as int) >= 0x20
}

/// Text whose characters all stand unescaped in a JSON string literal.
pub open spec fn all_plain(s: Seq<char>) -> bool {
    forall|i: int| 0 <= i < s.len() ==> is_plain(#[trigger] s[i])
}

/// Plain text is written unchanged inside a string literal.
pub proof fn escape_all_plain(s: Seq<char>)
    requires
        all_plain(s),
    ensures
        escape_all(s) == s,
    decreases s.len(),
{
    if s.len() > 0 {
        assert(is_plain(s[0]));
        assert(escape_char(s[0]) == seq![s[0]]);
        assert(all_plain(s.drop_first())) by {
            assert forall|i: int| 0 <= i < s.drop_first().len() implies is_plain(#[trigger] s.drop_first()[i]) by {
                assert(s.drop_first()[i] == s[i + 1]);
            }
        }
        escape_all_plain(s.drop_first());
        assert(s =~= seq![s[0]] + s.drop_first());
    }
}

/// The string literal of plain text is the text between double quotes.
proof fn literal_of_plain(s: Seq<char>)
    requires
        all_plain(s),
    ensures
        json_string_literal(s) == seq!['"'] + s + seq!['"'],
{
    escape_all_plain(s);
}

/// The keys and actions of the requests are plain text.
proof fn request_words_plain()
    ensures
        json_string_literal("action"@) == seq!['"'] + "action"@ + seq!['"'],
        json_string_literal("name"@) == seq!['"'] + "name"@ + seq!['"'],
        json_string_literal("content"@) == seq!['"'] + "content"@ + seq!['"'],
        json_string_literal("list"@) == seq!['"'] + "list"@ + seq!['"'],
        json_string_literal("get"@) == seq!['"'] + "get"@ + seq!['"'],
        json_string_literal("delete"@) == seq!['"'] + "delete"@ + seq!['"'],
        json_string_literal("save"@) == seq!['"'] + "save"@ + seq!['"'],
        "action"@.len() == 6,
        "list"@.len() == 4,
        "get"@.len() == 3,
        "delete"@.len() == 6,
        "save"@.len() == 4,
        "list"@[0] == 'l',
        "get"@[0] == 'g',
        "delete"@[0] == 'd',
        "save"@[0] == 's',
{
    reveal_strlit("action");
    reveal_strlit("name");
    reveal_strlit("content");
    reveal_strlit("list");
    reveal_strlit("get");
    reveal_strlit("delete");
    reveal_strlit("save");
    literal_of_plain("action"@);
    literal_of_plain("name"@);
    literal_of_plain("content"@);
    literal_of_plain("list"@);
    literal_of_plain("get"@);
    literal_of_plain("delete"@);
    literal_of_plain("save"@);
}

/// The text of an object starts with its first member.
proof fn members_text_starts_with_first(fields: Seq<(Seq<char>, Seq<char>)>)
    requires
        fields.len() >= 1,
    ensures
        ({
            let item = json_string_literal(fields[0].0) + seq![':'] + json_string_literal(fields[0].1);
            item.len() <= members_text(fields).len()
                && members_text(fields).subrange(0, item.len() as int) == item
        }),
    decreases fields.len(),
{
    let item = json_string_literal(fields[0].0) + seq![':'] + json_string_literal(fields[0].1);
    if fields.len() == 1 {
        assert(members_text(fields).subrange(0, item.len() as int) =~= item);
    } else {
        let prev = fields.drop_last();
        assert(prev[0] == fields[0]);
        members_text_starts_with_first(prev);
        let m = members_text(fields);
        assert(m.subrange(0, item.len() as int) =~= members_text(prev).subrange(0, item.len() as int));
    }
}

/// The character of a request that names its action: the first character of
/// the value of its first member, `action`.
proof fn action_char(fields: Seq<(Seq<char>, Seq<char>)>, v: Seq<char>)
    requires
        fields.len() >= 1,
        fields[0] == ("action"@, v),
        v.len() > 0,
        json_string_literal(v) == seq!['"'] + v + seq!['"'],
    ensures
        object_text(fields).len() > 11,
        object_text(fields)[11] == v[0],
{
    request_words_plain();
    members_text_starts_with_first(fields);
    let item = json_string_literal("action"@) + seq![':'] + json_string_literal(v);
    assert(item[10] == v[0]);
    assert(members_text(fields).subrange(0, item.len() as int)[10] == v[0]);
    assert(object_text(fields)[11] == members_text(fields)[10]);
}

/// The four requests are told apart by their action: a listing, a download,
/// a deletion and an upload never have the same text, whatever the names
/// and the content.
pub proof fn requests_differ(n1: Seq<char>, n2: Seq<char>, n3: Seq<char>, c: Seq<char>)
    ensures
        download_request_text(n1) != delete_request_text(n2),
        download_request_text(n1) != upload_request_text(n3, c),
        delete_request_text(n2) != upload_request_text(n3, c),
        list_request_text() != download_request_text(n1),
        list_request_text() != delete_request_text(n2),
        list_request_text() != upload_request_text(n3, c),
{
    request_words_plain();
    action_char(seq![("action"@, "list"@)], "list"@);
    action_char(seq![("action"@, "get"@), ("name"@, n1)], "get"@);
    action_char(seq![("action"@, "delete"@), ("name"@, n2)], "delete"@);
    action_char(seq![("action"@, "save"@), ("content"@, c), ("name"@, n3)], "save"@);
}

/// The upload request carries the whole content and the name, each as a
/// JSON string literal, after a fixed head: nothing of the content is cut,
/// whatever its length.
pub proof fn upload_request_carries_content(name: Seq<char>, content: Seq<char>)
    ensures
        upload_request_text(name, content) == "{\"action\":\"save\",\"content\":"@
            + json_string_literal(content) + ",\"name\":"@ + json_string_literal(name) + "}"@,
        upload_request_text(name, content).len() >= content.len() + 2,
{
    request_words_plain();
    reveal_strlit("{\"action\":\"save\",\"content\":");
    reveal_strlit("action");
    reveal_strlit("save");
    reveal_strlit("content");
    reveal_strlit("name");
    reveal_strlit(",\"name\":");
    reveal_strlit("}");
    let f = seq![("action"@, "save"@), ("content"@, content), ("name"@, name)];
    let f2 = seq![("action"@, "save"@), ("content"@, content)];
    let f1 = seq![("action"@, "save"@)];
    assert(f.drop_last() =~= f2);
    assert(f2.drop_last() =~= f1);
    let i1 = json_string_literal("action"@) + seq![':'] + json_string_literal("save"@);
    let i2 = json_string_literal("content"@) + seq![':'] + json_string_literal(content);
    let i3 = json_string_literal("name"@) + seq![':'] + json_string_literal(name);
    assert(members_text(f1) == i1);
    assert(members_text(f2) == i1 + seq![','] + i2);
    assert(members_text(f) == i1 + seq![','] + i2 + seq![','] + i3);
    let head = seq!['{'] + i1 + seq![','] + json_string_literal("content"@) + seq![':'];
    let mid = seq![','] + json_string_literal("name"@) + seq![':'];
    assert(upload_request_text(name, content) =~= head + json_string_literal(content) + mid
        + json_string_literal(name) + seq!['}']);
    assert(head =~= "{\"action\":\"save\",\"content\":"@);
    assert(mid =~= ",\"name\":"@);
    assert(seq!['}'] =~= "}"@);
    escape_all_longer(content);
}

/// Escaping never shortens text.
proof fn escape_all_longer(s: Seq<char>)
    ensures
        escape_all(s).len() >= s.len(),
    decreases s.len(),
{
    if s.len() > 0 {
        escape_all_longer(s.drop_first());
    }
}

/// The download and deletion requests carry the whole name.
pub proof fn named_requests_carry_name(name: Seq<char>)
    ensures
        download_request_text(name) == "{\"action\":\"get\",\"name\":"@ + json_string_literal(name) + "}"@,
        delete_request_text(name) == "{\"action\":\"delete\",\"name\":"@ + json_string_literal(name) + "}"@,
{
    request_words_plain();
    reveal_strlit("{\"action\":\"get\",\"name\":");
    reveal_strlit("action");
    reveal_strlit("get");
    reveal_strlit("delete");
    reveal_strlit("name");
    reveal_strlit("{\"action\":\"delete\",\"name\":");
    reveal_strlit("}");
    let g = seq![("action"@, "get"@), ("name"@, name)];
    let d = seq![("action"@, "delete"@), ("name"@, name)];
    assert(g.drop_last() =~= seq![("action"@, "get"@)]);
    assert(d.drop_last() =~= seq![("action"@, "delete"@)]);
    let n3 = json_string_literal("name"@) + seq![':'] + json_string_literal(name);
    let g1 = json_string_literal("action"@) + seq![':'] + json_string_literal("get"@);
    let d1 = json_string_literal("action"@) + seq![':'] + json_string_literal("delete"@);
    assert(members_text(seq![("action"@, "get"@)]) == g1);
    assert(members_text(seq![("action"@, "delete"@)]) == d1);
    assert(members_text(g) == g1 + seq![','] + n3);
    assert(members_text(d) == d1 + seq![','] + n3);
    let nm = seq![','] + json_string_literal("name"@) + seq![':'];
    assert(download_request_text(name) =~= seq!['{'] + g1 + nm + json_string_literal(name) + seq!['}']);
    assert(delete_request_text(name) =~= seq!['{'] + d1 + nm + json_string_literal(name) + seq!['}']);
    assert(seq!['{'] + g1 + nm =~= "{\"action\":\"get\",\"name\":"@);
    assert(seq!['{'] + d1 + nm =~= "{\"action\":\"delete\",\"name\":"@);
    assert(seq!['}'] =~= "}"@);
}

} // verus!
