//! Properties that hold across the plugin's handlers.
use vstd::prelude::*;
use crate::events::{EffectView, UiCommandView, command_of, command_step, download_prefix,
    delete_prefix, upload_prefix, refresh_watch_id, refresh_pc_id};
use crate::json::JsonValue;
use crate::events::refresh_pc_step;
use crate::messages::{reply_step, download_saved_step, download_save_failed_step,
    upload_read_failed_step, device_found_step, no_device_step};
use crate::state::{UiModel, LOG_CAPACITY, log_push, latest_lines};
use crate::text::{is_prefix, trim_prefix_all};
use crate::view::page_of;
use crate::events::{msg_requesting_download, msg_requesting_delete, msg_reading_upload,
    msg_pc_refreshed};
use crate::json::{field, str_field, as_bool, as_array};
use crate::messages::{watch_entries, watch_entry};
use crate::events::msg_list_ok;
use crate::layout::{NodeKind, page_layout};
use crate::protocol::{download_request_text, delete_request_text};

verus! {

/// The log after the messages `msgs` have been added one after the other.
pub open spec fn log_all(logs: Seq<Seq<char>>, msgs: Seq<Seq<char>>) -> Seq<Seq<char>>
    decreases msgs.len(),
{
    if msgs.len() == 0 {
        logs
    } else {
        log_push(log_all(logs, msgs.drop_last()), msgs.last())
    }
}

/// Adding a line to any log leaves at most `LOG_CAPACITY` lines: the new
/// line last, after the newest of the lines before it.
pub proof fn add_log_stays_bounded(logs: Seq<Seq<char>>, m: Seq<char>)
    ensures
        log_push(logs, m).len() <= LOG_CAPACITY,
        log_push(logs, m).len() > 0,
        log_push(logs, m).last() == m,
        log_push(logs, m).drop_last() == logs.skip(logs.len() + 1 - log_push(logs, m).len()),
{
    assert(log_push(logs, m).drop_last() =~= logs.skip(logs.len() + 1 - log_push(logs, m).len()));
}

/// After at least one added message, or from a log of at most
/// `LOG_CAPACITY` lines, the log holds exactly the latest `LOG_CAPACITY`
/// lines of everything it has seen.
pub proof fn log_keeps_latest_lines(logs: Seq<Seq<char>>, msgs: Seq<Seq<char>>)
    requires
        logs.len() <= LOG_CAPACITY || msgs.len() > 0,
    ensures
        log_all(logs, msgs) == latest_lines(logs + msgs),
    decreases msgs.len(),
{
    if msgs.len() == 0 {
        assert(logs + msgs =~= logs);
    } else {
        let prev = msgs.drop_last();
        let all = logs + msgs;
        let all_prev = logs + prev;
        assert(all =~= all_prev.push(msgs.last()));
        assert(log_all(logs, msgs) == log_push(log_all(logs, prev), msgs.last()));
        if prev.len() == 0 {
            assert(all_prev =~= logs);
            assert(log_all(logs, prev) == logs);
        } else {
            log_keeps_latest_lines(logs, prev);
            latest_lines_absorb(all_prev, msgs.last());
        }
    }
}

/// Keeping the latest lines before adding one changes nothing about the
/// latest lines after adding it.
proof fn latest_lines_absorb(a: Seq<Seq<char>>, x: Seq<char>)
    ensures
        latest_lines(latest_lines(a).push(x)) == latest_lines(a.push(x)),
{
    let b = a.push(x);
    if a.len() > LOG_CAPACITY {
        assert(latest_lines(a).push(x).skip(1) =~= b.skip(b.len() - LOG_CAPACITY));
    } else {
        assert(latest_lines(a) == a);
    }
}

/// The addresses that an effect sends to or reads for.
pub open spec fn effect_target(e: EffectView) -> Option<Seq<char>> {
    match e {
        EffectView::Send { addr, .. } => Some(addr),
        EffectView::ReadForUpload { addr, .. } => Some(addr),
        _ => None,
    }
}

/// A UI event only ever addresses the connected watch: every request it
/// starts goes to the state's device address, and without a connected watch
/// it starts none.
pub proof fn ui_requests_go_to_connected_watch(s: UiModel, is_click: bool, id: Seq<char>, i: int)
    requires
        0 <= i < command_step(s, command_of(is_click, id)).1.len(),
        effect_target(command_step(s, command_of(is_click, id)).1[i]) is Some,
    ensures
        s.device_addr == effect_target(command_step(s, command_of(is_click, id)).1[i]),
{
}

/// A reply of the watch only ever leads to requests to the connected watch.
pub proof fn replies_go_to_connected_watch(s: UiModel, m: JsonValue, i: int)
    requires
        0 <= i < reply_step(s, m).1.len(),
        effect_target(reply_step(s, m).1[i]) is Some,
    ensures
        s.device_addr == effect_target(reply_step(s, m).1[i]),
{
}

/// UI events keep the connected watch, the watch's file list and the
/// rendered element; they change the log and, for a workspace refresh, start
/// the listing of the workspace, which they do not change themselves.
pub proof fn ui_events_keep_connection(s: UiModel, is_click: bool, id: Seq<char>)
    ensures
        command_step(s, command_of(is_click, id)).0.device_addr == s.device_addr,
        command_step(s, command_of(is_click, id)).0.root_element_id == s.root_element_id,
        command_step(s, command_of(is_click, id)).0.watch_files == s.watch_files,
        command_step(s, command_of(is_click, id)).0.pc_files == s.pc_files,
{
}

/// Replies of the watch keep the connected watch, the workspace list and the
/// rendered element.
pub proof fn replies_keep_connection(s: UiModel, m: JsonValue)
    ensures
        reply_step(s, m).0.device_addr == s.device_addr,
        reply_step(s, m).0.root_element_id == s.root_element_id,
        reply_step(s, m).0.pc_files == s.pc_files,
{
}

/// UI events, replies and the outcomes of file operations never let the log
/// grow past `LOG_CAPACITY` lines.
pub proof fn handlers_keep_log_bounded(
    s: UiModel,
    is_click: bool,
    id: Seq<char>,
    m: JsonValue,
    name: Seq<char>,
    error: Seq<char>,
    files: Seq<Seq<char>>,
)
    requires
        s.logs.len() <= LOG_CAPACITY,
    ensures
        command_step(s, command_of(is_click, id)).0.logs.len() <= LOG_CAPACITY,
        reply_step(s, m).0.logs.len() <= LOG_CAPACITY,
        refresh_pc_step(s, files).0.logs.len() <= LOG_CAPACITY,
        download_saved_step(s, name, files).0.logs.len() <= LOG_CAPACITY,
        download_save_failed_step(s, error).0.logs.len() <= LOG_CAPACITY,
        upload_read_failed_step(s, name, error).0.logs.len() <= LOG_CAPACITY,
        no_device_step(s).0.logs.len() <= LOG_CAPACITY,
{
}

/// The discovery of a watch appends its line without dropping one, so it
/// keeps the log within `LOG_CAPACITY` lines only when the log is not full.
pub proof fn device_discovery_keeps_log_bounded(s: UiModel, name: Seq<char>, addr: Seq<char>)
    requires
        s.logs.len() < LOG_CAPACITY,
    ensures
        device_found_step(s, name, addr).0.logs.len() <= LOG_CAPACITY,
{
}

/// Removing every leading `p` from `p + n` gives `n` back when `n` does not
/// itself start with `p`.
pub proof fn trim_prefix_of_concat(p: Seq<char>, n: Seq<char>)
    requires
        p.len() > 0,
        !is_prefix(p, n),
    ensures
        is_prefix(p, p + n),
        trim_prefix_all(p + n, p) == n,
{
    assert((p + n).subrange(0, p.len() as int) =~= p);
    assert((p + n).skip(p.len() as int) =~= n);
    assert(trim_prefix_all(n, p) == n);
    assert(trim_prefix_all(p + n, p) == trim_prefix_all((p + n).skip(p.len() as int), p));
}

/// The two sequences differ at position `i`, so neither starts with the other.
proof fn differ_at(a: Seq<char>, b: Seq<char>, i: int)
    requires
        0 <= i < a.len(),
        i < b.len(),
        a[i] != b[i],
    ensures
        !is_prefix(a, b),
{
    if is_prefix(a, b) {
        assert(b.subrange(0, a.len() as int)[i] == b[i]);
    }
}

/// A click on a row's download or delete button asks for that file, and a
/// click on a workspace row's upload button uploads that file, as long as
/// the file's name does not itself start with the button's prefix.
pub proof fn page_buttons_name_their_file(s: UiModel, i: int, j: int)
    requires
        0 <= i < s.watch_files.len(),
        0 <= j < s.pc_files.len(),
        !is_prefix(download_prefix(), s.watch_files[i].name),
        !is_prefix(delete_prefix(), s.watch_files[i].name),
        !is_prefix(upload_prefix(), s.pc_files[j]),
    ensures
        command_of(true, page_of(s).watch_rows[i].download_event)
            == UiCommandView::Download(s.watch_files[i].name),
        command_of(true, page_of(s).watch_rows[i].delete_event)
            == UiCommandView::Delete(s.watch_files[i].name),
        command_of(true, page_of(s).pc_rows[j].upload_event)
            == UiCommandView::Upload(s.pc_files[j]),
        command_of(true, page_of(s).refresh_watch_event) == UiCommandView::RefreshWatch,
        command_of(true, page_of(s).refresh_pc_event) == UiCommandView::RefreshPc,
{
    reveal_strlit("download:");
    reveal_strlit("delete:");
    reveal_strlit("upload:");
    reveal_strlit("refresh_watch");
    reveal_strlit("refresh_pc");
    let n = s.watch_files[i].name;
    let u = s.pc_files[j];
    trim_prefix_of_concat(download_prefix(), n);
    trim_prefix_of_concat(delete_prefix(), n);
    trim_prefix_of_concat(upload_prefix(), u);
    differ_at(download_prefix(), delete_prefix() + n, 1);
    differ_at(download_prefix(), upload_prefix() + u, 0);
    differ_at(delete_prefix(), upload_prefix() + u, 0);
    differ_at(download_prefix(), refresh_watch_id(), 0);
    differ_at(delete_prefix(), refresh_watch_id(), 0);
    differ_at(upload_prefix(), refresh_watch_id(), 0);
    differ_at(download_prefix(), refresh_pc_id(), 0);
    differ_at(delete_prefix(), refresh_pc_id(), 0);
    differ_at(upload_prefix(), refresh_pc_id(), 0);
    assert(refresh_pc_id() != refresh_watch_id()) by {
        assert(refresh_pc_id().len() != refresh_watch_id().len());
    }
}

/// Clicks on ids made of a button prefix and a file name ask for that file,
/// as long as the name does not itself start with the prefix; the two
/// refresh ids ask for their refresh.
pub proof fn clicks_name_their_file(n: Seq<char>)
    ensures
        !is_prefix(download_prefix(), n) ==> command_of(true, download_prefix() + n) == UiCommandView::Download(n),
        !is_prefix(delete_prefix(), n) ==> command_of(true, delete_prefix() + n) == UiCommandView::Delete(n),
        !is_prefix(upload_prefix(), n) ==> command_of(true, upload_prefix() + n) == UiCommandView::Upload(n),
        command_of(true, refresh_watch_id()) == UiCommandView::RefreshWatch,
        command_of(true, refresh_pc_id()) == UiCommandView::RefreshPc,
{
    reveal_strlit("download:");
    reveal_strlit("delete:");
    reveal_strlit("upload:");
    reveal_strlit("refresh_watch");
    reveal_strlit("refresh_pc");
    if !is_prefix(download_prefix(), n) {
        trim_prefix_of_concat(download_prefix(), n);
    }
    if !is_prefix(delete_prefix(), n) {
        trim_prefix_of_concat(delete_prefix(), n);
        differ_at(download_prefix(), delete_prefix() + n, 1);
    }
    if !is_prefix(upload_prefix(), n) {
        trim_prefix_of_concat(upload_prefix(), n);
        differ_at(download_prefix(), upload_prefix() + n, 0);
        differ_at(delete_prefix(), upload_prefix() + n, 0);
    }
    differ_at(download_prefix(), refresh_watch_id(), 0);
    differ_at(delete_prefix(), refresh_watch_id(), 0);
    differ_at(upload_prefix(), refresh_watch_id(), 0);
    differ_at(download_prefix(), refresh_pc_id(), 0);
    differ_at(delete_prefix(), refresh_pc_id(), 0);
    differ_at(upload_prefix(), refresh_pc_id(), 0);
    assert(refresh_pc_id() != refresh_watch_id()) by {
        assert(refresh_pc_id().len() != refresh_watch_id().len());
    }
}

/// A click on `delete:` followed by a file name asks the connected watch to
/// delete that file (the deletion request names it, and it is no download
/// request), logs the request and renders; without a watch it only logs the
/// error and renders. The download and upload clicks likewise start their own
/// operation on the file they name.
pub proof fn file_clicks_start_their_operation(s: UiModel, n: Seq<char>)
    ensures
        !is_prefix(delete_prefix(), n) && s.device_addr is Some ==> ({
            let r = command_step(s, command_of(true, delete_prefix() + n));
            &&& r.1 == seq![EffectView::Render, EffectView::Send { addr: s.device_addr->0, body: delete_request_text(n) }]
            &&& r.1[1]->body != download_request_text(n)
            &&& r.0.logs.last() == msg_requesting_delete(n)
        }),
        !is_prefix(download_prefix(), n) && s.device_addr is Some ==> ({
            let r = command_step(s, command_of(true, download_prefix() + n));
            &&& r.1 == seq![EffectView::Render, EffectView::Send { addr: s.device_addr->0, body: download_request_text(n) }]
            &&& r.1[1]->body != delete_request_text(n)
            &&& r.0.logs.last() == msg_requesting_download(n)
        }),
        !is_prefix(upload_prefix(), n) && s.device_addr is Some ==> ({
            let r = command_step(s, command_of(true, upload_prefix() + n));
            &&& r.1 == seq![EffectView::Render, EffectView::ReadForUpload { addr: s.device_addr->0, name: n }]
            &&& r.0.logs.last() == msg_reading_upload(n)
        }),
        !is_prefix(delete_prefix(), n) && s.device_addr is None ==>
            command_step(s, command_of(true, delete_prefix() + n)).1 == seq![EffectView::Render],
        !is_prefix(download_prefix(), n) && s.device_addr is None ==>
            command_step(s, command_of(true, download_prefix() + n)).1 == seq![EffectView::Render],
        !is_prefix(upload_prefix(), n) && s.device_addr is None ==>
            command_step(s, command_of(true, upload_prefix() + n)).1 == seq![EffectView::Render],
{
    clicks_name_their_file(n);
    crate::request_laws::requests_differ(n, n, n, Seq::empty());
}

/// A workspace refresh with the listing `files` leaves exactly that listing,
/// whatever was listed before (an empty listing included), and logs it.
pub proof fn workspace_refresh_replaces_list(s: UiModel, files: Seq<Seq<char>>)
    ensures
        refresh_pc_step(s, files).0.pc_files == files,
        refresh_pc_step(s, files).0.logs.last() == msg_pc_refreshed(),
        refresh_pc_step(s, files).1 == seq![EffectView::Render],
{
}

/// The watch files that a listing holds, as the listing orders them.
proof fn listing_entries(a: Seq<JsonValue>)
    ensures
        watch_entries(a).len() <= a.len(),
        (forall|j: int| 0 <= j < a.len() ==> (#[trigger] watch_entry(a[j])) is Some) ==> {
            &&& watch_entries(a).len() == a.len()
            &&& forall|j: int| 0 <= j < a.len() ==> Some(#[trigger] watch_entries(a)[j]) == watch_entry(a[j])
        },
    decreases a.len(),
{
    if a.len() > 0 {
        let p = a.drop_last();
        listing_entries(p);
        if forall|j: int| 0 <= j < a.len() ==> (#[trigger] watch_entry(a[j])) is Some {
            assert forall|j: int| 0 <= j < p.len() implies (#[trigger] watch_entry(p[j])) is Some by {
                assert(p[j] == a[j]);
                assert(watch_entry(a[j]) is Some);
            }
            assert(watch_entry(a[a.len() - 1]) is Some);
            assert forall|j: int| 0 <= j < a.len() implies Some(#[trigger] watch_entries(a)[j]) == watch_entry(a[j]) by {
                if j < a.len() - 1 {
                    assert(p[j] == a[j]);
                    assert(watch_entries(p)[j] == watch_entries(a)[j]);
                }
            }
        }
    }
}

/// A successful listing reply replaces the watch's file list with the
/// listed files, whatever the list held before: two states end with the
/// same list, it never holds more entries than the listing, and when every
/// listed entry has a name and a size it holds exactly those entries in
/// order. The reply is logged.
pub proof fn list_reply_replaces_watch_files(s: UiModel, t: UiModel, m: JsonValue)
    requires
        str_field(m, "action"@) == Some("list_res"@),
        as_bool(field(m, "success"@)) == Some(true),
        as_array(field(m, "files"@)) is Some,
    ensures
        ({
            let a = as_array(field(m, "files"@))->0;
            let w = reply_step(s, m).0.watch_files;
            &&& w == reply_step(t, m).0.watch_files
            &&& w == watch_entries(a)
            &&& w.len() <= a.len()
            &&& (forall|j: int| 0 <= j < a.len() ==> (#[trigger] watch_entry(a[j])) is Some) ==> {
                &&& w.len() == a.len()
                &&& forall|j: int| 0 <= j < a.len() ==> Some(#[trigger] w[j]) == watch_entry(a[j])
            }
        }),
        reply_step(s, m).0.logs.last() == msg_list_ok(),
        reply_step(s, m).1 == seq![EffectView::Render],
{
    reveal_strlit("list_res");
    listing_entries(as_array(field(m, "files"@))->0);
}

/// The controls of the laid-out page are the two refresh buttons: the first,
/// labelled for the watch, refreshes the watch's list; the second, labelled
/// for the workspace, refreshes the workspace's list.
pub proof fn layout_controls_do_what_they_say(s: UiModel)
    ensures
        ({
            let page = page_layout(page_of(s));
            let controls = page.children[2];
            &&& page.children.len() == 4
            &&& controls.children.len() == 2
            &&& controls.children[0].kind == NodeKind::Button
            &&& controls.children[0].text == Some("刷新手表文件"@)
            &&& command_of(true, controls.children[0].on_click->0) == UiCommandView::RefreshWatch
            &&& controls.children[0].on_click is Some
            &&& controls.children[1].kind == NodeKind::Button
            &&& controls.children[1].text == Some("刷新 PC 工作区"@)
            &&& controls.children[1].on_click is Some
            &&& command_of(true, controls.children[1].on_click->0) == UiCommandView::RefreshPc
        }),
{
    clicks_name_their_file(Seq::empty());
}

/// In the laid-out page, the download and delete buttons of the `i`-th watch
/// row and the upload button of the `j`-th workspace row carry their labels
/// and ask for the operation on that row's file (for names that do not
/// themselves start with the button's prefix).
pub proof fn layout_rows_do_what_they_say(s: UiModel, i: int, j: int)
    requires
        0 <= i < s.watch_files.len(),
        0 <= j < s.pc_files.len(),
    ensures
        ({
            let page = page_layout(page_of(s));
            let row = page.children[1].children[0].children[1 + i];
            let pc_row = page.children[1].children[1].children[1 + j];
            let name = s.watch_files[i].name;
            &&& row.children.len() == 4
            &&& row.children[0].text == Some(name)
            &&& row.children[2].text == Some("下载"@)
            &&& row.children[2].on_click == Some(download_prefix() + name)
            &&& row.children[3].text == Some("删除"@)
            &&& row.children[3].on_click == Some(delete_prefix() + name)
            &&& (!is_prefix(download_prefix(), name) ==>
                command_of(true, row.children[2].on_click->0) == UiCommandView::Download(name))
            &&& (!is_prefix(delete_prefix(), name) ==>
                command_of(true, row.children[3].on_click->0) == UiCommandView::Delete(name))
            &&& pc_row.children.len() == 2
            &&& pc_row.children[0].text == Some(s.pc_files[j])
            &&& pc_row.children[1].text == Some("上传至手表"@)
            &&& pc_row.children[1].on_click == Some(upload_prefix() + s.pc_files[j])
            &&& (!is_prefix(upload_prefix(), s.pc_files[j]) ==>
                command_of(true, pc_row.children[1].on_click->0) == UiCommandView::Upload(s.pc_files[j]))
        }),
{
    let p = page_of(s);
    let wcol = page_layout(p).children[1].children[0];
    let pcol = page_layout(p).children[1].children[1];
    assert(p.watch_placeholder is None);
    assert(p.pc_placeholder is None);
    assert(wcol.children[1 + i] == crate::layout::watch_row_node(p, p.watch_rows[i]));
    assert(pcol.children[1 + j] == crate::layout::pc_row_node(p, p.pc_rows[j]));
    clicks_name_their_file(s.watch_files[i].name);
    clicks_name_their_file(s.pc_files[j]);
}

} // verus!
