//! Replies from the watch and the outcomes of the file operations and of
//! the device discovery that follow them.
use vstd::prelude::*;
use crate::events::{Effect, EffectView, refresh_watch_step, trigger_refresh_watch, unknown_error,
    msg_list_ok, msg_list_failed, msg_downloaded, msg_save_failed, msg_download_failed,
    msg_saved_to_watch, msg_upload_failed, msg_deleted, msg_delete_failed, msg_device_found,
    msg_no_device, msg_upload_read_failed};
use crate::json::{JsonValue, json_parse, parse_json, field, str_field, as_bool, as_array, get_str,
    get_bool, get_array};
use crate::state::{UiState, UiModel, WatchFile, WatchFileView, add_log, push_log};
use crate::text::{str_eq, concat2, concat3, concat4, concat5};

verus! {

/// The reply's `success` member, `false` where it is missing or not a boolean.
pub open spec fn success_of(m: JsonValue) -> bool {
    as_bool(field(m, "success"@)) == Some(true)
}

/// The string member `key` of `m`, or `d` where there is none.
pub open spec fn str_or(m: JsonValue, key: Seq<char>, d: Seq<char>) -> Seq<char> {
    match str_field(m, key) {
        Some(s) => s,
        None => d,
    }
}

/// The watch file that a listed entry describes, where it has a string
/// `name` and a string `size`.
pub open spec fn watch_entry(v: JsonValue) -> Option<WatchFileView> {
    match (str_field(v, "name"@), str_field(v, "size"@)) {
        (Some(n), Some(z)) => Some(WatchFileView { name: n, size: z }),
        _ => None,
    }
}

/// The watch files of a listing, in order; malformed entries are skipped.
pub open spec fn watch_entries(a: Seq<JsonValue>) -> Seq<WatchFileView> {
    a.filter_map(|v: JsonValue| watch_entry(v))
}

/// What a reply of the watch does.
pub open spec fn reply_step(s: UiModel, m: JsonValue) -> (UiModel, Seq<EffectView>) {
    let name = str_or(m, "name"@, Seq::empty());
    let err = str_or(m, "error"@, unknown_error());
    match str_field(m, "action"@) {
        Some(action) => if action == "list_res"@ {
            if success_of(m) {
                match as_array(field(m, "files"@)) {
                    Some(a) => (
                        UiModel { watch_files: watch_entries(a), ..s }.with_log(msg_list_ok()),
                        seq![EffectView::Render],
                    ),
                    None => (s, seq![EffectView::Render]),
                }
            } else {
                (s.with_log(msg_list_failed(err)), seq![EffectView::Render])
            }
        } else if action == "get_res"@ {
            if success_of(m) {
                (s, seq![EffectView::SaveDownload { name, content: str_or(m, "content"@, Seq::empty()) }])
            } else {
                (s.with_log(msg_download_failed(name, err)), seq![EffectView::Render])
            }
        } else if action == "save_res"@ {
            if success_of(m) {
                refresh_watch_step(s.with_log(msg_saved_to_watch(name)))
            } else {
                (s.with_log(msg_upload_failed(name, err)), seq![EffectView::Render])
            }
        } else if action == "delete_res"@ {
            if success_of(m) {
                refresh_watch_step(s.with_log(msg_deleted(name)))
            } else {
                (s.with_log(msg_delete_failed(name, err)), seq![EffectView::Render])
            }
        } else {
            (s, Seq::empty())
        },
        None => (s, Seq::empty()),
    }
}

/// What an interconnect message does, given the document parsed from it
/// (`None` where it is not JSON).
pub open spec fn message_step(s: UiModel, msg: Option<JsonValue>) -> (UiModel, Seq<EffectView>) {
    match msg {
        Some(m) => reply_step(s, m),
        None => (s, Seq::empty()),
    }
}

/// The workspace file the watch sent has been written.
pub open spec fn download_saved_step(s: UiModel, n: Seq<char>, files: Seq<Seq<char>>) -> (UiModel, Seq<EffectView>) {
    (UiModel { pc_files: files, ..s.with_log(msg_downloaded(n)) }, seq![EffectView::Render])
}

/// The workspace file the watch sent could not be written.
pub open spec fn download_save_failed_step(s: UiModel, e: Seq<char>) -> (UiModel, Seq<EffectView>) {
    (s.with_log(msg_save_failed(e)), seq![EffectView::Render])
}

/// The workspace file to upload could not be read.
pub open spec fn upload_read_failed_step(s: UiModel, n: Seq<char>, e: Seq<char>) -> (UiModel, Seq<EffectView>) {
    (s.with_log(msg_upload_read_failed(n, e)), seq![EffectView::Render])
}

/// A watch has been found and its messages are routed to the plugin.
pub open spec fn device_found_step(s: UiModel, name: Seq<char>, addr: Seq<char>) -> (UiModel, Seq<EffectView>) {
    refresh_watch_step(UiModel { device_addr: Some(addr), logs: s.logs.push(msg_device_found(name, addr)), ..s })
}

/// No watch is connected.
pub open spec fn no_device_step(s: UiModel) -> (UiModel, Seq<EffectView>) {
    (s.with_log(msg_no_device()), seq![EffectView::Render])
}

/// The `[Render]` effect list.
fn render_only() -> (r: Vec<Effect>)
    ensures
        r.deep_view() == seq![EffectView::Render],
{
    let r = vec![Effect::Render];
    assert(r.deep_view() =~= seq![EffectView::Render]);
    r
}

/// The empty effect list.
fn no_effects() -> (r: Vec<Effect>)
    ensures
        r.deep_view() == Seq::<EffectView>::empty(),
{
    let r: Vec<Effect> = Vec::new();
    assert(r.deep_view() =~= Seq::<EffectView>::empty());
    r
}

/// The string member `key` of `m`, or `d`.
fn get_str_or(m: &JsonValue, key: &str, d: &str) -> (r: String)
    ensures
        r@ == str_or(*m, key@, d@),
{
    match get_str(m, key) {
        Some(s) => s,
        None => d.to_owned(),
    }
}

/// The watch files of a listing.
fn watch_files_of(a: &Vec<JsonValue>) -> (r: Vec<WatchFile>)
    ensures
        r.deep_view() == watch_entries(a@),
{
    let mut out: Vec<WatchFile> = Vec::new();
    let mut i: usize = 0;
    while i < a.len()
        invariant
            i <= a@.len(),
            out.deep_view() == watch_entries(a@.take(i as int)),
        decreases a@.len() - i,
    {
        let ghost before = out.deep_view();
        let v = &a[i];
        let n = get_str(v, "name");
        let z = get_str(v, "size");
        proof {
            let t = a@.take(i + 1);
            assert(t.drop_last() =~= a@.take(i as int));
            assert(t.last() == a@[i as int]);
        }
        match (n, z) {
            (Some(n), Some(z)) => {
                let ghost w = WatchFileView { name: n@, size: z@ };
                out.push(WatchFile { name: n, size: z });
                assert(out.deep_view() =~= before + seq![w]);
            },
            _ => {},
        }
        i += 1;
    }
    assert(a@.take(a@.len() as int) =~= a@);
    out
}

/// Handles a reply of the watch.
pub fn handle_reply(state: &mut UiState, m: &JsonValue) -> (effects: Vec<Effect>)
    ensures
        final(state)@ == reply_step(old(state)@, *m).0,
        effects.deep_view() == reply_step(old(state)@, *m).1,
{
    let action = match get_str(m, "action") {
        Some(a) => a,
        None => return no_effects(),
    };
    let success = match get_bool(m, "success") {
        Some(b) => b,
        None => false,
    };
    if str_eq(action.as_str(), "list_res") {
        if success {
            match get_array(m, "files") {
                Some(a) => {
                    state.watch_files = watch_files_of(a);
                    add_log(state, "[手表] 成功获取手表脚本列表。");
                },
                None => {},
            }
        } else {
            let err = get_str_or(m, "error", "未知错误");
            add_log(state, concat2("[手表] 获取列表失败: ", err.as_str()).as_str());
        }
        render_only()
    } else if str_eq(action.as_str(), "get_res") {
        let name = get_str_or(m, "name", "");
        proof {
            reveal_strlit("");
        }
        if success {
            let content = get_str_or(m, "content", "");
            assert(""@ =~= Seq::<char>::empty());
            assert(name@ == str_or(*m, "name"@, Seq::empty()));
            assert(content@ == str_or(*m, "content"@, Seq::empty()));
            let ghost e = EffectView::SaveDownload { name: name@, content: content@ };
            assert(reply_step(old(state)@, *m).1 == seq![e]);
            let r = vec![Effect::SaveDownload { name, content }];
            assert(r.deep_view() =~= seq![e]);
            r
        } else {
            let err = get_str_or(m, "error", "未知错误");
            add_log(state, concat4("[手表] 下载失败 (", name.as_str(), "): ", err.as_str()).as_str());
            render_only()
        }
    } else if str_eq(action.as_str(), "save_res") {
        let name = get_str_or(m, "name", "");
        proof {
            reveal_strlit("");
        }
        if success {
            add_log(state, concat3("[手表] 脚本 ", name.as_str(), " 已成功上传/保存到手表。").as_str());
            trigger_refresh_watch(state)
        } else {
            let err = get_str_or(m, "error", "未知错误");
            add_log(state, concat4("[手表] 上传失败 (", name.as_str(), "): ", err.as_str()).as_str());
            render_only()
        }
    } else if str_eq(action.as_str(), "delete_res") {
        let name = get_str_or(m, "name", "");
        proof {
            reveal_strlit("");
        }
        if success {
            add_log(state, concat3("[手表] 脚本 ", name.as_str(), " 已从手表端删除。").as_str());
            trigger_refresh_watch(state)
        } else {
            let err = get_str_or(m, "error", "未知错误");
            add_log(state, concat4("[手表] 删除失败 (", name.as_str(), "): ", err.as_str()).as_str());
            render_only()
        }
    } else {
        no_effects()
    }
}

/// Handles an interconnect message given the document parsed from it.
pub fn handle_message(state: &mut UiState, msg: Option<JsonValue>) -> (effects: Vec<Effect>)
    ensures
        final(state)@ == message_step(old(state)@, msg).0,
        effects.deep_view() == message_step(old(state)@, msg).1,
{
    match msg {
        Some(m) => handle_reply(state, &m),
        None => no_effects(),
    }
}

/// Handles an interconnect message from the watch: its text is parsed as
/// JSON and handled as a reply.
pub fn handle_interconnect_message(state: &mut UiState, payload: &str) -> (effects: Vec<Effect>)
    ensures
        final(state)@ == message_step(old(state)@, json_parse(payload@)).0,
        effects.deep_view() == message_step(old(state)@, json_parse(payload@)).1,
{
    let msg = parse_json(payload);
    handle_message(state, msg)
}

/// Records that the script `name` from the watch has been written to the
/// workspace, whose script files are now `pc_files`.
pub fn on_download_saved(state: &mut UiState, name: &str, pc_files: Vec<String>) -> (effects: Vec<Effect>)
    ensures
        final(state)@ == download_saved_step(old(state)@, name@, pc_files.deep_view()).0,
        effects.deep_view() == download_saved_step(old(state)@, name@, pc_files.deep_view()).1,
{
    add_log(state, concat3("[PC] 脚本 ", name, " 已成功下载到本地工作区。").as_str());
    state.pc_files = pc_files;
    render_only()
}

/// Records that the script from the watch could not be written.
pub fn on_download_save_failed(state: &mut UiState, error: &str) -> (effects: Vec<Effect>)
    ensures
        final(state)@ == download_save_failed_step(old(state)@, error@).0,
        effects.deep_view() == download_save_failed_step(old(state)@, error@).1,
{
    add_log(state, concat2("[PC] 保存本地文件失败: ", error).as_str());
    render_only()
}

/// Records that the workspace file `name` could not be read for upload.
pub fn on_upload_read_failed(state: &mut UiState, name: &str, error: &str) -> (effects: Vec<Effect>)
    ensures
        final(state)@ == upload_read_failed_step(old(state)@, name@, error@).0,
        effects.deep_view() == upload_read_failed_step(old(state)@, name@, error@).1,
{
    add_log(state, concat4("[PC] 读取本地文件 ", name, " 失败: ", error).as_str());
    render_only()
}

/// Records the watch found at start-up and asks it for its script list.
pub fn on_device_found(state: &mut UiState, name: &str, addr: &str) -> (effects: Vec<Effect>)
    ensures
        final(state)@ == device_found_step(old(state)@, name@, addr@).0,
        effects.deep_view() == device_found_step(old(state)@, name@, addr@).1,
{
    state.device_addr = Some(addr.to_owned());
    push_log(state, concat5("[系统] 已发现设备: ", name, " (", addr, ")"));
    trigger_refresh_watch(state)
}

/// Records that no watch was found at start-up.
pub fn on_no_device(state: &mut UiState) -> (effects: Vec<Effect>)
    ensures
        final(state)@ == no_device_step(old(state)@).0,
        effects.deep_view() == no_device_step(old(state)@).1,
{
    add_log(state, "[系统] 未找到任何连接的手表设备。请保持设备连接并刷新。");
    render_only()
}

} // verus!
