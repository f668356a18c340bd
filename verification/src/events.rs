//! What the plugin does on each event: a click in its UI, a reply from the
//! watch, the outcome of a file operation, the discovery of a watch.
//!
//! Each handler changes the state and returns the effects that the host
//! side carries out, in order.
use vstd::prelude::*;
use crate::protocol::{list_request, list_request_text, download_request, download_request_text,
    delete_request, delete_request_text};
use crate::state::{UiState, UiModel, add_log};
use crate::text::{is_prefix, trim_prefix_all, starts_with, trim_start_matches, str_eq, concat3};

verus! {

/// Work that is left to the host side.
#[derive(Debug, Clone, PartialEq, Eq)]
pub enum Effect {
    /// Render the UI again, into the recorded element if there is one.
    Render,
    /// Send `body` to the JSLab app on the watch at `addr`.
    Send { addr: String, body: String },
    /// List the workspace's script files and hand them to `trigger_refresh_pc`.
    ListPcFiles,
    /// Read the workspace file `name`; send it with `upload_request` to the
    /// watch at `addr`, or report the failure with `on_upload_read_failed`.
    ReadForUpload { addr: String, name: String },
    /// Write `content` to the workspace file `name`; report the outcome with
    /// `on_download_saved` or `on_download_save_failed`.
    SaveDownload { name: String, content: String },
}

/// An effect as character sequences.
pub enum EffectView {
    Render,
    Send { addr: Seq<char>, body: Seq<char> },
    ListPcFiles,
    ReadForUpload { addr: Seq<char>, name: Seq<char> },
    SaveDownload { name: Seq<char>, content: Seq<char> },
}

impl View for Effect {
    type V = EffectView;

    open spec fn view(&self) -> EffectView {
        match self {
            Effect::Render => EffectView::Render,
            Effect::Send { addr, body } => EffectView::Send { addr: addr@, body: body@ },
            Effect::ListPcFiles => EffectView::ListPcFiles,
            Effect::ReadForUpload { addr, name } => EffectView::ReadForUpload { addr: addr@, name: name@ },
            Effect::SaveDownload { name, content } => EffectView::SaveDownload { name: name@, content: content@ },
        }
    }
}

impl DeepView for Effect {
    type V = EffectView;

    open spec fn deep_view(&self) -> EffectView {
        self@
    }
}

/// What a UI event asks for.
#[derive(Debug, Clone, PartialEq, Eq)]
pub enum UiCommand {
    Download(String),
    Delete(String),
    Upload(String),
    RefreshWatch,
    RefreshPc,
    Ignore,
}

/// A command as character sequences.
pub enum UiCommandView {
    Download(Seq<char>),
    Delete(Seq<char>),
    Upload(Seq<char>),
    RefreshWatch,
    RefreshPc,
    Ignore,
}

impl View for UiCommand {
    type V = UiCommandView;

    open spec fn view(&self) -> UiCommandView {
        match self {
            UiCommand::Download(n) => UiCommandView::Download(n@),
            UiCommand::Delete(n) => UiCommandView::Delete(n@),
            UiCommand::Upload(n) => UiCommandView::Upload(n@),
            UiCommand::RefreshWatch => UiCommandView::RefreshWatch,
            UiCommand::RefreshPc => UiCommandView::RefreshPc,
            UiCommand::Ignore => UiCommandView::Ignore,
        }
    }
}

/// The prefix of the event ids of download buttons.
pub open spec fn download_prefix() -> Seq<char> { "download:"@ }
/// The prefix of the event ids of delete buttons.
pub open spec fn delete_prefix() -> Seq<char> { "delete:"@ }
/// The prefix of the event ids of upload buttons.
pub open spec fn upload_prefix() -> Seq<char> { "upload:"@ }
/// The event id of the button that refreshes the watch's list.
pub open spec fn refresh_watch_id() -> Seq<char> { "refresh_watch"@ }
/// The event id of the button that refreshes the workspace's list.
pub open spec fn refresh_pc_id() -> Seq<char> { "refresh_pc"@ }

/// The command behind an event: clicks on ids that start with `download:`,
/// `delete:` or `upload:` (tested in that order) name a file, which is the id
/// with every leading copy of that prefix removed; `refresh_watch` and
/// `refresh_pc` are the two refresh buttons; anything else is ignored.
pub open spec fn command_of(is_click: bool, id: Seq<char>) -> UiCommandView {
    if !is_click {
        UiCommandView::Ignore
    } else if is_prefix(download_prefix(), id) {
        UiCommandView::Download(trim_prefix_all(id, download_prefix()))
    } else if is_prefix(delete_prefix(), id) {
        UiCommandView::Delete(trim_prefix_all(id, delete_prefix()))
    } else if is_prefix(upload_prefix(), id) {
        UiCommandView::Upload(trim_prefix_all(id, upload_prefix()))
    } else if id == refresh_watch_id() {
        UiCommandView::RefreshWatch
    } else if id == refresh_pc_id() {
        UiCommandView::RefreshPc
    } else {
        UiCommandView::Ignore
    }
}

/// Reads the command behind a UI event; only clicks carry one.
pub fn parse_ui_event(is_click: bool, event_id: &str) -> (c: UiCommand)
    ensures
        c@ == command_of(is_click, event_id@),
{
    if !is_click {
        UiCommand::Ignore
    } else if starts_with(event_id, "download:") {
        UiCommand::Download(trim_start_matches(event_id, "download:"))
    } else if starts_with(event_id, "delete:") {
        UiCommand::Delete(trim_start_matches(event_id, "delete:"))
    } else if starts_with(event_id, "upload:") {
        UiCommand::Upload(trim_start_matches(event_id, "upload:"))
    } else if str_eq(event_id, "refresh_watch") {
        UiCommand::RefreshWatch
    } else if str_eq(event_id, "refresh_pc") {
        UiCommand::RefreshPc
    } else {
        UiCommand::Ignore
    }
}

// The log lines the handlers write.

pub open spec fn msg_not_connected() -> Seq<char> { "[系统] 错误: 未连接到设备。"@ }
pub open spec fn msg_requesting_download(n: Seq<char>) -> Seq<char> { "[手表] 正在请求下载 "@ + n + "..."@ }
pub open spec fn msg_requesting_delete(n: Seq<char>) -> Seq<char> { "[手表] 正在请求删除 "@ + n + "..."@ }
pub open spec fn msg_reading_upload(n: Seq<char>) -> Seq<char> { "[PC] 正在读取并上传 "@ + n + "..."@ }
pub open spec fn msg_pc_refreshed() -> Seq<char> { "[PC] 本地文件列表已刷新。"@ }
pub open spec fn msg_upload_read_failed(n: Seq<char>, e: Seq<char>) -> Seq<char> { "[PC] 读取本地文件 "@ + n + " 失败: "@ + e }
pub open spec fn msg_list_ok() -> Seq<char> { "[手表] 成功获取手表脚本列表。"@ }
pub open spec fn msg_list_failed(e: Seq<char>) -> Seq<char> { "[手表] 获取列表失败: "@ + e }
pub open spec fn msg_downloaded(n: Seq<char>) -> Seq<char> { "[PC] 脚本 "@ + n + " 已成功下载到本地工作区。"@ }
pub open spec fn msg_save_failed(e: Seq<char>) -> Seq<char> { "[PC] 保存本地文件失败: "@ + e }
pub open spec fn msg_download_failed(n: Seq<char>, e: Seq<char>) -> Seq<char> { "[手表] 下载失败 ("@ + n + "): "@ + e }
pub open spec fn msg_saved_to_watch(n: Seq<char>) -> Seq<char> { "[手表] 脚本 "@ + n + " 已成功上传/保存到手表。"@ }
pub open spec fn msg_upload_failed(n: Seq<char>, e: Seq<char>) -> Seq<char> { "[手表] 上传失败 ("@ + n + "): "@ + e }
pub open spec fn msg_deleted(n: Seq<char>) -> Seq<char> { "[手表] 脚本 "@ + n + " 已从手表端删除。"@ }
pub open spec fn msg_delete_failed(n: Seq<char>, e: Seq<char>) -> Seq<char> { "[手表] 删除失败 ("@ + n + "): "@ + e }
pub open spec fn msg_device_found(name: Seq<char>, addr: Seq<char>) -> Seq<char> { "[系统] 已发现设备: "@ + name + " ("@ + addr + ")"@ }
pub open spec fn msg_no_device() -> Seq<char> { "[系统] 未找到任何连接的手表设备。请保持设备连接并刷新。"@ }
pub open spec fn unknown_error() -> Seq<char> { "未知错误"@ }

/// The state when the watch cannot be reached: the error is logged and the
/// UI rendered.
pub open spec fn not_connected_step(s: UiModel) -> (UiModel, Seq<EffectView>) {
    (s.with_log(msg_not_connected()), seq![EffectView::Render])
}

/// Asking the watch for its script list.
pub open spec fn refresh_watch_step(s: UiModel) -> (UiModel, Seq<EffectView>) {
    match s.device_addr {
        Some(a) => (s, seq![EffectView::Send { addr: a, body: list_request_text() }]),
        None => not_connected_step(s),
    }
}

/// Asking the watch for the script `n`.
pub open spec fn download_step(s: UiModel, n: Seq<char>) -> (UiModel, Seq<EffectView>) {
    match s.device_addr {
        Some(a) => (
            s.with_log(msg_requesting_download(n)),
            seq![EffectView::Render, EffectView::Send { addr: a, body: download_request_text(n) }],
        ),
        None => not_connected_step(s),
    }
}

/// Asking the watch to delete the script `n`.
pub open spec fn delete_step(s: UiModel, n: Seq<char>) -> (UiModel, Seq<EffectView>) {
    match s.device_addr {
        Some(a) => (
            s.with_log(msg_requesting_delete(n)),
            seq![EffectView::Render, EffectView::Send { addr: a, body: delete_request_text(n) }],
        ),
        None => not_connected_step(s),
    }
}

/// Uploading the workspace file `n` to the watch.
pub open spec fn upload_step(s: UiModel, n: Seq<char>) -> (UiModel, Seq<EffectView>) {
    match s.device_addr {
        Some(a) => (
            s.with_log(msg_reading_upload(n)),
            seq![EffectView::Render, EffectView::ReadForUpload { addr: a, name: n }],
        ),
        None => not_connected_step(s),
    }
}

/// Replacing the workspace file list with `files`.
pub open spec fn refresh_pc_step(s: UiModel, files: Seq<Seq<char>>) -> (UiModel, Seq<EffectView>) {
    (UiModel { pc_files: files, ..s }.with_log(msg_pc_refreshed()), seq![EffectView::Render])
}

/// What a command does.
pub open spec fn command_step(s: UiModel, c: UiCommandView) -> (UiModel, Seq<EffectView>) {
    match c {
        UiCommandView::Download(n) => download_step(s, n),
        UiCommandView::Delete(n) => delete_step(s, n),
        UiCommandView::Upload(n) => upload_step(s, n),
        UiCommandView::RefreshWatch => refresh_watch_step(s),
        UiCommandView::RefreshPc => (s, seq![EffectView::ListPcFiles]),
        UiCommandView::Ignore => (s, Seq::empty()),
    }
}

/// Builds the effect list holding `e` alone.
fn one(e: Effect) -> (r: Vec<Effect>)
    ensures
        r.deep_view() == seq![e@],
{
    let r = vec![e];
    assert(r.deep_view() =~= seq![e@]);
    r
}

/// Builds the effect list `[Render, e]`.
fn render_then(e: Effect) -> (r: Vec<Effect>)
    ensures
        r.deep_view() == seq![EffectView::Render, e@],
{
    let r = vec![Effect::Render, e];
    assert(r.deep_view() =~= seq![EffectView::Render, e@]);
    r
}

/// Logs that no watch is connected and asks for a render.
fn not_connected(state: &mut UiState) -> (effects: Vec<Effect>)
    ensures
        final(state)@ == not_connected_step(old(state)@).0,
        effects.deep_view() == not_connected_step(old(state)@).1,
{
    add_log(state, "[系统] 错误: 未连接到设备。");
    one(Effect::Render)
}

/// Asks the connected watch for its script list.
pub fn trigger_refresh_watch(state: &mut UiState) -> (effects: Vec<Effect>)
    ensures
        final(state)@ == refresh_watch_step(old(state)@).0,
        effects.deep_view() == refresh_watch_step(old(state)@).1,
{
    match &state.device_addr {
        Some(a) => {
            let addr = a.clone();
            one(Effect::Send { addr, body: list_request() })
        },
        None => not_connected(state),
    }
}

/// Asks the connected watch for the script `filename`.
pub fn trigger_download(state: &mut UiState, filename: &str) -> (effects: Vec<Effect>)
    ensures
        final(state)@ == download_step(old(state)@, filename@).0,
        effects.deep_view() == download_step(old(state)@, filename@).1,
{
    match &state.device_addr {
        Some(a) => {
            let addr = a.clone();
            add_log(state, concat3("[手表] 正在请求下载 ", filename, "...").as_str());
            render_then(Effect::Send { addr, body: download_request(filename) })
        },
        None => not_connected(state),
    }
}

/// Asks the connected watch to delete the script `filename`.
pub fn trigger_delete(state: &mut UiState, filename: &str) -> (effects: Vec<Effect>)
    ensures
        final(state)@ == delete_step(old(state)@, filename@).0,
        effects.deep_view() == delete_step(old(state)@, filename@).1,
{
    match &state.device_addr {
        Some(a) => {
            let addr = a.clone();
            add_log(state, concat3("[手表] 正在请求删除 ", filename, "...").as_str());
            render_then(Effect::Send { addr, body: delete_request(filename) })
        },
        None => not_connected(state),
    }
}

/// Starts uploading the workspace file `filename` to the connected watch.
pub fn trigger_upload(state: &mut UiState, filename: &str) -> (effects: Vec<Effect>)
    ensures
        final(state)@ == upload_step(old(state)@, filename@).0,
        effects.deep_view() == upload_step(old(state)@, filename@).1,
{
    match &state.device_addr {
        Some(a) => {
            let addr = a.clone();
            add_log(state, concat3("[PC] 正在读取并上传 ", filename, "...").as_str());
            render_then(Effect::ReadForUpload { addr, name: filename.to_owned() })
        },
        None => not_connected(state),
    }
}

/// Replaces the workspace file list with `pc_files`, which the host side has
/// just listed, and logs it.
pub fn trigger_refresh_pc(state: &mut UiState, pc_files: Vec<String>) -> (effects: Vec<Effect>)
    ensures
        final(state)@ == refresh_pc_step(old(state)@, pc_files.deep_view()).0,
        effects.deep_view() == refresh_pc_step(old(state)@, pc_files.deep_view()).1,
{
    state.pc_files = pc_files;
    add_log(state, "[PC] 本地文件列表已刷新。");
    one(Effect::Render)
}

/// Handles an event of the plugin's UI.
pub fn ui_event_processor(state: &mut UiState, is_click: bool, event_id: &str) -> (effects: Vec<Effect>)
    ensures
        final(state)@ == command_step(old(state)@, command_of(is_click, event_id@)).0,
        effects.deep_view() == command_step(old(state)@, command_of(is_click, event_id@)).1,
{
    match parse_ui_event(is_click, event_id) {
        UiCommand::Download(n) => trigger_download(state, n.as_str()),
        UiCommand::Delete(n) => trigger_delete(state, n.as_str()),
        UiCommand::Upload(n) => trigger_upload(state, n.as_str()),
        UiCommand::RefreshWatch => trigger_refresh_watch(state),
        UiCommand::RefreshPc => one(Effect::ListPcFiles),
        UiCommand::Ignore => {
            let r: Vec<Effect> = Vec::new();
            assert(r.deep_view() =~= Seq::<EffectView>::empty());
            r
        },
    }
}

} // verus!
