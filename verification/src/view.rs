//! The content of the plugin's page: everything the rendered UI shows or
//! reports back, computed from the state. Layout and colours are left to the
//! host side.
use vstd::prelude::*;
use crate::events::{download_prefix, delete_prefix, upload_prefix, refresh_watch_id, refresh_pc_id};
use crate::state::{UiState, UiModel, WatchFileView};
use crate::text::{concat2, concat3};

verus! {

/// A row of the watch's file list.
#[derive(Debug, Clone, PartialEq, Eq)]
pub struct WatchRow {
    pub name: String,
    pub size_label: String,
    /// The event id of the row's download button.
    pub download_event: String,
    /// The event id of the row's delete button.
    pub delete_event: String,
}

/// A row of the workspace's file list.
#[derive(Debug, Clone, PartialEq, Eq)]
pub struct PcRow {
    pub name: String,
    /// The event id of the row's upload button.
    pub upload_event: String,
}

/// The content of the page.
#[derive(Debug, Clone, PartialEq, Eq)]
pub struct UiView {
    pub status_text: String,
    pub watch_rows: Vec<WatchRow>,
    /// The note shown in place of the watch's rows when there are none.
    pub watch_placeholder: Option<String>,
    pub pc_rows: Vec<PcRow>,
    /// The note shown in place of the workspace's rows when there are none.
    pub pc_placeholder: Option<String>,
    pub refresh_watch_event: String,
    pub refresh_pc_event: String,
    pub logs: Vec<String>,
    /// The page's title.
    pub title: String,
    /// The heading of the watch's file list.
    pub watch_header: String,
    /// The heading of the workspace's file list.
    pub pc_header: String,
    /// The label of every download button.
    pub download_label: String,
    /// The label of every delete button.
    pub delete_label: String,
    /// The label of every upload button.
    pub upload_label: String,
    /// The label of the button that refreshes the watch's list.
    pub refresh_watch_label: String,
    /// The label of the button that refreshes the workspace's list.
    pub refresh_pc_label: String,
    /// The heading of the log.
    pub log_header: String,
}

/// A watch row as character sequences.
pub struct WatchRowView {
    pub name: Seq<char>,
    pub size_label: Seq<char>,
    pub download_event: Seq<char>,
    pub delete_event: Seq<char>,
}

/// A workspace row as character sequences.
pub struct PcRowView {
    pub name: Seq<char>,
    pub upload_event: Seq<char>,
}

/// The page as character sequences.
#[verifier::ext_equal]
pub struct UiViewModel {
    pub status_text: Seq<char>,
    pub watch_rows: Seq<WatchRowView>,
    pub watch_placeholder: Option<Seq<char>>,
    pub pc_rows: Seq<PcRowView>,
    pub pc_placeholder: Option<Seq<char>>,
    pub refresh_watch_event: Seq<char>,
    pub refresh_pc_event: Seq<char>,
    pub logs: Seq<Seq<char>>,
    pub title: Seq<char>,
    pub watch_header: Seq<char>,
    pub pc_header: Seq<char>,
    pub download_label: Seq<char>,
    pub delete_label: Seq<char>,
    pub upload_label: Seq<char>,
    pub refresh_watch_label: Seq<char>,
    pub refresh_pc_label: Seq<char>,
    pub log_header: Seq<char>,
}

impl DeepView for WatchRow {
    type V = WatchRowView;

    open spec fn deep_view(&self) -> WatchRowView {
        WatchRowView {
            name: self.name@,
            size_label: self.size_label@,
            download_event: self.download_event@,
            delete_event: self.delete_event@,
        }
    }
}

impl DeepView for PcRow {
    type V = PcRowView;

    open spec fn deep_view(&self) -> PcRowView {
        PcRowView { name: self.name@, upload_event: self.upload_event@ }
    }
}

impl View for UiView {
    type V = UiViewModel;

    open spec fn view(&self) -> UiViewModel {
        UiViewModel {
            status_text: self.status_text@,
            watch_rows: self.watch_rows.deep_view(),
            watch_placeholder: self.watch_placeholder.deep_view(),
            pc_rows: self.pc_rows.deep_view(),
            pc_placeholder: self.pc_placeholder.deep_view(),
            refresh_watch_event: self.refresh_watch_event@,
            refresh_pc_event: self.refresh_pc_event@,
            logs: self.logs.deep_view(),
            title: self.title@,
            watch_header: self.watch_header@,
            pc_header: self.pc_header@,
            download_label: self.download_label@,
            delete_label: self.delete_label@,
            upload_label: self.upload_label@,
            refresh_watch_label: self.refresh_watch_label@,
            refresh_pc_label: self.refresh_pc_label@,
            log_header: self.log_header@,
        }
    }
}

/// The connection line at the top of the page.
pub open spec fn status_text(addr: Option<Seq<char>>) -> Seq<char> {
    match addr {
        Some(a) => "连接状态: 已连接至手表 ("@ + a + ")"@,
        None => "连接状态: 未连接。请在手表上打开 JSLab 并刷新。"@,
    }
}

/// The note shown while no watch file is known.
pub open spec fn watch_placeholder_text() -> Seq<char> {
    "（无文件，或尚未获取。点击“刷新手表”获取）"@
}

/// The note shown while the workspace has no script.
pub open spec fn pc_placeholder_text() -> Seq<char> {
    "（工作区内没有找到 .js 文件）"@
}

/// The row of a watch file: its size is shown in bytes, and its buttons
/// report the file's name after the `download:` and `delete:` prefixes.
pub open spec fn watch_row(w: WatchFileView) -> WatchRowView {
    WatchRowView {
        name: w.name,
        size_label: w.size + " B"@,
        download_event: download_prefix() + w.name,
        delete_event: delete_prefix() + w.name,
    }
}

/// The row of a workspace file, whose button reports its name after `upload:`.
pub open spec fn pc_row(n: Seq<char>) -> PcRowView {
    PcRowView { name: n, upload_event: upload_prefix() + n }
}

/// The page for state `s`.
pub open spec fn page_of(s: UiModel) -> UiViewModel {
    UiViewModel {
        status_text: status_text(s.device_addr),
        watch_rows: s.watch_files.map_values(|w: WatchFileView| watch_row(w)),
        watch_placeholder: if s.watch_files.len() == 0 { Some(watch_placeholder_text()) } else { None },
        pc_rows: s.pc_files.map_values(|n: Seq<char>| pc_row(n)),
        pc_placeholder: if s.pc_files.len() == 0 { Some(pc_placeholder_text()) } else { None },
        refresh_watch_event: refresh_watch_id(),
        refresh_pc_event: refresh_pc_id(),
        logs: s.logs,
        title: "JSLab 智能手表脚本管理器"@,
        watch_header: "手表上的 JS 脚本"@,
        pc_header: "PC 工作区 JS 文件"@,
        download_label: "下载"@,
        delete_label: "删除"@,
        upload_label: "上传至手表"@,
        refresh_watch_label: "刷新手表文件"@,
        refresh_pc_label: "刷新 PC 工作区"@,
        log_header: "操作日志与状态"@,
    }
}

/// Computes the content of the plugin's page from the state.
pub fn build_ui(state: &UiState) -> (v: UiView)
    ensures
        v@ == page_of(state@),
{
    let status_text = match &state.device_addr {
        Some(a) => concat3("连接状态: 已连接至手表 (", a.as_str(), ")"),
        None => "连接状态: 未连接。请在手表上打开 JSLab 并刷新。".to_owned(),
    };

    let mut watch_rows: Vec<WatchRow> = Vec::new();
    let mut i: usize = 0;
    while i < state.watch_files.len()
        invariant
            i <= state.watch_files@.len(),
            watch_rows.deep_view() == state@.watch_files.take(i as int).map_values(
                |w: WatchFileView| watch_row(w),
            ),
        decreases state.watch_files@.len() - i,
    {
        let ghost before = watch_rows.deep_view();
        let f = &state.watch_files[i];
        let row = WatchRow {
            name: f.name.clone(),
            size_label: concat2(f.size.as_str(), " B"),
            download_event: concat2("download:", f.name.as_str()),
            delete_event: concat2("delete:", f.name.as_str()),
        };
        let ghost rv = row.deep_view();
        watch_rows.push(row);
        assert(watch_rows.deep_view() =~= before.push(rv));
        assert(state@.watch_files[i as int] == f@);
        assert(rv == watch_row(f@));
        assert(watch_rows.deep_view() =~= state@.watch_files.take(i + 1).map_values(
            |w: WatchFileView| watch_row(w),
        ));
        i += 1;
    }
    assert(state@.watch_files.take(state@.watch_files.len() as int) =~= state@.watch_files);

    let mut pc_rows: Vec<PcRow> = Vec::new();
    let mut j: usize = 0;
    while j < state.pc_files.len()
        invariant
            j <= state.pc_files@.len(),
            pc_rows.deep_view() == state@.pc_files.take(j as int).map_values(|n: Seq<char>| pc_row(n)),
        decreases state.pc_files@.len() - j,
    {
        let ghost before = pc_rows.deep_view();
        let n = &state.pc_files[j];
        let row = PcRow { name: n.clone(), upload_event: concat2("upload:", n.as_str()) };
        let ghost rv = row.deep_view();
        pc_rows.push(row);
        assert(pc_rows.deep_view() =~= before.push(rv));
        assert(state@.pc_files[j as int] == n@);
        assert(pc_rows.deep_view() =~= state@.pc_files.take(j + 1).map_values(|n: Seq<char>| pc_row(n)));
        j += 1;
    }
    assert(state@.pc_files.take(state@.pc_files.len() as int) =~= state@.pc_files);

    let watch_placeholder = if state.watch_files.len() == 0 {
        Some("（无文件，或尚未获取。点击“刷新手表”获取）".to_owned())
    } else {
        None
    };
    let pc_placeholder = if state.pc_files.len() == 0 {
        Some("（工作区内没有找到 .js 文件）".to_owned())
    } else {
        None
    };
    let mut logs: Vec<String> = Vec::new();
    let mut k: usize = 0;
    while k < state.logs.len()
        invariant
            k <= state.logs@.len(),
            logs.deep_view() == state@.logs.take(k as int),
        decreases state.logs@.len() - k,
    {
        let ghost before = logs.deep_view();
        let line = state.logs[k].clone();
        assert(line@ == state@.logs[k as int]);
        logs.push(line);
        assert(logs.deep_view() =~= before.push(state@.logs[k as int]));
        assert(logs.deep_view() =~= state@.logs.take(k + 1));
        k += 1;
    }
    assert(state@.logs.take(state@.logs.len() as int) =~= state@.logs);
    let v = UiView {
        status_text,
        watch_rows,
        watch_placeholder,
        pc_rows,
        pc_placeholder,
        refresh_watch_event: "refresh_watch".to_owned(),
        refresh_pc_event: "refresh_pc".to_owned(),
        logs,
        title: "JSLab 智能手表脚本管理器".to_owned(),
        watch_header: "手表上的 JS 脚本".to_owned(),
        pc_header: "PC 工作区 JS 文件".to_owned(),
        download_label: "下载".to_owned(),
        delete_label: "删除".to_owned(),
        upload_label: "上传至手表".to_owned(),
        refresh_watch_label: "刷新手表文件".to_owned(),
        refresh_pc_label: "刷新 PC 工作区".to_owned(),
        log_header: "操作日志与状态".to_owned(),
    };
    assert(v@ =~= page_of(state@));
    v
}

} // verus!
