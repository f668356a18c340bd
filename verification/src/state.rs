//! The plugin's state: the connected watch, the two file lists, the event
//! log and the element the UI is rendered into.
use vstd::prelude::*;
use vstd::string::StrSliceExecFns;

verus! {

/// How many log lines `add_log` keeps.
pub const LOG_CAPACITY: usize = 8;

/// A JavaScript file on the watch, as the watch lists it.
#[derive(Clone, Debug, PartialEq, Eq)]
pub struct WatchFile {
    pub name: String,
    pub size: String,
}

/// A watch file as character sequences.
pub struct WatchFileView {
    pub name: Seq<char>,
    pub size: Seq<char>,
}

impl View for WatchFile {
    type V = WatchFileView;

    open spec fn view(&self) -> WatchFileView {
        WatchFileView { name: self.name@, size: self.size@ }
    }
}

impl DeepView for WatchFile {
    type V = WatchFileView;

    open spec fn deep_view(&self) -> WatchFileView {
        self@
    }
}

/// The state of the plugin's UI.
#[derive(Clone, Debug, PartialEq, Eq)]
pub struct UiState {
    pub device_addr: Option<String>,
    pub watch_files: Vec<WatchFile>,
    pub pc_files: Vec<String>,
    pub logs: Vec<String>,
    pub root_element_id: Option<String>,
}

/// The state as character sequences.
#[verifier::ext_equal]
pub struct UiModel {
    pub device_addr: Option<Seq<char>>,
    pub watch_files: Seq<WatchFileView>,
    pub pc_files: Seq<Seq<char>>,
    pub logs: Seq<Seq<char>>,
    pub root_element_id: Option<Seq<char>>,
}

impl View for UiState {
    type V = UiModel;

    open spec fn view(&self) -> UiModel {
        UiModel {
            device_addr: self.device_addr.deep_view(),
            watch_files: self.watch_files.deep_view(),
            pc_files: self.pc_files.deep_view(),
            logs: self.logs.deep_view(),
            root_element_id: self.root_element_id.deep_view(),
        }
    }
}

/// The last `LOG_CAPACITY` lines of `lines` (all of them when there are fewer).
pub open spec fn latest_lines(lines: Seq<Seq<char>>) -> Seq<Seq<char>> {
    if lines.len() > LOG_CAPACITY {
        lines.skip(lines.len() - LOG_CAPACITY)
    } else {
        lines
    }
}

/// The log after `m` is appended: the oldest lines are dropped so that at
/// most `LOG_CAPACITY` remain.
pub open spec fn log_push(logs: Seq<Seq<char>>, m: Seq<char>) -> Seq<Seq<char>> {
    latest_lines(logs.push(m))
}

impl UiModel {
    /// The state with `m` added to the log.
    pub open spec fn with_log(self, m: Seq<char>) -> UiModel {
        UiModel { logs: log_push(self.logs, m), ..self }
    }
}

/// The first log line of a freshly loaded plugin.
pub open spec fn msg_started() -> Seq<char> {
    "[系统] 插件已启动。"@
}

/// The state the plugin starts in, with the workspace's script files.
pub open spec fn initial_state(pc_files: Seq<Seq<char>>) -> UiModel {
    UiModel {
        device_addr: None,
        watch_files: Seq::empty(),
        pc_files: pc_files,
        logs: seq![msg_started()],
        root_element_id: None,
    }
}

/// Builds the state the plugin starts in: no watch connected, no watch files
/// known, the given workspace files, one log line saying that the plugin has
/// started, and no element rendered yet.
pub fn ui_state(pc_files: Vec<String>) -> (state: UiState)
    ensures
        state@ == initial_state(pc_files.deep_view()),
{
    let mut logs: Vec<String> = Vec::new();
    logs.push("[系统] 插件已启动。".to_owned());
    let state = UiState {
        device_addr: None,
        watch_files: Vec::new(),
        pc_files,
        logs,
        root_element_id: None,
    };
    assert(state@.logs =~= seq![msg_started()]);
    assert(state@.watch_files =~= Seq::<WatchFileView>::empty());
    state
}

/// Appends `msg` to the log and keeps at most `LOG_CAPACITY` lines by
/// dropping the oldest ones.
pub fn add_log(state: &mut UiState, msg: &str)
    ensures
        final(state)@ == old(state)@.with_log(msg@),
{
    let ghost full = state.logs.deep_view().push(msg@);
    state.logs.push(msg.to_owned());
    assert(state.logs.deep_view() =~= full.skip(0));
    let ghost pushed = state@;
    while state.logs.len() > LOG_CAPACITY
        invariant
            state.logs@.len() <= full.len(),
            state.logs@.len() >= LOG_CAPACITY || state.logs@.len() == full.len(),
            state.logs.deep_view() == full.skip(full.len() - state.logs@.len()),
            state@ == (UiModel { logs: state@.logs, ..pushed }),
        decreases state.logs@.len(),
    {
        let ghost before = state.logs.deep_view();
        state.logs.remove(0);
        assert(state.logs.deep_view() =~= before.drop_first());
        assert(before.drop_first() =~= full.skip(full.len() - state.logs@.len()));
    }
    assert(state.logs.deep_view() =~= latest_lines(full));
}

/// Appends `msg` to the log without dropping any line.
pub(crate) fn push_log(state: &mut UiState, msg: String)
    ensures
        final(state)@ == (UiModel { logs: old(state)@.logs.push(msg@), ..old(state)@ }),
{
    let ghost before = state.logs.deep_view();
    state.logs.push(msg);
    assert(state.logs.deep_view() =~= before.push(msg@));
}

/// Records the element that the UI is rendered into.
pub fn render_main_ui(state: &mut UiState, element_id: &str)
    ensures
        final(state)@ == (UiModel { root_element_id: Some(element_id@), ..old(state)@ }),
{
    state.root_element_id = Some(element_id.to_owned());
}

/// A file name whose extension is `js`: a name that ends in `.js` after at
/// least one other character (`.js` alone has no extension).
pub open spec fn is_js_file_name(name: Seq<char>) -> bool {
    name.len() > 3 && name.skip(name.len() - 3) == ".js"@
}

/// Whether a file name has the extension `js`.
pub fn has_js_extension(name: &str) -> (r: bool)
    ensures
        r == is_js_file_name(name@),
{
    let n = name.unicode_len();
    proof {
        reveal_strlit(".js");
    }
    if n <= 3 {
        return false;
    }
    let r = name.get_char(n - 3) == '.' && name.get_char(n - 2) == 'j' && name.get_char(n - 1) == 's';
    proof {
        if r {
            assert(name@.skip(n - 3) =~= ".js"@);
        } else {
            let t = name@.skip(n - 3);
            assert(t[0] == name@[n - 3]);
            assert(t[1] == name@[n - 2]);
            assert(t[2] == name@[n - 1]);
        }
    }
    r
}

/// Keeps, in order, the names that have the extension `js`.
pub fn select_js_files(names: Vec<String>) -> (r: Vec<String>)
    ensures
        r.deep_view() == names.deep_view().filter(|n: Seq<char>| is_js_file_name(n)),
{
    let ghost pred = |n: Seq<char>| is_js_file_name(n);
    let mut out: Vec<String> = Vec::new();
    let mut i: usize = 0;
    while i < names.len()
        invariant
            i <= names@.len(),
            pred == (|n: Seq<char>| is_js_file_name(n)),
            out.deep_view() == names.deep_view().take(i as int).filter(pred),
        decreases names@.len() - i,
    {
        let ghost before = out.deep_view();
        let name = &names[i];
        if has_js_extension(name.as_str()) {
            out.push(name.clone());
            assert(out.deep_view() =~= before.push(name@));
        }
        proof {
            let t = names.deep_view().take(i + 1);
            assert(t.drop_last() =~= names.deep_view().take(i as int));
            assert(t.last() == name@);
            reveal_with_fuel(Seq::<_>::filter, 1);
            assert(t.filter(pred) == if pred(t.last()) { t.drop_last().filter(pred).push(t.last()) } else { t.drop_last().filter(pred) });
        }
        i += 1;
    }
    assert(names.deep_view().take(names@.len() as int) =~= names.deep_view());
    out
}

} // verus!
