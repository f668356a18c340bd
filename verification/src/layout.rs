//! The page as a tree of elements: the kind of each element, its text, its
//! styles in order, the event id its clicks report, and its children.
use vstd::prelude::*;
use crate::state::UiState;
use crate::view::{UiView, UiViewModel, WatchRowView, PcRowView, build_ui, page_of};

verus! {

/// The kinds of element the page uses.
#[derive(Debug, Clone, Copy, PartialEq, Eq)]
pub enum NodeKind {
    Div,
    P,
    Button,
}

/// A style applied to an element.
#[derive(Debug, Clone, PartialEq, Eq)]
pub enum Style {
    Flex,
    Column,
    Row,
    AlignCenter,
    WidthFull,
    Bg(String),
    TextColor(String),
    Radius(u32),
    Padding(u32),
    PaddingTop(u32),
    PaddingBottom(u32),
    MarginBottom(u32),
    MarginRight(u32),
    Width(u32),
    Size(u32),
    Border(u32, String),
}

/// A style as plain values.
pub enum StyleModel {
    Flex,
    Column,
    Row,
    AlignCenter,
    WidthFull,
    Bg(Seq<char>),
    TextColor(Seq<char>),
    Radius(u32),
    Padding(u32),
    PaddingTop(u32),
    PaddingBottom(u32),
    MarginBottom(u32),
    MarginRight(u32),
    Width(u32),
    Size(u32),
    Border(u32, Seq<char>),
}

impl DeepView for Style {
    type V = StyleModel;

    open spec fn deep_view(&self) -> StyleModel {
        match self {
            Style::Flex => StyleModel::Flex,
            Style::Column => StyleModel::Column,
            Style::Row => StyleModel::Row,
            Style::AlignCenter => StyleModel::AlignCenter,
            Style::WidthFull => StyleModel::WidthFull,
            Style::Bg(c) => StyleModel::Bg(c@),
            Style::TextColor(c) => StyleModel::TextColor(c@),
            Style::Radius(n) => StyleModel::Radius(*n),
            Style::Padding(n) => StyleModel::Padding(*n),
            Style::PaddingTop(n) => StyleModel::PaddingTop(*n),
            Style::PaddingBottom(n) => StyleModel::PaddingBottom(*n),
            Style::MarginBottom(n) => StyleModel::MarginBottom(*n),
            Style::MarginRight(n) => StyleModel::MarginRight(*n),
            Style::Width(n) => StyleModel::Width(*n),
            Style::Size(n) => StyleModel::Size(*n),
            Style::Border(n, c) => StyleModel::Border(*n, c@),
        }
    }
}

/// An element of the page.
pub struct UiNode {
    pub kind: NodeKind,
    pub text: Option<String>,
    pub styles: Vec<Style>,
    /// The event id that a click on the element reports.
    pub on_click: Option<String>,
    pub children: Vec<UiNode>,
}

/// An element as plain values.
pub struct NodeModel {
    pub kind: NodeKind,
    pub text: Option<Seq<char>>,
    pub styles: Seq<StyleModel>,
    pub on_click: Option<Seq<char>>,
    pub children: Seq<NodeModel>,
}

/// The model of an element.
pub open spec fn node_model(n: UiNode) -> NodeModel
    decreases n, 1int,
{
    NodeModel {
        kind: n.kind,
        text: n.text.deep_view(),
        styles: n.styles.deep_view(),
        on_click: n.on_click.deep_view(),
        children: nodes_model(n.children@),
    }
}

/// The models of a sequence of elements.
pub open spec fn nodes_model(ns: Seq<UiNode>) -> Seq<NodeModel>
    decreases ns, 0int,
{
    if ns.len() == 0 {
        Seq::empty()
    } else {
        nodes_model(ns.subrange(0, ns.len() - 1)).push(node_model(ns[ns.len() - 1]))
    }
}

/// The styles of the whole page.
pub open spec fn root_styles() -> Seq<StyleModel> {
    seq![StyleModel::Flex, StyleModel::Column, StyleModel::Padding(15), StyleModel::WidthFull]
}

fn root_style_list() -> (r: Vec<Style>)
    ensures
        r.deep_view() == root_styles(),
{
    let r = vec![Style::Flex, Style::Column, Style::Padding(15), Style::WidthFull];
    assert(r.deep_view() =~= root_styles());
    r
}

/// The styles of the title bar.
pub open spec fn title_bar_styles() -> Seq<StyleModel> {
    seq![StyleModel::Flex, StyleModel::Column, StyleModel::Bg("#1e1e1e"@), StyleModel::Radius(6), StyleModel::Padding(12), StyleModel::MarginBottom(12)]
}

fn title_bar_style_list() -> (r: Vec<Style>)
    ensures
        r.deep_view() == title_bar_styles(),
{
    let r = vec![Style::Flex, Style::Column, Style::Bg("#1e1e1e".to_owned()), Style::Radius(6), Style::Padding(12), Style::MarginBottom(12)];
    assert(r.deep_view() =~= title_bar_styles());
    r
}

/// The styles of the title.
pub open spec fn title_styles() -> Seq<StyleModel> {
    seq![StyleModel::Size(24)]
}

fn title_style_list() -> (r: Vec<Style>)
    ensures
        r.deep_view() == title_styles(),
{
    let r = vec![Style::Size(24)];
    assert(r.deep_view() =~= title_styles());
    r
}

/// The styles of the connection line.
pub open spec fn status_styles() -> Seq<StyleModel> {
    seq![StyleModel::Size(14), StyleModel::TextColor("#aaaaaa"@)]
}

fn status_style_list() -> (r: Vec<Style>)
    ensures
        r.deep_view() == status_styles(),
{
    let r = vec![Style::Size(14), Style::TextColor("#aaaaaa".to_owned())];
    assert(r.deep_view() =~= status_styles());
    r
}

/// The styles of the watch's column.
pub open spec fn watch_col_styles() -> Seq<StyleModel> {
    seq![StyleModel::Flex, StyleModel::Column, StyleModel::Padding(10), StyleModel::Bg("#1a1a1a"@), StyleModel::Radius(6), StyleModel::MarginRight(10), StyleModel::Width(360)]
}

fn watch_col_style_list() -> (r: Vec<Style>)
    ensures
        r.deep_view() == watch_col_styles(),
{
    let r = vec![Style::Flex, Style::Column, Style::Padding(10), Style::Bg("#1a1a1a".to_owned()), Style::Radius(6), Style::MarginRight(10), Style::Width(360)];
    assert(r.deep_view() =~= watch_col_styles());
    r
}

/// The styles of the workspace's column.
pub open spec fn pc_col_styles() -> Seq<StyleModel> {
    seq![StyleModel::Flex, StyleModel::Column, StyleModel::Padding(10), StyleModel::Bg("#1a1a1a"@), StyleModel::Radius(6), StyleModel::Width(360)]
}

fn pc_col_style_list() -> (r: Vec<Style>)
    ensures
        r.deep_view() == pc_col_styles(),
{
    let r = vec![Style::Flex, Style::Column, Style::Padding(10), Style::Bg("#1a1a1a".to_owned()), Style::Radius(6), Style::Width(360)];
    assert(r.deep_view() =~= pc_col_styles());
    r
}

/// The styles of a column's heading.
pub open spec fn col_header_styles() -> Seq<StyleModel> {
    seq![StyleModel::Size(18), StyleModel::TextColor("#ffffff"@), StyleModel::MarginBottom(8)]
}

fn col_header_style_list() -> (r: Vec<Style>)
    ensures
        r.deep_view() == col_header_styles(),
{
    let r = vec![Style::Size(18), Style::TextColor("#ffffff".to_owned()), Style::MarginBottom(8)];
    assert(r.deep_view() =~= col_header_styles());
    r
}

/// The styles of a column's note when it has no rows.
pub open spec fn placeholder_styles() -> Seq<StyleModel> {
    seq![StyleModel::Size(14), StyleModel::TextColor("#777777"@)]
}

fn placeholder_style_list() -> (r: Vec<Style>)
    ensures
        r.deep_view() == placeholder_styles(),
{
    let r = vec![Style::Size(14), Style::TextColor("#777777".to_owned())];
    assert(r.deep_view() =~= placeholder_styles());
    r
}

/// The styles of a file row.
pub open spec fn file_row_styles() -> Seq<StyleModel> {
    seq![StyleModel::Flex, StyleModel::Row, StyleModel::AlignCenter, StyleModel::PaddingTop(6), StyleModel::PaddingBottom(6), StyleModel::Border(1, "#333333"@)]
}

fn file_row_style_list() -> (r: Vec<Style>)
    ensures
        r.deep_view() == file_row_styles(),
{
    let r = vec![Style::Flex, Style::Row, Style::AlignCenter, Style::PaddingTop(6), Style::PaddingBottom(6), Style::Border(1, "#333333".to_owned())];
    assert(r.deep_view() =~= file_row_styles());
    r
}

/// The styles of a watch file's name.
pub open spec fn watch_name_styles() -> Seq<StyleModel> {
    seq![StyleModel::Size(15), StyleModel::TextColor("#ffffff"@), StyleModel::Width(180)]
}

fn watch_name_style_list() -> (r: Vec<Style>)
    ensures
        r.deep_view() == watch_name_styles(),
{
    let r = vec![Style::Size(15), Style::TextColor("#ffffff".to_owned()), Style::Width(180)];
    assert(r.deep_view() =~= watch_name_styles());
    r
}

/// The styles of a watch file's size.
pub open spec fn size_styles() -> Seq<StyleModel> {
    seq![StyleModel::Size(12), StyleModel::TextColor("#888888"@), StyleModel::Width(60)]
}

fn size_style_list() -> (r: Vec<Style>)
    ensures
        r.deep_view() == size_styles(),
{
    let r = vec![Style::Size(12), Style::TextColor("#888888".to_owned()), Style::Width(60)];
    assert(r.deep_view() =~= size_styles());
    r
}

/// The styles of a download button.
pub open spec fn download_styles() -> Seq<StyleModel> {
    seq![StyleModel::Bg("#2e7d32"@), StyleModel::Radius(4), StyleModel::MarginRight(5)]
}

fn download_style_list() -> (r: Vec<Style>)
    ensures
        r.deep_view() == download_styles(),
{
    let r = vec![Style::Bg("#2e7d32".to_owned()), Style::Radius(4), Style::MarginRight(5)];
    assert(r.deep_view() =~= download_styles());
    r
}

/// The styles of a delete button.
pub open spec fn delete_styles() -> Seq<StyleModel> {
    seq![StyleModel::Bg("#c62828"@), StyleModel::Radius(4)]
}

fn delete_style_list() -> (r: Vec<Style>)
    ensures
        r.deep_view() == delete_styles(),
{
    let r = vec![Style::Bg("#c62828".to_owned()), Style::Radius(4)];
    assert(r.deep_view() =~= delete_styles());
    r
}

/// The styles of a workspace file's name.
pub open spec fn pc_name_styles() -> Seq<StyleModel> {
    seq![StyleModel::Size(15), StyleModel::TextColor("#ffffff"@), StyleModel::Width(220)]
}

fn pc_name_style_list() -> (r: Vec<Style>)
    ensures
        r.deep_view() == pc_name_styles(),
{
    let r = vec![Style::Size(15), Style::TextColor("#ffffff".to_owned()), Style::Width(220)];
    assert(r.deep_view() =~= pc_name_styles());
    r
}

/// The styles of an upload button.
pub open spec fn upload_styles() -> Seq<StyleModel> {
    seq![StyleModel::Bg("#1565c0"@), StyleModel::Radius(4)]
}

fn upload_style_list() -> (r: Vec<Style>)
    ensures
        r.deep_view() == upload_styles(),
{
    let r = vec![Style::Bg("#1565c0".to_owned()), Style::Radius(4)];
    assert(r.deep_view() =~= upload_styles());
    r
}

/// The styles of the row of columns and the row of controls.
pub open spec fn section_row_styles() -> Seq<StyleModel> {
    seq![StyleModel::Flex, StyleModel::Row, StyleModel::MarginBottom(12)]
}

fn section_row_style_list() -> (r: Vec<Style>)
    ensures
        r.deep_view() == section_row_styles(),
{
    let r = vec![Style::Flex, Style::Row, Style::MarginBottom(12)];
    assert(r.deep_view() =~= section_row_styles());
    r
}

/// The styles of the watch refresh button.
pub open spec fn refresh_watch_styles() -> Seq<StyleModel> {
    seq![StyleModel::Bg("#37474f"@), StyleModel::Radius(6), StyleModel::MarginRight(10)]
}

fn refresh_watch_style_list() -> (r: Vec<Style>)
    ensures
        r.deep_view() == refresh_watch_styles(),
{
    let r = vec![Style::Bg("#37474f".to_owned()), Style::Radius(6), Style::MarginRight(10)];
    assert(r.deep_view() =~= refresh_watch_styles());
    r
}

/// The styles of the workspace refresh button.
pub open spec fn refresh_pc_styles() -> Seq<StyleModel> {
    seq![StyleModel::Bg("#37474f"@), StyleModel::Radius(6)]
}

fn refresh_pc_style_list() -> (r: Vec<Style>)
    ensures
        r.deep_view() == refresh_pc_styles(),
{
    let r = vec![Style::Bg("#37474f".to_owned()), Style::Radius(6)];
    assert(r.deep_view() =~= refresh_pc_styles());
    r
}

/// The styles of the log column.
pub open spec fn logs_col_styles() -> Seq<StyleModel> {
    seq![StyleModel::Flex, StyleModel::Column, StyleModel::Bg("#111111"@), StyleModel::Radius(6), StyleModel::Padding(10)]
}

fn logs_col_style_list() -> (r: Vec<Style>)
    ensures
        r.deep_view() == logs_col_styles(),
{
    let r = vec![Style::Flex, Style::Column, Style::Bg("#111111".to_owned()), Style::Radius(6), Style::Padding(10)];
    assert(r.deep_view() =~= logs_col_styles());
    r
}

/// The styles of the log's heading.
pub open spec fn log_header_styles() -> Seq<StyleModel> {
    seq![StyleModel::Size(16), StyleModel::TextColor("#888888"@), StyleModel::MarginBottom(6)]
}

fn log_header_style_list() -> (r: Vec<Style>)
    ensures
        r.deep_view() == log_header_styles(),
{
    let r = vec![Style::Size(16), Style::TextColor("#888888".to_owned()), Style::MarginBottom(6)];
    assert(r.deep_view() =~= log_header_styles());
    r
}

/// The styles of a log line.
pub open spec fn log_line_styles() -> Seq<StyleModel> {
    seq![StyleModel::Size(13), StyleModel::TextColor("#4caf50"@)]
}

fn log_line_style_list() -> (r: Vec<Style>)
    ensures
        r.deep_view() == log_line_styles(),
{
    let r = vec![Style::Size(13), Style::TextColor("#4caf50".to_owned())];
    assert(r.deep_view() =~= log_line_styles());
    r
}

/// An element built from its parts.
pub open spec fn node(
    kind: NodeKind,
    text: Option<Seq<char>>,
    styles: Seq<StyleModel>,
    on_click: Option<Seq<char>>,
    children: Seq<NodeModel>,
) -> NodeModel {
    NodeModel { kind, text, styles, on_click, children }
}

/// A paragraph of text.
pub open spec fn text_node(t: Seq<char>, styles: Seq<StyleModel>) -> NodeModel {
    node(NodeKind::P, Some(t), styles, None, Seq::empty())
}

/// A button whose clicks report `id`.
pub open spec fn button_node(label: Seq<char>, styles: Seq<StyleModel>, id: Seq<char>) -> NodeModel {
    node(NodeKind::Button, Some(label), styles, Some(id), Seq::empty())
}

/// A container of other elements.
pub open spec fn box_node(styles: Seq<StyleModel>, children: Seq<NodeModel>) -> NodeModel {
    node(NodeKind::Div, None, styles, None, children)
}

/// The note of a column, where there is one.
pub open spec fn note_nodes(note: Option<Seq<char>>) -> Seq<NodeModel> {
    match note {
        Some(t) => seq![text_node(t, placeholder_styles())],
        None => Seq::empty(),
    }
}

/// A row of the watch's list: name, size, download and delete buttons.
pub open spec fn watch_row_node(p: UiViewModel, r: WatchRowView) -> NodeModel {
    box_node(file_row_styles(), seq![
        text_node(r.name, watch_name_styles()),
        text_node(r.size_label, size_styles()),
        button_node(p.download_label, download_styles(), r.download_event),
        button_node(p.delete_label, delete_styles(), r.delete_event),
    ])
}

/// A row of the workspace's list: name and upload button.
pub open spec fn pc_row_node(p: UiViewModel, r: PcRowView) -> NodeModel {
    box_node(file_row_styles(), seq![
        text_node(r.name, pc_name_styles()),
        button_node(p.upload_label, upload_styles(), r.upload_event),
    ])
}

/// The title bar: the title over the connection line.
pub open spec fn title_bar_node(p: UiViewModel) -> NodeModel {
    box_node(title_bar_styles(), seq![
        text_node(p.title, title_styles()),
        text_node(p.status_text, status_styles()),
    ])
}

/// The watch's column: its heading, then its note or its rows.
pub open spec fn watch_col_node(p: UiViewModel) -> NodeModel {
    box_node(watch_col_styles(), seq![text_node(p.watch_header, col_header_styles())]
        + note_nodes(p.watch_placeholder)
        + p.watch_rows.map_values(|r: WatchRowView| watch_row_node(p, r)))
}

/// The workspace's column: its heading, then its note or its rows.
pub open spec fn pc_col_node(p: UiViewModel) -> NodeModel {
    box_node(pc_col_styles(), seq![text_node(p.pc_header, col_header_styles())]
        + note_nodes(p.pc_placeholder)
        + p.pc_rows.map_values(|r: PcRowView| pc_row_node(p, r)))
}

/// The two columns side by side, the watch's first.
pub open spec fn cols_row_node(p: UiViewModel) -> NodeModel {
    box_node(section_row_styles(), seq![watch_col_node(p), pc_col_node(p)])
}

/// The two refresh buttons, the watch's first.
pub open spec fn controls_row_node(p: UiViewModel) -> NodeModel {
    box_node(section_row_styles(), seq![
        button_node(p.refresh_watch_label, refresh_watch_styles(), p.refresh_watch_event),
        button_node(p.refresh_pc_label, refresh_pc_styles(), p.refresh_pc_event),
    ])
}

/// The log column: its heading, then one line per log line.
pub open spec fn logs_col_node(p: UiViewModel) -> NodeModel {
    box_node(logs_col_styles(), seq![text_node(p.log_header, log_header_styles())]
        + p.logs.map_values(|l: Seq<char>| text_node(l, log_line_styles())))
}

/// The page: title bar, the columns, the controls and the log, in that order.
pub open spec fn page_layout(p: UiViewModel) -> NodeModel {
    box_node(root_styles(), seq![title_bar_node(p), cols_row_node(p), controls_row_node(p), logs_col_node(p)])
}

/// Adding an element at the end of a list adds its model at the end.
proof fn nodes_model_push(ns: Seq<UiNode>, n: UiNode)
    ensures
        nodes_model(ns.push(n)) == nodes_model(ns).push(node_model(n)),
{
    assert(ns.push(n).subrange(0, ns.len() as int) =~= ns);
}

fn push_node(v: &mut Vec<UiNode>, n: UiNode)
    ensures
        nodes_model(final(v)@) == nodes_model(old(v)@).push(node_model(n)),
{
    proof {
        nodes_model_push(v@, n);
    }
    v.push(n);
}

fn no_nodes() -> (r: Vec<UiNode>)
    ensures
        nodes_model(r@) == Seq::<NodeModel>::empty(),
{
    Vec::new()
}

fn text_el(t: &str, styles: Vec<Style>) -> (r: UiNode)
    ensures
        node_model(r) == text_node(t@, styles.deep_view()),
{
    let r = UiNode { kind: NodeKind::P, text: Some(t.to_owned()), styles, on_click: None, children: no_nodes() };
    assert(node_model(r) =~= text_node(t@, styles.deep_view()));
    r
}

fn button_el(label: &str, styles: Vec<Style>, id: &str) -> (r: UiNode)
    ensures
        node_model(r) == button_node(label@, styles.deep_view(), id@),
{
    let r = UiNode {
        kind: NodeKind::Button,
        text: Some(label.to_owned()),
        styles,
        on_click: Some(id.to_owned()),
        children: no_nodes(),
    };
    assert(node_model(r) =~= button_node(label@, styles.deep_view(), id@));
    r
}

fn box_el(styles: Vec<Style>, children: Vec<UiNode>) -> (r: UiNode)
    ensures
        node_model(r) == box_node(styles.deep_view(), nodes_model(children@)),
{
    let r = UiNode { kind: NodeKind::Div, text: None, styles, on_click: None, children };
    assert(node_model(r) =~= box_node(styles.deep_view(), nodes_model(children@)));
    r
}

/// Two elements in a list.
fn two(a: UiNode, b: UiNode) -> (r: Vec<UiNode>)
    ensures
        nodes_model(r@) == seq![node_model(a), node_model(b)],
{
    let mut r = no_nodes();
    push_node(&mut r, a);
    push_node(&mut r, b);
    assert(nodes_model(r@) =~= seq![node_model(a), node_model(b)]);
    r
}

/// Appends the note of a column, where there is one.
fn push_note(v: &mut Vec<UiNode>, note: &Option<String>)
    ensures
        nodes_model(final(v)@) == nodes_model(old(v)@) + note_nodes(note.deep_view()),
{
    match note {
        Some(t) => {
            let n = text_el(t.as_str(), placeholder_style_list());
            push_node(v, n);
        },
        None => {},
    }
    assert(nodes_model(v@) =~= nodes_model(old(v)@) + note_nodes(note.deep_view()));
}

fn watch_col_el(page: &UiView) -> (r: UiNode)
    ensures
        node_model(r) == watch_col_node(page@),
{
    let ghost p = page@;
    let ghost f = |r: WatchRowView| watch_row_node(p, r);
    let mut children = no_nodes();
    push_node(&mut children, text_el(page.watch_header.as_str(), col_header_style_list()));
    push_note(&mut children, &page.watch_placeholder);
    let ghost head = nodes_model(children@);
    let mut i: usize = 0;
    while i < page.watch_rows.len()
        invariant
            p == page@,
            f == (|r: WatchRowView| watch_row_node(p, r)),
            i <= page.watch_rows@.len(),
            nodes_model(children@) == head + p.watch_rows.take(i as int).map_values(f),
        decreases page.watch_rows@.len() - i,
    {
        let row = &page.watch_rows[i];
        let a = text_el(row.name.as_str(), watch_name_style_list());
        let b = text_el(row.size_label.as_str(), size_style_list());
        let c = button_el(page.download_label.as_str(), download_style_list(), row.download_event.as_str());
        let d = button_el(page.delete_label.as_str(), delete_style_list(), row.delete_event.as_str());
        let ghost cells_model = seq![node_model(a), node_model(b), node_model(c), node_model(d)];
        let mut cells = no_nodes();
        push_node(&mut cells, a);
        push_node(&mut cells, b);
        push_node(&mut cells, c);
        push_node(&mut cells, d);
        assert(nodes_model(cells@) =~= cells_model);
        let n = box_el(file_row_style_list(), cells);
        assert(p.watch_rows[i as int] == row.deep_view());
        assert(node_model(n) =~= f(p.watch_rows[i as int]));
        push_node(&mut children, n);
        assert(p.watch_rows.take(i + 1).map_values(f) =~= p.watch_rows.take(i as int).map_values(f).push(f(p.watch_rows[i as int])));
        assert(nodes_model(children@) =~= head + p.watch_rows.take(i + 1).map_values(f));
        i += 1;
    }
    assert(p.watch_rows.take(p.watch_rows.len() as int) =~= p.watch_rows);
    box_el(watch_col_style_list(), children)
}

fn pc_col_el(page: &UiView) -> (r: UiNode)
    ensures
        node_model(r) == pc_col_node(page@),
{
    let ghost p = page@;
    let ghost f = |r: PcRowView| pc_row_node(p, r);
    let mut children = no_nodes();
    push_node(&mut children, text_el(page.pc_header.as_str(), col_header_style_list()));
    push_note(&mut children, &page.pc_placeholder);
    let ghost head = nodes_model(children@);
    let mut i: usize = 0;
    while i < page.pc_rows.len()
        invariant
            p == page@,
            f == (|r: PcRowView| pc_row_node(p, r)),
            i <= page.pc_rows@.len(),
            nodes_model(children@) == head + p.pc_rows.take(i as int).map_values(f),
        decreases page.pc_rows@.len() - i,
    {
        let row = &page.pc_rows[i];
        let cells = two(
            text_el(row.name.as_str(), pc_name_style_list()),
            button_el(page.upload_label.as_str(), upload_style_list(), row.upload_event.as_str()),
        );
        let n = box_el(file_row_style_list(), cells);
        assert(p.pc_rows[i as int] == row.deep_view());
        assert(node_model(n) =~= f(p.pc_rows[i as int]));
        push_node(&mut children, n);
        assert(p.pc_rows.take(i + 1).map_values(f) =~= p.pc_rows.take(i as int).map_values(f).push(f(p.pc_rows[i as int])));
        assert(nodes_model(children@) =~= head + p.pc_rows.take(i + 1).map_values(f));
        i += 1;
    }
    assert(p.pc_rows.take(p.pc_rows.len() as int) =~= p.pc_rows);
    box_el(pc_col_style_list(), children)
}

fn logs_col_el(page: &UiView) -> (r: UiNode)
    ensures
        node_model(r) == logs_col_node(page@),
{
    let ghost p = page@;
    let ghost f = |l: Seq<char>| text_node(l, log_line_styles());
    let mut children = no_nodes();
    push_node(&mut children, text_el(page.log_header.as_str(), log_header_style_list()));
    let ghost head = nodes_model(children@);
    let mut i: usize = 0;
    while i < page.logs.len()
        invariant
            p == page@,
            f == (|l: Seq<char>| text_node(l, log_line_styles())),
            i <= page.logs@.len(),
            nodes_model(children@) == head + p.logs.take(i as int).map_values(f),
        decreases page.logs@.len() - i,
    {
        let n = text_el(page.logs[i].as_str(), log_line_style_list());
        assert(p.logs[i as int] == page.logs@[i as int]@);
        push_node(&mut children, n);
        assert(p.logs.take(i + 1).map_values(f) =~= p.logs.take(i as int).map_values(f).push(f(p.logs[i as int])));
        assert(nodes_model(children@) =~= head + p.logs.take(i + 1).map_values(f));
        i += 1;
    }
    assert(p.logs.take(p.logs.len() as int) =~= p.logs);
    box_el(logs_col_style_list(), children)
}

/// Lays out the page: the title bar (title over the connection line), the
/// watch's and the workspace's columns side by side, the two refresh buttons,
/// and the log, with the styles of each element.
pub fn build_layout(page: &UiView) -> (r: UiNode)
    ensures
        node_model(r) == page_layout(page@),
{
    let title_bar = box_el(title_bar_style_list(), two(
        text_el(page.title.as_str(), title_style_list()),
        text_el(page.status_text.as_str(), status_style_list()),
    ));
    let cols_row = box_el(section_row_style_list(), two(watch_col_el(page), pc_col_el(page)));
    let controls_row = box_el(section_row_style_list(), two(
        button_el(page.refresh_watch_label.as_str(), refresh_watch_style_list(), page.refresh_watch_event.as_str()),
        button_el(page.refresh_pc_label.as_str(), refresh_pc_style_list(), page.refresh_pc_event.as_str()),
    ));
    let logs_col = logs_col_el(page);
    let ghost sections = seq![node_model(title_bar), node_model(cols_row), node_model(controls_row), node_model(logs_col)];
    let mut children = no_nodes();
    push_node(&mut children, title_bar);
    push_node(&mut children, cols_row);
    push_node(&mut children, controls_row);
    push_node(&mut children, logs_col);
    assert(nodes_model(children@) =~= sections);
    box_el(root_style_list(), children)
}

/// The element the UI is rendered into and the page to render, where an
/// element has been recorded.
pub fn refresh_ui(state: &UiState) -> (r: Option<(String, UiNode)>)
    ensures
        match r {
            Some((root, tree)) => state@.root_element_id == Some(root@)
                && node_model(tree) == page_layout(page_of(state@)),
            None => state@.root_element_id is None,
        },
{
    match &state.root_element_id {
        Some(root) => Some((root.clone(), build_layout(&build_ui(state)))),
        None => None,
    }
}

} // verus!
