use astrobox_plugin::layout::{build_layout, refresh_ui, NodeKind, Style};
use astrobox_plugin::events::{
    parse_ui_event, trigger_delete, trigger_download, trigger_refresh_pc, trigger_refresh_watch,
    trigger_upload, ui_event_processor, Effect, UiCommand,
};
use astrobox_plugin::messages::{
    handle_interconnect_message, on_device_found, on_download_save_failed, on_download_saved,
    on_no_device, on_upload_read_failed,
};
use astrobox_plugin::protocol::{
    delete_request, download_request, jslab_package_name, list_request, upload_request,
};
use astrobox_plugin::state::{add_log, has_js_extension, render_main_ui, select_js_files, ui_state, UiState, WatchFile};
use astrobox_plugin::text::{starts_with, str_eq, trim_start_matches};
use astrobox_plugin::view::build_ui;

fn strings(v: &[&str]) -> Vec<String> {
    v.iter().map(|s| s.to_string()).collect()
}

fn connected() -> UiState {
    let mut s = ui_state(strings(&["main.js"]));
    s.device_addr = Some("AA:BB".to_string());
    s
}

fn send(addr: &str, body: &str) -> Effect {
    Effect::Send { addr: addr.to_string(), body: body.to_string() }
}

#[test]
fn initial_state_has_started_line() {
    let s = ui_state(strings(&["a.js", "b.js"]));
    assert_eq!(s.device_addr, None);
    assert!(s.watch_files.is_empty());
    assert_eq!(s.pc_files, strings(&["a.js", "b.js"]));
    assert_eq!(s.logs, strings(&["[系统] 插件已启动。"]));
    assert_eq!(s.root_element_id, None);
}

#[test]
fn add_log_keeps_last_eight() {
    let mut s = ui_state(vec![]);
    for i in 0..10 {
        add_log(&mut s, &format!("line {}", i));
    }
    assert_eq!(s.logs.len(), 8);
    assert_eq!(s.logs[0], "line 2");
    assert_eq!(s.logs[7], "line 9");
}

#[test]
fn add_log_below_capacity_appends() {
    let mut s = ui_state(vec![]);
    add_log(&mut s, "x");
    assert_eq!(s.logs, strings(&["[系统] 插件已启动。", "x"]));
}

#[test]
fn js_extension_rule() {
    assert!(has_js_extension("a.js"));
    assert!(has_js_extension("x.min.js"));
    assert!(!has_js_extension(".js"));
    assert!(!has_js_extension("js"));
    assert!(!has_js_extension("a.jsx"));
    assert!(!has_js_extension("a.JS"));
    assert!(!has_js_extension("a.ts"));
    assert!(has_js_extension("脚本.js"));
}

#[test]
fn select_js_files_keeps_order() {
    let r = select_js_files(strings(&["b.js", "notes.txt", ".js", "a.js", "c.json"]));
    assert_eq!(r, strings(&["b.js", "a.js"]));
}

#[test]
fn text_helpers() {
    assert!(starts_with("download:x", "download:"));
    assert!(!starts_with("down", "download:"));
    assert!(str_eq("abc", "abc"));
    assert!(!str_eq("abc", "abd"));
    assert_eq!(trim_start_matches("ababc", "ab"), "c");
    assert_eq!(trim_start_matches("abc", ""), "abc");
}

#[test]
fn parse_ui_event_commands() {
    assert_eq!(parse_ui_event(true, "download:a.js"), UiCommand::Download("a.js".to_string()));
    assert_eq!(parse_ui_event(true, "download:download:x.js"), UiCommand::Download("x.js".to_string()));
    assert_eq!(parse_ui_event(true, "delete:a.js"), UiCommand::Delete("a.js".to_string()));
    assert_eq!(parse_ui_event(true, "upload:b.js"), UiCommand::Upload("b.js".to_string()));
    assert_eq!(parse_ui_event(true, "refresh_watch"), UiCommand::RefreshWatch);
    assert_eq!(parse_ui_event(true, "refresh_pc"), UiCommand::RefreshPc);
    assert_eq!(parse_ui_event(true, "refresh_pcx"), UiCommand::Ignore);
    assert_eq!(parse_ui_event(false, "download:a.js"), UiCommand::Ignore);
    assert_eq!(parse_ui_event(true, "delete:"), UiCommand::Delete(String::new()));
}

#[test]
fn requests_are_compact_json() {
    assert_eq!(list_request(), r#"{"action":"list"}"#);
    assert_eq!(download_request("a.js"), r#"{"action":"get","name":"a.js"}"#);
    assert_eq!(delete_request("a.js"), r#"{"action":"delete","name":"a.js"}"#);
    assert_eq!(upload_request("a.js", "let x = 1;"), r#"{"action":"save","content":"let x = 1;","name":"a.js"}"#);
    assert_eq!(jslab_package_name(), "icu.ccicc.jslab");
}

#[test]
fn requests_escape_strings() {
    assert_eq!(
        upload_request("q\"b\\.js", "a\nb\tc\u{1}"),
        "{\"action\":\"save\",\"content\":\"a\\nb\\tc\\u0001\",\"name\":\"q\\\"b\\\\.js\"}"
    );
    assert_eq!(download_request("脚本.js"), "{\"action\":\"get\",\"name\":\"脚本.js\"}");
}

fn object(fields: &[(&str, &str)]) -> String {
    let mut m = serde_json::Map::new();
    for (k, v) in fields {
        m.insert(k.to_string(), serde_json::Value::String(v.to_string()));
    }
    serde_json::Value::Object(m).to_string()
}

#[test]
fn requests_match_serde_json() {
    let v = object(&[("action", "save"), ("name", "n\"1"), ("content", "c\r\u{8}")]);
    assert_eq!(upload_request("n\"1", "c\r\u{8}"), v);
    let v = object(&[("action", "get"), ("name", "x\u{1f}")]);
    assert_eq!(download_request("x\u{1f}"), v);
}

#[test]
fn refresh_watch_without_device_logs_error() {
    let mut s = ui_state(vec![]);
    let e = trigger_refresh_watch(&mut s);
    assert_eq!(e, vec![Effect::Render]);
    assert_eq!(s.logs.last().unwrap(), "[系统] 错误: 未连接到设备。");
}

#[test]
fn refresh_watch_with_device_sends_list() {
    let mut s = connected();
    let before = s.clone();
    let e = trigger_refresh_watch(&mut s);
    assert_eq!(e, vec![send("AA:BB", r#"{"action":"list"}"#)]);
    assert_eq!(s, before);
}

#[test]
fn download_delete_upload_when_connected() {
    let mut s = connected();
    let e = trigger_download(&mut s, "a.js");
    assert_eq!(e, vec![Effect::Render, send("AA:BB", r#"{"action":"get","name":"a.js"}"#)]);
    assert_eq!(s.logs.last().unwrap(), "[手表] 正在请求下载 a.js...");
    let e = trigger_delete(&mut s, "a.js");
    assert_eq!(e, vec![Effect::Render, send("AA:BB", r#"{"action":"delete","name":"a.js"}"#)]);
    assert_eq!(s.logs.last().unwrap(), "[手表] 正在请求删除 a.js...");
    let e = trigger_upload(&mut s, "b.js");
    assert_eq!(
        e,
        vec![Effect::Render, Effect::ReadForUpload { addr: "AA:BB".to_string(), name: "b.js".to_string() }]
    );
    assert_eq!(s.logs.last().unwrap(), "[PC] 正在读取并上传 b.js...");
}

#[test]
fn download_without_device_sends_nothing() {
    let mut s = ui_state(vec![]);
    assert_eq!(trigger_download(&mut s, "a.js"), vec![Effect::Render]);
    assert_eq!(trigger_delete(&mut s, "a.js"), vec![Effect::Render]);
    assert_eq!(trigger_upload(&mut s, "a.js"), vec![Effect::Render]);
    assert_eq!(s.logs.len(), 4);
    assert_eq!(s.logs[3], "[系统] 错误: 未连接到设备。");
}

#[test]
fn refresh_pc_replaces_list() {
    let mut s = connected();
    let e = trigger_refresh_pc(&mut s, strings(&["x.js"]));
    assert_eq!(e, vec![Effect::Render]);
    assert_eq!(s.pc_files, strings(&["x.js"]));
    assert_eq!(s.logs.last().unwrap(), "[PC] 本地文件列表已刷新。");
}

#[test]
fn ui_event_processor_dispatches() {
    let mut s = connected();
    assert_eq!(ui_event_processor(&mut s, true, "refresh_pc"), vec![Effect::ListPcFiles]);
    assert_eq!(ui_event_processor(&mut s, true, "refresh_watch"), vec![send("AA:BB", r#"{"action":"list"}"#)]);
    assert_eq!(
        ui_event_processor(&mut s, true, "download:a.js"),
        vec![Effect::Render, send("AA:BB", r#"{"action":"get","name":"a.js"}"#)]
    );
    let before = s.clone();
    assert_eq!(ui_event_processor(&mut s, false, "download:a.js"), vec![]);
    assert_eq!(ui_event_processor(&mut s, true, "nothing"), vec![]);
    assert_eq!(s, before);
}

#[test]
fn list_reply_replaces_watch_files() {
    let mut s = connected();
    let payload = r#"{"action":"list_res","success":true,"files":[
        {"name":"a.js","size":"12"},
        {"name":"bad.js"},
        {"name":"b.js","size":34},
        7,
        {"size":"1","name":"c.js"}]}"#;
    let e = handle_interconnect_message(&mut s, payload);
    assert_eq!(e, vec![Effect::Render]);
    assert_eq!(
        s.watch_files,
        vec![
            WatchFile { name: "a.js".to_string(), size: "12".to_string() },
            WatchFile { name: "c.js".to_string(), size: "1".to_string() },
        ]
    );
    assert_eq!(s.logs.last().unwrap(), "[手表] 成功获取手表脚本列表。");
}

#[test]
fn list_reply_without_files_only_renders() {
    let mut s = connected();
    let before = s.clone();
    let e = handle_interconnect_message(&mut s, r#"{"action":"list_res","success":true}"#);
    assert_eq!(e, vec![Effect::Render]);
    assert_eq!(s, before);
}

#[test]
fn list_reply_failure_logs_error() {
    let mut s = connected();
    handle_interconnect_message(&mut s, r#"{"action":"list_res","success":false,"error":"busy"}"#);
    assert_eq!(s.logs.last().unwrap(), "[手表] 获取列表失败: busy");
    handle_interconnect_message(&mut s, r#"{"action":"list_res","success":1}"#);
    assert_eq!(s.logs.last().unwrap(), "[手表] 获取列表失败: 未知错误");
}

#[test]
fn unparsable_or_unknown_messages_do_nothing() {
    let mut s = connected();
    let before = s.clone();
    assert_eq!(handle_interconnect_message(&mut s, "not json"), vec![]);
    assert_eq!(handle_interconnect_message(&mut s, r#"{"success":true}"#), vec![]);
    assert_eq!(handle_interconnect_message(&mut s, r#"{"action":"other_res"}"#), vec![]);
    assert_eq!(handle_interconnect_message(&mut s, r#"["list_res"]"#), vec![]);
    assert_eq!(handle_interconnect_message(&mut s, r#"{"action":5}"#), vec![]);
    assert_eq!(s, before);
}

#[test]
fn get_reply_saves_or_logs() {
    let mut s = connected();
    let e = handle_interconnect_message(&mut s, r#"{"action":"get_res","success":true,"name":"a.js","content":"x()"}"#);
    assert_eq!(e, vec![Effect::SaveDownload { name: "a.js".to_string(), content: "x()".to_string() }]);
    let e = handle_interconnect_message(&mut s, r#"{"action":"get_res","success":true}"#);
    assert_eq!(e, vec![Effect::SaveDownload { name: String::new(), content: String::new() }]);
    let e = handle_interconnect_message(&mut s, r#"{"action":"get_res","success":false,"name":"a.js","error":"gone"}"#);
    assert_eq!(e, vec![Effect::Render]);
    assert_eq!(s.logs.last().unwrap(), "[手表] 下载失败 (a.js): gone");
}

#[test]
fn save_and_delete_replies() {
    let mut s = connected();
    let e = handle_interconnect_message(&mut s, r#"{"action":"save_res","success":true,"name":"a.js"}"#);
    assert_eq!(e, vec![send("AA:BB", r#"{"action":"list"}"#)]);
    assert_eq!(s.logs.last().unwrap(), "[手表] 脚本 a.js 已成功上传/保存到手表。");
    let e = handle_interconnect_message(&mut s, r#"{"action":"save_res","success":false,"name":"a.js"}"#);
    assert_eq!(e, vec![Effect::Render]);
    assert_eq!(s.logs.last().unwrap(), "[手表] 上传失败 (a.js): 未知错误");
    let e = handle_interconnect_message(&mut s, r#"{"action":"delete_res","success":true,"name":"a.js"}"#);
    assert_eq!(e, vec![send("AA:BB", r#"{"action":"list"}"#)]);
    assert_eq!(s.logs.last().unwrap(), "[手表] 脚本 a.js 已从手表端删除。");
    let e = handle_interconnect_message(&mut s, r#"{"action":"delete_res","success":false,"name":"a.js","error":"locked"}"#);
    assert_eq!(e, vec![Effect::Render]);
    assert_eq!(s.logs.last().unwrap(), "[手表] 删除失败 (a.js): locked");
}

#[test]
fn save_reply_without_device_logs_twice() {
    let mut s = ui_state(vec![]);
    let e = handle_interconnect_message(&mut s, r#"{"action":"save_res","success":true,"name":"a.js"}"#);
    assert_eq!(e, vec![Effect::Render]);
    let n = s.logs.len();
    assert_eq!(s.logs[n - 2], "[手表] 脚本 a.js 已成功上传/保存到手表。");
    assert_eq!(s.logs[n - 1], "[系统] 错误: 未连接到设备。");
}

#[test]
fn file_operation_outcomes() {
    let mut s = connected();
    assert_eq!(on_download_saved(&mut s, "a.js", strings(&["a.js", "main.js"])), vec![Effect::Render]);
    assert_eq!(s.pc_files, strings(&["a.js", "main.js"]));
    assert_eq!(s.logs.last().unwrap(), "[PC] 脚本 a.js 已成功下载到本地工作区。");
    assert_eq!(on_download_save_failed(&mut s, "denied"), vec![Effect::Render]);
    assert_eq!(s.logs.last().unwrap(), "[PC] 保存本地文件失败: denied");
    assert_eq!(on_upload_read_failed(&mut s, "b.js", "missing"), vec![Effect::Render]);
    assert_eq!(s.logs.last().unwrap(), "[PC] 读取本地文件 b.js 失败: missing");
}

#[test]
fn device_discovery() {
    let mut s = ui_state(vec![]);
    let e = on_device_found(&mut s, "Band 9 Pro", "11:22");
    assert_eq!(s.device_addr, Some("11:22".to_string()));
    assert_eq!(s.logs.last().unwrap(), "[系统] 已发现设备: Band 9 Pro (11:22)");
    assert_eq!(e, vec![send("11:22", r#"{"action":"list"}"#)]);
    let mut t = ui_state(vec![]);
    assert_eq!(on_no_device(&mut t), vec![Effect::Render]);
    assert_eq!(t.logs.last().unwrap(), "[系统] 未找到任何连接的手表设备。请保持设备连接并刷新。");
    assert_eq!(t.device_addr, None);
}

#[test]
fn device_discovery_does_not_trim_log() {
    let mut s = ui_state(vec![]);
    for i in 0..7 {
        add_log(&mut s, &format!("{}", i));
    }
    assert_eq!(s.logs.len(), 8);
    on_device_found(&mut s, "w", "a");
    assert_eq!(s.logs.len(), 9);
    add_log(&mut s, "next");
    assert_eq!(s.logs.len(), 8);
    assert_eq!(s.logs[0], "1");
    assert_eq!(s.logs[6], "[系统] 已发现设备: w (a)");
    assert_eq!(s.logs[7], "next");
}

#[test]
fn render_main_ui_records_root() {
    let mut s = connected();
    render_main_ui(&mut s, "root-1");
    assert_eq!(s.root_element_id, Some("root-1".to_string()));
}

#[test]
fn page_content() {
    let mut s = connected();
    s.watch_files = vec![WatchFile { name: "a.js".to_string(), size: "120".to_string() }];
    let v = build_ui(&s);
    assert_eq!(v.status_text, "连接状态: 已连接至手表 (AA:BB)");
    assert_eq!(v.watch_rows.len(), 1);
    assert_eq!(v.watch_rows[0].size_label, "120 B");
    assert_eq!(v.watch_rows[0].download_event, "download:a.js");
    assert_eq!(v.watch_rows[0].delete_event, "delete:a.js");
    assert_eq!(v.watch_placeholder, None);
    assert_eq!(v.pc_rows[0].upload_event, "upload:main.js");
    assert_eq!(v.pc_placeholder, None);
    assert_eq!(v.refresh_watch_event, "refresh_watch");
    assert_eq!(v.refresh_pc_event, "refresh_pc");
    assert_eq!(v.logs, s.logs);
    assert_eq!(v.title, "JSLab 智能手表脚本管理器");
    assert_eq!(v.watch_header, "手表上的 JS 脚本");
    assert_eq!(v.pc_header, "PC 工作区 JS 文件");
    assert_eq!(v.download_label, "下载");
    assert_eq!(v.delete_label, "删除");
    assert_eq!(v.upload_label, "上传至手表");
    assert_eq!(v.refresh_watch_label, "刷新手表文件");
    assert_eq!(v.refresh_pc_label, "刷新 PC 工作区");
    assert_eq!(v.log_header, "操作日志与状态");
}

#[test]
fn page_placeholders_when_empty() {
    let s = ui_state(vec![]);
    let v = build_ui(&s);
    assert_eq!(v.status_text, "连接状态: 未连接。请在手表上打开 JSLab 并刷新。");
    assert!(v.watch_rows.is_empty());
    assert_eq!(v.watch_placeholder, Some("（无文件，或尚未获取。点击“刷新手表”获取）".to_string()));
    assert_eq!(v.pc_placeholder, Some("（工作区内没有找到 .js 文件）".to_string()));
}

#[test]
fn page_buttons_round_trip() {
    let mut s = connected();
    s.watch_files = vec![WatchFile { name: "x y.js".to_string(), size: "1".to_string() }];
    let v = build_ui(&s);
    assert_eq!(parse_ui_event(true, &v.watch_rows[0].download_event), UiCommand::Download("x y.js".to_string()));
    assert_eq!(parse_ui_event(true, &v.watch_rows[0].delete_event), UiCommand::Delete("x y.js".to_string()));
    assert_eq!(parse_ui_event(true, &v.pc_rows[0].upload_event), UiCommand::Upload("main.js".to_string()));
    assert_eq!(parse_ui_event(true, &v.refresh_watch_event), UiCommand::RefreshWatch);
    assert_eq!(parse_ui_event(true, &v.refresh_pc_event), UiCommand::RefreshPc);
}

#[test]
fn requests_only_to_connected_watch() {
    let mut s = connected();
    for id in ["download:a", "delete:b", "upload:c", "refresh_watch", "refresh_pc", "zzz"] {
        for e in ui_event_processor(&mut s, true, id) {
            match e {
                Effect::Send { addr, .. } | Effect::ReadForUpload { addr, .. } => assert_eq!(addr, "AA:BB"),
                _ => {}
            }
        }
    }
    let mut t = ui_state(vec![]);
    for id in ["download:a", "delete:b", "upload:c", "refresh_watch"] {
        assert_eq!(ui_event_processor(&mut t, true, id), vec![Effect::Render]);
    }
}

#[test]
fn page_layout_sections() {
    let mut s = connected();
    s.watch_files = vec![WatchFile { name: "a.js".to_string(), size: "9".to_string() }];
    let page = build_layout(&build_ui(&s));
    assert_eq!(page.kind, NodeKind::Div);
    assert_eq!(page.styles, vec![Style::Flex, Style::Column, Style::Padding(15), Style::WidthFull]);
    assert_eq!(page.children.len(), 4);
    let title_bar = &page.children[0];
    assert_eq!(title_bar.children.len(), 2);
    assert_eq!(title_bar.children[0].text.as_deref(), Some("JSLab 智能手表脚本管理器"));
    assert_eq!(title_bar.children[0].styles, vec![Style::Size(24)]);
    assert_eq!(title_bar.children[1].text.as_deref(), Some("连接状态: 已连接至手表 (AA:BB)"));
    let cols = &page.children[1];
    assert_eq!(cols.children.len(), 2);
    let watch_col = &cols.children[0];
    assert_eq!(watch_col.children[0].text.as_deref(), Some("手表上的 JS 脚本"));
    assert_eq!(watch_col.children.len(), 2);
    let row = &watch_col.children[1];
    assert_eq!(row.children.len(), 4);
    assert_eq!(row.children[1].text.as_deref(), Some("9 B"));
    assert_eq!(row.children[2].kind, NodeKind::Button);
    assert_eq!(row.children[2].text.as_deref(), Some("下载"));
    assert_eq!(row.children[2].on_click.as_deref(), Some("download:a.js"));
    assert_eq!(row.children[3].on_click.as_deref(), Some("delete:a.js"));
    let pc_col = &cols.children[1];
    assert_eq!(pc_col.children[0].text.as_deref(), Some("PC 工作区 JS 文件"));
    assert_eq!(pc_col.children[1].children[1].on_click.as_deref(), Some("upload:main.js"));
    let controls = &page.children[2];
    assert_eq!(controls.children.len(), 2);
    assert_eq!(controls.children[0].on_click.as_deref(), Some("refresh_watch"));
    assert_eq!(controls.children[1].text.as_deref(), Some("刷新 PC 工作区"));
    let logs = &page.children[3];
    assert_eq!(logs.children.len(), 1 + s.logs.len());
    assert_eq!(logs.children[0].text.as_deref(), Some("操作日志与状态"));
}

#[test]
fn page_layout_placeholders() {
    let s = ui_state(vec![]);
    let page = build_layout(&build_ui(&s));
    let cols = &page.children[1];
    assert_eq!(cols.children[0].children.len(), 2);
    assert_eq!(
        cols.children[0].children[1].text.as_deref(),
        Some("（无文件，或尚未获取。点击“刷新手表”获取）")
    );
    assert_eq!(cols.children[1].children[1].text.as_deref(), Some("（工作区内没有找到 .js 文件）"));
}

#[test]
fn refresh_ui_needs_root() {
    let mut s = connected();
    assert!(refresh_ui(&s).is_none());
    render_main_ui(&mut s, "root-7");
    let (root, tree) = refresh_ui(&s).unwrap();
    assert_eq!(root, "root-7");
    assert_eq!(tree.children.len(), 4);
}
