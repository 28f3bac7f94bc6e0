use surface_dial::hypr_ipc::{check_eval_reply, lua_parser_from_version, lua_string, plan_dispatch, DispatchPlan};

#[test]
fn lua_string_plain_text_is_quoted() {
    assert_eq!(lua_string("move +col"), "\"move +col\"");
}

#[test]
fn lua_string_escapes_backslash_quote_and_newline() {
    assert_eq!(lua_string("a\"b\\c\nd"), "\"a\\\"b\\\\c\\nd\"");
}

#[test]
fn lua_string_empty() {
    assert_eq!(lua_string(""), "\"\"");
}

#[test]
fn lua_string_keeps_other_characters() {
    assert_eq!(lua_string("tab\there é"), "\"tab\there é\"");
}

fn lua_read_back(lit: &str) -> String {
    let body: Vec<char> = lit.chars().collect();
    assert!(body.len() >= 2 && body[0] == '"' && body[body.len() - 1] == '"');
    let body = &body[1..body.len() - 1];
    let mut out = String::new();
    let mut i = 0;
    while i < body.len() {
        if body[i] == '\\' && i + 1 < body.len() {
            out.push(if body[i + 1] == 'n' { '\n' } else { body[i + 1] });
            i += 2;
        } else {
            out.push(body[i]);
            i += 1;
        }
    }
    out
}

#[test]
fn lua_string_reads_back() {
    for s in ["", "x", "\\", "\"", "\n", "a\\\"\n\\n", "hl.dispatch(\"x\")"] {
        let lit = lua_string(s);
        assert!(!lit.contains('\n'));
        assert_eq!(lua_read_back(&lit), s);
    }
}

#[test]
fn version_055_uses_lua() {
    assert!(lua_parser_from_version(true, "Hyprland 0.55.1 built from branch main at commit abc\nDate: x\n"));
}

#[test]
fn version_054_is_legacy() {
    assert!(!lua_parser_from_version(true, "Hyprland 0.54.2 built from branch main\n"));
}

#[test]
fn version_major_one_uses_lua() {
    assert!(lua_parser_from_version(true, "Hyprland 1.0.0 built"));
}

#[test]
fn failed_probe_is_legacy() {
    assert!(!lua_parser_from_version(false, "Hyprland 0.60.0 built"));
}

#[test]
fn empty_or_short_output_is_legacy() {
    assert!(!lua_parser_from_version(true, ""));
    assert!(!lua_parser_from_version(true, "Hyprland"));
    assert!(!lua_parser_from_version(true, "Hyprland   \n0.60.0"));
    assert!(!lua_parser_from_version(true, "\nHyprland 0.60.0"));
}

#[test]
fn version_edge_cases() {
    // leading white space and a CRLF line end
    assert!(lua_parser_from_version(true, "  Hyprland\t0.60.0\r\nmore"));
    // no minor number
    assert!(!lua_parser_from_version(true, "Hyprland 0"));
    // an unreadable major counts as 0, the minor still decides
    assert!(lua_parser_from_version(true, "Hyprland v0.55"));
    assert!(!lua_parser_from_version(true, "Hyprland v1.2"));
    // a leading plus is accepted
    assert!(lua_parser_from_version(true, "Hyprland 0.+55.1"));
    // a minor beyond u32 cannot be read and counts as 0
    assert!(!lua_parser_from_version(true, "Hyprland 0.99999999999.0"));
    assert!(lua_parser_from_version(true, "Hyprland 0.4294967295.0"));
    // only the first line counts
    assert!(!lua_parser_from_version(true, "Hyprland 0.40.0\nHyprland 0.60.0"));
    // non-ASCII white space separates words too
    assert!(lua_parser_from_version(true, "Hyprland\u{3000}0.55"));
}

#[test]
fn eval_reply_ok() {
    assert_eq!(check_eval_reply("ok"), Ok(()));
    assert_eq!(check_eval_reply(""), Ok(()));
    assert_eq!(check_eval_reply("Error: case matters"), Ok(()));
    assert_eq!(check_eval_reply("error"), Ok(()));
    assert_eq!(check_eval_reply("ok\nerror: later"), Ok(()));
}

#[test]
fn eval_reply_error() {
    assert_eq!(
        check_eval_reply("  error: unknown field zoom \n"),
        Err("hyprctl eval: error: unknown field zoom".to_string())
    );
    assert_eq!(check_eval_reply("error:"), Err("hyprctl eval: error:".to_string()));
}

#[test]
fn dispatch_legacy() {
    assert_eq!(plan_dispatch(false, "layoutmsg", "move +col"), Ok(DispatchPlan::Legacy));
    assert_eq!(plan_dispatch(false, "workspace", "1"), Ok(DispatchPlan::Legacy));
}

#[test]
fn dispatch_layoutmsg_under_lua() {
    assert_eq!(
        plan_dispatch(true, "layoutmsg", "move +col"),
        Ok(DispatchPlan::Eval("hl.dispatch(hl.dsp.layout(\"move +col\"))".to_string()))
    );
    assert_eq!(
        plan_dispatch(true, "layoutmsg", "say \"hi\""),
        Ok(DispatchPlan::Eval("hl.dispatch(hl.dsp.layout(\"say \\\"hi\\\"\"))".to_string()))
    );
}

#[test]
fn dispatch_unmapped_under_lua() {
    assert_eq!(
        plan_dispatch(true, "workspace", "1"),
        Err("no Lua mapping for legacy dispatcher 'workspace'; add a case in hypr_ipc::hypr_dispatch".to_string())
    );
}
