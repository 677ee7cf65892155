use wisplet::config::{
    exe_description, home_dir_missing, icon_file_name, icon_file_path, icon_stem, inspect_app, launch_command,
    plan_load, plan_save, read_error, seed_error, suggest_title, version_query_path, write_error,
    App, LoadPlan,
};

fn wide(s: &str) -> Vec<u16> {
    s.encode_utf16().collect()
}

#[test]
fn app_records_hold_their_fields() {
    let app = App {
        id: 7,
        title: "Code".to_string(),
        path: "C:/Code.exe".to_string(),
        icon: None,
        app_type: Some("app".to_string()),
        group: Some("Dev".to_string()),
    };
    let copy = app.clone();
    assert_eq!(copy.id, 7);
    assert_eq!(copy.app_type.as_deref(), Some("app"));
}

#[test]
fn titles_prefer_the_executable_description() {
    assert_eq!(suggest_title("C:/Apps/Code.exe", Some("Visual Studio Code".to_string())), "Visual Studio Code");
    assert_eq!(suggest_title("C:/Apps/Code.EXE", None), "Code");
    assert_eq!(suggest_title("C:/Apps/Notes.lnk", Some("ignored".to_string())), "Notes");
    assert_eq!(suggest_title("", None), "");
}

#[test]
fn inspecting_an_app() {
    let s = inspect_app("/opt/game/Game.exe", None, Some("/icons/game_1.png".to_string()));
    assert_eq!(s.title, "Game");
    assert_eq!(s.icon.as_deref(), Some("/icons/game_1.png"));
    let s = inspect_app("tool.exe", Some("Tool Deluxe".to_string()), None);
    assert_eq!(s.title, "Tool Deluxe");
    assert_eq!(s.icon, None);
}

#[test]
fn version_resource_query_path() {
    assert_eq!(version_query_path(0x0409, 0x04b0), "\\StringFileInfo\\040904b0\\FileDescription");
    assert_eq!(version_query_path(0x040C, 0x04E4), "\\StringFileInfo\\040c04e4\\FileDescription");
}

#[test]
fn executable_descriptions_are_cleaned() {
    assert_eq!(exe_description(&wide("Visual Studio Code\0\0")), Some("Visual Studio Code".to_string()));
    assert_eq!(exe_description(&wide("  Spaced  \0")), Some("Spaced".to_string()));
    assert_eq!(exe_description(&wide("   \0")), None);
    assert_eq!(exe_description(&[]), None);
    assert_eq!(exe_description(&[0xD800, 0x0]), Some("\u{FFFD}".to_string()));
}

#[test]
fn icon_file_names() {
    assert_eq!(icon_stem("/opt/Apps/My App!.exe"), "my_app_");
    assert_eq!(icon_stem("/opt/Été.exe"), "Été");
    assert_eq!(icon_stem(""), "app");
    assert_eq!(icon_stem("/opt/CODE-2.exe"), "code_2");
    assert_eq!(icon_file_name("code", 1_700_000_000_000), "code_1700000000000.png");
    assert_eq!(
        icon_file_path("/home/u/.config/wisplet/icons", "/opt/Code.exe", 5),
        "/home/u/.config/wisplet/icons/code_5.png"
    );
}

#[test]
fn loading_plans() {
    assert!(matches!(plan_load(None, false, None, false), LoadPlan::Fail(m) if m == "Cannot resolve home directory"));
    assert!(matches!(plan_load(Some("/h/apps.json".to_string()), true, Some("/y".to_string()), true), LoadPlan::Read(p) if p == "/h/apps.json"));
    match plan_load(Some("/h/w/apps.json".to_string()), false, Some("/h/y/apps.json".to_string()), true) {
        LoadPlan::Seed { from, to, dir } => {
            assert_eq!(from, "/h/y/apps.json");
            assert_eq!(to, "/h/w/apps.json");
            assert_eq!(dir.as_deref(), Some("/h/w"));
        }
        _ => panic!("expected a seed plan"),
    }
    assert!(matches!(plan_load(Some("/h/apps.json".to_string()), false, Some("/y".to_string()), false), LoadPlan::Empty));
    assert!(matches!(plan_load(Some("/h/apps.json".to_string()), false, None, false), LoadPlan::Empty));
}

#[test]
fn error_messages() {
    assert_eq!(seed_error("/y/apps.json", "denied"), "Cannot seed from /y/apps.json: denied");
    assert_eq!(read_error("/a.json", "gone"), "Cannot read /a.json: gone");
    assert_eq!(write_error("/a.json.tmp", "full"), "Cannot write /a.json.tmp: full");
}

#[test]
fn saving_plans() {
    match plan_save(None) {
        Err(m) => assert_eq!(m, "Cannot resolve home directory"),
        Ok(_) => panic!("expected an error"),
    }
    match plan_save(Some("/h/.config/wisplet/apps.json".to_string())) {
        Ok(plan) => {
            assert_eq!(plan.target, "/h/.config/wisplet/apps.json");
            assert_eq!(plan.temp, "/h/.config/wisplet/apps.json.tmp");
            assert_eq!(plan.dir.as_deref(), Some("/h/.config/wisplet"));
        }
        Err(_) => panic!("expected a plan"),
    }
}

#[test]
fn launching() {
    let c = launch_command("/games/Game.exe");
    assert_eq!(c.program, "cmd");
    assert_eq!(c.args, vec!["/c", "start", "", "/B", "/games/Game.exe"]);
    assert_eq!(c.working_dir.as_deref(), Some("/games"));
    let c = launch_command("/desk/Game.LNK");
    assert_eq!(c.working_dir, None);
    let c = launch_command("Game.exe");
    assert_eq!(c.working_dir.as_deref(), Some(""));
}

#[test]
fn missing_home_message() {
    assert_eq!(home_dir_missing(), "Cannot resolve home directory");
}
