use vertere::capture::{failure_message, grim_args, paste_args, region, screenshot_image, slurp_args};
use vertere::commands::{
    api_key, parse_command, record_of, same_settings, usable_text, Command, CommandError, USAGE,
};
use vertere::images::{image_name, image_path, prune_plan, ImageFile};
use vertere::provider::{
    accepts_images, check_model, delta, image_data_url, text_request, ModelInfo, ModelProblem,
    ProviderConfig,
};
use vertere::store::{Entry, Kind, Settings};
use vertere::translate::{system_prompt, Reply};
use vertere::tray::{menu, Action, MenuEntry};
use vertere::ui::{dragged, history_meta, settings_from_form, shown_source, MODEL_REQUIRED};
use vertere::xdg::{cache_dir, config_dir, data_dir, join, socket_path, state_dir, Environment};

fn args(words: &[&str]) -> Vec<String> {
    words.iter().map(|w| w.to_string()).collect()
}

#[test]
fn parses_each_subcommand() {
    assert_eq!(parse_command(&args(&["daemon"])), Ok(Command::Daemon));
    assert_eq!(parse_command(&args(&["shot"])), Ok(Command::Shot));
    assert_eq!(parse_command(&args(&["clip"])), Ok(Command::Clip));
    assert_eq!(parse_command(&args(&["sel"])), Ok(Command::Sel));
    assert_eq!(parse_command(&args(&["settings"])), Ok(Command::Settings));
    assert_eq!(parse_command(&args(&["history"])), Ok(Command::History));
    assert_eq!(parse_command(&args(&["-h"])), Ok(Command::Help));
    assert_eq!(parse_command(&args(&["--help"])), Ok(Command::Help));
}

#[test]
fn rejects_missing_unknown_and_malformed_commands() {
    assert_eq!(parse_command(&args(&[])), Err(CommandError::Missing));
    assert_eq!(
        parse_command(&args(&["translate"])),
        Err(CommandError::Unknown("translate".into()))
    );
    assert_eq!(
        parse_command(&args(&["shot", "now"])),
        Err(CommandError::Unknown("shot".into()))
    );
    let message = CommandError::Unknown("x".into()).message();
    assert_eq!(message, format!("unknown or malformed command `x`\n\n{USAGE}"));
    assert!(CommandError::Missing.message().starts_with("missing command\n\nvertere — "));
}

#[test]
fn the_api_key_is_trimmed_and_must_not_be_blank() {
    assert_eq!(api_key(Some(" sk-abc \n".into())), Ok("sk-abc".to_string()));
    assert!(api_key(Some("   ".into())).is_err());
    assert!(api_key(None).is_err());
}

#[test]
fn blank_text_is_not_worth_translating() {
    assert_eq!(usable_text(" \n\t".into()), None);
    assert_eq!(usable_text(" hi ".into()), Some(" hi ".to_string()));
}

#[test]
fn settings_compare_field_by_field() {
    let a = Settings {
        model: "m".into(),
        ..Settings::default()
    };
    let b = Settings {
        model: "m".into(),
        ..Settings::default()
    };
    let c = Settings {
        base_url: "x".into(),
        ..b.clone()
    };
    assert!(same_settings(&a, &b));
    assert!(!same_settings(&a, &c));
}

#[test]
fn records_only_a_usable_reply() {
    let settings = Settings {
        model: "vendor/model".into(),
        ..Settings::default()
    };
    let mut reply = Reply::new();
    reply.push("  ");
    assert!(record_of(Kind::Shot, &settings, &reply).is_none());
    reply.push("你好 ⁂ Hello ");
    let record = record_of(Kind::Shot, &settings, &reply).unwrap();
    assert_eq!(record.kind, Kind::Shot);
    assert_eq!(record.model, "vendor/model");
    assert_eq!(record.target, "Simplified Chinese");
    assert_eq!(record.translated, "你好");
    assert_eq!(record.source, "Hello");
}

fn env() -> Environment {
    Environment {
        home: Some("/home/me".into()),
        ..Environment::default()
    }
}

#[test]
fn directories_default_under_home() {
    let env = env();
    assert_eq!(config_dir(&env).unwrap(), "/home/me/.config/vertere");
    assert_eq!(data_dir(&env).unwrap(), "/home/me/.local/share/vertere");
    assert_eq!(state_dir(&env).unwrap(), "/home/me/.local/state/vertere");
    assert_eq!(cache_dir(&env).unwrap(), "/home/me/.cache/vertere");
}

#[test]
fn an_xdg_variable_wins_unless_it_is_empty() {
    let env = Environment {
        xdg_config_home: Some("/cfg/".into()),
        xdg_data_home: Some("".into()),
        ..env()
    };
    assert_eq!(config_dir(&env).unwrap(), "/cfg/vertere");
    assert_eq!(data_dir(&env).unwrap(), "/home/me/.local/share/vertere");
}

#[test]
fn without_home_there_is_no_directory() {
    let env = Environment::default();
    let err = config_dir(&env).unwrap_err();
    assert_eq!(err.message(), "neither $HOME nor $XDG_* directories are set");
    let env = Environment {
        xdg_cache_home: Some("/c".into()),
        ..Environment::default()
    };
    assert_eq!(cache_dir(&env).unwrap(), "/c/vertere");
}

#[test]
fn the_socket_falls_back_to_tmp() {
    assert_eq!(socket_path(&Environment::default()), "/tmp/vertere.sock");
    let env = Environment {
        xdg_runtime_dir: Some("/run/user/1000".into()),
        ..Environment::default()
    };
    assert_eq!(socket_path(&env), "/run/user/1000/vertere.sock");
}

#[test]
fn joins_paths_like_pathbuf() {
    assert_eq!(join("", "a"), "a");
    assert_eq!(join("a/", "b"), "a/b");
    assert_eq!(join("a", "/b"), "/b");
    assert_eq!(join("a", ""), "a/");
}

#[test]
fn names_images_by_their_time() {
    assert_eq!(image_name(1700000000, 5), "1700000000-000000005.png");
    assert_eq!(image_name(0, 123456789), "0-123456789.png");
    assert_eq!(image_name(u64::MAX, 0), "18446744073709551615-000000000.png");
    assert_eq!(image_path("/c/images", "1-000000001.png"), "/c/images/1-000000001.png");
}

fn file(modified: u128, size: u64) -> ImageFile {
    ImageFile { modified, size }
}

#[test]
fn pruning_keeps_everything_under_the_limit() {
    let files = vec![file(1, 100), file(2, 100)];
    assert!(prune_plan(&files, 1024).is_empty());
    assert!(prune_plan(&files, 200).is_empty());
    assert!(prune_plan(&Vec::new(), 0).is_empty());
}

#[test]
fn pruning_deletes_the_oldest_first_and_no_more() {
    let files = vec![file(30, 100), file(10, 100), file(20, 100)];
    assert_eq!(prune_plan(&files, 150), vec![1, 2]);
    assert_eq!(prune_plan(&files, 250), vec![1]);
    assert_eq!(prune_plan(&files, 0), vec![1, 2, 0]);
}

#[test]
fn pruning_breaks_ties_by_listing_order() {
    let files = vec![file(5, 10), file(5, 10), file(5, 10)];
    assert_eq!(prune_plan(&files, 15), vec![0, 1]);
}

fn model(id: &str, kinds: Option<&[&str]>, modality: Option<&str>) -> ModelInfo {
    ModelInfo {
        id: id.into(),
        input_modalities: kinds.map(|k| k.iter().map(|s| s.to_string()).collect()),
        modality: modality.map(String::from),
    }
}

#[test]
fn accepts_images_by_the_listed_input_kinds() {
    assert!(accepts_images(&model("a", Some(&["text", "IMAGE"]), None)));
    assert!(!accepts_images(&model("a", Some(&["text"]), Some("text+image->text"))));
}

#[test]
fn accepts_images_by_the_input_side_of_the_modality() {
    assert!(accepts_images(&model("a", None, Some("text+image->text"))));
    assert!(!accepts_images(&model("a", None, Some("text->image"))));
    assert!(accepts_images(&model("a", None, Some("image"))));
    assert!(!accepts_images(&model("a", None, None)));
}

#[test]
fn checks_the_configured_model() {
    let models = vec![
        model("text/only", Some(&["text"]), None),
        model("vision/model", Some(&["text", "image"]), None),
    ];
    assert_eq!(check_model(&models, "vision/model"), Ok(()));
    assert_eq!(
        check_model(&models, "text/only"),
        Err(ModelProblem::NoImageInput("text/only".into()))
    );
    assert_eq!(
        check_model(&models, "missing"),
        Err(ModelProblem::NoSuchModel("missing".into()))
    );
    assert_eq!(
        ModelProblem::NoImageInput("m".into()).message(),
        "model m does not accept image input"
    );
}

#[test]
fn screenshots_go_as_base64_data_urls() {
    assert_eq!(image_data_url(b"fake png"), "data:image/png;base64,ZmFrZSBwbmc=");
    assert_eq!(image_data_url(b""), "data:image/png;base64,");
    assert_eq!(image_data_url(&[0xff, 0xfe]), "data:image/png;base64,//4=");
}

#[test]
fn text_goes_after_the_instruction() {
    assert_eq!(text_request("Hallo"), "Translate the following text.\n\nHallo");
}

#[test]
fn empty_chunks_are_skipped() {
    assert_eq!(delta(Some("abc")), Some("abc".to_string()));
    assert_eq!(delta(Some("")), None);
    assert_eq!(delta(None), None);
}

#[test]
fn the_provider_uses_the_defaulted_settings() {
    let settings = Settings {
        model: "vendor/model".into(),
        ..Settings::default()
    };
    let config = ProviderConfig::new(&settings);
    assert_eq!(config.model, "vendor/model");
    assert_eq!(config.base_url, "https://openrouter.ai/api/v1");
    assert_eq!(config.system_prompt, system_prompt("Simplified Chinese", "English"));
}

#[test]
fn the_tray_menu_offers_every_action() {
    let entries = menu();
    assert_eq!(entries.len(), 8);
    assert_eq!(entries[0], MenuEntry::Item("Translate a screen region", Action::Shot));
    assert_eq!(entries[3], MenuEntry::Separator);
    assert_eq!(entries[7], MenuEntry::Item("Quit", Action::Quit));
}

#[test]
fn the_settings_form_needs_a_model() {
    assert_eq!(settings_from_form("  ", "a", "b", "c"), Err(MODEL_REQUIRED));
    let settings = settings_from_form(" m ", " Japanese ", "", " https://x/v1 ").unwrap();
    assert_eq!(settings.model, "m");
    assert_eq!(settings.target_lang, "Japanese");
    assert_eq!(settings.fallback_lang, "");
    assert_eq!(settings.base_url, "https://x/v1");
}

#[test]
fn the_bubble_shows_a_source_only_once_one_arrived() {
    let mut reply = Reply::new();
    reply.push("你好");
    assert_eq!(shown_source(&reply), None);
    reply.push("⁂  ");
    assert_eq!(shown_source(&reply), None);
    reply.push("Hello");
    assert_eq!(shown_source(&reply), Some("Hello"));
}

#[test]
fn history_rows_name_the_kind_and_the_model() {
    let entry = Entry {
        id: 1,
        created_at: 2,
        kind: Kind::Clip,
        model: "vendor/model".into(),
        target: "t".into(),
        source: "s".into(),
        translated: "x".into(),
    };
    assert_eq!(history_meta(&entry), "clip · vendor/model");
}

#[test]
fn dragging_stops_at_the_edge() {
    assert_eq!(dragged(10, 5), 15);
    assert_eq!(dragged(10, -50), 0);
}

#[test]
fn capture_arguments_and_output() {
    assert_eq!(slurp_args(), vec!["-f", "%x,%y %wx%h"]);
    assert_eq!(region("10,20 300x200\n"), "10,20 300x200");
    assert_eq!(grim_args("10,20 300x200"), vec!["-g", "10,20 300x200", "-"]);
    assert_eq!(paste_args(true), vec!["--primary", "--no-newline", "--type", "text"]);
    assert_eq!(paste_args(false), vec!["--no-newline", "--type", "text"]);
    assert!(screenshot_image(Vec::new()).is_err());
    assert_eq!(screenshot_image(vec![1, 2]), Ok(vec![1, 2]));
    assert_eq!(
        failure_message("grim", "exit status: 1", "  oops\n"),
        "`grim` failed (exit status: 1): oops"
    );
    assert_eq!(
        failure_message("grim", "exit status: 1", " \n"),
        "`grim` failed (exit status: 1)"
    );
}
