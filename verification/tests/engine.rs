use scaffold::errors::ScaffoldError;
use scaffold::exclude::ExclusionFilter;
use scaffold::materialize::{
    conflict_action, finalize_params, materialize_file, plan_entry, target_path, EntryPlan,
    Opts, ScaffoldDescription, TargetAction, TemplateDescription,
};
use scaffold::paths::{cache_dir, is_remote_location, join_components};
use scaffold::render::render_text;
use scaffold::resolver::{
    multi_select_value, prompt_plan, select_value, Parameter, ParameterType, PromptRequest,
};
use scaffold::values::{ParamMap, ParamValue};

fn widget_params() -> ParamMap {
    let mut params = ParamMap::new();
    finalize_params(&mut params, &"Widget".to_string(), &"/tmp/out/widget".to_string());
    params
}

#[test]
fn renders_name_in_content_and_file_name() {
    let params = widget_params();
    let content = render_text("Hello {{name}}", &params).unwrap();
    assert_eq!(content, "Hello Widget");
    let file_name = render_text("{{name}}.txt", &params).unwrap();
    assert_eq!(file_name, "Widget.txt");
}

#[test]
fn project_directory_is_kebab_cased() {
    let path = target_path(".", "Widget", false);
    assert_eq!(path, "./widget");
    let path = target_path("base", "MyCoolProject", false);
    assert_eq!(path, "base/my-cool-project");
}

#[test]
fn append_mode_uses_the_base_directory_itself() {
    let path = target_path("some/base", "Widget", true);
    assert_eq!(path, "some/base");
    let action = conflict_action(true, false, true, &path).unwrap();
    assert!(matches!(action, TargetAction::UseExisting));
}

#[test]
fn exclusion_patterns_skip_matching_entries_only() {
    let filter = ExclusionFilter::compile(&vec!["*.tmp".to_string()]).unwrap();
    assert!(!filter.excludes(&vec!["a.txt".to_string()]));
    assert!(filter.excludes(&vec!["b.tmp".to_string()]));

    let keep = plan_entry(&filter, "/out", &vec!["a.txt".to_string()], false);
    assert!(matches!(keep, EntryPlan::RenderFile));
    let skip = plan_entry(&filter, "/out", &vec!["b.tmp".to_string()], false);
    assert!(matches!(skip, EntryPlan::Skip));
}

#[test]
fn structural_exclusions_hold_without_patterns() {
    let filter = ExclusionFilter::compile(&Vec::new()).unwrap();
    assert!(filter.excludes(&vec![".git".to_string()]));
    assert!(filter.excludes(&vec![
        "src".to_string(),
        ".git".to_string(),
        "config".to_string(),
    ]));
    assert!(filter.excludes(&vec![".scaffold.toml".to_string()]));
    assert!(!filter.excludes(&vec!["src".to_string(), "main.rs".to_string()]));
}

#[test]
fn rendering_is_deterministic() {
    let params = widget_params();
    let first = render_text("{{name}}-{{name}}-{{target_dir}}", &params).unwrap();
    let second = render_text("{{name}}-{{name}}-{{target_dir}}", &params).unwrap();
    assert_eq!(first, second);
    assert_eq!(first, "Widget-Widget-/tmp/out/widget");
}

#[test]
fn select_with_empty_choices_fails_before_prompting() {
    let spec = Parameter {
        message: "pick a language".to_string(),
        required: true,
        kind: ParameterType::Select,
        default: None,
        values: None,
    };
    let err = prompt_plan(&"lang".to_string(), &spec).unwrap_err();
    assert!(matches!(err, ScaffoldError::EmptyChoices { .. }));

    let spec = Parameter {
        message: "pick a language".to_string(),
        required: true,
        kind: ParameterType::MultiSelect,
        default: None,
        values: Some(Vec::new()),
    };
    let err = prompt_plan(&"lang".to_string(), &spec).unwrap_err();
    assert!(matches!(err, ScaffoldError::EmptyChoices { .. }));
}

#[test]
fn select_parameter_resolves_to_the_chosen_value() {
    let spec = Parameter {
        message: "pick a language".to_string(),
        required: true,
        kind: ParameterType::Select,
        default: None,
        values: Some(vec!["go".to_string(), "rust".to_string()]),
    };
    let request = prompt_plan(&"lang".to_string(), &spec).unwrap();
    let items = match request {
        PromptRequest::Select { items, default_index, .. } => {
            assert_eq!(default_index, 0);
            items
        }
        other => panic!("expected a select request, got {:?}", other),
    };
    let value = select_value(&"lang".to_string(), &items, 1).unwrap();
    assert!(matches!(&value, ParamValue::Str(s) if s == "rust"));

    let mut params = ParamMap::new();
    params.set("lang".to_string(), value);
    finalize_params(&mut params, &"Widget".to_string(), &"/tmp/out".to_string());
    let rendered = render_text("{{lang}}", &params).unwrap();
    assert_eq!(rendered, "rust");
}

#[test]
fn select_default_points_at_the_matching_choice() {
    let spec = Parameter {
        message: "pick a language".to_string(),
        required: true,
        kind: ParameterType::Select,
        default: Some(ParamValue::Str("rust".to_string())),
        values: Some(vec!["go".to_string(), "rust".to_string()]),
    };
    let request = prompt_plan(&"lang".to_string(), &spec).unwrap();
    match request {
        PromptRequest::Select { default_index, .. } => assert_eq!(default_index, 1),
        other => panic!("expected a select request, got {:?}", other),
    }
}

#[test]
fn existing_target_without_force_is_a_conflict() {
    let path = "out".to_string();
    let err = conflict_action(false, false, true, &path).unwrap_err();
    assert!(matches!(&err, ScaffoldError::AlreadyExists { path } if path == "out"));
    assert_eq!(
        err.message(),
        "cannot create because it already exists: out"
    );

    let action = conflict_action(false, true, true, &path).unwrap();
    assert!(matches!(action, TargetAction::ReplaceThenCreate));
    let action = conflict_action(false, false, false, &path).unwrap();
    assert!(matches!(action, TargetAction::Create));
}

#[test]
fn bad_glob_pattern_is_reported() {
    let err = ExclusionFilter::compile(&vec!["a[".to_string()]).unwrap_err();
    assert!(matches!(err, ScaffoldError::BadPattern { .. }));
}

#[test]
fn out_of_range_selection_is_rejected() {
    let items = vec!["go".to_string()];
    let err = select_value(&"lang".to_string(), &items, 5).unwrap_err();
    assert!(matches!(err, ScaffoldError::InvalidChoice { .. }));
    let err = multi_select_value(&"lang".to_string(), &items, &vec![0, 3]).unwrap_err();
    assert!(matches!(err, ScaffoldError::InvalidChoice { .. }));
}

#[test]
fn malformed_template_is_a_render_error() {
    let params = widget_params();
    let err = render_text("{{#if name}}unclosed", &params).unwrap_err();
    assert!(matches!(err, ScaffoldError::Render { .. }));
}

#[test]
fn multi_select_keeps_selection_order() {
    let items = vec!["a".to_string(), "b".to_string(), "c".to_string()];
    let value = multi_select_value(&"pick".to_string(), &items, &vec![2, 0]).unwrap();
    match &value {
        ParamValue::List(chosen) => assert_eq!(chosen, &vec!["c".to_string(), "a".to_string()]),
        other => panic!("expected a list, got {:?}", other),
    }
    let mut params = ParamMap::new();
    params.set("pick".to_string(), value);
    finalize_params(&mut params, &"Widget".to_string(), &"/tmp/out".to_string());
    let rendered = render_text("{{#each pick}}{{this}}{{/each}}", &params).unwrap();
    assert_eq!(rendered, "ca");
}

#[test]
fn integers_booleans_and_floats_render_as_text() {
    let mut params = ParamMap::new();
    params.set("count".to_string(), ParamValue::Int(42));
    params.set("flag".to_string(), ParamValue::Bool(true));
    params.set("ratio".to_string(), ParamValue::Float("1.5".to_string()));
    finalize_params(&mut params, &"Widget".to_string(), &"/tmp/out".to_string());
    let rendered = render_text("{{count}} {{flag}} {{ratio}}", &params).unwrap();
    assert_eq!(rendered, "42 true 1.5");
}

#[test]
fn setting_a_parameter_twice_keeps_the_later_value() {
    let mut params = ParamMap::new();
    params.set("a".to_string(), ParamValue::Int(1));
    params.set("a".to_string(), ParamValue::Int(2));
    assert_eq!(params.len(), 1);
    match params.get(&"a".to_string()) {
        Some(ParamValue::Int(v)) => assert_eq!(*v, 2),
        other => panic!("expected the later integer, got {:?}", other),
    }
    assert!(params.get(&"missing".to_string()).is_none());
}

#[test]
fn materialize_file_renders_path_and_content() {
    let params = widget_params();
    let (dest, content) = materialize_file(
        "/out",
        &vec!["{{name}}.txt".to_string()],
        "Hello {{name}}",
        &params,
    )
    .unwrap();
    assert_eq!(dest, "/out/Widget.txt");
    assert_eq!(content, "Hello Widget");
}

#[test]
fn directories_are_planned_at_their_unrendered_path() {
    let filter = ExclusionFilter::compile(&Vec::new()).unwrap();
    let plan = plan_entry(
        &filter,
        "/out",
        &vec!["src".to_string(), "nested".to_string()],
        true,
    );
    match plan {
        EntryPlan::MakeDir { dest } => assert_eq!(dest, "/out/src/nested"),
        other => panic!("expected a directory plan, got {:?}", other),
    }
    let root = plan_entry(&filter, "/out", &Vec::new(), true);
    assert!(matches!(root, EntryPlan::Skip));
}

#[test]
fn notes_are_rendered_after_generation() {
    let desc = ScaffoldDescription::new(
        Opts {
            template_path: "tpl".to_string(),
            project_name: Some("Widget".to_string()),
            target_dir: None,
            force: false,
            append: false,
            passphrase_needed: false,
        },
        TemplateDescription {
            exclude: None,
            notes: Some("Now run {{name}}!".to_string()),
        },
        Vec::new(),
    );
    let params = widget_params();
    let notes = desc.render_notes(&params).unwrap();
    assert_eq!(notes.as_deref(), Some("Now run Widget!"));

    let silent = ScaffoldDescription::new(
        Opts {
            template_path: "tpl".to_string(),
            project_name: None,
            target_dir: None,
            force: false,
            append: false,
            passphrase_needed: false,
        },
        TemplateDescription { exclude: None, notes: None },
        Vec::new(),
    );
    assert_eq!(silent.render_notes(&params).unwrap(), None);
}

#[test]
fn remote_locations_end_in_the_repository_suffix() {
    assert!(is_remote_location("https://example.com/repo.git"));
    assert!(!is_remote_location("some/local/path"));
    assert!(!is_remote_location("git"));
    assert!(!is_remote_location("repo.gitx"));
}

#[test]
fn remote_cache_directory_is_the_digest_of_the_location() {
    let dir = cache_dir("/tmp", "https://example.com/repo.git");
    assert_eq!(dir, "/tmp/bb7493db6e4c1de982ee46164498081f");
}

#[test]
fn relative_paths_join_with_separators() {
    let joined = join_components(&vec!["a".to_string(), "b".to_string(), "c".to_string()]);
    assert_eq!(joined, "a/b/c");
    assert_eq!(join_components(&vec!["only".to_string()]), "only");
    assert_eq!(join_components(&Vec::new()), "");
}

#[test]
fn compiled_filter_reports_descriptor_exclusions() {
    let desc = ScaffoldDescription::new(
        Opts {
            template_path: "tpl".to_string(),
            project_name: None,
            target_dir: None,
            force: false,
            append: false,
            passphrase_needed: false,
        },
        TemplateDescription {
            exclude: Some(vec!["*.tmp".to_string(), "docs/**".to_string()]),
            notes: None,
        },
        Vec::new(),
    );
    let filter = desc.compile_excludes().unwrap();
    assert!(filter.excludes(&vec!["b.tmp".to_string()]));
    assert!(filter.excludes(&vec!["docs".to_string(), "guide.md".to_string()]));
    assert!(!filter.excludes(&vec!["a.txt".to_string()]));
}

#[test]
fn text_prompt_prefills_a_string_default() {
    let spec = Parameter {
        message: "project description".to_string(),
        required: false,
        kind: ParameterType::String,
        default: Some(ParamValue::Str("a project".to_string())),
        values: None,
    };
    let request = prompt_plan(&"description".to_string(), &spec).unwrap();
    match request {
        PromptRequest::Text { message, default } => {
            assert_eq!(message, "project description");
            assert_eq!(default.as_deref(), Some("a project"));
        }
        other => panic!("expected a text request, got {:?}", other),
    }
}

#[test]
fn scalar_kinds_plan_their_own_prompts() {
    for (kind, expect_confirm) in [
        (ParameterType::Integer, false),
        (ParameterType::Float, false),
        (ParameterType::Boolean, true),
    ] {
        let spec = Parameter {
            message: "how many".to_string(),
            required: false,
            kind,
            default: None,
            values: None,
        };
        let request = prompt_plan(&"count".to_string(), &spec).unwrap();
        match (&request, expect_confirm) {
            (PromptRequest::Integer { message }, false)
            | (PromptRequest::Float { message }, false)
            | (PromptRequest::Confirm { message }, true) => {
                assert_eq!(message, "how many");
            }
            other => panic!("unexpected request {:?}", other),
        }
    }
}
