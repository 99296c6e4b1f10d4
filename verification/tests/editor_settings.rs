use agent_eval::editor_settings::{
    EditorSettings, EditorSettingsContent, MissingSetting, Scrollbar, ScrollbarContent,
    ShowScrollbar,
};

fn defaults() -> EditorSettingsContent {
    EditorSettingsContent {
        cursor_blink: Some(true),
        hover_popover_enabled: Some(true),
        show_completions_on_input: Some(true),
        show_completion_documentation: Some(true),
        use_on_type_format: Some(true),
        scrollbar: Some(ScrollbarContent {
            show: Some(ShowScrollbar::Auto),
            git_diff: Some(true),
            selections: Some(true),
        }),
        relative_line_numbers: Some(false),
    }
}

#[test]
fn default_content_decides_nothing() {
    let content = EditorSettingsContent::default();
    assert_eq!(content.cursor_blink, None);
    assert_eq!(content.hover_popover_enabled, None);
    assert_eq!(content.show_completions_on_input, None);
    assert_eq!(content.show_completion_documentation, None);
    assert_eq!(content.use_on_type_format, None);
    assert_eq!(content.scrollbar, None);
    assert_eq!(content.relative_line_numbers, None);
}

#[test]
fn defaults_alone_resolve() {
    let settings = EditorSettings::load(&defaults(), &[]);
    assert_eq!(
        settings,
        Ok(EditorSettings {
            cursor_blink: true,
            hover_popover_enabled: true,
            show_completions_on_input: true,
            show_completion_documentation: true,
            use_on_type_format: true,
            scrollbar: Scrollbar { show: ShowScrollbar::Auto, git_diff: true, selections: true },
            relative_line_numbers: false,
        })
    );
}

#[test]
fn user_layer_overrides_what_it_decides() {
    let user = EditorSettingsContent {
        cursor_blink: Some(false),
        scrollbar: Some(ScrollbarContent { show: Some(ShowScrollbar::Never), git_diff: None, selections: None }),
        ..EditorSettingsContent::default()
    };
    let settings = EditorSettings::load(&defaults(), &[&user]).unwrap();
    assert!(!settings.cursor_blink);
    assert!(settings.hover_popover_enabled);
    assert_eq!(settings.scrollbar.show, ShowScrollbar::Never);
    assert!(settings.scrollbar.git_diff);
    assert!(settings.scrollbar.selections);
    assert!(!settings.relative_line_numbers);
}

#[test]
fn later_layer_wins() {
    let first = EditorSettingsContent {
        cursor_blink: Some(false),
        relative_line_numbers: Some(true),
        scrollbar: Some(ScrollbarContent { show: Some(ShowScrollbar::Always), git_diff: Some(false), selections: None }),
        ..EditorSettingsContent::default()
    };
    let second = EditorSettingsContent {
        cursor_blink: Some(true),
        scrollbar: Some(ScrollbarContent { show: Some(ShowScrollbar::System), git_diff: None, selections: Some(false) }),
        ..EditorSettingsContent::default()
    };
    let settings = EditorSettings::load(&defaults(), &[&first, &second]).unwrap();
    assert!(settings.cursor_blink);
    assert!(settings.relative_line_numbers);
    assert_eq!(
        settings.scrollbar,
        Scrollbar { show: ShowScrollbar::System, git_diff: false, selections: false }
    );
    let settings = EditorSettings::load(&defaults(), &[&second, &first]).unwrap();
    assert!(!settings.cursor_blink);
    assert_eq!(
        settings.scrollbar,
        Scrollbar { show: ShowScrollbar::Always, git_diff: false, selections: false }
    );
}

#[test]
fn undecided_setting_is_an_error() {
    let empty = EditorSettingsContent::default();
    assert_eq!(EditorSettings::load(&empty, &[]), Err(MissingSetting::CursorBlink));
    let mut partial = defaults();
    partial.use_on_type_format = None;
    assert_eq!(EditorSettings::load(&partial, &[&empty]), Err(MissingSetting::UseOnTypeFormat));
    let mut partial = defaults();
    partial.scrollbar = None;
    assert_eq!(EditorSettings::load(&partial, &[]), Err(MissingSetting::ScrollbarShow));
    let mut partial = defaults();
    partial.scrollbar = Some(ScrollbarContent { show: Some(ShowScrollbar::Auto), git_diff: None, selections: None });
    assert_eq!(EditorSettings::load(&partial, &[]), Err(MissingSetting::ScrollbarGitDiff));
    partial.scrollbar = Some(ScrollbarContent { show: Some(ShowScrollbar::Auto), git_diff: Some(true), selections: None });
    assert_eq!(EditorSettings::load(&partial, &[]), Err(MissingSetting::ScrollbarSelections));
    let mut partial = defaults();
    partial.relative_line_numbers = None;
    assert_eq!(EditorSettings::load(&partial, &[]), Err(MissingSetting::RelativeLineNumbers));
    let fills = EditorSettingsContent { relative_line_numbers: Some(true), ..EditorSettingsContent::default() };
    assert!(EditorSettings::load(&partial, &[&fills]).is_ok());
}

#[test]
fn first_undecided_setting_is_the_one_reported() {
    let mut partial = defaults();
    partial.hover_popover_enabled = None;
    partial.show_completions_on_input = None;
    partial.relative_line_numbers = None;
    assert_eq!(EditorSettings::resolve(&partial), Err(MissingSetting::HoverPopoverEnabled));
    partial.hover_popover_enabled = Some(false);
    assert_eq!(EditorSettings::resolve(&partial), Err(MissingSetting::ShowCompletionsOnInput));
    partial.show_completions_on_input = Some(false);
    partial.show_completion_documentation = None;
    assert_eq!(EditorSettings::resolve(&partial), Err(MissingSetting::ShowCompletionDocumentation));
}

#[test]
fn merge_lays_one_layer_on_another() {
    let base = ScrollbarContent { show: Some(ShowScrollbar::Auto), git_diff: None, selections: Some(true) };
    let over = ScrollbarContent { show: None, git_diff: Some(false), selections: Some(false) };
    assert_eq!(
        base.merge(over),
        ScrollbarContent { show: Some(ShowScrollbar::Auto), git_diff: Some(false), selections: Some(false) }
    );
    let merged = defaults().merge(&EditorSettingsContent::default());
    assert_eq!(merged, defaults());
    let merged = EditorSettingsContent::default().merge(&defaults());
    assert_eq!(merged, defaults());
}
