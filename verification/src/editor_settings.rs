//! Editor settings, resolved from layers of partial settings.

use vstd::prelude::*;

verus! {

/// The settings of an editor, every one of them decided.
#[derive(Clone, Copy, Debug, PartialEq, Eq, Structural)]
pub struct EditorSettings {
    pub cursor_blink: bool,
    pub hover_popover_enabled: bool,
    pub show_completions_on_input: bool,
    pub show_completion_documentation: bool,
    pub use_on_type_format: bool,
    pub scrollbar: Scrollbar,
    pub relative_line_numbers: bool,
}

#[derive(Copy, Clone, Debug, PartialEq, Eq, Structural)]
pub struct Scrollbar {
    pub show: ShowScrollbar,
    pub git_diff: bool,
    pub selections: bool,
}

#[derive(Copy, Clone, Debug, PartialEq, Eq, Structural)]
pub enum ShowScrollbar {
    Auto,
    System,
    Always,
    Never,
}

/// One layer of settings: each may be left undecided.
#[derive(Clone, Debug, PartialEq, Eq)]
pub struct EditorSettingsContent {
    pub cursor_blink: Option<bool>,
    pub hover_popover_enabled: Option<bool>,
    pub show_completions_on_input: Option<bool>,
    pub show_completion_documentation: Option<bool>,
    pub use_on_type_format: Option<bool>,
    pub scrollbar: Option<ScrollbarContent>,
    pub relative_line_numbers: Option<bool>,
}

#[derive(Copy, Clone, Debug, PartialEq, Eq, Structural)]
pub struct ScrollbarContent {
    pub show: Option<ShowScrollbar>,
    pub git_diff: Option<bool>,
    pub selections: Option<bool>,
}

/// A setting that no layer decides.
#[derive(Copy, Clone, Debug, PartialEq, Eq, Structural)]
pub enum MissingSetting {
    CursorBlink,
    HoverPopoverEnabled,
    ShowCompletionsOnInput,
    ShowCompletionDocumentation,
    UseOnTypeFormat,
    ScrollbarShow,
    ScrollbarGitDiff,
    ScrollbarSelections,
    RelativeLineNumbers,
}

/// The value of one setting after `over` is laid on `base`: what `over`
/// decides stands, the rest is taken from `base`.
pub open spec fn overlaid<T>(base: Option<T>, over: Option<T>) -> Option<T> {
    if over is Some {
        over
    } else {
        base
    }
}

impl ScrollbarContent {
    /// `over` laid on `self`, setting by setting.
    pub open spec fn overlaid_with(self, over: ScrollbarContent) -> ScrollbarContent {
        ScrollbarContent {
            show: overlaid(self.show, over.show),
            git_diff: overlaid(self.git_diff, over.git_diff),
            selections: overlaid(self.selections, over.selections),
        }
    }

    /// Lays `over` on `self`.
    pub fn merge(self, over: ScrollbarContent) -> (merged: ScrollbarContent)
        ensures
            merged == self.overlaid_with(over),
    {
        ScrollbarContent {
            show: if over.show.is_some() {
                over.show
            } else {
                self.show
            },
            git_diff: if over.git_diff.is_some() {
                over.git_diff
            } else {
                self.git_diff
            },
            selections: if over.selections.is_some() {
                over.selections
            } else {
                self.selections
            },
        }
    }
}

/// The scrollbar settings after `over` is laid on `base`: where both layers
/// speak of the scrollbar, they are combined setting by setting.
pub open spec fn overlaid_scrollbar(
    base: Option<ScrollbarContent>,
    over: Option<ScrollbarContent>,
) -> Option<ScrollbarContent> {
    match (base, over) {
        (Some(b), Some(o)) => Some(b.overlaid_with(o)),
        (None, Some(o)) => Some(o),
        (b, None) => b,
    }
}

impl EditorSettingsContent {
    /// The layer that decides nothing.
    pub open spec fn undecided() -> EditorSettingsContent {
        EditorSettingsContent {
            cursor_blink: None,
            hover_popover_enabled: None,
            show_completions_on_input: None,
            show_completion_documentation: None,
            use_on_type_format: None,
            scrollbar: None,
            relative_line_numbers: None,
        }
    }

    /// `over` laid on `self`, setting by setting.
    pub open spec fn overlaid_with(self, over: EditorSettingsContent) -> EditorSettingsContent {
        EditorSettingsContent {
            cursor_blink: overlaid(self.cursor_blink, over.cursor_blink),
            hover_popover_enabled: overlaid(self.hover_popover_enabled, over.hover_popover_enabled),
            show_completions_on_input: overlaid(
                self.show_completions_on_input,
                over.show_completions_on_input,
            ),
            show_completion_documentation: overlaid(
                self.show_completion_documentation,
                over.show_completion_documentation,
            ),
            use_on_type_format: overlaid(self.use_on_type_format, over.use_on_type_format),
            scrollbar: overlaid_scrollbar(self.scrollbar, over.scrollbar),
            relative_line_numbers: overlaid(self.relative_line_numbers, over.relative_line_numbers),
        }
    }

    /// Lays `over` on `self`.
    pub fn merge(&self, over: &EditorSettingsContent) -> (merged: EditorSettingsContent)
        ensures
            merged == self.overlaid_with(*over),
    {
        EditorSettingsContent {
            cursor_blink: pick(self.cursor_blink, over.cursor_blink),
            hover_popover_enabled: pick(self.hover_popover_enabled, over.hover_popover_enabled),
            show_completions_on_input: pick(
                self.show_completions_on_input,
                over.show_completions_on_input,
            ),
            show_completion_documentation: pick(
                self.show_completion_documentation,
                over.show_completion_documentation,
            ),
            use_on_type_format: pick(self.use_on_type_format, over.use_on_type_format),
            scrollbar: match (self.scrollbar, over.scrollbar) {
                (Some(b), Some(o)) => Some(b.merge(o)),
                (None, Some(o)) => Some(o),
                (b, None) => b,
            },
            relative_line_numbers: pick(self.relative_line_numbers, over.relative_line_numbers),
        }
    }
}

impl Default for EditorSettingsContent {
    fn default() -> (content: EditorSettingsContent)
        ensures
            content == EditorSettingsContent::undecided(),
    {
        EditorSettingsContent {
            cursor_blink: None,
            hover_popover_enabled: None,
            show_completions_on_input: None,
            show_completion_documentation: None,
            use_on_type_format: None,
            scrollbar: None,
            relative_line_numbers: None,
        }
    }
}

/// One switch after `over` is laid on `base`.
fn pick(base: Option<bool>, over: Option<bool>) -> (picked: Option<bool>)
    ensures
        picked == overlaid(base, over),
{
    if over.is_some() {
        over
    } else {
        base
    }
}

/// The layers combined: the defaults first, then each user layer laid on
/// what came before it, so that a later layer wins over an earlier one.
pub open spec fn layered(
    default_value: EditorSettingsContent,
    user_values: Seq<&EditorSettingsContent>,
) -> EditorSettingsContent
    decreases user_values.len(),
{
    if user_values.len() == 0 {
        default_value
    } else {
        layered(default_value, user_values.drop_last()).overlaid_with(*user_values.last())
    }
}

/// The settings that `content` decides, or the first setting, in the order
/// of declaration, that it leaves undecided.
pub open spec fn resolved(content: EditorSettingsContent) -> Result<EditorSettings, MissingSetting> {
    if content.cursor_blink is None {
        Err(MissingSetting::CursorBlink)
    } else if content.hover_popover_enabled is None {
        Err(MissingSetting::HoverPopoverEnabled)
    } else if content.show_completions_on_input is None {
        Err(MissingSetting::ShowCompletionsOnInput)
    } else if content.show_completion_documentation is None {
        Err(MissingSetting::ShowCompletionDocumentation)
    } else if content.use_on_type_format is None {
        Err(MissingSetting::UseOnTypeFormat)
    } else if content.scrollbar is None || content.scrollbar.unwrap().show is None {
        Err(MissingSetting::ScrollbarShow)
    } else if content.scrollbar.unwrap().git_diff is None {
        Err(MissingSetting::ScrollbarGitDiff)
    } else if content.scrollbar.unwrap().selections is None {
        Err(MissingSetting::ScrollbarSelections)
    } else if content.relative_line_numbers is None {
        Err(MissingSetting::RelativeLineNumbers)
    } else {
        Ok(
            EditorSettings {
                cursor_blink: content.cursor_blink.unwrap(),
                hover_popover_enabled: content.hover_popover_enabled.unwrap(),
                show_completions_on_input: content.show_completions_on_input.unwrap(),
                show_completion_documentation: content.show_completion_documentation.unwrap(),
                use_on_type_format: content.use_on_type_format.unwrap(),
                scrollbar: Scrollbar {
                    show: content.scrollbar.unwrap().show.unwrap(),
                    git_diff: content.scrollbar.unwrap().git_diff.unwrap(),
                    selections: content.scrollbar.unwrap().selections.unwrap(),
                },
                relative_line_numbers: content.relative_line_numbers.unwrap(),
            },
        )
    }
}

impl EditorSettings {
    /// The settings that a single layer decides.
    pub fn resolve(content: &EditorSettingsContent) -> (settings: Result<
        EditorSettings,
        MissingSetting,
    >)
        ensures
            settings == resolved(*content),
    {
        let cursor_blink = match content.cursor_blink {
            Some(v) => v,
            None => {
                return Err(MissingSetting::CursorBlink);
            },
        };
        let hover_popover_enabled = match content.hover_popover_enabled {
            Some(v) => v,
            None => {
                return Err(MissingSetting::HoverPopoverEnabled);
            },
        };
        let show_completions_on_input = match content.show_completions_on_input {
            Some(v) => v,
            None => {
                return Err(MissingSetting::ShowCompletionsOnInput);
            },
        };
        let show_completion_documentation = match content.show_completion_documentation {
            Some(v) => v,
            None => {
                return Err(MissingSetting::ShowCompletionDocumentation);
            },
        };
        let use_on_type_format = match content.use_on_type_format {
            Some(v) => v,
            None => {
                return Err(MissingSetting::UseOnTypeFormat);
            },
        };
        let bar = match content.scrollbar {
            Some(v) => v,
            None => {
                return Err(MissingSetting::ScrollbarShow);
            },
        };
        let show = match bar.show {
            Some(v) => v,
            None => {
                return Err(MissingSetting::ScrollbarShow);
            },
        };
        let git_diff = match bar.git_diff {
            Some(v) => v,
            None => {
                return Err(MissingSetting::ScrollbarGitDiff);
            },
        };
        let selections = match bar.selections {
            Some(v) => v,
            None => {
                return Err(MissingSetting::ScrollbarSelections);
            },
        };
        let relative_line_numbers = match content.relative_line_numbers {
            Some(v) => v,
            None => {
                return Err(MissingSetting::RelativeLineNumbers);
            },
        };
        Ok(
            EditorSettings {
                cursor_blink,
                hover_popover_enabled,
                show_completions_on_input,
                show_completion_documentation,
                use_on_type_format,
                scrollbar: Scrollbar { show, git_diff, selections },
                relative_line_numbers,
            },
        )
    }

    /// Resolves the settings from the defaults and the user's layers, the
    /// later layers winning; fails with the first setting that no layer
    /// decides.
    pub fn load(default_value: &EditorSettingsContent, user_values: &[&EditorSettingsContent]) -> (settings:
        Result<EditorSettings, MissingSetting>)
        ensures
            settings == resolved(layered(*default_value, user_values@)),
    {
        let mut merged = EditorSettingsContent::default().merge(default_value);
        let mut i: usize = 0;
        while i < user_values.len()
            invariant
                i <= user_values.len(),
                merged == layered(*default_value, user_values@.take(i as int)),
            decreases user_values.len() - i,
        {
            assert(user_values@.take(i + 1).drop_last() == user_values@.take(i as int));
            merged = merged.merge(user_values[i]);
            i += 1;
        }
        assert(user_values@.take(i as int) == user_values@);
        EditorSettings::resolve(&merged)
    }
}

/// A setting that the last layer decides is resolved as that layer says,
/// whatever the layers before it hold.
pub proof fn lemma_last_layer_wins(
    default_value: EditorSettingsContent,
    user_values: Seq<&EditorSettingsContent>,
)
    requires
        user_values.len() > 0,
    ensures
        user_values.last().cursor_blink is Some ==> layered(default_value, user_values).cursor_blink
            == user_values.last().cursor_blink,
        user_values.last().relative_line_numbers is Some ==> layered(
            default_value,
            user_values,
        ).relative_line_numbers == user_values.last().relative_line_numbers,
        user_values.last().scrollbar is Some && user_values.last().scrollbar.unwrap().show
            is Some ==> layered(default_value, user_values).scrollbar.unwrap().show
            == user_values.last().scrollbar.unwrap().show,
{
}

/// A layer that decides nothing changes nothing.
pub proof fn lemma_undecided_layer_is_neutral(content: EditorSettingsContent)
    ensures
        content.overlaid_with(EditorSettingsContent::undecided()) == content,
{
}

} // verus!
