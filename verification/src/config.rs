use vstd::prelude::*;
use crate::color::{Color, color_text_accepted, spec_parse_color, parse_color, color_text_is_readable};

verus! {

/// The configuration file as it is written: colours as texts.
pub struct RawConfig {
    pub colors: RawColors,
}

/// The `[colors]` table of the configuration file.
pub struct RawColors {
    pub file_panes: RawFilePanesColors,
    pub path_trail: RawPathTrailColors,
    pub prompt_bar: RawPromptBarColors,
}

/// The colours of the file panes, as texts.
pub struct RawFilePanesColors {
    pub background: String,
    pub border: String,
    pub hover: String,
    pub selected_focus: String,
    pub selected_no_focus: String,
    pub text_default: String,
    pub text_selected: String,
}

/// The colours of the path trail, as texts.
pub struct RawPathTrailColors {
    pub background: String,
    pub text_default: String,
    pub text_hovered: String,
}

/// The colours of the prompt bar, as texts.
pub struct RawPromptBarColors {
    pub background: String,
    pub text_default: String,
    pub text_hovered: String,
    pub text_prompt: String,
}

/// The configuration, with its colours read.
pub struct Config {
    pub colors: Colors,
}

/// The colours of each part of the screen.
pub struct Colors {
    pub file_panes: FilePanesColors,
    pub path_trail: PathTrailColors,
    pub prompt_bar: PromptBarColors,
}

/// The colours of the file panes.
pub struct FilePanesColors {
    pub background: Color,
    pub border: Color,
    pub hover: Color,
    pub selected_focus: Color,
    pub selected_no_focus: Color,
    pub text_default: Color,
    pub text_selected: Color,
}

/// The colours of the path trail.
pub struct PathTrailColors {
    pub background: Color,
    pub text_default: Color,
    pub text_hovered: Color,
}

/// The colours of the prompt bar.
pub struct PromptBarColors {
    pub background: Color,
    pub text_default: Color,
    pub text_hovered: Color,
    pub text_prompt: Color,
}

impl RawFilePanesColors {
    /// Whether every colour text can be read.
    pub open spec fn readable(&self) -> bool {
        &&& color_text_accepted(self.background@)
        &&& color_text_accepted(self.border@)
        &&& color_text_accepted(self.hover@)
        &&& color_text_accepted(self.selected_focus@)
        &&& color_text_accepted(self.selected_no_focus@)
        &&& color_text_accepted(self.text_default@)
        &&& color_text_accepted(self.text_selected@)
    }

    /// Whether every colour text can be read.
    pub fn is_readable(&self) -> (r: bool)
        ensures
            r == self.readable(),
    {
        color_text_is_readable(self.background.as_str()) && color_text_is_readable(
            self.border.as_str(),
        ) && color_text_is_readable(self.hover.as_str()) && color_text_is_readable(
            self.selected_focus.as_str(),
        ) && color_text_is_readable(self.selected_no_focus.as_str()) && color_text_is_readable(
            self.text_default.as_str(),
        ) && color_text_is_readable(self.text_selected.as_str())
    }
}

impl RawPathTrailColors {
    /// Whether every colour text can be read.
    pub open spec fn readable(&self) -> bool {
        &&& color_text_accepted(self.background@)
        &&& color_text_accepted(self.text_default@)
        &&& color_text_accepted(self.text_hovered@)
    }

    /// Whether every colour text can be read.
    pub fn is_readable(&self) -> (r: bool)
        ensures
            r == self.readable(),
    {
        color_text_is_readable(self.background.as_str()) && color_text_is_readable(
            self.text_default.as_str(),
        ) && color_text_is_readable(self.text_hovered.as_str())
    }
}

impl RawPromptBarColors {
    /// Whether every colour text can be read.
    pub open spec fn readable(&self) -> bool {
        &&& color_text_accepted(self.background@)
        &&& color_text_accepted(self.text_default@)
        &&& color_text_accepted(self.text_hovered@)
        &&& color_text_accepted(self.text_prompt@)
    }

    /// Whether every colour text can be read.
    pub fn is_readable(&self) -> (r: bool)
        ensures
            r == self.readable(),
    {
        color_text_is_readable(self.background.as_str()) && color_text_is_readable(
            self.text_default.as_str(),
        ) && color_text_is_readable(self.text_hovered.as_str()) && color_text_is_readable(
            self.text_prompt.as_str(),
        )
    }
}

impl RawColors {
    /// Whether every colour text can be read.
    pub open spec fn readable(&self) -> bool {
        &&& self.file_panes.readable()
        &&& self.path_trail.readable()
        &&& self.prompt_bar.readable()
    }
}

impl RawConfig {
    /// Whether every colour text can be read.
    pub open spec fn readable(&self) -> bool {
        self.colors.readable()
    }
}

impl Config {
    /// Reads every colour of the configuration.
    pub fn from_raw(raw_config: &RawConfig) -> (c: Config)
        requires
            raw_config.readable(),
        ensures
            c.colors.matches(&raw_config.colors),
    {
        Config { colors: Colors::from_raw(&raw_config.colors) }
    }

    /// Reads every colour of the configuration as `from_raw` does, or nothing
    /// where a colour text cannot be read.
    pub fn try_from_raw(raw_config: &RawConfig) -> (r: Option<Config>)
        ensures
            r is None <==> !raw_config.readable(),
            r matches Some(c) ==> c.colors.matches(&raw_config.colors),
    {
        let raw = &raw_config.colors;
        if raw.file_panes.is_readable() && raw.path_trail.is_readable()
            && raw.prompt_bar.is_readable() {
            Some(Config::from_raw(raw_config))
        } else {
            None
        }
    }
}

impl Colors {
    /// Whether each colour is the one its text stands for.
    pub open spec fn matches(&self, raw: &RawColors) -> bool {
        &&& self.file_panes.matches(&raw.file_panes)
        &&& self.path_trail.matches(&raw.path_trail)
        &&& self.prompt_bar.matches(&raw.prompt_bar)
    }

    /// Reads every colour.
    pub fn from_raw(raw_colors: &RawColors) -> (c: Colors)
        requires
            raw_colors.readable(),
        ensures
            c.matches(raw_colors),
    {
        Colors {
            file_panes: FilePanesColors::from_raw(&raw_colors.file_panes),
            path_trail: PathTrailColors::from_raw(&raw_colors.path_trail),
            prompt_bar: PromptBarColors::from_raw(&raw_colors.prompt_bar),
        }
    }
}

impl FilePanesColors {
    /// Whether each colour is the one its text stands for.
    pub open spec fn matches(&self, raw: &RawFilePanesColors) -> bool {
        &&& self.background == spec_parse_color(raw.background@)
        &&& self.border == spec_parse_color(raw.border@)
        &&& self.hover == spec_parse_color(raw.hover@)
        &&& self.selected_focus == spec_parse_color(raw.selected_focus@)
        &&& self.selected_no_focus == spec_parse_color(raw.selected_no_focus@)
        &&& self.text_default == spec_parse_color(raw.text_default@)
        &&& self.text_selected == spec_parse_color(raw.text_selected@)
    }

    /// Reads every colour.
    pub fn from_raw(raw_colors: &RawFilePanesColors) -> (c: FilePanesColors)
        requires
            raw_colors.readable(),
        ensures
            c.matches(raw_colors),
    {
        FilePanesColors {
            background: parse_color(raw_colors.background.as_str()),
            border: parse_color(raw_colors.border.as_str()),
            hover: parse_color(raw_colors.hover.as_str()),
            selected_focus: parse_color(raw_colors.selected_focus.as_str()),
            selected_no_focus: parse_color(raw_colors.selected_no_focus.as_str()),
            text_default: parse_color(raw_colors.text_default.as_str()),
            text_selected: parse_color(raw_colors.text_selected.as_str()),
        }
    }
}

impl PathTrailColors {
    /// Whether each colour is the one its text stands for.
    pub open spec fn matches(&self, raw: &RawPathTrailColors) -> bool {
        &&& self.background == spec_parse_color(raw.background@)
        &&& self.text_default == spec_parse_color(raw.text_default@)
        &&& self.text_hovered == spec_parse_color(raw.text_hovered@)
    }

    /// Reads every colour.
    pub fn from_raw(raw_colors: &RawPathTrailColors) -> (c: PathTrailColors)
        requires
            raw_colors.readable(),
        ensures
            c.matches(raw_colors),
    {
        PathTrailColors {
            background: parse_color(raw_colors.background.as_str()),
            text_default: parse_color(raw_colors.text_default.as_str()),
            text_hovered: parse_color(raw_colors.text_hovered.as_str()),
        }
    }
}

impl PromptBarColors {
    /// Whether each colour is the one its text stands for.
    pub open spec fn matches(&self, raw: &RawPromptBarColors) -> bool {
        &&& self.background == spec_parse_color(raw.background@)
        &&& self.text_default == spec_parse_color(raw.text_default@)
        &&& self.text_hovered == spec_parse_color(raw.text_hovered@)
        &&& self.text_prompt == spec_parse_color(raw.text_prompt@)
    }

    /// Reads every colour.
    pub fn from_raw(raw_colors: &RawPromptBarColors) -> (c: PromptBarColors)
        requires
            raw_colors.readable(),
        ensures
            c.matches(raw_colors),
    {
        PromptBarColors {
            background: parse_color(raw_colors.background.as_str()),
            text_default: parse_color(raw_colors.text_default.as_str()),
            text_hovered: parse_color(raw_colors.text_hovered.as_str()),
            text_prompt: parse_color(raw_colors.text_prompt.as_str()),
        }
    }
}

} // verus!
