use vstd::prelude::*;

verus! {

/// A loaded configuration snapshot: editor-wide settings that modes and
/// presenters read. The snapshot is read-only between reloads, and a
/// reload replaces it wholesale — no caller ever mutates it field by
/// field, so no reader can observe a mixture of two configurations.
pub struct Preferences {
    pub theme: String,
    pub tab_width: usize,
    pub line_length_guide: Option<usize>,
}

/// The mathematical value of a configuration snapshot.
pub struct PreferencesView {
    pub theme: Seq<char>,
    pub tab_width: usize,
    pub line_length_guide: Option<usize>,
}

impl View for Preferences {
    type V = PreferencesView;

    open spec fn view(&self) -> PreferencesView {
        PreferencesView {
            theme: self.theme@,
            tab_width: self.tab_width,
            line_length_guide: self.line_length_guide,
        }
    }
}

/// The snapshot every field of a default configuration holds, with the
/// theme optionally overridden.
pub open spec fn default_view(theme_override: Option<Seq<char>>) -> PreferencesView {
    PreferencesView {
        theme: match theme_override {
            Option::Some(t) => t,
            Option::None => "solarized_dark"@,
        },
        tab_width: 2usize,
        line_length_guide: Option::Some(80usize),
    }
}

impl Preferences {
    /// A built-in default configuration; never fails, so a failed load
    /// of the persisted configuration can always fall back on it.
    pub fn new(theme_override: Option<String>) -> (r: Preferences)
        ensures
            r@ == default_view(match theme_override {
                Option::Some(t) => Option::Some(t@),
                Option::None => Option::None,
            }),
    {
        let theme = match theme_override {
            Option::Some(t) => t,
            Option::None => "solarized_dark".to_owned(),
        };
        Preferences { theme, tab_width: 2, line_length_guide: Option::Some(80) }
    }

    /// Replaces the whole snapshot with a freshly loaded one, atomically:
    /// afterwards every field is the new snapshot's field, so a reader
    /// can never see part of the old configuration beside part of the new.
    pub fn reload(&mut self, loaded: Preferences)
        ensures
            *final(self) == loaded,
            final(self)@ == loaded@,
    {
        *self = loaded;
    }
}

/// The configuration the editor starts with: the persisted snapshot when
/// one could be loaded, the built-in defaults otherwise. A failed load is
/// therefore never fatal to startup.
pub fn initialize_preferences(loaded: Option<Preferences>) -> (r: Preferences)
    ensures
        match loaded {
            Option::Some(p) => r == p,
            Option::None => r@ == default_view(Option::None),
        },
{
    match loaded {
        Option::Some(p) => p,
        Option::None => Preferences::new(Option::None),
    }
}

} // verus!
