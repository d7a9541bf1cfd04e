//! Editor settings that a language may override: tab size, soft wrap and
//! preferred line length.  A language's override wins where it gives a
//! value; elsewhere the editor-wide value holds.
use vstd::hash_map::StringHashMap;
use vstd::prelude::*;

verus! {

/// How long lines are wrapped.
#[derive(Clone, Copy, Debug, PartialEq, Eq, Structural)]
pub enum SoftWrap {
    /// Lines are not wrapped.
    NoWrap,
    EditorWidth,
    PreferredLineLength,
}

impl Default for SoftWrap {
    fn default() -> (w: SoftWrap)
        ensures
            w == SoftWrap::NoWrap,
    {
        SoftWrap::NoWrap
    }
}

/// The settings that one language overrides; `None` leaves the editor's.
#[derive(Clone, Copy, Debug, Default)]
pub struct LanguageOverride {
    pub tab_size: Option<u32>,
    pub soft_wrap: Option<SoftWrap>,
    pub preferred_line_length: Option<u32>,
}

/// The editor-wide settings and the overrides by language name.
pub struct Settings {
    pub tab_size: u32,
    pub soft_wrap: SoftWrap,
    pub preferred_line_length: u32,
    pub language_overrides: StringHashMap<LanguageOverride>,
}

/// The override that `overrides` holds for `language`, if any.
pub open spec fn override_for(
    overrides: Map<Seq<char>, LanguageOverride>,
    language: Option<Seq<char>>,
) -> Option<LanguageOverride> {
    match language {
        Some(name) => if overrides.contains_key(name) {
            Some(overrides[name])
        } else {
            None
        },
        None => None,
    }
}

/// The value that holds: the override's where it has one, else `default`.
pub open spec fn resolved<T>(o: Option<LanguageOverride>, pick: spec_fn(LanguageOverride) -> Option<T>, default: T) -> T {
    match o {
        Some(o) => match pick(o) {
            Some(v) => v,
            None => default,
        },
        None => default,
    }
}

pub open spec fn str_view(s: Option<&str>) -> Option<Seq<char>> {
    match s {
        Some(s) => Some(s@),
        None => None,
    }
}

/// What an override gives for a language is what was last set for it: the
/// override's value where it has one, else the editor-wide one; the other
/// languages keep what they had.
pub proof fn lemma_override_read_back<T>(
    overrides: Map<Seq<char>, LanguageOverride>,
    language: Seq<char>,
    o: LanguageOverride,
    other: Seq<char>,
    pick: spec_fn(LanguageOverride) -> Option<T>,
    default: T,
)
    requires
        other != language,
    ensures
        resolved(override_for(overrides.insert(language, o), Some(language)), pick, default)
            == match pick(o) {
            Some(v) => v,
            None => default,
        },
        override_for(overrides.insert(language, o), Some(other)) == override_for(
            overrides,
            Some(other),
        ),
{
}

/// Without an override for a language, or without a language, the
/// editor-wide value holds.
pub proof fn lemma_no_override_keeps_default<T>(
    overrides: Map<Seq<char>, LanguageOverride>,
    language: Option<Seq<char>>,
    pick: spec_fn(LanguageOverride) -> Option<T>,
    default: T,
)
    requires
        language matches Some(name) ==> !overrides.contains_key(name),
    ensures
        resolved(override_for(overrides, language), pick, default) == default,
{
}

impl Settings {
    /// Settings with the given editor-wide values and no override.
    pub fn new(tab_size: u32, soft_wrap: SoftWrap, preferred_line_length: u32) -> (s: Settings)
        ensures
            s.tab_size == tab_size,
            s.soft_wrap == soft_wrap,
            s.preferred_line_length == preferred_line_length,
            s.language_overrides@ == Map::<Seq<char>, LanguageOverride>::empty(),
    {
        Settings {
            tab_size,
            soft_wrap,
            preferred_line_length,
            language_overrides: StringHashMap::new(),
        }
    }

    fn language_override(&self, language: Option<&str>) -> (o: Option<LanguageOverride>)
        ensures
            o == override_for(self.language_overrides@, str_view(language)),
    {
        match language {
            Some(name) => match self.language_overrides.get(name) {
                Some(o) => Some(*o),
                None => None,
            },
            None => None,
        }
    }

    /// The tab size for `language` (by name), or the editor's.
    pub fn tab_size(&self, language: Option<&str>) -> (t: u32)
        ensures
            t == resolved(
                override_for(self.language_overrides@, str_view(language)),
                |o: LanguageOverride| o.tab_size,
                self.tab_size,
            ),
    {
        match self.language_override(language) {
            Some(o) => match o.tab_size {
                Some(t) => t,
                None => self.tab_size,
            },
            None => self.tab_size,
        }
    }

    /// The soft wrap for `language` (by name), or the editor's.
    pub fn soft_wrap(&self, language: Option<&str>) -> (w: SoftWrap)
        ensures
            w == resolved(
                override_for(self.language_overrides@, str_view(language)),
                |o: LanguageOverride| o.soft_wrap,
                self.soft_wrap,
            ),
    {
        match self.language_override(language) {
            Some(o) => match o.soft_wrap {
                Some(w) => w,
                None => self.soft_wrap,
            },
            None => self.soft_wrap,
        }
    }

    /// The preferred line length for `language` (by name), or the editor's.
    pub fn preferred_line_length(&self, language: Option<&str>) -> (n: u32)
        ensures
            n == resolved(
                override_for(self.language_overrides@, str_view(language)),
                |o: LanguageOverride| o.preferred_line_length,
                self.preferred_line_length,
            ),
    {
        match self.language_override(language) {
            Some(o) => match o.preferred_line_length {
                Some(n) => n,
                None => self.preferred_line_length,
            },
            None => self.preferred_line_length,
        }
    }

    /// Sets the override for the language named `language`.
    pub fn set_language_override(&mut self, language: String, o: LanguageOverride)
        ensures
            final(self).language_overrides@ == old(self).language_overrides@.insert(language@, o),
            final(self).tab_size == old(self).tab_size,
            final(self).soft_wrap == old(self).soft_wrap,
            final(self).preferred_line_length == old(self).preferred_line_length,
    {
        self.language_overrides.insert(language, o);
    }
}

} // verus!
