//! The settings of the window: language, theme, and where reports are kept.

use crate::config;
use crate::config::{
    default_developer_log_dir, default_report_history_dir, default_report_path, expand_env_path,
    AppConfig, DataPath, PathRoot, Surroundings,
};
use crate::error::MemSparkError;
use crate::text;
use crate::ui_texts::{UiLanguage, UiTexts};
use vstd::prelude::*;

verus! {

/// The settings that are kept for the window.
#[derive(Debug)]
pub struct UiSettings {
    pub language: UiLanguage,
    pub theme: String,
}

impl Clone for UiSettings {
    fn clone(&self) -> (r: UiSettings)
        ensures
            r == *self,
    {
        UiSettings { language: self.language, theme: self.theme.clone() }
    }
}

/// The settings where none are kept, in the language of the system.
pub fn default_ui_settings(detected: UiLanguage) -> (r: UiSettings)
    ensures
        r.language == detected,
        r.theme@ == "dark"@,
{
    UiSettings { language: detected, theme: "dark".to_owned() }
}

// ---------------------------------------------------------------------------
// Languages and themes
// ---------------------------------------------------------------------------

/// The language that a text names, letter case and surrounding white space aside.
pub open spec fn named_language(value: Seq<char>) -> Option<UiLanguage> {
    let name = text::lowered(text::trimmed(value));
    if name == "zh"@ || name == "zh-cn"@ || name == "cn"@ {
        Some(UiLanguage::ZhCn)
    } else if name == "en"@ || name == "en-us"@ {
        Some(UiLanguage::EnUs)
    } else {
        None
    }
}

/// Reads a language.
pub fn parse_ui_language(value: &str) -> (r: Option<UiLanguage>)
    ensures
        r == named_language(value@),
{
    let trimmed: String = text::trim_text(value);
    let name: String = text::lower_text(trimmed.as_str());
    if text::same_text(name.as_str(), "zh") || text::same_text(name.as_str(), "zh-cn")
        || text::same_text(name.as_str(), "cn") {
        Some(UiLanguage::ZhCn)
    } else if text::same_text(name.as_str(), "en") || text::same_text(name.as_str(), "en-us") {
        Some(UiLanguage::EnUs)
    } else {
        None
    }
}

/// The code of a language.
pub open spec fn language_code(language: UiLanguage) -> Seq<char> {
    match language {
        UiLanguage::ZhCn => "zh-CN"@,
        UiLanguage::EnUs => "en-US"@,
    }
}

/// Gives the code of a language.
pub fn ui_language_code(language: UiLanguage) -> (r: &'static str)
    ensures
        r@ == language_code(language),
{
    match language {
        UiLanguage::ZhCn => "zh-CN",
        UiLanguage::EnUs => "en-US",
    }
}

/// The theme that a text names, letter case and surrounding white space aside.
pub open spec fn named_theme(value: Seq<char>) -> Option<Seq<char>> {
    let name = text::lowered(text::trimmed(value));
    if name == "dark"@ || name == "light"@ {
        Some(name)
    } else {
        None
    }
}

/// Reads a theme.
pub fn parse_ui_theme(value: &str) -> (r: Option<&'static str>)
    ensures
        config::option_view(r) == named_theme(value@),
{
    let trimmed: String = text::trim_text(value);
    let name: String = text::lower_text(trimmed.as_str());
    if text::same_text(name.as_str(), "dark") {
        Some("dark")
    } else if text::same_text(name.as_str(), "light") {
        Some("light")
    } else {
        None
    }
}

// ---------------------------------------------------------------------------
// Reading and writing
// ---------------------------------------------------------------------------

/// Settings as language and theme.
pub struct SettingsView {
    pub language: UiLanguage,
    pub theme: Seq<char>,
}

impl UiSettings {
    /// The settings as language and theme.
    pub open spec fn view(self) -> SettingsView {
        SettingsView { language: self.language, theme: self.theme@ }
    }
}

/// Settings with what a line says: a key, an equals sign and a value, which may be quoted. Lines
/// with other keys, or with values that name nothing, change nothing.
pub open spec fn with_line(settings: SettingsView, line: Seq<char>) -> SettingsView {
    match text::cut(line, '=') {
        None => settings,
        Some((key, value)) => {
            let plain = text::unquoted(text::trimmed(value), '"');
            if text::trimmed(key) == "language"@ {
                match named_language(plain) {
                    Some(language) => SettingsView { language, ..settings },
                    None => settings,
                }
            } else if text::trimmed(key) == "theme"@ {
                match named_theme(plain) {
                    Some(theme) => SettingsView { theme, ..settings },
                    None => settings,
                }
            } else {
                settings
            }
        },
    }
}

/// Settings with what lines say, one after the other.
pub open spec fn with_lines(settings: SettingsView, lines: Seq<Seq<char>>) -> SettingsView
    decreases lines.len(),
{
    if lines.len() == 0 {
        settings
    } else {
        with_line(with_lines(settings, lines.drop_last()), lines.last())
    }
}

/// Takes in what a line says.
fn take_line(settings: &mut UiSettings, line: &str)
    ensures
        final(settings)@ == with_line(old(settings)@, line@),
{
    if let Some((key, value)) = text::cut_text(line, '=') {
        let name: String = text::trim_text(key.as_str());
        let trimmed: String = text::trim_text(value.as_str());
        let plain: String = text::unquote_text(trimmed.as_str(), '"');
        if text::same_text(name.as_str(), "language") {
            if let Some(language) = parse_ui_language(plain.as_str()) {
                settings.language = language;
            }
        } else if text::same_text(name.as_str(), "theme") {
            if let Some(theme) = parse_ui_theme(plain.as_str()) {
                settings.theme = theme.to_owned();
            }
        }
    }
}

/// Reads kept settings; where there are none, the defaults hold.
pub fn load_ui_settings(defaults: UiSettings, content: Option<&str>) -> (r: UiSettings)
    ensures
        r@ == match content {
            Some(content) => with_lines(defaults@, text::lines(content@)),
            None => defaults@,
        },
{
    let mut settings: UiSettings = defaults;
    if let Some(content) = content {
        let lines: Vec<String> = text::split_lines(content);
        let ghost all = text::views(lines@);
        let ghost start = settings@;
        let mut i: usize = 0;
        while i < lines.len()
            invariant
                i <= lines@.len(),
                all == text::views(lines@),
                settings@ == with_lines(start, all.take(i as int)),
            decreases lines@.len() - i,
        {
            assert(all.take(i + 1).drop_last() =~= all.take(i as int));
            assert(all[i as int] == lines@[i as int]@);
            take_line(&mut settings, lines[i].as_str());
            i = i + 1;
        }
        assert(all.take(i as int) =~= all);
    }
    settings
}

/// Settings as they are kept.
pub open spec fn settings_text(settings: SettingsView) -> Seq<char> {
    "language = \""@ + language_code(settings.language) + "\"\ntheme = \""@ + settings.theme
        + "\"\n"@
}

/// Writes settings as they are kept.
pub fn save_ui_settings(settings: &UiSettings) -> (r: String)
    ensures
        r@ == settings_text(settings@),
{
    let mut r: String = "language = \"".to_owned();
    r.append(ui_language_code(settings.language));
    r.append("\"\ntheme = \"");
    r.append(settings.theme.as_str());
    r.append("\"\n");
    r
}

// ---------------------------------------------------------------------------
// The draft
// ---------------------------------------------------------------------------

/// The settings as they are being changed.
#[derive(Debug)]
pub struct SettingsDraft {
    pub language: UiLanguage,
    pub theme: String,
    pub report_path: DataPath,
    pub report_history_dir: DataPath,
    pub developer_log_dir: DataPath,
}

/// Whether `path` is a configured path with variables put in.
pub open spec fn is_expanded(path: DataPath, setting: Seq<char>, app_data: Option<Seq<char>>) -> bool {
    &&& path.root matches PathRoot::Literal(literal)
    &&& literal@ == config::expanded(setting, app_data)
    &&& path.components@.len() == 0
}

/// Puts variables into a configured path.
fn expanded_path(setting: &str, app_data: Option<&str>) -> (r: DataPath)
    ensures
        is_expanded(r, setting@, config::option_view(app_data)),
{
    DataPath {
        root: PathRoot::Literal(expand_env_path(setting, app_data)),
        components: Vec::new(),
    }
}

/// Whether `draft` starts out from the settings and the configured paths.
pub open spec fn is_configured_draft(
    draft: SettingsDraft,
    settings: UiSettings,
    config: AppConfig,
    app_data: Option<Seq<char>>,
) -> bool {
    &&& draft.language == settings.language
    &&& draft.theme == settings.theme
    &&& is_expanded(draft.report_path, config.report.last_report_path@, app_data)
    &&& is_expanded(draft.report_history_dir, config.report.history_report_dir@, app_data)
    &&& is_expanded(draft.developer_log_dir, config.report.developer_log_dir@, app_data)
}

/// Starts a draft from the settings and the configured paths.
pub fn configured_draft(settings: &UiSettings, config: &AppConfig, app_data: Option<&str>) -> (r:
    SettingsDraft)
    ensures
        is_configured_draft(r, *settings, *config, config::option_view(app_data)),
{
    SettingsDraft {
        language: settings.language,
        theme: settings.theme.clone(),
        report_path: expanded_path(config.report.last_report_path.as_str(), app_data),
        report_history_dir: expanded_path(config.report.history_report_dir.as_str(), app_data),
        developer_log_dir: expanded_path(config.report.developer_log_dir.as_str(), app_data),
    }
}

/// Starts a draft from the settings and the configuration; without a configuration the default
/// places are shown.
pub fn load_settings_draft(
    settings: &UiSettings,
    config: &Result<AppConfig, MemSparkError>,
    app_data: Option<&str>,
    around: Surroundings,
) -> (r: SettingsDraft)
    ensures
        match *config {
            Ok(config) => is_configured_draft(
                r,
                *settings,
                config,
                config::option_view(app_data),
            ),
            Err(_) => {
                &&& r.language == settings.language
                &&& r.theme == settings.theme
                &&& r.report_path.is_app_path(around, seq!["last_report.json"@])
                &&& r.report_history_dir.is_app_path(around, seq!["history"@])
                &&& r.developer_log_dir.is_app_path(around, seq!["logs"@])
            },
        },
{
    match config {
        Ok(config) => configured_draft(settings, config, app_data),
        Err(_) => SettingsDraft {
            language: settings.language,
            theme: settings.theme.clone(),
            report_path: default_report_path(around),
            report_history_dir: default_report_history_dir(around),
            developer_log_dir: default_developer_log_dir(around),
        },
    }
}

/// Writes where reports and logs are kept.
pub fn report_paths_text(texts: &UiTexts, report: &str, history: &str, logs: &str) -> (r: String)
    ensures
        r@ == texts.report_path_last_report@ + ": "@ + report@ + "\n"@
            + texts.report_path_history_dir@ + ": "@ + history@ + "\n"@
            + texts.report_path_developer_logs@ + ": "@ + logs@,
{
    let mut r: String = texts.report_path_last_report.to_owned();
    r.append(": ");
    r.append(report);
    r.append("\n");
    r.append(texts.report_path_history_dir);
    r.append(": ");
    r.append(history);
    r.append("\n");
    r.append(texts.report_path_developer_logs);
    r.append(": ");
    r.append(logs);
    r
}

// ---------------------------------------------------------------------------
// Laws
// ---------------------------------------------------------------------------

/// Every language is known by its code.
pub proof fn language_codes_are_understood(language: UiLanguage)
    ensures
        named_language(language_code(language)) == Some(language),
{
    reveal_strlit("zh-CN");
    reveal_strlit("zh-cn");
    reveal_strlit("en-US");
    reveal_strlit("en-us");
    reveal_strlit("zh");
    reveal_strlit("cn");
    let code = language_code(language);
    assert(text::trimmed(code) == code);
    match language {
        UiLanguage::ZhCn => {
            assert(text::lowered(code) =~= "zh-cn"@);
        },
        UiLanguage::EnUs => {
            assert(text::lowered(code) =~= "en-us"@);
            assert("en-us"@[0] != "zh-cn"@[0]);
        },
    }
}

/// Two lines, each ended by a line feed, are read as two lines.
proof fn lemma_two_lines(a: Seq<char>, b: Seq<char>)
    requires
        a.len() > 0,
        b.len() > 0,
        a.last() == '"',
        b.last() == '"',
        forall|i: int| 0 <= i < a.len() ==> #[trigger] a[i] != '\n',
        forall|i: int| 0 <= i < b.len() ==> #[trigger] b[i] != '\n',
    ensures
        text::lines(a + seq!['\n'] + b + seq!['\n']) == seq![a, b],
{
    let s = a + seq!['\n'] + b + seq!['\n'];
    let rest = b + seq!['\n'];
    let nothing = Seq::<char>::empty();
    let k = a.len() as int;
    assert forall|i: int| 0 <= i < k implies #[trigger] s[i] != '\n' by {
        assert(s[i] == a[i]);
    }
    text::lemma_first_index(s, '\n', k);
    assert(s.take(k) =~= a);
    assert(s.skip(k + 1) =~= rest);
    let m = b.len() as int;
    assert forall|i: int| 0 <= i < m implies #[trigger] rest[i] != '\n' by {
        assert(rest[i] == b[i]);
    }
    text::lemma_first_index(rest, '\n', m);
    assert(rest.take(m) =~= b);
    assert(rest.skip(m + 1) =~= nothing);
    assert(text::pieces(nothing, '\n') =~= seq![nothing]);
    assert(text::pieces(rest, '\n') =~= seq![b, nothing]);
    assert(text::pieces(s, '\n') =~= seq![a, b, nothing]);
    assert(text::lines(s) =~= seq![a, b]);
}

/// A line with a key, a space on either side of the equals sign and a quoted value says that
/// value.
proof fn lemma_setting_line(key: Seq<char>, value: Seq<char>)
    requires
        key.len() > 0,
        value.len() > 0,
        forall|i: int| 0 <= i < key.len() ==> #[trigger] key[i] != '=',
        !text::is_white_space(key[0]),
        !text::is_white_space(key.last()),
        value[0] != '"',
        value.last() != '"',
    ensures
        ({
            let line = key + seq![' ', '=', ' ', '"'] + value + seq!['"'];
            &&& text::cut(line, '=') matches Some((left, right))
            &&& text::trimmed(left) == key
            &&& text::unquoted(text::trimmed(right), '"') == value
        }),
{
    let line = key + seq![' ', '=', ' ', '"'] + value + seq!['"'];
    let k = key.len() + 1;
    let white = |c: char| text::is_white_space(c);
    assert forall|i: int| 0 <= i < k implies #[trigger] line[i] != '=' by {
        if i < key.len() {
            assert(line[i] == key[i]);
        }
    }
    text::lemma_first_index(line, '=', k as int);
    let left = line.take(k as int);
    let right = line.skip(k as int + 1);
    let quoted = seq!['"'] + value + seq!['"'];
    assert(left =~= key.push(' '));
    assert(right =~= seq![' '] + quoted);
    assert(left[0] == key[0]);
    assert(text::stripped_front(left, white) == left);
    assert(left.drop_last() =~= key);
    assert(text::stripped_back(key, white) == key);
    assert(right.skip(1) =~= quoted);
    assert(text::stripped_front(quoted, white) == quoted);
    assert(text::stripped_front(right, white) == quoted);
    assert(text::stripped_back(quoted, white) == quoted);
    let test = text::is_char('"');
    let opened = value + seq!['"'];
    assert(quoted.skip(1) =~= opened);
    assert(opened[0] == value[0]);
    assert(text::stripped_front(opened, test) == opened);
    assert(text::stripped_front(quoted, test) == opened);
    assert(opened.drop_last() =~= value);
    assert(text::stripped_back(value, test) == value);
    assert(text::stripped_back(opened, test) == value);
}

/// Settings are kept: what is read back from written settings are the settings, whatever the
/// defaults, for the themes that there are.
pub proof fn settings_round_trip(settings: SettingsView, defaults: SettingsView)
    requires
        settings.theme == "dark"@ || settings.theme == "light"@,
    ensures
        with_lines(defaults, text::lines(settings_text(settings))) == settings,
{
    reveal_strlit("language = \"");
    reveal_strlit("\"\ntheme = \"");
    reveal_strlit("\"\n");
    reveal_strlit("language");
    reveal_strlit("theme");
    reveal_strlit("dark");
    reveal_strlit("light");
    reveal_strlit("zh-CN");
    reveal_strlit("en-US");
    let code = language_code(settings.language);
    let middle = seq![' ', '=', ' ', '"'];
    let a = "language"@ + middle + code + seq!['"'];
    let b = "theme"@ + middle + settings.theme + seq!['"'];
    assert(settings_text(settings) =~= a + seq!['\n'] + b + seq!['\n']);
    lemma_two_lines(a, b);
    lemma_setting_line("language"@, code);
    lemma_setting_line("theme"@, settings.theme);
    language_codes_are_understood(settings.language);
    assert(text::trimmed(settings.theme) == settings.theme);
    assert(text::lowered(settings.theme) =~= settings.theme);
    let lines = seq![a, b];
    assert(lines.drop_last() =~= seq![a]);
    assert(lines.drop_last().drop_last() =~= Seq::empty());
    assert(with_lines(defaults, seq![a].drop_last()) == defaults);
    assert(with_lines(defaults, seq![a]) == with_line(defaults, a));
    assert("language"@.len() != "theme"@.len());
}

/// These names stand for languages, and no others; letter case and white space around them do
/// not matter.
pub proof fn languages_are_known_by_name(value: Seq<char>)
    ensures
        named_language(value) == Some(UiLanguage::ZhCn) <==> {
            ||| text::lowered(text::trimmed(value)) == "zh"@
            ||| text::lowered(text::trimmed(value)) == "zh-cn"@
            ||| text::lowered(text::trimmed(value)) == "cn"@
        },
        named_language(value) == Some(UiLanguage::EnUs) <==> {
            ||| text::lowered(text::trimmed(value)) == "en"@
            ||| text::lowered(text::trimmed(value)) == "en-us"@
        },
        language_code(UiLanguage::ZhCn) == "zh-CN"@,
        language_code(UiLanguage::EnUs) == "en-US"@,
{
    reveal_strlit("zh");
    reveal_strlit("zh-cn");
    reveal_strlit("cn");
    reveal_strlit("en");
    reveal_strlit("en-us");
    assert("en"@[0] != "zh"@[0]);
    assert("en"@[0] != "cn"@[0]);
    assert("en-us"@[0] != "zh-cn"@[0]);
}

/// There are two themes, dark and light; letter case and white space around them do not matter.
pub proof fn themes_are_known_by_name(value: Seq<char>)
    ensures
        named_theme(value) is Some <==> text::lowered(text::trimmed(value)) == "dark"@
            || text::lowered(text::trimmed(value)) == "light"@,
        named_theme(value) matches Some(theme) ==> theme == text::lowered(text::trimmed(value)),
{
}

/// A line changes only what it names, and only to something that there is: without an equals
/// sign, with another key or with a value that names nothing it changes nothing.
pub proof fn lines_change_what_they_name(settings: SettingsView, line: Seq<char>)
    ensures
        text::cut(line, '=') is None ==> with_line(settings, line) == settings,
        text::cut(line, '=') matches Some((key, value)) ==> {
            let plain = text::unquoted(text::trimmed(value), '"');
            &&& text::trimmed(key) != "language"@ && text::trimmed(key) != "theme"@ ==> with_line(
                settings,
                line,
            ) == settings
            &&& text::trimmed(key) == "language"@ ==> {
                &&& with_line(settings, line).theme == settings.theme
                &&& named_language(plain) is None ==> with_line(settings, line) == settings
                &&& named_language(plain) matches Some(language) ==> with_line(
                    settings,
                    line,
                ).language == language
            }
            &&& text::trimmed(key) == "theme"@ ==> {
                &&& with_line(settings, line).language == settings.language
                &&& named_theme(plain) is None ==> with_line(settings, line) == settings
                &&& named_theme(plain) matches Some(theme) ==> with_line(settings, line).theme
                    == theme
            }
        },
{
    reveal_strlit("language");
    reveal_strlit("theme");
    assert("language"@.len() != "theme"@.len());
}

/// Lines are taken in one after the other, so that a later one overrides an earlier one.
pub proof fn later_lines_override(
    settings: SettingsView,
    lines: Seq<Seq<char>>,
    line: Seq<char>,
)
    ensures
        with_lines(settings, Seq::empty()) == settings,
        with_lines(settings, lines.push(line)) == with_line(with_lines(settings, lines), line),
{
    assert(lines.push(line).drop_last() =~= lines);
}

/// A draft starts from the settings and shows the configured paths, each with variables put in.
pub proof fn drafts_start_from_the_settings(
    draft: SettingsDraft,
    settings: UiSettings,
    config: AppConfig,
    app_data: Option<Seq<char>>,
)
    requires
        is_configured_draft(draft, settings, config, app_data),
    ensures
        draft.language == settings.language,
        draft.theme@ == settings.theme@,
        draft.report_path.root matches PathRoot::Literal(path) && path@ == config::expanded(
            config.report.last_report_path@,
            app_data,
        ),
        draft.report_history_dir.root matches PathRoot::Literal(path) && path@ == config::expanded(
            config.report.history_report_dir@,
            app_data,
        ),
        draft.developer_log_dir.root matches PathRoot::Literal(path) && path@ == config::expanded(
            config.report.developer_log_dir@,
            app_data,
        ),
{
}

/// The paths of a draft are the configured ones with variables put in, and nothing is added to
/// them.
pub proof fn configured_paths_are_whole(
    draft: SettingsDraft,
    settings: UiSettings,
    config: AppConfig,
    app_data: Option<Seq<char>>,
)
    requires
        is_configured_draft(draft, settings, config, app_data),
    ensures
        draft.report_path.components@.len() == 0,
        draft.report_history_dir.components@.len() == 0,
        draft.developer_log_dir.components@.len() == 0,
        draft.report_path.root is Literal && draft.report_path.root->Literal_0@
            == config::expanded(config.report.last_report_path@, app_data),
        draft.report_history_dir.root is Literal && draft.report_history_dir.root->Literal_0@
            == config::expanded(config.report.history_report_dir@, app_data),
        draft.developer_log_dir.root is Literal && draft.developer_log_dir.root->Literal_0@
            == config::expanded(config.report.developer_log_dir@, app_data),
{
}

} // verus!
