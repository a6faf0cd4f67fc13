use comrak::plugins::syntect::SyntectAdapter;
use comrak::{markdown_to_html_with_plugins, Options, Plugins};
use vstd::prelude::*;

verus! {

/// How markdown is turned into HTML: the extensions switched on and the
/// colour theme of highlighted code blocks.
pub struct MarkdownOptions {
    pub strikethrough: bool,
    pub table: bool,
    pub tasklist: bool,
    pub superscript: bool,
    pub smart_punctuation: bool,
    pub github_pre_lang: bool,
    pub raw_html: bool,
    pub highlight_theme: String,
}

/// The settings of a `MarkdownOptions`, with the theme name as text.
pub struct MarkdownSettings {
    pub strikethrough: bool,
    pub table: bool,
    pub tasklist: bool,
    pub superscript: bool,
    pub smart_punctuation: bool,
    pub github_pre_lang: bool,
    pub raw_html: bool,
    pub highlight_theme: Seq<char>,
}

impl View for MarkdownOptions {
    type V = MarkdownSettings;

    open spec fn view(&self) -> MarkdownSettings {
        MarkdownSettings {
            strikethrough: self.strikethrough,
            table: self.table,
            tasklist: self.tasklist,
            superscript: self.superscript,
            smart_punctuation: self.smart_punctuation,
            github_pre_lang: self.github_pre_lang,
            raw_html: self.raw_html,
            highlight_theme: self.highlight_theme@,
        }
    }
}

/// The themes that the highlighter ships with; any other name cannot be used.
pub open spec fn is_bundled_theme(name: Seq<char>) -> bool {
    ||| name == "base16-ocean.dark"@
    ||| name == "base16-eighties.dark"@
    ||| name == "base16-mocha.dark"@
    ||| name == "base16-ocean.light"@
    ||| name == "InspiredGitHub"@
    ||| name == "Solarized (dark)"@
    ||| name == "Solarized (light)"@
}

/// The settings used for articles: strikethrough, tables, task lists,
/// superscript, smart punctuation and raw HTML on, code in a dark theme.
pub open spec fn article_settings() -> MarkdownSettings {
    MarkdownSettings {
        strikethrough: true,
        table: true,
        tasklist: true,
        superscript: true,
        smart_punctuation: true,
        github_pre_lang: true,
        raw_html: true,
        highlight_theme: "base16-ocean.dark"@,
    }
}

impl MarkdownOptions {
    /// The options used for articles.
    pub fn for_articles() -> (r: Self)
        ensures
            r@ == article_settings(),
            is_bundled_theme(r@.highlight_theme),
    {
        MarkdownOptions {
            strikethrough: true,
            table: true,
            tasklist: true,
            superscript: true,
            smart_punctuation: true,
            github_pre_lang: true,
            raw_html: true,
            highlight_theme: String::from_str("base16-ocean.dark"),
        }
    }
}

/// The HTML that comrak renders from `markdown` under `settings`.
pub uninterp spec fn html_of(markdown: Seq<char>, settings: MarkdownSettings) -> Seq<char>;

/// Relies on `comrak::markdown_to_html_with_plugins`, with a
/// `SyntectAdapter` for code blocks: the HTML depends on the markdown and the
/// options alone. The adapter indexes its theme set by name, so the theme
/// must be one that syntect bundles.
#[verifier::external_body]
pub(crate) fn markdown_to_html(markdown: &str, o: &MarkdownOptions) -> (r: String)
    requires
        is_bundled_theme(o@.highlight_theme),
    ensures
        r@ == html_of(markdown@, o@),
{
    let mut options = Options::default();
    options.extension.strikethrough = o.strikethrough;
    options.extension.table = o.table;
    options.extension.tasklist = o.tasklist;
    options.extension.superscript = o.superscript;
    options.parse.smart = o.smart_punctuation;
    options.render.github_pre_lang = o.github_pre_lang;
    options.render.unsafe_ = o.raw_html;
    let adapter = SyntectAdapter::new(Some(o.highlight_theme.as_str()));
    let mut plugins = Plugins::default();
    plugins.render.codefence_syntax_highlighter = Some(&adapter);
    markdown_to_html_with_plugins(markdown, &options, &plugins)
}

} // verus!
