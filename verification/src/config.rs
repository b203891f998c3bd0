//! The layered configuration model and its field-by-field merge.

use vstd::prelude::*;

use crate::error::CodeScreenshotError;
use std::ops::Range;

verus! {

/// The resolved (or one layer's partial) code-screenshot configuration,
/// every field independently optional at the raw-input stage.
#[derive(Clone, Debug, PartialEq)]
pub struct CodeConfig {
    /// The content argument: text body, file path, or standard-input marker.
    pub content: Option<String>,
    /// Theme identifier: a path or an embedded-theme name.
    pub theme: Option<String>,
    /// Raw highlight-group override string, `group,bg,fg,style;...`.
    pub vim_theme: Option<String>,
    /// List the supported file types instead of rendering.
    pub list_file_types: bool,
    /// List the available themes instead of rendering.
    pub list_themes: bool,
    /// Additional directory of syntax-definition files.
    pub extra_syntaxes: Option<String>,
    /// File-type/extension hint for the input.
    pub extension: Option<String>,
    /// Background specification: solid color, gradient, or file path.
    pub code_background: Option<String>,
    /// Which lines to include, a zero-based half-open range.
    pub lines: Option<Range<usize>>,
    /// Which lines to visually emphasize, a zero-based half-open range.
    pub highlight_lines: Option<Range<usize>>,
    /// Whether to display line numbers.
    pub line_numbers: bool,
    /// Tab width used when rendering.
    pub tab_width: Option<u8>,
}

/// The outcome of reading and parsing the persisted configuration file,
/// as the caller hands it in.
pub enum FileLayer {
    /// The file is missing or unreadable.
    Absent,
    /// The file was read but is not a well-formed configuration document.
    Malformed,
    /// The file parsed; the code-specific section may still be absent.
    Parsed(Option<CodeConfig>),
}

/// The field-by-field merge of a file layer under a command-line layer.
///
/// The per-field policy:
/// - options (`theme`, `vim_theme`, `extra_syntaxes`, `code_background`,
///   `tab_width`): an explicit command-line value replaces the file value,
///   a silent command line keeps it;
/// - booleans (`list_file_types`, `list_themes`, `line_numbers`): sticky
///   true — on once on in either layer, never reverted by the merge;
/// - non-persisted fields (`content`, `extension`, `lines`,
///   `highlight_lines`): the file layer is bypassed entirely.
pub open spec fn merged(base: CodeConfig, cli: CodeConfig) -> CodeConfig {
    CodeConfig {
        content: cli.content,
        theme: if cli.theme is Some {
            cli.theme
        } else {
            base.theme
        },
        vim_theme: if cli.vim_theme is Some {
            cli.vim_theme
        } else {
            base.vim_theme
        },
        list_file_types: base.list_file_types || cli.list_file_types,
        list_themes: base.list_themes || cli.list_themes,
        extra_syntaxes: if cli.extra_syntaxes is Some {
            cli.extra_syntaxes
        } else {
            base.extra_syntaxes
        },
        extension: cli.extension,
        code_background: if cli.code_background is Some {
            cli.code_background
        } else {
            base.code_background
        },
        lines: cli.lines,
        highlight_lines: cli.highlight_lines,
        line_numbers: base.line_numbers || cli.line_numbers,
        tab_width: if cli.tab_width is Some {
            cli.tab_width
        } else {
            base.tab_width
        },
    }
}

impl CodeConfig {
    /// Merge `self`, the persisted file layer, under `cli`, the
    /// command-line layer, field by field.
    pub fn merge(self, cli: CodeConfig) -> (r: CodeConfig)
        ensures
            r == merged(self, cli),
    {
        CodeConfig {
            content: cli.content,
            theme: match cli.theme {
                Some(t) => Some(t),
                None => self.theme,
            },
            vim_theme: match cli.vim_theme {
                Some(t) => Some(t),
                None => self.vim_theme,
            },
            list_file_types: self.list_file_types || cli.list_file_types,
            list_themes: self.list_themes || cli.list_themes,
            extra_syntaxes: match cli.extra_syntaxes {
                Some(t) => Some(t),
                None => self.extra_syntaxes,
            },
            extension: cli.extension,
            code_background: match cli.code_background {
                Some(t) => Some(t),
                None => self.code_background,
            },
            lines: cli.lines,
            highlight_lines: cli.highlight_lines,
            line_numbers: self.line_numbers || cli.line_numbers,
            tab_width: match cli.tab_width {
                Some(t) => Some(t),
                None => self.tab_width,
            },
        }
    }
}

/// Resolve the effective configuration from the file layer and the
/// command-line layer.
///
/// A missing or unreadable file — and, by this library's documented
/// choice, a file that parses but lacks the code-specific section — leaves
/// the command-line layer as the sole source, returned exactly as given.
/// A malformed file is a fatal startup error, never silently degraded to
/// command-line-only behaviour. A parsed code section is the base layer
/// that the command-line layer overrides field by field.
pub fn resolve_config(file: FileLayer, cli: CodeConfig) -> (r: Result<
    CodeConfig,
    CodeScreenshotError,
>)
    ensures
        r is Err <==> file is Malformed,
        file is Malformed ==> r == Result::<CodeConfig, CodeScreenshotError>::Err(
            CodeScreenshotError::InvalidConfig,
        ),
        file is Absent ==> r == Result::<CodeConfig, CodeScreenshotError>::Ok(cli),
        file matches FileLayer::Parsed(None) ==> r == Result::<
            CodeConfig,
            CodeScreenshotError,
        >::Ok(cli),
        file matches FileLayer::Parsed(Some(base)) ==> r == Result::<
            CodeConfig,
            CodeScreenshotError,
        >::Ok(merged(base, cli)),
{
    match file {
        FileLayer::Absent => Ok(cli),
        FileLayer::Malformed => Err(CodeScreenshotError::InvalidConfig),
        FileLayer::Parsed(None) => Ok(cli),
        FileLayer::Parsed(Some(base)) => Ok(base.merge(cli)),
    }
}

/// Law (override): an explicit command-line option replaces the file
/// value; a silent command line retains it — stated for the theme, the
/// field the policy is observed on.
pub proof fn lemma_theme_override(base: CodeConfig, cli: CodeConfig)
    ensures
        cli.theme is Some ==> merged(base, cli).theme == cli.theme,
        cli.theme is None ==> merged(base, cli).theme == base.theme,
{
}

/// Law (sticky boolean): a boolean flag is on in the merged configuration
/// exactly when it is on in at least one layer.
pub proof fn lemma_sticky_booleans(base: CodeConfig, cli: CodeConfig)
    ensures
        merged(base, cli).line_numbers == (base.line_numbers || cli.line_numbers),
        merged(base, cli).list_file_types == (base.list_file_types || cli.list_file_types),
        merged(base, cli).list_themes == (base.list_themes || cli.list_themes),
{
}

} // verus!
