//! Settings in effect, and where they come from.

use vstd::prelude::*;
use crate::strmap::StrMap;
use crate::text::{cat4, Duplicate, Same};
use crate::tomlvalue::{TomlValue, TomlView};

verus! {

/// Where a setting comes from.
#[derive(Debug, PartialEq, Eq)]
pub enum ConfigSource {
    Defaults,
    CliOverrides,
    SessionOverlay {
        file: String,
    },
    ProjectModeA {
        file: String,
    },
    ProjectModeB {
        file: String,
    },
    UserModeA {
        file: String,
    },
    UserModeB {
        file: String,
    },
}

/// What a [`ConfigSource`] stands for.
#[verifier::ext_equal]
pub enum ConfigSourceView {
    Defaults,
    CliOverrides,
    SessionOverlay {
        file: Seq<char>,
    },
    ProjectModeA {
        file: Seq<char>,
    },
    ProjectModeB {
        file: Seq<char>,
    },
    UserModeA {
        file: Seq<char>,
    },
    UserModeB {
        file: Seq<char>,
    },
}

impl View for ConfigSource {
    type V = ConfigSourceView;

    open spec fn view(&self) -> ConfigSourceView {
        match self {
            ConfigSource::Defaults => ConfigSourceView::Defaults,
            ConfigSource::CliOverrides => ConfigSourceView::CliOverrides,
            ConfigSource::SessionOverlay { file } => ConfigSourceView::SessionOverlay {
                file: file@,
            },
            ConfigSource::ProjectModeA { file } => ConfigSourceView::ProjectModeA {
                file: file@,
            },
            ConfigSource::ProjectModeB { file } => ConfigSourceView::ProjectModeB {
                file: file@,
            },
            ConfigSource::UserModeA { file } => ConfigSourceView::UserModeA {
                file: file@,
            },
            ConfigSource::UserModeB { file } => ConfigSourceView::UserModeB {
                file: file@,
            },
        }
    }
}

impl DeepView for ConfigSource {
    type V = ConfigSourceView;

    open spec fn deep_view(&self) -> ConfigSourceView {
        self@
    }
}

impl Duplicate for ConfigSource {
    fn dup(&self) -> (r: Self) {
        match self {
            ConfigSource::Defaults => ConfigSource::Defaults,
            ConfigSource::CliOverrides => ConfigSource::CliOverrides,
            ConfigSource::SessionOverlay { file } => ConfigSource::SessionOverlay {
                file: file.clone(),
            },
            ConfigSource::ProjectModeA { file } => ConfigSource::ProjectModeA {
                file: file.clone(),
            },
            ConfigSource::ProjectModeB { file } => ConfigSource::ProjectModeB {
                file: file.clone(),
            },
            ConfigSource::UserModeA { file } => ConfigSource::UserModeA {
                file: file.clone(),
            },
            ConfigSource::UserModeB { file } => ConfigSource::UserModeB {
                file: file.clone(),
            },
        }
    }
}

impl Clone for ConfigSource {
    fn clone(&self) -> (r: Self)
        ensures
            r@ == self@,
    {
        self.dup()
    }
}

/// What came of reading a source.
#[derive(Debug, Clone, Copy, PartialEq, Eq, Structural)]
pub enum ReadStatus {
    Missing,
    ReadOk,
    ReadError,
    ParseError,
}

impl View for ReadStatus {
    type V = ReadStatus;

    open spec fn view(&self) -> ReadStatus {
        *self
    }
}

impl DeepView for ReadStatus {
    type V = ReadStatus;

    open spec fn deep_view(&self) -> ReadStatus {
        *self
    }
}

impl Duplicate for ReadStatus {
    fn dup(&self) -> (r: Self) {
        *self
    }
}

impl Same for ReadStatus {
    fn same(&self, other: &Self) -> (b: bool) {
        *self == *other
    }
}

/// A source, and what came of reading it.
#[derive(Debug, PartialEq, Eq)]
pub struct SourceReport {
    pub source: ConfigSource,
    pub status: ReadStatus,
    pub message: Option<String>,
}

/// What a [`SourceReport`] stands for.
#[verifier::ext_equal]
pub struct SourceReportView {
    pub source: ConfigSourceView,
    pub status: ReadStatus,
    pub message: Option<Seq<char>>,
}

impl View for SourceReport {
    type V = SourceReportView;

    open spec fn view(&self) -> SourceReportView {
        SourceReportView {
            source: self.source@,
            status: self.status,
            message: self.message.deep_view(),
        }
    }
}

impl DeepView for SourceReport {
    type V = SourceReportView;

    open spec fn deep_view(&self) -> SourceReportView {
        self@
    }
}

impl Duplicate for SourceReport {
    fn dup(&self) -> (r: Self) {
        SourceReport {
            source: self.source.dup(),
            status: self.status,
            message: self.message.dup(),
        }
    }
}

impl Clone for SourceReport {
    fn clone(&self) -> (r: Self)
        ensures
            r@ == self@,
    {
        self.dup()
    }
}

/// Where settings are kept.
#[derive(Debug, PartialEq, Eq)]
pub struct PrintRevoltPaths {
    pub user_config_toml: String,
    pub user_printrevolt_toml: String,
    pub project_config_toml: Option<String>,
    pub project_printrevolt_toml: Option<String>,
}

/// What a [`PrintRevoltPaths`] stands for.
#[verifier::ext_equal]
pub struct PrintRevoltPathsView {
    pub user_config_toml: Seq<char>,
    pub user_printrevolt_toml: Seq<char>,
    pub project_config_toml: Option<Seq<char>>,
    pub project_printrevolt_toml: Option<Seq<char>>,
}

impl View for PrintRevoltPaths {
    type V = PrintRevoltPathsView;

    open spec fn view(&self) -> PrintRevoltPathsView {
        PrintRevoltPathsView {
            user_config_toml: self.user_config_toml@,
            user_printrevolt_toml: self.user_printrevolt_toml@,
            project_config_toml: self.project_config_toml.deep_view(),
            project_printrevolt_toml: self.project_printrevolt_toml.deep_view(),
        }
    }
}

impl DeepView for PrintRevoltPaths {
    type V = PrintRevoltPathsView;

    open spec fn deep_view(&self) -> PrintRevoltPathsView {
        self@
    }
}

impl Duplicate for PrintRevoltPaths {
    fn dup(&self) -> (r: Self) {
        PrintRevoltPaths {
            user_config_toml: self.user_config_toml.clone(),
            user_printrevolt_toml: self.user_printrevolt_toml.clone(),
            project_config_toml: self.project_config_toml.dup(),
            project_printrevolt_toml: self.project_printrevolt_toml.dup(),
        }
    }
}

impl Clone for PrintRevoltPaths {
    fn clone(&self) -> (r: Self)
        ensures
            r@ == self@,
    {
        self.dup()
    }
}

/// Why settings cannot be read or written.
#[derive(Debug, PartialEq, Eq)]
pub enum PrConfigError {
    ReadFailed {
        path: String,
        message: String,
    },
    ParseFailed {
        path: String,
        message: String,
    },
    WriteFailed {
        path: String,
        message: String,
    },
}

/// What a [`PrConfigError`] stands for.
#[verifier::ext_equal]
pub enum PrConfigErrorView {
    ReadFailed {
        path: Seq<char>,
        message: Seq<char>,
    },
    ParseFailed {
        path: Seq<char>,
        message: Seq<char>,
    },
    WriteFailed {
        path: Seq<char>,
        message: Seq<char>,
    },
}

impl View for PrConfigError {
    type V = PrConfigErrorView;

    open spec fn view(&self) -> PrConfigErrorView {
        match self {
            PrConfigError::ReadFailed { path, message } => PrConfigErrorView::ReadFailed {
                path: path@,
                message: message@,
            },
            PrConfigError::ParseFailed { path, message } => PrConfigErrorView::ParseFailed {
                path: path@,
                message: message@,
            },
            PrConfigError::WriteFailed { path, message } => PrConfigErrorView::WriteFailed {
                path: path@,
                message: message@,
            },
        }
    }
}

impl DeepView for PrConfigError {
    type V = PrConfigErrorView;

    open spec fn deep_view(&self) -> PrConfigErrorView {
        self@
    }
}

impl Duplicate for PrConfigError {
    fn dup(&self) -> (r: Self) {
        match self {
            PrConfigError::ReadFailed { path, message } => PrConfigError::ReadFailed {
                path: path.clone(),
                message: message.clone(),
            },
            PrConfigError::ParseFailed { path, message } => PrConfigError::ParseFailed {
                path: path.clone(),
                message: message.clone(),
            },
            PrConfigError::WriteFailed { path, message } => PrConfigError::WriteFailed {
                path: path.clone(),
                message: message.clone(),
            },
        }
    }
}

impl Clone for PrConfigError {
    fn clone(&self) -> (r: Self)
        ensures
            r@ == self@,
    {
        self.dup()
    }
}

/// The texts of the files that settings are kept in; nothing for a file that could not be read.
#[derive(Debug, PartialEq, Eq)]
pub struct ConfigTexts {
    pub user_config: Option<String>,
    pub user_printrevolt: Option<String>,
    pub project_config: Option<String>,
    pub project_printrevolt: Option<String>,
    /// The file of the session overlay, where one is named.
    pub session_path: Option<String>,
    pub session: Option<String>,
}

/// What a [`ConfigTexts`] stands for.
#[verifier::ext_equal]
pub struct ConfigTextsView {
    pub user_config: Option<Seq<char>>,
    pub user_printrevolt: Option<Seq<char>>,
    pub project_config: Option<Seq<char>>,
    pub project_printrevolt: Option<Seq<char>>,
    pub session_path: Option<Seq<char>>,
    pub session: Option<Seq<char>>,
}

impl View for ConfigTexts {
    type V = ConfigTextsView;

    open spec fn view(&self) -> ConfigTextsView {
        ConfigTextsView {
            user_config: self.user_config.deep_view(),
            user_printrevolt: self.user_printrevolt.deep_view(),
            project_config: self.project_config.deep_view(),
            project_printrevolt: self.project_printrevolt.deep_view(),
            session_path: self.session_path.deep_view(),
            session: self.session.deep_view(),
        }
    }
}

impl DeepView for ConfigTexts {
    type V = ConfigTextsView;

    open spec fn deep_view(&self) -> ConfigTextsView {
        self@
    }
}

impl Duplicate for ConfigTexts {
    fn dup(&self) -> (r: Self) {
        ConfigTexts {
            user_config: self.user_config.dup(),
            user_printrevolt: self.user_printrevolt.dup(),
            project_config: self.project_config.dup(),
            project_printrevolt: self.project_printrevolt.dup(),
            session_path: self.session_path.dup(),
            session: self.session.dup(),
        }
    }
}

impl Clone for ConfigTexts {
    fn clone(&self) -> (r: Self)
        ensures
            r@ == self@,
    {
        self.dup()
    }
}

/// The settings in effect, and where each of them comes from.
#[derive(Debug, PartialEq, Eq)]
pub struct ResolvedPrintRevoltConfig {
    pub printrevolt: TomlValue,
    pub trace: StrMap<ConfigSource>,
    pub sources: Vec<SourceReport>,
    pub warnings: Vec<String>,
}

/// What a [`ResolvedPrintRevoltConfig`] stands for.
#[verifier::ext_equal]
pub struct ResolvedPrintRevoltConfigView {
    pub printrevolt: TomlView,
    pub trace: Seq<(Seq<char>, ConfigSourceView)>,
    pub sources: Seq<SourceReportView>,
    pub warnings: Seq<Seq<char>>,
}

impl View for ResolvedPrintRevoltConfig {
    type V = ResolvedPrintRevoltConfigView;

    open spec fn view(&self) -> ResolvedPrintRevoltConfigView {
        ResolvedPrintRevoltConfigView {
            printrevolt: self.printrevolt@,
            trace: self.trace.deep_view(),
            sources: self.sources.deep_view(),
            warnings: self.warnings.deep_view(),
        }
    }
}

impl DeepView for ResolvedPrintRevoltConfig {
    type V = ResolvedPrintRevoltConfigView;

    open spec fn deep_view(&self) -> ResolvedPrintRevoltConfigView {
        self@
    }
}

impl Duplicate for ResolvedPrintRevoltConfig {
    fn dup(&self) -> (r: Self) {
        ResolvedPrintRevoltConfig {
            printrevolt: self.printrevolt.dup(),
            trace: self.trace.dup(),
            sources: self.sources.dup(),
            warnings: self.warnings.dup(),
        }
    }
}

impl Clone for ResolvedPrintRevoltConfig {
    fn clone(&self) -> (r: Self)
        ensures
            r@ == self@,
    {
        self.dup()
    }
}

/// The text of an error.
pub open spec fn config_error_text(e: PrConfigErrorView) -> Seq<char> {
    match e {
        PrConfigErrorView::ReadFailed { path, message } => "failed to read "@ + path + ": "@ + message,
        PrConfigErrorView::ParseFailed { path, message } => "failed to parse toml "@ + path + ": "@ + message,
        PrConfigErrorView::WriteFailed { path, message } => "failed to write "@ + path + ": "@ + message,
    }
}

impl PrConfigError {
    /// The error in words.
    pub fn message(&self) -> (r: String)
        ensures
            r@ == config_error_text(self@),
    {
        match self {
            PrConfigError::ReadFailed { path, message } => cat4("failed to read ", path.as_str(), ": ", message.as_str()),
            PrConfigError::ParseFailed { path, message } => cat4("failed to parse toml ", path.as_str(), ": ", message.as_str()),
            PrConfigError::WriteFailed { path, message } => cat4("failed to write ", path.as_str(), ": ", message.as_str()),
        }
    }
}

} // verus!
