//! The software-management data model: modules, requested updates, and the
//! errors a plugin can report for them.

use vstd::prelude::*;
use vstd::string::StringExecFns;

verus! {

pub type SoftwareType = String;

pub type SoftwareName = String;

pub type SoftwareVersion = String;

/// Where a module can be downloaded from. Stands in for the richer download
/// description the wider agent uses: the message logic only carries the URL
/// text.
#[derive(Clone, Debug, PartialEq, Eq)]
pub struct DownloadInfo {
    pub url: String,
}

impl DownloadInfo {
    pub fn new(url: &str) -> (r: DownloadInfo)
        ensures
            r.url@ == url@,
    {
        DownloadInfo { url: String::from_str(url) }
    }
}

/// The text carried by an optional string field.
pub open spec fn opt_text(o: Option<String>) -> Option<Seq<char>> {
    match o {
        Option::None => Option::None,
        Option::Some(s) => Option::Some(s@),
    }
}

/// The URL text carried by an optional download description.
pub open spec fn opt_url(o: Option<DownloadInfo>) -> Option<Seq<char>> {
    match o {
        Option::None => Option::None,
        Option::Some(d) => Option::Some(d.url@),
    }
}

/// An exact copy of an optional string.
pub fn clone_opt_string(o: &Option<String>) -> (r: Option<String>)
    ensures
        r == *o,
{
    match o {
        Option::None => Option::None,
        Option::Some(s) => Option::Some(s.clone()),
    }
}

/// An exact copy of an optional download description.
pub fn clone_opt_download(o: &Option<DownloadInfo>) -> (r: Option<DownloadInfo>)
    ensures
        r == *o,
{
    match o {
        Option::None => Option::None,
        Option::Some(d) => Option::Some(DownloadInfo { url: d.url.clone() }),
    }
}

/// One installed or installable software module.
#[derive(Clone, Debug, PartialEq, Eq)]
pub struct SoftwareModule {
    pub module_type: Option<SoftwareType>,
    pub name: SoftwareName,
    pub version: Option<SoftwareVersion>,
    pub url: Option<DownloadInfo>,
    pub file_path: Option<String>,
}

/// Mathematical content of a module: its fields as plain text.
#[verifier::ext_equal]
pub struct ModuleView {
    pub module_type: Option<Seq<char>>,
    pub name: Seq<char>,
    pub version: Option<Seq<char>>,
    pub url: Option<Seq<char>>,
    pub file_path: Option<Seq<char>>,
}

impl View for SoftwareModule {
    type V = ModuleView;

    open spec fn view(&self) -> ModuleView {
        ModuleView {
            module_type: opt_text(self.module_type),
            name: self.name@,
            version: opt_text(self.version),
            url: opt_url(self.url),
            file_path: opt_text(self.file_path),
        }
    }
}

impl ModuleView {
    /// An empty module type or version counts as absent.
    pub open spec fn normalized(self) -> ModuleView {
        ModuleView {
            module_type: match self.module_type {
                Option::Some(t) => if t.len() == 0 {
                    Option::None
                } else {
                    Option::Some(t)
                },
                Option::None => Option::None,
            },
            version: match self.version {
                Option::Some(v) => if v.len() == 0 {
                    Option::None
                } else {
                    Option::Some(v)
                },
                Option::None => Option::None,
            },
            ..self
        }
    }
}

impl SoftwareModule {
    /// The module type assumed when a module does not name one.
    pub fn default_type() -> (r: SoftwareType)
        ensures
            r@ == "default"@,
    {
        String::from_str("default")
    }

    /// Drop an empty module type or version: both mean "not specified".
    pub fn normalize(&mut self)
        ensures
            final(self)@ == old(self)@.normalized(),
            final(self).name == old(self).name,
            final(self).url == old(self).url,
            final(self).file_path == old(self).file_path,
    {
        let clear_type = match &self.module_type {
            Option::Some(t) => t.as_str().is_empty(),
            Option::None => false,
        };
        if clear_type {
            self.module_type = Option::None;
        }
        let clear_version = match &self.version {
            Option::Some(v) => v.as_str().is_empty(),
            Option::None => false,
        };
        if clear_version {
            self.version = Option::None;
        }
    }
}

/// A requested change to one module: install it or remove it.
#[derive(Clone, Debug, PartialEq, Eq)]
pub enum SoftwareModuleUpdate {
    Install { module: SoftwareModule },
    Remove { module: SoftwareModule },
}

/// Mathematical content of an update.
#[verifier::ext_equal]
pub enum UpdateView {
    Install { module: ModuleView },
    Remove { module: ModuleView },
}

impl View for SoftwareModuleUpdate {
    type V = UpdateView;

    open spec fn view(&self) -> UpdateView {
        match self {
            SoftwareModuleUpdate::Install { module } => UpdateView::Install { module: module@ },
            SoftwareModuleUpdate::Remove { module } => UpdateView::Remove { module: module@ },
        }
    }
}

impl UpdateView {
    pub open spec fn module(self) -> ModuleView {
        match self {
            UpdateView::Install { module } => module,
            UpdateView::Remove { module } => module,
        }
    }

    pub open spec fn normalized(self) -> UpdateView {
        match self {
            UpdateView::Install { module } => UpdateView::Install { module: module.normalized() },
            UpdateView::Remove { module } => UpdateView::Remove { module: module.normalized() },
        }
    }
}

impl SoftwareModuleUpdate {
    pub fn install(module: SoftwareModule) -> (r: SoftwareModuleUpdate)
        ensures
            r == (SoftwareModuleUpdate::Install { module }),
    {
        SoftwareModuleUpdate::Install { module }
    }

    pub fn remove(module: SoftwareModule) -> (r: SoftwareModuleUpdate)
        ensures
            r == (SoftwareModuleUpdate::Remove { module }),
    {
        SoftwareModuleUpdate::Remove { module }
    }

    pub fn module(&self) -> (r: &SoftwareModule)
        ensures
            r@ == self@.module(),
    {
        match self {
            SoftwareModuleUpdate::Install { module } => module,
            SoftwareModuleUpdate::Remove { module } => module,
        }
    }

    pub fn normalize(&mut self)
        ensures
            final(self)@ == old(self)@.normalized(),
    {
        match self {
            SoftwareModuleUpdate::Install { module } => module.normalize(),
            SoftwareModuleUpdate::Remove { module } => module.normalize(),
        }
    }
}

/// A failure a software plugin reported for one requested change, or a
/// failure not tied to a particular module.
#[derive(Clone, Debug, PartialEq, Eq)]
pub enum SoftwareError {
    Install { module: SoftwareModule, reason: String },
    Remove { module: SoftwareModule, reason: String },
    Other { reason: String },
}

/// Mathematical content of a software error.
#[verifier::ext_equal]
pub enum ErrorView {
    Install { module: ModuleView, reason: Seq<char> },
    Remove { module: ModuleView, reason: Seq<char> },
    Other { reason: Seq<char> },
}

impl View for SoftwareError {
    type V = ErrorView;

    open spec fn view(&self) -> ErrorView {
        match self {
            SoftwareError::Install { module, reason } => ErrorView::Install {
                module: module@,
                reason: reason@,
            },
            SoftwareError::Remove { module, reason } => ErrorView::Remove {
                module: module@,
                reason: reason@,
            },
            SoftwareError::Other { reason } => ErrorView::Other { reason: reason@ },
        }
    }
}

} // verus!
