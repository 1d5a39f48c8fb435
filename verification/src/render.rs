//! The rebuilder's side of the contract with the external renderer: the
//! command line it is given, and what its exit means.
//!
//! The renderer is invoked once per build, with a fixed set of flags and the
//! caller's input and output paths, and must exit 0 on success. Exit status
//! 127 is reserved for "renderer not found" and is fatal: a missing tool
//! cannot be retried away. Every other failure of the renderer is survived.

use vstd::prelude::*;
use vstd::string::StringExecFns;
use crate::paths::{file_stem, join, path_file_stem, path_join};
use crate::text::{chars_of, texts};

verus! {

/// The exit status that means the renderer could not be found.
pub const RENDERER_MISSING: i32 = 127;

/// The exit status of a failure that has no status of its own.
pub const GENERAL_FAILURE: i32 = 1;

/// The status reported for a renderer that a signal ended, so that it left no
/// exit code.
pub const NO_EXIT_CODE: i32 = -1;

/// How one run of the renderer ended, as the operating system told it.
#[derive(Clone, Copy, Debug, PartialEq, Eq)]
pub enum ProcessStatus {
    /// The process ran and ended. `success` is the system's verdict, `code` its
    /// exit code, absent where a signal ended it.
    Exited { success: bool, code: Option<i32> },
    /// The process could not be started.
    NotSpawned,
}

/// How one rebuild attempt ended.
#[derive(Clone, Copy, Debug, PartialEq, Eq)]
pub enum RebuildOutcome {
    /// The renderer succeeded: the artifact is in place.
    Succeeded,
    /// The renderer failed with this status.
    Failed(i32),
    /// The task that ran the renderer died before it could report.
    Crashed,
}

impl RebuildOutcome {
    /// Whether the outcome ends the session: the renderer is missing, or the
    /// render task died.
    pub open spec fn is_fatal(self) -> bool {
        self == RebuildOutcome::Failed(RENDERER_MISSING) || self is Crashed
    }

    /// The status to report for the outcome: none for a success.
    pub open spec fn status(self) -> Result<(), i32> {
        match self {
            RebuildOutcome::Succeeded => Ok(()),
            RebuildOutcome::Failed(code) => Err(code),
            RebuildOutcome::Crashed => Err(GENERAL_FAILURE),
        }
    }

    /// Decides whether the outcome ends the session.
    pub fn fatal(&self) -> (fatal: bool)
        ensures
            fatal == self.is_fatal(),
    {
        match self {
            RebuildOutcome::Succeeded => false,
            RebuildOutcome::Failed(code) => *code == RENDERER_MISSING,
            RebuildOutcome::Crashed => true,
        }
    }

    /// The status to report for the outcome.
    pub fn exit_status(&self) -> (status: Result<(), i32>)
        ensures
            status == self.status(),
    {
        match self {
            RebuildOutcome::Succeeded => Ok(()),
            RebuildOutcome::Failed(code) => Err(*code),
            RebuildOutcome::Crashed => Err(GENERAL_FAILURE),
        }
    }
}

/// What a run of the renderer amounts to: a success where the system says so;
/// else a failure with the exit code, with [`NO_EXIT_CODE`] where there is
/// none, with [`RENDERER_MISSING`] where the process could not be started.
pub open spec fn outcome_of(status: ProcessStatus) -> RebuildOutcome {
    match status {
        ProcessStatus::Exited { success, code } => if success {
            RebuildOutcome::Succeeded
        } else {
            match code {
                Some(c) => RebuildOutcome::Failed(c),
                None => RebuildOutcome::Failed(NO_EXIT_CODE),
            }
        },
        ProcessStatus::NotSpawned => RebuildOutcome::Failed(RENDERER_MISSING),
    }
}

/// Reads the outcome of a rebuild off the renderer's process status.
pub fn rebuild_outcome(status: ProcessStatus) -> (outcome: RebuildOutcome)
    ensures
        outcome == outcome_of(status),
        !(outcome is Crashed),
{
    match status {
        ProcessStatus::Exited { success, code } => {
            if success {
                RebuildOutcome::Succeeded
            } else {
                match code {
                    Some(c) => RebuildOutcome::Failed(c),
                    None => RebuildOutcome::Failed(NO_EXIT_CODE),
                }
            }
        },
        ProcessStatus::NotSpawned => RebuildOutcome::Failed(RENDERER_MISSING),
    }
}

/// Where the math typesetting assets are fetched from unless the environment
/// says otherwise.
pub const DEFAULT_KATEX: &'static str = "https://cdn.jsdelivr.net/npm/katex@0.15.1/dist/";

/// The base URL for the math assets: the override where there is one, else
/// [`DEFAULT_KATEX`]; in either case ending in one `/` more where it did not
/// end in `/`.
pub open spec fn katex_base(value: Option<Seq<char>>) -> Seq<char> {
    let base = match value {
        Some(v) => v,
        None => DEFAULT_KATEX@,
    };
    if base.len() > 0 && base.last() == '/' {
        base
    } else {
        base + "/"@
    }
}

/// The base URL for the math assets. `value` is what the environment holds
/// under the override's name, if it holds anything.
pub fn katex_url(value: Option<String>) -> (url: String)
    ensures
        url@ == katex_base(
            match value {
                Some(v) => Some(v@),
                None => None,
            },
        ),
{
    let mut url = match value {
        Some(v) => v,
        None => DEFAULT_KATEX.to_owned(),
    };
    let chars = chars_of(url.as_str());
    if !(chars.len() > 0 && chars[chars.len() - 1] == '/') {
        url.append("/");
    }
    url
}

/// The files that the renderer is pointed at, once they are on disk.
#[derive(Debug, PartialEq, Eq)]
pub struct Assets {
    /// The page template.
    pub template_path: String,
    /// The filter that turns footnotes into side notes.
    pub lua_path: String,
    /// The theme's stylesheet.
    pub theme_path: String,
    /// The stylesheet for highlighted code.
    pub skylighting_path: String,
}

/// The mathematical content of an [`Assets`].
pub struct AssetsView {
    pub template_path: Seq<char>,
    pub lua_path: Seq<char>,
    pub theme_path: Seq<char>,
    pub skylighting_path: Seq<char>,
}

impl View for Assets {
    type V = AssetsView;

    open spec fn view(&self) -> AssetsView {
        AssetsView {
            template_path: self.template_path@,
            lua_path: self.lua_path@,
            theme_path: self.theme_path@,
            skylighting_path: self.skylighting_path@,
        }
    }
}

/// Where each asset goes below the working directory `root`: the template and
/// the filter directly in it, the two stylesheets in its `css` directory.
pub open spec fn assets_below(root: Seq<char>) -> AssetsView {
    let css = path_join(root, "css"@);
    AssetsView {
        template_path: path_join(root, "template.html5"@),
        lua_path: path_join(root, "pandoc-sidenote.lua"@),
        theme_path: path_join(css, "theme.css"@),
        skylighting_path: path_join(css, "skylighting-solarized-theme.css"@),
    }
}

impl Assets {
    /// Lays the assets out below the working directory `root`.
    pub fn below(root: &str) -> (assets: Assets)
        ensures
            assets@ == assets_below(root@),
    {
        let css = join(root, "css");
        Assets {
            template_path: join(root, "template.html5"),
            lua_path: join(root, "pandoc-sidenote.lua"),
            theme_path: join(css.as_str(), "theme.css"),
            skylighting_path: join(css.as_str(), "skylighting-solarized-theme.css"),
        }
    }
}

/// The title to fall back on where the source names none: the input's file
/// stem, or `Document` where the path has none.
pub open spec fn fallback_title_of(input_path: Seq<char>) -> Seq<char> {
    match path_file_stem(input_path) {
        Some(stem) => stem,
        None => "Document"@,
    }
}

/// The title to fall back on for an input.
pub fn fallback_title(input_path: &str) -> (title: String)
    ensures
        title@ == fallback_title_of(input_path@),
{
    match file_stem(input_path) {
        Some(stem) => stem,
        None => "Document".to_owned(),
    }
}

/// What one build needs to know.
#[derive(Debug, PartialEq, Eq)]
pub struct BuildRequest {
    /// The base URL for the math assets, as [`katex_url`] gives it.
    pub katex: String,
    /// Whether the source names its own title.
    pub has_title: bool,
    /// The Markdown source.
    pub input_path: String,
    /// Where the rendered page goes.
    pub output_path: String,
}

/// The mathematical content of a [`BuildRequest`].
pub struct BuildRequestView {
    pub katex: Seq<char>,
    pub has_title: bool,
    pub input_path: Seq<char>,
    pub output_path: Seq<char>,
}

impl View for BuildRequest {
    type V = BuildRequestView;

    open spec fn view(&self) -> BuildRequestView {
        BuildRequestView {
            katex: self.katex@,
            has_title: self.has_title,
            input_path: self.input_path@,
            output_path: self.output_path@,
        }
    }
}

/// The arguments that come before the title: the math assets, the source
/// format, embedded resources, the filter, the target format, a standalone
/// page.
pub open spec fn leading_args(katex: Seq<char>, assets: AssetsView) -> Seq<Seq<char>> {
    seq![
        "--katex="@ + katex,
        "--from"@,
        "markdown+tex_math_single_backslash"@,
        "--embed-resources"@,
        "--lua-filter"@,
        assets.lua_path,
        "--to"@,
        "html5+smart"@,
        "--standalone"@,
    ]
}

/// The two arguments that give the page a title, where the source names none.
pub open spec fn title_args(request: BuildRequestView) -> Seq<Seq<char>> {
    if request.has_title {
        Seq::empty()
    } else {
        seq!["--metadata"@, "title="@ + fallback_title_of(request.input_path)]
    }
}

/// The arguments that come after the title: the template, the two
/// stylesheets, a table of contents, no line wrapping, the output and the
/// input.
pub open spec fn trailing_args(request: BuildRequestView, assets: AssetsView) -> Seq<Seq<char>> {
    seq![
        "--template"@,
        assets.template_path,
        "--css"@,
        assets.theme_path,
        "--css"@,
        assets.skylighting_path,
        "--toc"@,
        "--wrap=none"@,
        "--output"@,
        request.output_path,
        request.input_path,
    ]
}

/// The renderer's whole command line for one build.
pub open spec fn render_args_of(request: BuildRequestView, assets: AssetsView) -> Seq<Seq<char>> {
    leading_args(request.katex, assets) + title_args(request) + trailing_args(request, assets)
}

/// Adds one argument to a command line.
fn push_arg(args: &mut Vec<String>, arg: String)
    ensures
        texts(final(args)@) == texts(old(args)@).push(arg@),
{
    args.push(arg);
    assert(texts(args@) =~= texts(old(args)@).push(arg@));
}

/// The renderer's command line for one build: a fixed set of flags, with the
/// fallback title exactly where the source names none, and the caller's
/// output and input paths last.
pub fn render_args(request: &BuildRequest, assets: &Assets) -> (args: Vec<String>)
    ensures
        texts(args@) == render_args_of(request@, assets@),
{
    let mut args: Vec<String> = Vec::new();
    assert(texts(args@) =~= Seq::<Seq<char>>::empty());
    push_arg(&mut args, "--katex=".to_owned().concat(request.katex.as_str()));
    push_arg(&mut args, "--from".to_owned());
    push_arg(&mut args, "markdown+tex_math_single_backslash".to_owned());
    push_arg(&mut args, "--embed-resources".to_owned());
    push_arg(&mut args, "--lua-filter".to_owned());
    push_arg(&mut args, assets.lua_path.clone());
    push_arg(&mut args, "--to".to_owned());
    push_arg(&mut args, "html5+smart".to_owned());
    push_arg(&mut args, "--standalone".to_owned());
    assert(texts(args@) =~= leading_args(request@.katex, assets@));
    if !request.has_title {
        let title = fallback_title(request.input_path.as_str());
        push_arg(&mut args, "--metadata".to_owned());
        push_arg(&mut args, "title=".to_owned().concat(title.as_str()));
    }
    assert(texts(args@) =~= leading_args(request@.katex, assets@) + title_args(request@));
    push_arg(&mut args, "--template".to_owned());
    push_arg(&mut args, assets.template_path.clone());
    push_arg(&mut args, "--css".to_owned());
    push_arg(&mut args, assets.theme_path.clone());
    push_arg(&mut args, "--css".to_owned());
    push_arg(&mut args, assets.skylighting_path.clone());
    push_arg(&mut args, "--toc".to_owned());
    push_arg(&mut args, "--wrap=none".to_owned());
    push_arg(&mut args, "--output".to_owned());
    push_arg(&mut args, request.output_path.clone());
    push_arg(&mut args, request.input_path.clone());
    assert(texts(args@) =~= render_args_of(request@, assets@));
    args
}

} // verus!
