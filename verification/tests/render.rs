use mdr::metadata::has_title_metadata;
use mdr::render::{
    fallback_title, katex_url, rebuild_outcome, render_args, Assets, BuildRequest,
    ProcessStatus, RebuildOutcome, DEFAULT_KATEX, GENERAL_FAILURE, NO_EXIT_CODE,
    RENDERER_MISSING,
};

fn request(input: &str, output: &str, content: &str) -> BuildRequest {
    BuildRequest {
        katex: katex_url(Some("file:///fixtures/katex".to_string())),
        has_title: has_title_metadata(content),
        input_path: input.to_string(),
        output_path: output.to_string(),
    }
}

fn joined(args: &[String]) -> String {
    args.join(" ")
}

#[test]
fn adds_fallback_title_and_embeds_resources() {
    let assets = Assets::below("/tmp/mdr-1");
    let args = render_args(&request("/w/readme.md", "/w/readme.html", "No title here"), &assets);
    let line = joined(&args);
    assert!(line.contains("--embed-resources"));
    assert!(line.contains("--standalone"));
    assert!(line.contains("--metadata title=readme"));
}

#[test]
fn preserves_existing_title_metadata() {
    let assets = Assets::below("/tmp/mdr-1");
    let content = "---\ntitle: Custom Paper\n---\n\nBody text.\n";
    let args = render_args(&request("/w/paper.md", "/w/paper.html", content), &assets);
    let line = joined(&args);
    assert!(
        !line.contains("--metadata title="),
        "should not add fallback title when metadata exists"
    );
    assert!(line.contains("--embed-resources"));
    assert!(line.contains("--standalone"));
}

#[test]
fn command_line_is_the_fixed_flag_set_in_order() {
    let assets = Assets::below("/tmp/mdr-7");
    let args = render_args(&request("in dir/note.md", "out.html", "text"), &assets);
    let expected: Vec<String> = [
        "--katex=file:///fixtures/katex/",
        "--from",
        "markdown+tex_math_single_backslash",
        "--embed-resources",
        "--lua-filter",
        "/tmp/mdr-7/pandoc-sidenote.lua",
        "--to",
        "html5+smart",
        "--standalone",
        "--metadata",
        "title=note",
        "--template",
        "/tmp/mdr-7/template.html5",
        "--css",
        "/tmp/mdr-7/css/theme.css",
        "--css",
        "/tmp/mdr-7/css/skylighting-solarized-theme.css",
        "--toc",
        "--wrap=none",
        "--output",
        "out.html",
        "in dir/note.md",
    ]
    .iter()
    .map(|s| s.to_string())
    .collect();
    assert_eq!(args, expected);
}

#[test]
fn command_line_without_fallback_is_two_arguments_shorter() {
    let assets = Assets::below("/t");
    let with = render_args(&request("a.md", "a.html", "x"), &assets);
    let without = render_args(&request("a.md", "a.html", "% Title\n"), &assets);
    assert_eq!(with.len(), 22);
    assert_eq!(without.len(), 20);
    assert_eq!(with[..9], without[..9]);
    assert_eq!(with[11..], without[9..]);
}

#[test]
fn assets_lie_below_the_working_directory() {
    let assets = Assets::below("/tmp/mdr-42");
    assert_eq!(assets.template_path, "/tmp/mdr-42/template.html5");
    assert_eq!(assets.lua_path, "/tmp/mdr-42/pandoc-sidenote.lua");
    assert_eq!(assets.theme_path, "/tmp/mdr-42/css/theme.css");
    assert_eq!(assets.skylighting_path, "/tmp/mdr-42/css/skylighting-solarized-theme.css");
}

#[test]
fn fallback_title_is_the_file_stem_or_document() {
    assert_eq!(fallback_title("docs/readme.md"), "readme");
    assert_eq!(fallback_title("archive.tar.gz"), "archive.tar");
    assert_eq!(fallback_title(".hidden"), ".hidden");
    assert_eq!(fallback_title("plain"), "plain");
    assert_eq!(fallback_title("docs/.."), "Document");
    assert_eq!(fallback_title(""), "Document");
    assert_eq!(fallback_title("/"), "Document");
}

#[test]
fn katex_url_ends_in_a_slash() {
    assert_eq!(katex_url(None), DEFAULT_KATEX);
    assert_eq!(katex_url(None), "https://cdn.jsdelivr.net/npm/katex@0.15.1/dist/");
    assert_eq!(katex_url(Some("https://example.org/katex".to_string())), "https://example.org/katex/");
    assert_eq!(katex_url(Some("https://example.org/katex/".to_string())), "https://example.org/katex/");
    assert_eq!(katex_url(Some("x//".to_string())), "x//");
    assert_eq!(katex_url(Some(String::new())), "/");
}

#[test]
fn process_status_reads_as_a_rebuild_outcome() {
    let ok = ProcessStatus::Exited { success: true, code: Some(0) };
    assert_eq!(rebuild_outcome(ok), RebuildOutcome::Succeeded);
    let failed = ProcessStatus::Exited { success: false, code: Some(43) };
    assert_eq!(rebuild_outcome(failed), RebuildOutcome::Failed(43));
    let killed = ProcessStatus::Exited { success: false, code: None };
    assert_eq!(rebuild_outcome(killed), RebuildOutcome::Failed(-1));
    assert_eq!(NO_EXIT_CODE, -1);
    assert_eq!(rebuild_outcome(ProcessStatus::NotSpawned), RebuildOutcome::Failed(127));
}

#[test]
fn only_a_missing_renderer_and_a_crash_are_fatal() {
    assert_eq!(RENDERER_MISSING, 127);
    assert_eq!(GENERAL_FAILURE, 1);
    assert!(RebuildOutcome::Failed(127).fatal());
    assert!(RebuildOutcome::Crashed.fatal());
    assert!(!RebuildOutcome::Succeeded.fatal());
    for status in [-1, 0, 1, 2, 126, 128, 255] {
        assert!(!RebuildOutcome::Failed(status).fatal());
    }
}

#[test]
fn outcome_has_the_status_it_reports() {
    assert_eq!(RebuildOutcome::Succeeded.exit_status(), Ok(()));
    assert_eq!(RebuildOutcome::Failed(43).exit_status(), Err(43));
    assert_eq!(RebuildOutcome::Failed(127).exit_status(), Err(127));
    assert_eq!(RebuildOutcome::Crashed.exit_status(), Err(1));
}
