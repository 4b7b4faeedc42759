use openapi_lib_generator::cli::{Cli, GenerationTimestamp, InnerCli};
use openapi_lib_generator::generate::makefiles::TaskNames;
use openapi_lib_generator::generate::utils::{
    get_temp_subdir, get_this_crate_name, get_this_crate_ver, get_this_crate_ver_pretty,
    run_cargo_job, run_cargo_make_task, trim_lines, trim_lines_vec,
};
use url::Url;

/// The lines of a block of text, worked out with the string methods of std.
fn expected_lines(s: &str) -> Vec<String> {
    let mut target = String::new();
    let mut result = Vec::new();
    for line in s.lines().map(|line| line.trim_end()).filter(|line| !line.is_empty()) {
        if target.is_empty() {
            let leading_whitespace = line.len() - line.trim_start_matches(" ").len();
            target = " ".repeat(leading_whitespace);
        }
        if !target.is_empty() {
            result.push(line.strip_prefix(&target).unwrap_or(line).to_string());
        }
    }
    result
}

#[test]
fn trim_lines_works() {
    let test = r#"
        line zero
          line one
    "#;
    assert_eq!(trim_lines_vec(test), vec!["line zero", "  line one"])
}

#[test]
fn trim_lines_joins_with_slash_n() {
    let test = "\n    a\n      b\n";
    assert_eq!(trim_lines(test), "a/n  b");
    assert_eq!(trim_lines("  one"), "one");
    assert_eq!(trim_lines(""), "");
}

#[test]
fn trim_lines_vec_agrees_with_std() {
    let blocks = [
        "",
        "\n",
        "plain\n",
        "plain\n  indented\nplain again\n   deeper\n",
        "  a\r\n    b\r\n c\r\n",
        "\n      x  \n\n      y\t\n    z\n",
        "   \n \t \n",
        "  last line without end",
        "  a\r",
        "\u{a0}\n  b\u{2003}\n  \u{a0}c\n",
        "\ta\n  b\n",
    ];
    for block in blocks {
        assert_eq!(trim_lines_vec(block), expected_lines(block), "{block:?}");
    }
}

#[test]
fn trim_lines_vec_drops_lines_before_the_first_indented() {
    assert_eq!(trim_lines_vec("head\n  body\ntail\n"), vec!["body", "tail"]);
    assert_eq!(trim_lines_vec("head\ntail\n"), Vec::<String>::new());
}

#[test]
fn trim_lines_vec_strips_only_full_indentation() {
    assert_eq!(trim_lines_vec("    a\n  b\n      c\n"), vec!["a", "  b", "  c"]);
}

#[test]
fn this_crate_coordinates() {
    assert_eq!(get_this_crate_name(), "openapi_lib_generator");
    assert_eq!(get_this_crate_ver(), "0.1.0");
    assert_eq!(get_this_crate_ver_pretty(), "v0.1.0");
}

#[test]
fn temp_subdir_is_named_after_the_tool() {
    assert_eq!(get_temp_subdir("/tmp"), "/tmp/openapi_lib_generator_testing");
    assert_eq!(get_temp_subdir("/var/tmp/"), "/var/tmp/openapi_lib_generator_testing");
}

fn sample_cli(output: Option<&str>) -> Cli {
    Cli {
        inner_cli: InnerCli {
            site_or_api_name: "PetShoppe".to_string(),
            api_url: Url::parse("https://pet.example").unwrap(),
            api_spec_url_opt: None,
            local_api_spec_filepath_opt: Some("spec.yaml".to_string()),
            lib_name_opt: None,
            extra_authors: None,
            output_project_dir_opt: output.map(|s| s.to_string()),
            working_dir: "/work".to_string(),
            autogenerate: false,
            command: None,
        },
        generation_timestamp: GenerationTimestamp { nanos: 0 },
    }
}

#[test]
fn cargo_job_is_announced_with_quoted_arguments() {
    let args = vec!["fix".to_string(), "--all targets".to_string()];
    let job = run_cargo_job(&args, Some("/out"), None);
    assert_eq!(job.args, args);
    assert_eq!(job.cwd.as_deref(), Some("/out"));
    assert_eq!(job.description, "Running `cargo` \"fix\" \"--all targets\"  in /out.");
    let job = run_cargo_job(&args, None, None);
    assert_eq!(job.cwd, None);
    assert_eq!(job.description, "Running `cargo` \"fix\" \"--all targets\"  .");
    let job = run_cargo_job(&Vec::new(), None, Some("just cargo"));
    assert_eq!(job.description, "just cargo");
    assert!(job.args.is_empty());
}

#[test]
fn cargo_make_task_runs_in_the_output_directory() {
    let job = run_cargo_make_task(&sample_cli(Some("/out")), TaskNames::GenerateAll);
    assert_eq!(job.args, vec!["make", "generate-all"]);
    assert_eq!(job.cwd.as_deref(), Some("/out"));
    assert_eq!(job.description, "Running `cargo` \"make\" \"generate-all\"  in /out.");
    let job = run_cargo_make_task(&sample_cli(None), TaskNames::SpecDownloadDefault);
    assert_eq!(job.args, vec!["make", "spec-download-default"]);
    assert_eq!(job.cwd.as_deref(), Some("/work"));
}

#[test]
fn trimmed_lines_hold_something_and_end_dark() {
    let block = "  a  \n\n   \t\n    b \u{a0}\n  \n c\n";
    let lines = trim_lines_vec(block);
    assert_eq!(lines, vec!["a", "  b", " c"]);
    for line in lines {
        assert!(!line.is_empty());
        assert!(!line.ends_with(char::is_whitespace));
    }
}
