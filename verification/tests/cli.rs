use openapi_lib_generator::cli::{
    CLIError, Cli, GenerationTimestamp, InnerCli, Paths, SubCommands,
};
use openapi_lib_generator::generate::parameters::{
    file_name_from_segments, try_file_name_from_path_url, ParameterError,
};
use url::Url;

fn raw(name: &str, spec_url: Option<&str>) -> InnerCli {
    InnerCli {
        site_or_api_name: name.to_string(),
        api_url: Url::parse("https://pet.example").unwrap(),
        api_spec_url_opt: spec_url.map(|u| Url::parse(u).unwrap()),
        local_api_spec_filepath_opt: None,
        lib_name_opt: None,
        extra_authors: None,
        output_project_dir_opt: None,
        working_dir: "/work".to_string(),
        autogenerate: false,
        command: None,
    }
}

fn trial() -> Option<SubCommands> {
    Some(SubCommands::TestGeneration {
        generator_crate_local_path_opt: Some("/src/tool".to_string()),
        generator_crate_repo_url_opt: None,
    })
}

#[test]
fn lib_name_defaults_to_name_and_suffix() {
    for name in ["PetShoppe", "", "a b", "x_api_lib", "Caf\u{e9}"] {
        assert_eq!(raw(name, None).get_lib_name(), format!("{name}_api_lib"));
    }
}

#[test]
fn lib_name_override_wins() {
    let mut cli = raw("PetShoppe", None);
    cli.lib_name_opt = Some("pets".to_string());
    assert_eq!(cli.get_lib_name(), "pets");
}

#[test]
fn spec_file_name_is_last_segment_of_url() {
    let cli = raw("foo", Some("https://x.test/specs/foo.yaml"));
    assert_eq!(cli.try_get_spec_file_name().unwrap(), "foo.yaml");
}

#[test]
fn spec_file_name_falls_back_to_lib_name() {
    let cli = raw("foo", Some("https://x.test/specs/"));
    assert_eq!(cli.try_get_spec_file_name().unwrap(), "foo_api_lib.yaml");
    let mut cli = raw("foo", Some("https://x.test"));
    cli.lib_name_opt = Some("my.lib".to_string());
    assert_eq!(cli.try_get_spec_file_name().unwrap(), "my.lib.yaml");
}

#[test]
fn spec_file_name_prefers_local_file() {
    let mut cli = raw("foo", Some("https://x.test/specs/foo.yaml"));
    cli.local_api_spec_filepath_opt = Some("/home/me/api.json".to_string());
    assert_eq!(cli.try_get_spec_file_name().unwrap(), "/home/me/api.json");
}

#[test]
fn spec_file_name_needs_a_source() {
    let cli = raw("foo", None);
    assert!(matches!(
        cli.try_get_spec_file_name(),
        Err(ParameterError::APIUrlNeededIfNoLocalFile)
    ));
}

#[test]
fn spec_file_name_needs_path_segments() {
    let cli = raw("foo", Some("data:text/plain,Hello"));
    match cli.try_get_spec_file_name() {
        Err(ParameterError::APIPathNeedsSegments(text)) => {
            assert_eq!(text, "data:text/plain,Hello")
        }
        other => panic!("{other:?}"),
    }
}

#[test]
fn file_name_from_path_url_takes_last_segment() {
    let name = |u: &str| try_file_name_from_path_url(&Url::parse(u).unwrap());
    assert_eq!(name("https://pet.example/openapi.yaml").unwrap(), "openapi.yaml");
    assert_eq!(name("https://pet.example/a/b/c.json?x=1#frag").unwrap(), "c.json");
    assert_eq!(name("https://pet.example").unwrap(), "");
    assert_eq!(name("https://pet.example/a/").unwrap(), "");
    assert_eq!(name("https://pet.example/a%20b").unwrap(), "a%20b");
    assert!(matches!(
        name("mailto:someone@pet.example"),
        Err(ParameterError::APIPathNeedsSegments(_))
    ));
}

#[test]
fn file_name_from_segments_covers_every_case() {
    let url = "https://pet.example/".to_string();
    assert!(matches!(
        file_name_from_segments(None, url.clone()),
        Err(ParameterError::APIPathNeedsSegments(text)) if text == url
    ));
    assert!(matches!(
        file_name_from_segments(Some(Vec::new()), url.clone()),
        Err(ParameterError::APIPathSegmentsNeedsLast)
    ));
    let segments = vec!["a".to_string(), "b.yaml".to_string()];
    assert_eq!(file_name_from_segments(Some(segments), url).unwrap(), "b.yaml");
}

#[test]
fn authors_are_split_on_semicolons_untrimmed() {
    assert_eq!(InnerCli::parse_authors_string("Ann;Bo"), vec!["Ann", "Bo"]);
    assert_eq!(InnerCli::parse_authors_string(" Ann ; Bo "), vec![" Ann ", " Bo "]);
    assert_eq!(InnerCli::parse_authors_string("Ann"), vec!["Ann"]);
    assert_eq!(InnerCli::parse_authors_string("Ann;"), vec!["Ann", ""]);
    assert_eq!(InnerCli::parse_authors_string(""), vec![""]);
}

#[test]
fn extra_authors_come_from_the_option() {
    let mut cli = raw("foo", None);
    assert!(cli.get_extra_authors().is_empty());
    cli.extra_authors = Some("Ann;Bo".to_string());
    assert_eq!(cli.get_extra_authors(), vec!["Ann", "Bo"]);
    cli.extra_authors = Some(String::new());
    assert_eq!(cli.get_extra_authors(), vec![""]);
}

#[test]
fn output_dir_defaults_to_working_dir() {
    let mut cli = raw("foo", None);
    assert_eq!(cli.get_output_project_dir(), "/work");
    assert_eq!(cli.get_output_project_dir_string(), "/work");
    assert_eq!(cli.get_output_project_subpath(&Paths::TempDir), "/work/temp");
    cli.output_project_dir_opt = Some("/out/".to_string());
    assert_eq!(cli.get_output_project_dir(), "/out/");
    assert_eq!(cli.get_output_project_dir_string(), "/out/");
    assert_eq!(cli.get_output_project_subpath(&Paths::GitignoreFile), "/out/.gitignore");
    assert_eq!(cli.get_output_project_subpath_string(&Paths::CargoTomlFile), "/out/Cargo.toml");
}

#[test]
fn paths_have_fixed_places() {
    assert_eq!(Paths::GitignoreFile.path(), ".gitignore");
    assert_eq!(Paths::GitDir.path(), ".git");
    assert_eq!(Paths::CargoMakefile.path(), "Makefile.toml");
    assert_eq!(Paths::CargoTomlFile.path(), "Cargo.toml");
    assert_eq!(Paths::ReadmeMdFile.path(), "README.md");
    assert_eq!(Paths::TempDir.path(), "temp");
    assert_eq!(Paths::TempDir.path(), InnerCli::TEMP_DIR_NAME);
    assert_eq!(Paths::GitignoreFile.description(), ".gitignore file");
    assert_eq!(Paths::GitDir.description(), ".git dir");
    assert_eq!(Paths::CargoMakefile.description(), "Cargo Make make file");
    assert_eq!(Paths::CargoTomlFile.description(), "Cargo.toml file");
    assert_eq!(Paths::ReadmeMdFile.description(), "README.md file");
    assert_eq!(Paths::TempDir.description(), "temp dir");
}

#[test]
fn settling_needs_a_spec_source() {
    let stamp = GenerationTimestamp { nanos: 1 };
    assert!(matches!(
        Cli::new(raw("foo", None), stamp, "/tmp"),
        Err(CLIError::ParameterError(ParameterError::APIUrlNeededIfNoLocalFile))
    ));
}

#[test]
fn settling_leaves_an_ordinary_run_as_it_is() {
    let stamp = GenerationTimestamp { nanos: 7 };
    let cli = Cli::new(raw("foo", Some("https://x.test/a.yaml")), stamp, "/tmp").unwrap();
    assert_eq!(cli.generation_timestamp, stamp);
    assert_eq!(cli.inner_cli.local_api_spec_filepath_opt, None);
    assert_eq!(cli.inner_cli.output_project_dir_opt, None);
    assert_eq!(cli.inner_cli.site_or_api_name, "foo");
    assert_eq!(cli.inner_cli.api_spec_url_opt.unwrap().as_str(), "https://x.test/a.yaml");
    let mut local = raw("foo", None);
    local.local_api_spec_filepath_opt = Some("a.yaml".to_string());
    let cli = Cli::new(local, stamp, "/tmp").unwrap();
    assert_eq!(cli.inner_cli.local_api_spec_filepath_opt.as_deref(), Some("a.yaml"));
    assert_eq!(cli.inner_cli.get_output_project_dir(), "/work");
}

#[test]
fn settling_fills_in_the_places_of_a_trial_run() {
    let stamp = GenerationTimestamp { nanos: 7 };
    let mut inner = raw("foo", None);
    inner.command = trial();
    assert_eq!(
        inner.sample_spec_path("/tmp").as_deref(),
        Some("/tmp/petshoppe_test_spec.yaml")
    );
    let cli = Cli::new(inner, stamp, "/tmp").unwrap();
    assert_eq!(
        cli.inner_cli.local_api_spec_filepath_opt.as_deref(),
        Some("/tmp/petshoppe_test_spec.yaml")
    );
    assert_eq!(
        cli.inner_cli.output_project_dir_opt.as_deref(),
        Some("/tmp/openapi_lib_generator_testing")
    );
    assert_eq!(cli.inner_cli.get_output_project_dir(), "/tmp/openapi_lib_generator_testing");
}

#[test]
fn settling_keeps_what_a_trial_run_names() {
    let stamp = GenerationTimestamp { nanos: 7 };
    let mut inner = raw("foo", None);
    inner.command = trial();
    inner.local_api_spec_filepath_opt = Some("mine.yaml".to_string());
    inner.output_project_dir_opt = Some("/elsewhere".to_string());
    assert_eq!(inner.sample_spec_path("/tmp"), None);
    let cli = Cli::new(inner, stamp, "/tmp").unwrap();
    assert_eq!(cli.inner_cli.local_api_spec_filepath_opt.as_deref(), Some("mine.yaml"));
    assert_eq!(cli.inner_cli.output_project_dir_opt.as_deref(), Some("/elsewhere"));
}

#[test]
fn ordinary_run_needs_no_sample() {
    assert_eq!(raw("foo", Some("https://x.test/a.yaml")).sample_spec_path("/tmp"), None);
}

#[test]
fn timestamp_is_written_as_rfc3339() {
    let at = |nanos: i64| {
        Cli { inner_cli: raw("foo", None), generation_timestamp: GenerationTimestamp { nanos } }
            .get_generation_timestamp_string()
    };
    assert_eq!(at(0), "1970-01-01T00:00:00+00:00");
    assert_eq!(at(1_662_921_288_000_000_000), "2022-09-11T18:34:48+00:00");
    assert_eq!(at(1_500_000_000), "1970-01-01T00:00:01.500+00:00");
    assert_eq!(at(-1), "1969-12-31T23:59:59.999999999+00:00");
}

#[test]
fn subcommand_copy_says_the_same() {
    let command = SubCommands::TestGeneration {
        generator_crate_local_path_opt: Some("/src/tool".to_string()),
        generator_crate_repo_url_opt: Some(Url::parse("https://git.example/tool.git").unwrap()),
    };
    let SubCommands::TestGeneration {
        generator_crate_local_path_opt,
        generator_crate_repo_url_opt,
    } = command.duplicate();
    assert_eq!(generator_crate_local_path_opt.as_deref(), Some("/src/tool"));
    assert_eq!(generator_crate_repo_url_opt.unwrap().as_str(), "https://git.example/tool.git");
}
