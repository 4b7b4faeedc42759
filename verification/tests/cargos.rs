use openapi_lib_generator::cli::{Cli, GenerationTimestamp, InnerCli, SubCommands};
use openapi_lib_generator::generate::cargos::{
    CargoConfigError, CargoConfigurator, DependencyDetail, Edition, Inheritable, NamedDependency,
    PackageManifest,
};
use url::Url;

fn cli(extra_authors: Option<&str>, command: Option<SubCommands>) -> Cli {
    Cli {
        inner_cli: InnerCli {
            site_or_api_name: "PetShoppe".to_string(),
            api_url: Url::parse("https://pet.example").unwrap(),
            api_spec_url_opt: None,
            local_api_spec_filepath_opt: Some("spec.yaml".to_string()),
            lib_name_opt: None,
            extra_authors: extra_authors.map(|s| s.to_string()),
            output_project_dir_opt: None,
            working_dir: "/work".to_string(),
            autogenerate: false,
            command,
        },
        generation_timestamp: GenerationTimestamp { nanos: 0 },
    }
}

fn manifest() -> PackageManifest {
    PackageManifest {
        authors: Inheritable::Stated(vec!["Me".to_string()]),
        description: None,
        keywords: Inheritable::Stated(Vec::new()),
        categories: Inheritable::Stated(vec!["science".to_string()]),
        edition: Inheritable::Stated(Edition::E2015),
        lib_edition: None,
        dev_dependencies: Vec::new(),
    }
}

fn stated<T>(value: Inheritable<T>) -> T {
    match value {
        Inheritable::Stated(v) => v,
        Inheritable::Inherited => panic!("left to the workspace"),
    }
}

const TOOL_AUTHORS: &str = "The openapi_lib_generator developers";

#[test]
fn configurator_collects_the_coordinates_of_the_run() {
    let c = CargoConfigurator::new(&cli(Some("Ann;Bo"), None)).unwrap();
    assert_eq!(c.generation_timestamp_string, "1970-01-01T00:00:00+00:00");
    assert_eq!(c.generation_authors, vec![TOOL_AUTHORS, "Ann", "Bo"]);
    assert_eq!(c.this_crate_name, "openapi_lib_generator");
    assert_eq!(c.this_crate_ver, "0.1.0");
    assert_eq!(c.original_api_name, "PetShoppe");
    assert!(c.subcommand_opt.is_none());
}

#[test]
fn configurator_without_extra_authors_adds_none() {
    let c = CargoConfigurator::new(&cli(None, None)).unwrap();
    assert_eq!(c.generation_authors, vec![TOOL_AUTHORS]);
    let after = c.update_cargo_manifest_post_generation(manifest()).unwrap();
    assert_eq!(stated(after.authors), vec!["Me", TOOL_AUTHORS]);
}

#[test]
fn patch_appends_to_every_list() {
    let c = CargoConfigurator::new(&cli(Some("Ann;Bo"), None)).unwrap();
    let after = c.update_cargo_manifest_post_generation(manifest()).unwrap();
    assert_eq!(stated(after.authors), vec!["Me", TOOL_AUTHORS, "Ann", "Bo"]);
    match after.description {
        Some(Inheritable::Stated(d)) => {
            assert_eq!(d, "\n Generated at 1970-01-01T00:00:00+00:00")
        }
        other => panic!("{other:?}"),
    }
    assert_eq!(stated(after.keywords), vec!["PetShoppe", "OpenAPI", "web"]);
    assert_eq!(
        stated(after.categories),
        vec!["science", "web-programming", "api-bindings", "authentication"]
    );
    assert_eq!(after.dev_dependencies.len(), 1);
    let own = &after.dev_dependencies[0];
    assert_eq!(own.name, "openapi_lib_generator");
    assert_eq!(own.detail.version.as_deref(), Some("0.1.0"));
    assert_eq!(own.detail.path, None);
    assert_eq!(own.detail.git, None);
    assert!(matches!(after.edition, Inheritable::Stated(Edition::E2015)));
    assert_eq!(after.lib_edition, None);
}

#[test]
fn patch_extends_an_existing_description() {
    let c = CargoConfigurator::new(&cli(None, None)).unwrap();
    let mut m = manifest();
    m.description = Some(Inheritable::Stated("A client.".to_string()));
    let after = c.update_cargo_manifest_post_generation(m).unwrap();
    assert_eq!(
        stated(after.description.unwrap()),
        "A client.\n Generated at 1970-01-01T00:00:00+00:00"
    );
}

#[test]
fn patching_twice_appends_authors_twice() {
    let c = CargoConfigurator::new(&cli(Some("Ann;Bo"), None)).unwrap();
    let once = c.update_cargo_manifest_post_generation(manifest()).unwrap();
    let twice = c.update_cargo_manifest_post_generation(once).unwrap();
    assert_eq!(
        stated(twice.authors),
        vec!["Me", TOOL_AUTHORS, "Ann", "Bo", TOOL_AUTHORS, "Ann", "Bo"]
    );
    assert_eq!(
        stated(twice.keywords),
        vec!["PetShoppe", "OpenAPI", "web", "PetShoppe", "OpenAPI", "web"]
    );
    assert_eq!(twice.dev_dependencies.len(), 2);
}

#[test]
fn patch_keeps_earlier_dependencies() {
    let c = CargoConfigurator::new(&cli(None, None)).unwrap();
    let mut m = manifest();
    m.dev_dependencies.push(NamedDependency {
        name: "tokio".to_string(),
        detail: DependencyDetail { version: Some("1".to_string()), path: None, git: None },
    });
    let after = c.update_cargo_manifest_post_generation(m).unwrap();
    assert_eq!(after.dev_dependencies.len(), 2);
    assert_eq!(after.dev_dependencies[0].name, "tokio");
    assert_eq!(after.dev_dependencies[1].name, "openapi_lib_generator");
}

#[test]
fn trial_run_depends_on_local_path() {
    let command = SubCommands::TestGeneration {
        generator_crate_local_path_opt: Some("/src/tool".to_string()),
        generator_crate_repo_url_opt: Some(Url::parse("https://git.example/tool.git").unwrap()),
    };
    let c = CargoConfigurator::new(&cli(None, Some(command))).unwrap();
    let after = c.update_cargo_manifest_post_generation(manifest()).unwrap();
    let own = &after.dev_dependencies[0].detail;
    assert_eq!(own.version.as_deref(), Some("0.1.0"));
    assert_eq!(own.path.as_deref(), Some("/src/tool"));
    assert_eq!(own.git, None);
}

#[test]
fn trial_run_depends_on_repository() {
    let command = SubCommands::TestGeneration {
        generator_crate_local_path_opt: None,
        generator_crate_repo_url_opt: Some(Url::parse("https://git.example/tool.git").unwrap()),
    };
    let c = CargoConfigurator::new(&cli(None, Some(command))).unwrap();
    let after = c.update_cargo_manifest_post_generation(manifest()).unwrap();
    let own = &after.dev_dependencies[0].detail;
    assert_eq!(own.path, None);
    assert_eq!(own.git.as_deref(), Some("https://git.example/tool.git"));
}

#[test]
fn patch_refuses_inherited_values() {
    let c = CargoConfigurator::new(&cli(None, None)).unwrap();
    let inherited = |change: fn(&mut PackageManifest)| {
        let mut m = manifest();
        change(&mut m);
        match c.update_cargo_manifest_post_generation(m) {
            Err(CargoConfigError::CargoTomlError(message)) => {
                assert_eq!(message, "value from workspace hasn't been set")
            }
            other => panic!("{other:?}"),
        }
    };
    inherited(|m| m.authors = Inheritable::Inherited);
    inherited(|m| m.description = Some(Inheritable::Inherited));
    inherited(|m| m.keywords = Inheritable::Inherited);
    inherited(|m| m.categories = Inheritable::Inherited);
}

#[test]
fn edition_bump_advances_one_rung() {
    let mut edition = Edition::E2015;
    let report = CargoConfigurator::update_edition("manifest package", &mut edition).unwrap();
    assert_eq!(edition, Edition::E2018);
    assert_eq!(report, "Updated manifest package from E2015 to E2018");
    let report = CargoConfigurator::update_edition("lib", &mut edition).unwrap();
    assert_eq!(edition, Edition::E2021);
    assert_eq!(report, "Updated lib from E2018 to E2021");
}

#[test]
fn edition_bump_past_newest_fails() {
    let mut edition = Edition::E2021;
    assert!(matches!(
        CargoConfigurator::update_edition("manifest package", &mut edition),
        Err(CargoConfigError::UpdateRustEditionError(Edition::E2021))
    ));
    assert_eq!(edition, Edition::E2021);
}

#[test]
fn edition_names() {
    assert_eq!(Edition::E2015.name(), "E2015");
    assert_eq!(Edition::E2018.name(), "E2018");
    assert_eq!(Edition::E2021.name(), "E2021");
}

#[test]
fn post_fix_bumps_package_and_lib() {
    let c = CargoConfigurator::new(&cli(None, None)).unwrap();
    let mut m = manifest();
    m.lib_edition = Some(Edition::E2018);
    let (after, report) = c.update_cargo_manifest_post_fix_edition(m).unwrap();
    assert!(matches!(after.edition, Inheritable::Stated(Edition::E2018)));
    assert_eq!(after.lib_edition, Some(Edition::E2021));
    assert_eq!(
        report,
        "updated cargo manifest edition post fix (Updated manifest package from E2015 to E2018, \
         Updated manifest lib target from E2018 to E2021)"
    );
    assert_eq!(stated(after.authors), vec!["Me"]);
}

#[test]
fn post_fix_without_lib_reports_package_only() {
    let c = CargoConfigurator::new(&cli(None, None)).unwrap();
    let (after, report) = c.update_cargo_manifest_post_fix_edition(manifest()).unwrap();
    assert!(matches!(after.edition, Inheritable::Stated(Edition::E2018)));
    assert_eq!(after.lib_edition, None);
    assert_eq!(
        report,
        "updated cargo manifest edition post fix (Updated manifest package from E2015 to E2018, )"
    );
}

#[test]
fn post_fix_refuses_newest_and_inherited() {
    let c = CargoConfigurator::new(&cli(None, None)).unwrap();
    let mut m = manifest();
    m.edition = Inheritable::Stated(Edition::E2021);
    assert!(matches!(
        c.update_cargo_manifest_post_fix_edition(m),
        Err(CargoConfigError::UpdateRustEditionError(Edition::E2021))
    ));
    let mut m = manifest();
    m.lib_edition = Some(Edition::E2021);
    assert!(matches!(
        c.update_cargo_manifest_post_fix_edition(m),
        Err(CargoConfigError::UpdateRustEditionError(Edition::E2021))
    ));
    let mut m = manifest();
    m.edition = Inheritable::Inherited;
    assert!(matches!(
        c.update_cargo_manifest_post_fix_edition(m),
        Err(CargoConfigError::CargoTomlError(message))
            if message == "value from workspace hasn't been set"
    ));
}
