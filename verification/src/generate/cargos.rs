//! The package manifest of the generated crate, and what the tool adds to it.

use crate::cli::{rfc3339_text, Cli, InnerCli, SubCommands, SubCommandsView};
use crate::generate::parameters::url_as_string;
use crate::generate::utils::{
    get_this_crate_name, get_this_crate_ver, THIS_CRATE_AUTHORS, THIS_CRATE_NAME, THIS_CRATE_VER,
};
use crate::text::{extend_strings, push_str, split_on};
use vstd::prelude::*;
use vstd::string::*;

verus! {

/// The editions of the language that a manifest can name, oldest first.
#[derive(Clone, Copy, Debug, PartialEq, Eq, Structural)]
pub enum Edition {
    E2015,
    E2018,
    E2021,
}

impl Edition {
    /// The place of the edition on the ladder, counted from the oldest.
    pub open spec fn rung(self) -> nat {
        match self {
            Edition::E2015 => 0,
            Edition::E2018 => 1,
            Edition::E2021 => 2,
        }
    }

    /// The edition that follows, if one does.
    pub open spec fn next(self) -> Option<Edition> {
        match self {
            Edition::E2015 => Some(Edition::E2018),
            Edition::E2018 => Some(Edition::E2021),
            Edition::E2021 => None,
        }
    }

    /// The name of the edition in reports.
    pub open spec fn name_text(self) -> Seq<char> {
        match self {
            Edition::E2015 => "E2015"@,
            Edition::E2018 => "E2018"@,
            Edition::E2021 => "E2021"@,
        }
    }

    /// The name of the edition in reports.
    pub fn name(&self) -> (r: &'static str)
        ensures
            r@ == self.name_text(),
    {
        match self {
            Edition::E2015 => "E2015",
            Edition::E2018 => "E2018",
            Edition::E2021 => "E2021",
        }
    }
}

/// The edition that follows another stands exactly one rung higher, and only
/// the newest edition has none that follows.
pub proof fn lemma_next_edition_is_one_rung_up(e: Edition)
    ensures
        e.next() matches Some(n) ==> n.rung() == e.rung() + 1,
        e.next() is None <==> e == Edition::E2021,
{
}

/// What can go wrong while a manifest is brought up to date.
#[derive(Debug)]
pub enum CargoConfigError {
    /// The manifest could not be read, or a value in it is set by a workspace
    /// and so cannot be changed here; the text says which.
    CargoTomlError(String),
    /// The manifest could not be written out as TOML.
    TomlSerError(String),
    /// No edition follows the one given.
    UpdateRustEditionError(Edition),
    /// Reading or writing failed.
    IOError(String),
}

/// A value of a manifest that is either stated there or left to the workspace.
#[derive(Debug)]
pub enum Inheritable<T> {
    Stated(T),
    Inherited,
}

/// How a dependency is found: by version, and by a local path or a
/// repository where one is named.
#[derive(Debug)]
pub struct DependencyDetail {
    pub version: Option<String>,
    pub path: Option<String>,
    pub git: Option<String>,
}

/// A dependency as plain text.
pub struct DependencyView {
    pub version: Option<Seq<char>>,
    pub path: Option<Seq<char>>,
    pub git: Option<Seq<char>>,
}

impl View for DependencyDetail {
    type V = DependencyView;

    open spec fn view(&self) -> DependencyView {
        DependencyView {
            version: self.version.deep_view(),
            path: self.path.deep_view(),
            git: self.git.deep_view(),
        }
    }
}

/// One entry of a table of dependencies.
#[derive(Debug)]
pub struct NamedDependency {
    pub name: String,
    pub detail: DependencyDetail,
}

/// The table that a list of entries stands for. An entry replaces any
/// earlier one of its name.
pub open spec fn dependency_table(entries: Seq<NamedDependency>) -> Map<Seq<char>, DependencyView>
    decreases entries.len(),
{
    if entries.len() == 0 {
        Map::empty()
    } else {
        dependency_table(entries.drop_last()).insert(entries.last().name@, entries.last().detail@)
    }
}

/// The part of a package manifest that the tool reads and changes.
#[derive(Debug)]
pub struct PackageManifest {
    pub authors: Inheritable<Vec<String>>,
    pub description: Option<Inheritable<String>>,
    pub keywords: Inheritable<Vec<String>>,
    pub categories: Inheritable<Vec<String>>,
    /// The edition of the package.
    pub edition: Inheritable<Edition>,
    /// The edition of the library target, where the manifest has such a target.
    pub lib_edition: Option<Edition>,
    /// The dependencies for development, in the order they were entered.
    pub dev_dependencies: Vec<NamedDependency>,
}

/// A package manifest as plain values.
pub struct PackageManifestView {
    pub authors: Inheritable<Seq<Seq<char>>>,
    pub description: Option<Inheritable<Seq<char>>>,
    pub keywords: Inheritable<Seq<Seq<char>>>,
    pub categories: Inheritable<Seq<Seq<char>>>,
    pub edition: Inheritable<Edition>,
    pub lib_edition: Option<Edition>,
    pub dev_dependencies: Map<Seq<char>, DependencyView>,
}

/// A list of texts that may be left to the workspace, as plain values.
pub open spec fn list_view(list: Inheritable<Vec<String>>) -> Inheritable<Seq<Seq<char>>> {
    match list {
        Inheritable::Stated(v) => Inheritable::Stated(v.deep_view()),
        Inheritable::Inherited => Inheritable::Inherited,
    }
}

impl View for PackageManifest {
    type V = PackageManifestView;

    open spec fn view(&self) -> PackageManifestView {
        PackageManifestView {
            authors: list_view(self.authors),
            description: match self.description {
                Some(Inheritable::Stated(s)) => Some(Inheritable::Stated(s@)),
                Some(Inheritable::Inherited) => Some(Inheritable::Inherited),
                None => None,
            },
            keywords: list_view(self.keywords),
            categories: list_view(self.categories),
            edition: self.edition,
            lib_edition: self.lib_edition,
            dev_dependencies: dependency_table(self.dev_dependencies@),
        }
    }
}

/// What the tool adds to the manifest of a generated crate.
#[derive(Debug)]
pub struct CargoConfigurator {
    /// The moment of the run, as text.
    pub generation_timestamp_string: String,
    /// The authors to add: those of this tool, then those the run names.
    pub generation_authors: Vec<String>,
    /// The name of this tool.
    pub this_crate_name: String,
    /// The version of this tool.
    pub this_crate_ver: String,
    /// The name of the application.
    pub original_api_name: String,
    /// The mode of the run.
    pub subcommand_opt: Option<SubCommands>,
}

/// What the tool adds to a manifest, as plain values.
pub struct CargoConfiguratorView {
    pub generation_timestamp_string: Seq<char>,
    pub generation_authors: Seq<Seq<char>>,
    pub this_crate_name: Seq<char>,
    pub this_crate_ver: Seq<char>,
    pub original_api_name: Seq<char>,
    pub subcommand_opt: Option<SubCommandsView>,
}

impl View for CargoConfigurator {
    type V = CargoConfiguratorView;

    open spec fn view(&self) -> CargoConfiguratorView {
        CargoConfiguratorView {
            generation_timestamp_string: self.generation_timestamp_string@,
            generation_authors: self.generation_authors.deep_view(),
            this_crate_name: self.this_crate_name@,
            this_crate_ver: self.this_crate_ver@,
            original_api_name: self.original_api_name@,
            subcommand_opt: match self.subcommand_opt {
                Some(command) => Some(command@),
                None => None,
            },
        }
    }
}

impl CargoConfiguratorView {
    /// The dependency on this tool that the generated crate gets: by
    /// version, and in a trial run by the local path where one is named,
    /// or else by the repository where one is named.
    pub open spec fn self_dependency(self) -> DependencyView {
        DependencyView {
            version: Some(self.this_crate_ver),
            path: match self.subcommand_opt {
                Some(command) => command.local_path,
                None => None,
            },
            git: match self.subcommand_opt {
                Some(command) => if command.local_path is None {
                    command.repo_url
                } else {
                    None
                },
                None => None,
            },
        }
    }

    /// The keywords that the generated crate gets.
    pub open spec fn added_keywords(self) -> Seq<Seq<char>> {
        seq![self.original_api_name, "OpenAPI"@, "web"@]
    }

    /// The description of the generated crate, given the one it has.
    pub open spec fn extended_description(self, before: Seq<char>) -> Seq<char> {
        before + "\n Generated at "@ + self.generation_timestamp_string
    }

    /// Whether the manifest sets every value itself that the tool adds to.
    pub open spec fn can_patch(manifest: PackageManifestView) -> bool {
        &&& manifest.authors is Stated
        &&& !(manifest.description matches Some(Inheritable::Inherited))
        &&& manifest.keywords is Stated
        &&& manifest.categories is Stated
    }

    /// The manifest after generation: more authors, a longer description,
    /// more keywords and categories, and a dependency on this tool.
    pub open spec fn patched(self, manifest: PackageManifestView) -> PackageManifestView
        recommends
            Self::can_patch(manifest),
    {
        PackageManifestView {
            authors: Inheritable::Stated(manifest.authors->Stated_0 + self.generation_authors),
            description: Some(
                Inheritable::Stated(
                    self.extended_description(
                        match manifest.description {
                            Some(Inheritable::Stated(d)) => d,
                            _ => Seq::empty(),
                        },
                    ),
                ),
            ),
            keywords: Inheritable::Stated(manifest.keywords->Stated_0 + self.added_keywords()),
            categories: Inheritable::Stated(manifest.categories->Stated_0 + added_categories()),
            dev_dependencies: manifest.dev_dependencies.insert(
                self.this_crate_name,
                self.self_dependency(),
            ),
            ..manifest
        }
    }
}

/// What a run adds to the manifest of the crate it generates. The authors
/// are those of this tool and then the extra authors of the run, if it
/// names any.
pub open spec fn configurator_for(cli: &Cli) -> CargoConfiguratorView {
    CargoConfiguratorView {
        generation_timestamp_string: rfc3339_text(cli.generation_timestamp.nanos as int),
        generation_authors: split_on(THIS_CRATE_AUTHORS@, ';')
            + cli.inner_cli.extra_authors_list(),
        this_crate_name: THIS_CRATE_NAME@,
        this_crate_ver: THIS_CRATE_VER@,
        original_api_name: cli.inner_cli.site_or_api_name@,
        subcommand_opt: match cli.inner_cli.command {
            Some(command) => Some(command@),
            None => None,
        },
    }
}

/// What a bump of the edition reports: what was bumped, from where, and where to.
pub open spec fn edition_report(description: Seq<char>, from: Edition, to: Edition) -> Seq<char> {
    "Updated "@ + description + " from "@ + from.name_text() + " to "@ + to.name_text()
}

impl PackageManifestView {
    /// Whether both editions of the manifest can be bumped: the package
    /// states its own, and neither it nor the library target is at the newest.
    pub open spec fn can_bump(self) -> bool {
        &&& self.edition matches Inheritable::Stated(e) && e.next() is Some
        &&& self.lib_edition matches Some(e) ==> e.next() is Some
    }

    /// The manifest with each edition one rung up.
    pub open spec fn bumped(self) -> PackageManifestView
        recommends
            self.can_bump(),
    {
        PackageManifestView {
            edition: Inheritable::Stated(self.edition->Stated_0.next()->0),
            lib_edition: match self.lib_edition {
                Some(e) => e.next(),
                None => None,
            },
            ..self
        }
    }

    /// What is reported of a bump of both editions.
    pub open spec fn bump_report(self) -> Seq<char>
        recommends
            self.can_bump(),
    {
        "updated cargo manifest edition post fix ("@ + edition_report(
            "manifest package"@,
            self.edition->Stated_0,
            self.edition->Stated_0.next()->0,
        ) + ", "@ + (match self.lib_edition {
            Some(e) => edition_report("manifest lib target"@, e, e.next()->0),
            None => Seq::empty(),
        }) + ")"@
    }
}

/// The message for a value that the manifest leaves to its workspace.
pub const INHERITED_VALUE: &'static str = "value from workspace hasn't been set";

impl CargoConfigurator {
    /// What a run adds to the manifest of the crate it generates.
    pub fn new(cli: &Cli) -> (r: Result<Self, CargoConfigError>)
        ensures
            r matches Ok(c) && c@ == configurator_for(cli),
    {
        let mut generation_authors = InnerCli::parse_authors_string(THIS_CRATE_AUTHORS);
        let extra = cli.inner_cli.get_extra_authors();
        extend_strings(&mut generation_authors, &extra);
        let c = Self {
            generation_timestamp_string: cli.get_generation_timestamp_string(),
            generation_authors,
            this_crate_name: get_this_crate_name().to_owned(),
            this_crate_ver: get_this_crate_ver().to_owned(),
            original_api_name: cli.inner_cli.site_or_api_name.clone(),
            subcommand_opt: match &cli.inner_cli.command {
                Some(command) => Some(command.duplicate()),
                None => None,
            },
        };
        Ok(c)
    }

    /// Moves `edition` one rung up the ladder and reports the step. From the
    /// newest edition there is no step: the edition stays, and the error names it.
    pub fn update_edition(description: &str, edition: &mut Edition) -> (r: Result<
        String,
        CargoConfigError,
    >)
        ensures
            match r {
                Ok(report) => {
                    &&& old(edition).next() == Some(*final(edition))
                    &&& final(edition).rung() == old(edition).rung() + 1
                    &&& report@ == edition_report(description@, *old(edition), *final(edition))
                },
                Err(CargoConfigError::UpdateRustEditionError(e)) => {
                    &&& old(edition).next() is None
                    &&& e == *old(edition)
                    &&& *final(edition) == *old(edition)
                },
                Err(_) => false,
            },
    {
        let from = *edition;
        let to = match from {
            Edition::E2015 => Edition::E2018,
            Edition::E2018 => Edition::E2021,
            Edition::E2021 => {
                return Err(CargoConfigError::UpdateRustEditionError(from));
            },
        };
        *edition = to;
        let mut report = "Updated ".to_owned();
        report.append(description);
        report.append(" from ");
        report.append(from.name());
        report.append(" to ");
        report.append(to.name());
        Ok(report)
    }

    /// The manifest after the generated code was fixed: the edition of the
    /// package and that of the library target, where there is one, each go
    /// one rung up. Comes with a report of both steps. A package that leaves
    /// its edition to the workspace is refused, and so is an edition that is
    /// the newest already; the package is looked at first.
    pub fn update_cargo_manifest_post_fix_edition(&self, manifest: PackageManifest) -> (r: Result<
        (PackageManifest, String),
        CargoConfigError,
    >)
        ensures
            match r {
                Ok((after, report)) => {
                    &&& manifest@.can_bump()
                    &&& after@ == manifest@.bumped()
                    &&& report@ == manifest@.bump_report()
                },
                Err(CargoConfigError::CargoTomlError(message)) => {
                    &&& manifest.edition is Inherited
                    &&& message@ == INHERITED_VALUE@
                },
                Err(CargoConfigError::UpdateRustEditionError(e)) => {
                    &&& e.next() is None
                    &&& manifest.edition matches Inheritable::Stated(p)
                    &&& if p.next() is None {
                        e == p
                    } else {
                        manifest.lib_edition == Some(e)
                    }
                },
                Err(_) => false,
            },
    {
        let mut manifest = manifest;
        let ghost before = manifest@;
        let mut package_edition = match manifest.edition {
            Inheritable::Stated(e) => e,
            Inheritable::Inherited => {
                return Err(CargoConfigError::CargoTomlError(INHERITED_VALUE.to_owned()));
            },
        };
        let package_update_desc = match Self::update_edition(
            "manifest package",
            &mut package_edition,
        ) {
            Ok(report) => report,
            Err(e) => {
                return Err(e);
            },
        };
        manifest.edition = Inheritable::Stated(package_edition);
        let lib_update_desc = match manifest.lib_edition {
            Some(mut lib_edition) => {
                match Self::update_edition("manifest lib target", &mut lib_edition) {
                    Ok(report) => {
                        manifest.lib_edition = Some(lib_edition);
                        report
                    },
                    Err(e) => {
                        return Err(e);
                    },
                }
            },
            None => String::new(),
        };
        let mut report = "updated cargo manifest edition post fix (".to_owned();
        report.append(package_update_desc.as_str());
        report.append(", ");
        report.append(lib_update_desc.as_str());
        report.append(")");
        proof {
            assert(report@ =~= before.bump_report());
        }
        Ok((manifest, report))
    }

    /// The dependency on this tool that the generated crate gets.
    fn make_self_dependency(&self) -> (r: DependencyDetail)
        ensures
            r@ == self@.self_dependency(),
    {
        let mut r = DependencyDetail {
            version: Some(self.this_crate_ver.clone()),
            path: None,
            git: None,
        };
        match &self.subcommand_opt {
            Some(
                SubCommands::TestGeneration {
                    generator_crate_local_path_opt,
                    generator_crate_repo_url_opt,
                },
            ) => match generator_crate_local_path_opt {
                Some(path) => {
                    r.path = Some(path.clone());
                },
                None => match generator_crate_repo_url_opt {
                    Some(url) => {
                        r.git = Some(url_as_string(url));
                    },
                    None => {},
                },
            },
            None => {},
        }
        r
    }

    /// The manifest after generation. The authors of the run go to the end
    /// of the list of authors, a line with the moment of the run to the end
    /// of the description, the application's name and two fixed keywords to
    /// the end of the keywords, three fixed categories to the end of the
    /// categories, and the dependencies for development get this tool, under
    /// its name. Nothing that is there already is touched or sorted out. A
    /// manifest that leaves one of these values to its workspace is refused.
    pub fn update_cargo_manifest_post_generation(&self, manifest: PackageManifest) -> (r: Result<
        PackageManifest,
        CargoConfigError,
    >)
        ensures
            match r {
                Ok(after) => {
                    &&& CargoConfiguratorView::can_patch(manifest@)
                    &&& after@ == self@.patched(manifest@)
                },
                Err(CargoConfigError::CargoTomlError(message)) => {
                    &&& !CargoConfiguratorView::can_patch(manifest@)
                    &&& message@ == INHERITED_VALUE@
                },
                Err(_) => false,
            },
    {
        let ghost before = manifest@;
        let PackageManifest {
            authors,
            description,
            keywords,
            categories,
            edition,
            lib_edition,
            dev_dependencies,
        } = manifest;
        let mut authors = match authors {
            Inheritable::Stated(v) => v,
            Inheritable::Inherited => {
                return Err(CargoConfigError::CargoTomlError(INHERITED_VALUE.to_owned()));
            },
        };
        extend_strings(&mut authors, &self.generation_authors);
        let mut description = match description {
            Some(Inheritable::Stated(d)) => d,
            Some(Inheritable::Inherited) => {
                return Err(CargoConfigError::CargoTomlError(INHERITED_VALUE.to_owned()));
            },
            None => String::new(),
        };
        description.append("\n Generated at ");
        description.append(self.generation_timestamp_string.as_str());
        let mut keywords = match keywords {
            Inheritable::Stated(v) => v,
            Inheritable::Inherited => {
                return Err(CargoConfigError::CargoTomlError(INHERITED_VALUE.to_owned()));
            },
        };
        push_str(&mut keywords, self.original_api_name.as_str());
        push_str(&mut keywords, "OpenAPI");
        push_str(&mut keywords, "web");
        let mut categories = match categories {
            Inheritable::Stated(v) => v,
            Inheritable::Inherited => {
                return Err(CargoConfigError::CargoTomlError(INHERITED_VALUE.to_owned()));
            },
        };
        push_str(&mut categories, "web-programming");
        push_str(&mut categories, "api-bindings");
        push_str(&mut categories, "authentication");
        let mut dev_dependencies = dev_dependencies;
        let ghost entries = dev_dependencies@;
        dev_dependencies.push(
            NamedDependency {
                name: self.this_crate_name.clone(),
                detail: self.make_self_dependency(),
            },
        );
        let after = PackageManifest {
            authors: Inheritable::Stated(authors),
            description: Some(Inheritable::Stated(description)),
            keywords: Inheritable::Stated(keywords),
            categories: Inheritable::Stated(categories),
            edition,
            lib_edition,
            dev_dependencies,
        };
        proof {
            let want = self@.patched(before);
            assert(after.dev_dependencies@.drop_last() =~= entries);
            assert(after@.dev_dependencies == want.dev_dependencies);
            assert(after@.keywords->Stated_0 =~= want.keywords->Stated_0);
            assert(after@.categories->Stated_0 =~= want.categories->Stated_0);
            assert(after@.authors == want.authors);
            assert(after@.description->0->Stated_0 =~= want.description->0->Stated_0);
        }
        Ok(after)
    }
}

/// The categories that the generated crate gets.
pub open spec fn added_categories() -> Seq<Seq<char>> {
    seq!["web-programming"@, "api-bindings"@, "authentication"@]
}

/// Patching is not idempotent: a manifest that is patched twice has the
/// added authors twice at the end of its list, and nothing is sorted out.
pub proof fn lemma_patching_twice_appends_authors_twice(
    configurator: CargoConfiguratorView,
    manifest: PackageManifestView,
)
    requires
        CargoConfiguratorView::can_patch(manifest),
    ensures
        CargoConfiguratorView::can_patch(configurator.patched(manifest)),
        configurator.patched(configurator.patched(manifest)).authors == Inheritable::Stated(
            manifest.authors->Stated_0 + configurator.generation_authors
                + configurator.generation_authors,
        ),
{
}

} // verus!
