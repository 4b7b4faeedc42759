//! The README of the generated crate.

use crate::cli::{rfc3339_text, Cli};
use crate::generate::parameters::{url_as_string, url_text};
use crate::generate::utils::{
    dark_lines, get_this_crate_name, get_this_crate_ver, lemma_dark_lines_of_joined, trim_lines,
    trimmed_lines, THIS_CRATE_NAME, THIS_CRATE_VER,
};
use crate::text::{
    join, join_with, lemma_join_begins_with_first, lemma_join_lacks,
    lemma_leading_spaces_is_run, lemma_split_of_joined, lemma_split_pieces_lack,
    lemma_split_without_sep, lemma_trim_end_after_prefix, lemma_trim_end_keeps, split_on,
    string_from_utf8, trim_end_of,
};
use vstd::prelude::*;
use vstd::string::*;
use vstd::utf8::{decode_utf8, valid_utf8};

verus! {

/// What can go wrong while the README is written.
#[derive(Debug)]
pub enum READMEGenerationError {
    /// Reading or writing failed; the text says how.
    IOError(String),
    /// The README that is there is not UTF-8; the text says where it breaks.
    FromUtf8Error(String),
}

/// The two parts of the README that the tool writes: a title at its head,
/// and at its end a block that says how the crate came about.
#[derive(Debug)]
#[allow(non_camel_case_types)]
pub struct READMEGenerator {
    start_readme_string: String,
    end_readme_string: String,
}

/// The line that names the extra authors: all of them, with a comma and a
/// blank between neighbours.
pub open spec fn authors_line(authors: Seq<Seq<char>>) -> Seq<char> {
    "Additional authors: "@ + join_with(authors, ", "@)
}

/// The title as it is laid out before its indentation is taken off.
pub open spec fn start_template(cli: &Cli) -> Seq<char> {
    "\n      # "@ + cli.inner_cli.lib_name() + "\n    "@
}

/// The line of the closing block that names the extra authors of a run,
/// empty where the run names none.
pub open spec fn authors_part(cli: &Cli) -> Seq<char> {
    match cli.inner_cli.extra_authors {
        Some(authors) => authors_line(split_on(authors@, ';')),
        None => Seq::empty(),
    }
}

/// The closing block from its heading on, as it is laid out before its
/// indentation is taken off. It names the generated crate, this tool with
/// its version, the moment of the run, and the application with its URL.
/// Where the run has a URL for the specification, the last line names it.
pub open spec fn about_template(cli: &Cli) -> Seq<char> {
    "\n      ## About working on `"@ + cli.inner_cli.lib_name()
        + "`\n      \n      Hey! This library:\n      - Was *generated* using "@
        + THIS_CRATE_NAME@ + " v"@ + THIS_CRATE_VER@ + " at "@ + rfc3339_text(
        cli.generation_timestamp.nanos as int,
    ) + ".  \n      - Implements the ["@ + cli.inner_cli.site_or_api_name@ + "]("@ + url_text(
        cli.inner_cli.api_url,
    )
        + "). \n      \n      For these reasons, proposed changes to this repository will likely not be accepted. Try proposing changes to the generator tools instead.\n\n      "@
        + (match cli.inner_cli.api_spec_url_opt {
        Some(url) => "\n- Uses the corresponding OpenAPI specification found at ["@ + url_text(url)
            + "]."@,
        None => Seq::empty(),
    })
}

/// The closing block as it is laid out before its indentation is taken
/// off: the line of the extra authors, indented as the rest is, and after it
/// the block from its heading on.
pub open spec fn end_template(cli: &Cli) -> Seq<char> {
    "\n      "@ + authors_part(cli) + "\n"@ + about_template(cli)
}

/// In a line of authors each author but the first comes after a comma and
/// a blank, and the line ends with the last author: no comma follows.
pub proof fn lemma_authors_line_has_commas_between(authors: Seq<Seq<char>>)
    ensures
        authors.len() == 1 ==> authors_line(authors) == "Additional authors: "@ + authors[0],
        authors.len() >= 2 ==> authors_line(authors) == authors_line(authors.drop_last()) + ", "@
            + authors.last(),
{
    if authors.len() >= 2 {
        assert(authors_line(authors) =~= authors_line(authors.drop_last()) + ", "@
            + authors.last());
    }
}

/// The line for two authors names the first, then a comma and a blank,
/// then the second, and nothing more.
pub proof fn lemma_authors_line_of_two(first: Seq<char>, second: Seq<char>)
    ensures
        authors_line(seq![first, second]) == "Additional authors: "@ + first + ", "@ + second,
{
    let authors = seq![first, second];
    assert(authors.drop_last() =~= seq![first]);
    assert(join_with(authors.drop_last(), ", "@) == first);
    assert(authors_line(authors) =~= "Additional authors: "@ + first + ", "@ + second);
}

/// The line of authors of a text without line feeds has no line feed, and
/// it begins with a letter.
proof fn lemma_authors_line_is_one_line(s: Seq<char>)
    requires
        forall|i: int| 0 <= i < s.len() ==> s[i] != '\n',
    ensures
        forall|k: int|
            0 <= k < authors_line(split_on(s, ';')).len() ==> authors_line(split_on(s, ';'))[k]
                != '\n',
        authors_line(split_on(s, ';')).len() > 0,
        authors_line(split_on(s, ';'))[0] == 'A',
{
    reveal_strlit("Additional authors: ");
    reveal_strlit(", ");
    let authors = split_on(s, ';');
    let joined = join_with(authors, ", "@);
    lemma_split_pieces_lack(s, ';', '\n');
    lemma_join_lacks(authors, ", "@, '\n');
    let line = authors_line(authors);
    assert forall|k: int| 0 <= k < line.len() implies line[k] != '\n' by {
        if k < "Additional authors: "@.len() {
            assert(line[k] == "Additional authors: "@[k]);
        } else {
            assert(line[k] == joined[k - "Additional authors: "@.len()]);
        }
    }
    assert(line[0] == "Additional authors: "@[0]);
}

/// The closing block lists the extra authors of a run, where these are
/// given on one line: the first line of the block is the line of authors,
/// without any white space at its end, and after it the block either ends or
/// goes on with the mark between lines.
pub proof fn lemma_closing_block_lists_authors(cli: &Cli)
    requires
        cli.inner_cli.extra_authors matches Some(s) && forall|i: int|
            0 <= i < s@.len() ==> s@[i] != '\n',
    ensures
        ({
            let line = trim_end_of(authors_line(cli.inner_cli.extra_authors_list()));
            let lines = trimmed_lines(end_template(cli));
            let block = join_with(lines, "/n"@);
            &&& lines.len() >= 1
            &&& lines[0] == line
            &&& line.is_prefix_of(authors_line(cli.inner_cli.extra_authors_list()))
            &&& lines.len() == 1 ==> block == line
            &&& lines.len() >= 2 ==> block == line + "/n"@ + join_with(lines.drop_first(), "/n"@)
        }),
{
    reveal_strlit("\n      ");
    reveal_strlit("\n");
    let s = cli.inner_cli.extra_authors->0@;
    let full = authors_line(split_on(s, ';'));
    lemma_authors_line_is_one_line(s);
    let line = trim_end_of(full);
    lemma_trim_end_keeps(full, 0);
    let six = "\n      "@.skip(1);
    let rest = about_template(cli);
    let whole = end_template(cli);
    let indented = six + full;
    assert(whole =~= Seq::<char>::empty() + seq!['\n'] + (indented + seq!['\n'] + rest));
    lemma_split_of_joined(Seq::<char>::empty(), indented + seq!['\n'] + rest, '\n');
    lemma_split_of_joined(indented, rest, '\n');
    assert forall|i: int| 0 <= i < indented.len() implies indented[i] != '\n' by {
        if i < 6 {
            assert(indented[i] == "\n      "@[i + 1]);
        } else {
            assert(indented[i] == full[i - 6]);
        }
    }
    lemma_split_without_sep(indented, '\n');
    let pieces = split_on(whole, '\n');
    let others = split_on(rest, '\n');
    lemma_dark_lines_of_joined(seq![Seq::<char>::empty()], seq![indented] + others);
    lemma_dark_lines_of_joined(seq![indented], others);
    lemma_trim_end_after_prefix(six, full);
    assert(dark_lines(seq![Seq::<char>::empty()].drop_last()) =~= Seq::<Seq<char>>::empty());
    assert(dark_lines(seq![indented].drop_last()) =~= Seq::<Seq<char>>::empty());
    assert(dark_lines(pieces)[0] == six + line);
    assert forall|j: int| 0 <= j < 6 implies #[trigger] (six + line)[j] == ' ' by {
        assert((six + line)[j] == "\n      "@[j + 1]);
    }
    lemma_leading_spaces_is_run(six + line, 6);
    let lines = trimmed_lines(whole);
    assert(lines[0] == line);
    if lines.len() >= 2 {
        lemma_join_begins_with_first(lines, "/n"@);
    }
}

impl READMEGenerator {
    /// The title.
    pub closed spec fn start(&self) -> Seq<char> {
        self.start_readme_string@
    }

    /// The closing block.
    pub closed spec fn end(&self) -> Seq<char> {
        self.end_readme_string@
    }

    /// The title and the closing block for a run, each with its lines
    /// trimmed and written as one text.
    fn make_readme_strings(cli: &Cli) -> (r: (String, String))
        ensures
            r.0@ == join_with(trimmed_lines(start_template(cli)), "/n"@),
            r.1@ == join_with(trimmed_lines(end_template(cli)), "/n"@),
    {
        let lib_name = cli.inner_cli.get_lib_name();
        let mut end = "\n      ".to_owned();
        match &cli.inner_cli.extra_authors {
            Some(_) => {
                let authors = cli.inner_cli.get_extra_authors();
                end.append("Additional authors: ");
                end.append(join(&authors, ", ").as_str());
            },
            None => {},
        }
        end.append("\n");
        end.append("\n      ## About working on `");
        end.append(lib_name.as_str());
        end.append("`\n      \n      Hey! This library:\n      - Was *generated* using ");
        end.append(get_this_crate_name());
        end.append(" v");
        end.append(get_this_crate_ver());
        end.append(" at ");
        end.append(cli.get_generation_timestamp_string().as_str());
        end.append(".  \n      - Implements the [");
        end.append(cli.inner_cli.site_or_api_name.as_str());
        end.append("](");
        end.append(url_as_string(&cli.inner_cli.api_url).as_str());
        end.append(
            "). \n      \n      For these reasons, proposed changes to this repository will likely not be accepted. Try proposing changes to the generator tools instead.\n\n      ",
        );
        match &cli.inner_cli.api_spec_url_opt {
            Some(url) => {
                end.append("\n- Uses the corresponding OpenAPI specification found at [");
                end.append(url_as_string(url).as_str());
                end.append("].");
            },
            None => {},
        }
        let mut start = "\n      # ".to_owned();
        start.append(lib_name.as_str());
        start.append("\n    ");
        proof {
            assert(end@ =~= end_template(cli));
            assert(start@ =~= start_template(cli));
        }
        (trim_lines(start.as_str()), trim_lines(end.as_str()))
    }

    /// The parts of the README for a run.
    pub fn new(cli: &Cli) -> (r: Result<Self, READMEGenerationError>)
        ensures
            r matches Ok(g) && g.start() == join_with(trimmed_lines(start_template(cli)), "/n"@)
                && g.end() == join_with(trimmed_lines(end_template(cli)), "/n"@),
    {
        let (start_readme_string, end_readme_string) = Self::make_readme_strings(cli);
        Ok(Self { end_readme_string, start_readme_string })
    }

    /// The parts of a README as they were once made for a run.
    pub fn from_parts(start_readme_string: String, end_readme_string: String) -> (r: Self)
        ensures
            r.start() == start_readme_string@,
            r.end() == end_readme_string@,
    {
        Self { start_readme_string, end_readme_string }
    }

    /// The title.
    pub fn start_readme_string(&self) -> (r: &str)
        ensures
            r@ == self.start(),
    {
        self.start_readme_string.as_str()
    }

    /// The closing block.
    pub fn end_readme_string(&self) -> (r: &str)
        ensures
            r@ == self.end(),
    {
        self.end_readme_string.as_str()
    }

    /// The README written afresh: the title, an empty line, the closing block.
    pub open spec fn fresh_readme(&self) -> Seq<char> {
        self.start() + "\n\n"@ + self.end()
    }

    /// The README written afresh, whatever was there.
    pub fn readme_contents(&self) -> (r: String)
        ensures
            r@ == self.fresh_readme(),
    {
        let mut r = self.start_readme_string.clone();
        r.append("\n\n");
        r.append(self.end_readme_string.as_str());
        r
    }

    /// The README after the run, given the bytes of the README that is
    /// there, if any: the closing block is put after what is there, and a
    /// README that is missing is written afresh. One that is not UTF-8 is
    /// refused.
    pub fn update_readme_md_file(&self, existing: Option<Vec<u8>>) -> (r: Result<
        String,
        READMEGenerationError,
    >)
        ensures
            match r {
                Ok(contents) => match existing {
                    Some(bytes) => valid_utf8(bytes@) && contents@ == decode_utf8(bytes@)
                        + self.end(),
                    None => contents@ == self.fresh_readme(),
                },
                Err(READMEGenerationError::FromUtf8Error(_)) => existing matches Some(bytes)
                    && !valid_utf8(bytes@),
                Err(READMEGenerationError::IOError(_)) => false,
            },
    {
        match existing {
            None => Ok(self.readme_contents()),
            Some(bytes) => match string_from_utf8(bytes) {
                Ok(mut contents) => {
                    contents.append(self.end_readme_string.as_str());
                    Ok(contents)
                },
                Err(message) => Err(READMEGenerationError::FromUtf8Error(message)),
            },
        }
    }
}

} // verus!
