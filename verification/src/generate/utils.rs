//! Helpers shared by the document builders: this tool's own coordinates,
//! indented text blocks, and the `cargo` jobs a run asks for.

use crate::cli::Cli;
use crate::generate::makefiles::TaskNames;
use crate::testing::TEST_SUBDIR_NAME;
use crate::text::{
    clone_strings, count_leading_spaces, dedent, is_whitespace, join, join_path, join_path_of,
    join_with, leading_spaces, lemma_dedent_keeps_the_end, lemma_trim_end_ends_dark, split,
    split_on, strings_of, strip_indent, trim_end, trim_end_of,
};
use vstd::prelude::*;
use vstd::string::*;

verus! {

/// What can go wrong with a process the tool starts.
#[derive(Debug)]
pub enum ProcessError {
    /// The process could not be started or waited for; the text says why.
    IOError(String),
    /// The process ended without success; the text holds what it printed.
    Failure(String),
}

/// The name this tool is published under.
pub const THIS_CRATE_NAME: &'static str = "openapi_lib_generator";

/// The version of this tool.
pub const THIS_CRATE_VER: &'static str = "0.1.0";

/// The authors of this tool, with `;` between them.
pub const THIS_CRATE_AUTHORS: &'static str = "The openapi_lib_generator developers";

/// The lines of a text that are left once white space at line ends is cut
/// off and empty lines are dropped, given the text's pieces between line feeds.
pub open spec fn dark_lines(pieces: Seq<Seq<char>>) -> Seq<Seq<char>>
    decreases pieces.len(),
{
    if pieces.len() == 0 {
        Seq::empty()
    } else {
        let before = dark_lines(pieces.drop_last());
        let line = trim_end_of(pieces.last());
        if line.len() > 0 {
            before.push(line)
        } else {
            before
        }
    }
}

/// The position of the first line that begins with a blank, or the number of
/// lines where none does.
pub open spec fn first_indented(lines: Seq<Seq<char>>) -> int
    decreases lines.len(),
{
    if lines.len() == 0 {
        0
    } else if leading_spaces(lines[0]) > 0 {
        0
    } else {
        1 + first_indented(lines.drop_first())
    }
}

/// What `trim_lines_vec` makes of a text. The first line that is indented
/// sets the indentation; lines before it are dropped, and every line from it
/// on loses that indentation if it has it.
pub open spec fn trimmed_lines(s: Seq<char>) -> Seq<Seq<char>> {
    let lines = dark_lines(split_on(s, '\n'));
    let k = first_indented(lines);
    if k < lines.len() {
        lines.skip(k).map_values(|l: Seq<char>| dedent(l, leading_spaces(lines[k])))
    } else {
        Seq::empty()
    }
}

/// How the first indented line moves when a line is added at the end.
pub proof fn lemma_first_indented_push(lines: Seq<Seq<char>>, x: Seq<char>)
    ensures
        0 <= first_indented(lines) <= lines.len(),
        first_indented(lines) < lines.len() ==> leading_spaces(lines[first_indented(lines)]) > 0,
        first_indented(lines.push(x)) == if first_indented(lines) < lines.len() {
            first_indented(lines)
        } else if leading_spaces(x) > 0 {
            lines.len() as int
        } else {
            (lines.len() + 1) as int
        },
    decreases lines.len(),
{
    let grown = lines.push(x);
    if lines.len() == 0 {
        assert(grown[0] == x);
        assert(grown.drop_first() =~= Seq::<Seq<char>>::empty());
        assert(first_indented(grown.drop_first()) == 0);
    } else {
        assert(grown[0] == lines[0]);
        if leading_spaces(lines[0]) == 0 {
            assert(grown.drop_first() =~= lines.drop_first().push(x));
            lemma_first_indented_push(lines.drop_first(), x);
            let k = first_indented(lines.drop_first());
            if k < lines.drop_first().len() {
                assert(lines[k + 1] == lines.drop_first()[k]);
            }
        }
    }
}

/// Whether `line` holds something and does not end in white space.
pub open spec fn is_dark(line: Seq<char>) -> bool {
    line.len() > 0 && !is_whitespace(line.last())
}

/// The lines left of a text all hold something, and none ends in white space.
pub proof fn lemma_dark_lines_are_dark(pieces: Seq<Seq<char>>)
    ensures
        forall|i: int| 0 <= i < dark_lines(pieces).len() ==> is_dark(#[trigger] dark_lines(pieces)[i]),
    decreases pieces.len(),
{
    if pieces.len() > 0 {
        let before = dark_lines(pieces.drop_last());
        lemma_dark_lines_are_dark(pieces.drop_last());
        lemma_trim_end_ends_dark(pieces.last());
        assert forall|i: int| 0 <= i < dark_lines(pieces).len() implies is_dark(
            #[trigger] dark_lines(pieces)[i],
        ) by {
            if i < before.len() {
                assert(dark_lines(pieces)[i] == before[i]);
            }
        }
    }
}

/// The lines left of two lists of pieces, one after the other, are the lines
/// left of the first and then those left of the second.
pub proof fn lemma_dark_lines_of_joined(p: Seq<Seq<char>>, q: Seq<Seq<char>>)
    ensures
        dark_lines(p + q) == dark_lines(p) + dark_lines(q),
    decreases q.len(),
{
    if q.len() == 0 {
        assert(p + q =~= p);
        assert(dark_lines(p) + dark_lines(q) =~= dark_lines(p));
    } else {
        assert((p + q).drop_last() =~= p + q.drop_last());
        assert((p + q).last() == q.last());
        lemma_dark_lines_of_joined(p, q.drop_last());
        let line = trim_end_of(q.last());
        if line.len() > 0 {
            assert((dark_lines(p) + dark_lines(q.drop_last())).push(line) =~= dark_lines(p)
                + dark_lines(q.drop_last()).push(line));
        }
    }
}

/// No line that `trim_lines_vec` returns is empty, and none ends in white space.
pub proof fn lemma_trimmed_lines_are_dark(s: Seq<char>)
    ensures
        forall|i: int| 0 <= i < trimmed_lines(s).len() ==> is_dark(#[trigger] trimmed_lines(s)[i]),
{
    let lines = dark_lines(split_on(s, '\n'));
    let k = first_indented(lines);
    lemma_dark_lines_are_dark(split_on(s, '\n'));
    if k < lines.len() {
        lemma_first_indented_push(lines, Seq::empty());
        let n = leading_spaces(lines[k]);
        assert forall|i: int| 0 <= i < trimmed_lines(s).len() implies is_dark(
            #[trigger] trimmed_lines(s)[i],
        ) by {
            assert(trimmed_lines(s)[i] == dedent(lines[k + i], n));
            assert(is_dark(lines[k + i]));
            lemma_dedent_keeps_the_end(lines[k + i], n);
        }
    }
}

/// Takes the common indentation off a block of text and returns its lines,
/// without empty lines and without white space at line ends.
pub fn trim_lines_vec(s: &str) -> (out: Vec<String>)
    ensures
        out.deep_view() == trimmed_lines(s@),
        forall|i: int| 0 <= i < out.len() ==> is_dark(#[trigger] out[i]@),
{
    let pieces = split(s, '\n');
    let mut out: Vec<String> = Vec::new();
    let mut indent: usize = 0;
    let mut i: usize = 0;
    let ghost all = pieces.deep_view();
    while i < pieces.len()
        invariant
            0 <= i <= pieces.len(),
            all == pieces.deep_view(),
            indent == 0 ==> out.len() == 0 && first_indented(dark_lines(all.take(i as int)))
                == dark_lines(all.take(i as int)).len(),
            indent > 0 ==> ({
                let lines = dark_lines(all.take(i as int));
                let k = first_indented(lines);
                &&& k < lines.len()
                &&& indent == leading_spaces(lines[k])
                &&& out.deep_view() == lines.skip(k).map_values(
                    |l: Seq<char>| dedent(l, indent as nat),
                )
            }),
        decreases pieces.len() - i,
    {
        let ghost lines = dark_lines(all.take(i as int));
        let ghost before = out.deep_view();
        let line = trim_end(pieces[i].as_str());
        proof {
            assert(all.take(i + 1).drop_last() =~= all.take(i as int));
            assert(all.take(i + 1).last() == pieces[i as int]@);
            lemma_first_indented_push(lines, line@);
        }
        if !line.is_empty() {
            if indent == 0 {
                indent = count_leading_spaces(line);
            }
            if indent > 0 {
                out.push(strip_indent(line, indent).to_owned());
                proof {
                    let k = first_indented(lines.push(line@));
                    assert(out.deep_view() =~= before.push(dedent(line@, indent as nat)));
                    assert(lines.push(line@).skip(k).map_values(
                        |l: Seq<char>| dedent(l, indent as nat),
                    ) =~= before.push(dedent(line@, indent as nat)));
                }
            }
        }
        i = i + 1;
    }
    proof {
        assert(all.take(i as int) =~= all);
        lemma_trimmed_lines_are_dark(s@);
        assert forall|i: int| 0 <= i < out.len() implies is_dark(#[trigger] out[i]@) by {
            assert(out.deep_view().len() == out.len());
            assert(out[i]@ == out.deep_view()[i]);
            assert(is_dark(trimmed_lines(s@)[i]));
        }
    }
    out
}

/// The lines `trim_lines_vec` finds, written as one text with the two
/// characters `/n` between them.
pub fn trim_lines(s: &str) -> (r: String)
    ensures
        r@ == join_with(trimmed_lines(s@), "/n"@),
{
    let lines = trim_lines_vec(s);
    join(&lines, "/n")
}

/// The name of this tool.
pub fn get_this_crate_name() -> (r: &'static str)
    ensures
        r@ == THIS_CRATE_NAME@,
{
    THIS_CRATE_NAME
}

/// The version of this tool.
pub fn get_this_crate_ver() -> (r: &'static str)
    ensures
        r@ == THIS_CRATE_VER@,
{
    THIS_CRATE_VER
}

/// The version of this tool with a `v` before it.
pub fn get_this_crate_ver_pretty() -> (r: String)
    ensures
        r@ == "v"@ + THIS_CRATE_VER@,
{
    let mut r = "v".to_owned();
    r.append(get_this_crate_ver());
    r
}

/// The scratch directory of a trial run, under the directory `temp_root` that
/// the system offers for temporary files.
pub open spec fn temp_subdir_of(temp_root: Seq<char>) -> Seq<char> {
    join_path_of(temp_root, THIS_CRATE_NAME@ + "_"@ + TEST_SUBDIR_NAME@)
}

/// The scratch directory of a trial run: `temp_root` with a directory below it
/// that is named after this tool.
pub fn get_temp_subdir(temp_root: &str) -> (r: String)
    ensures
        r@ == temp_subdir_of(temp_root@),
{
    let mut name = get_this_crate_name().to_owned();
    name.append("_");
    name.append(TEST_SUBDIR_NAME);
    join_path(temp_root, name.as_str())
}

/// A call of `cargo` that is yet to be made.
#[derive(Debug)]
pub struct CargoJob {
    /// The arguments of `cargo`.
    pub args: Vec<String>,
    /// The directory to run it in, where that is not the current one.
    pub cwd: Option<String>,
    /// The line that announces the call.
    pub description: String,
}

/// A call of `cargo`, as plain text.
pub struct CargoJobView {
    pub args: Seq<Seq<char>>,
    pub cwd: Option<Seq<char>>,
    pub description: Seq<char>,
}

impl View for CargoJob {
    type V = CargoJobView;

    open spec fn view(&self) -> CargoJobView {
        CargoJobView {
            args: self.args.deep_view(),
            cwd: self.cwd.deep_view(),
            description: self.description@,
        }
    }
}

/// The arguments one after another, each between double quotes and with a
/// blank after it.
pub open spec fn quoted_args(args: Seq<Seq<char>>) -> Seq<char>
    decreases args.len(),
{
    if args.len() == 0 {
        Seq::empty()
    } else {
        quoted_args(args.drop_last()) + "\""@ + args.last() + "\" "@
    }
}

/// The line that announces a call of `cargo` where the caller gives none.
pub open spec fn default_job_description(args: Seq<Seq<char>>, cwd: Option<Seq<char>>) -> Seq<char> {
    "Running `cargo` "@ + quoted_args(args) + " "@ + (match cwd {
        Some(dir) => "in "@ + dir,
        None => Seq::empty(),
    }) + "."@
}

/// The call of `cargo` with the arguments `args`, in the directory `cwd_opt`
/// where one is given, announced by `description_opt` or else by a line
/// that quotes the arguments and the directory.
pub fn run_cargo_job(args: &Vec<String>, cwd_opt: Option<&str>, description_opt: Option<&str>) -> (r:
    CargoJob)
    ensures
        r@.args == args.deep_view(),
        r@.cwd == cwd_opt.deep_view(),
        r@.description == match description_opt {
            Some(description) => description@,
            None => default_job_description(args.deep_view(), cwd_opt.deep_view()),
        },
{
    let description = match description_opt {
        Some(description) => description.to_owned(),
        None => {
            let mut line = "Running `cargo` ".to_owned();
            let mut i: usize = 0;
            while i < args.len()
                invariant
                    0 <= i <= args.len(),
                    line@ == "Running `cargo` "@ + quoted_args(args.deep_view().take(i as int)),
                decreases args.len() - i,
            {
                proof {
                    let upto = args.deep_view().take(i + 1);
                    assert(upto.drop_last() =~= args.deep_view().take(i as int));
                    assert(upto.last() == args[i as int]@);
                }
                line.append("\"");
                line.append(args[i].as_str());
                line.append("\" ");
                proof {
                    assert(line@ =~= "Running `cargo` "@ + quoted_args(
                        args.deep_view().take(i + 1),
                    ));
                }
                i = i + 1;
            }
            proof {
                assert(args.deep_view().take(i as int) =~= args.deep_view());
            }
            line.append(" ");
            match cwd_opt {
                Some(dir) => {
                    line.append("in ");
                    line.append(dir);
                },
                None => {},
            }
            line.append(".");
            proof {
                assert(line@ =~= default_job_description(args.deep_view(), cwd_opt.deep_view()));
            }
            line
        },
    };
    CargoJob {
        args: clone_strings(args),
        cwd: match cwd_opt {
            Some(dir) => Some(dir.to_owned()),
            None => None,
        },
        description,
    }
}

/// The arguments by which `cargo` has the task runner run a task.
pub open spec fn make_task_args(task_name: TaskNames) -> Seq<Seq<char>> {
    seq!["make"@, task_name.name_text()]
}

/// The call of `cargo` that runs a task of the task file, in the directory
/// of the generated crate.
pub fn run_cargo_make_task(cli: &Cli, task_name: TaskNames) -> (r: CargoJob)
    ensures
        r@.args == make_task_args(task_name),
        r@.cwd == Some(cli.inner_cli.output_project_dir()),
        r@.description == default_job_description(
            make_task_args(task_name),
            Some(cli.inner_cli.output_project_dir()),
        ),
{
    let output_project_dir = cli.inner_cli.get_output_project_dir();
    let args = strings_of(&["make", task_name.as_str()]);
    proof {
        assert(args.deep_view() =~= make_task_args(task_name));
    }
    run_cargo_job(&args, Some(output_project_dir.as_str()), None)
}

} // verus!
