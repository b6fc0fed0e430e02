//! The command line: one argument, the name of the file to read.

use clap::builder::ValueParser;
use clap::{Arg, ArgAction, Command};
use vstd::prelude::*;

verus! {

/// `clap::Command`, the description of a command line. Nothing is known of
/// what a value of it holds.
#[verifier::external_type_specification]
#[verifier::external_body]
pub struct ExCommand<'help>(Command<'help>);

/// The file name that `clap` finds in the arguments of a run, of which the
/// first is the name of the program; `None` where the arguments do not hold
/// exactly what [`get_command`] asks for, or ask for help or for the version.
pub uninterp spec fn input_filename_in(args: Seq<Seq<char>>) -> Option<Seq<char>>;

/// The texts of the arguments.
pub open spec fn texts(args: Seq<String>) -> Seq<Seq<char>> {
    args.map_values(|arg: String| arg@)
}

/// The file name among the arguments of a run.
pub fn get_input_filename(args: Vec<String>) -> (found: Option<String>)
    ensures
        match found {
            Some(name) => input_filename_in(texts(args@)) == Some(name@),
            None => input_filename_in(texts(args@)) is None,
        },
{
    match_input_filename(args)
}

/// Describes the command line to `clap`, with the builders of `Command` and
/// `Arg`: the program takes one argument, which is required, the name of the
/// file to read. Nothing is claimed of the description.
#[verifier::external_body]
pub fn get_command<'a>() -> Command<'a> {
    Command::new("integrator")
        .version("1.0")
        .about("Processes the transactions of a CSV file and keeps the accounts of the clients.")
        .arg(
            Arg::new("input_filename")
                .multiple(false)
                .action(ArgAction::Append)
                .value_parser(ValueParser::string())
                .help("Defines the CSV filename to use as input.")
                .required(true)
                .value_name("FILENAME")
                .takes_value(true),
        )
}

/// Parses the arguments against [`get_command`] with
/// `Command::try_get_matches_from` and reads the file name with
/// `ArgMatches::try_get_one`.
///
/// Trusted: what `clap` finds depends on the arguments alone. An error of
/// either call becomes `None`.
#[verifier::external_body]
fn match_input_filename(args: Vec<String>) -> (found: Option<String>)
    ensures
        match found {
            Some(name) => input_filename_in(texts(args@)) == Some(name@),
            None => input_filename_in(texts(args@)) is None,
        },
{
    let matches = get_command().try_get_matches_from(args).ok()?;
    matches.try_get_one::<String>("input_filename").ok()?.cloned()
}

} // verus!
