//! Resolution of the command-line flags into a dispatch configuration.
//!
//! The interface offers two modes. `--url` and `--email` together select the
//! remote POST; they require each other and conflict with `--output-file`
//! and `--exit`. Otherwise the ticket goes to a local file, at the given
//! path or a default, with `--exit` optionally ending the process right
//! after a successful write. Every forbidden combination is rejected here,
//! before any provider or network work starts.

use vstd::prelude::*;
use crate::dispatch::DispatchTarget;

verus! {

/// A rejected flag combination.
#[derive(PartialEq, Eq, Structural, Debug)]
pub enum CliError {
    /// `--url` was given without `--email`.
    UrlWithoutEmail,
    /// `--email` was given without `--url`.
    EmailWithoutUrl,
    /// `--output-file` was given alongside the `--url`/`--email` pair.
    OutputFileWithPost,
    /// `--exit` was given alongside the `--url`/`--email` pair.
    ExitWithPost,
}

/// The resolved startup configuration: where the ticket goes, and whether a
/// successful file write ends the process at once. Built once before the
/// acquisition loop begins, immutable afterward.
#[derive(Debug)]
pub struct Config {
    pub target: DispatchTarget,
    pub exit_after_write: bool,
}

/// The output path used when `--output-file` is absent.
pub open spec fn default_output_path() -> Seq<char> {
    "auth_ticket.txt"@
}

/// Resolve the raw flag values into a configuration, rejecting every
/// combination the interface forbids. `output_file` is `Some` only where
/// the flag was given explicitly.
pub fn resolve_args(
    url: Option<String>,
    email: Option<String>,
    output_file: Option<String>,
    exit_after_write: bool,
) -> (r: Result<Config, CliError>)
    ensures
        r is Err <==> ((url is Some) != (email is Some)) || (url is Some && email is Some && (
        output_file is Some || exit_after_write)),
        url is Some && email is None ==> r == Err::<Config, CliError>(CliError::UrlWithoutEmail),
        url is None && email is Some ==> r == Err::<Config, CliError>(CliError::EmailWithoutUrl),
        url is Some && email is Some && output_file is Some ==> r == Err::<Config, CliError>(
            CliError::OutputFileWithPost,
        ),
        url is Some && email is Some && output_file is None && exit_after_write ==> r == Err::<
            Config,
            CliError,
        >(CliError::ExitWithPost),
        url is Some && email is Some && output_file is None && !exit_after_write ==> {
            &&& r is Ok
            &&& r->Ok_0.target is RemotePost
            &&& (r->Ok_0.target->RemotePost_url)@ == (url->0)@
            &&& (r->Ok_0.target->RemotePost_email)@ == (email->0)@
            &&& !r->Ok_0.exit_after_write
        },
        url is None && email is None ==> {
            &&& r is Ok
            &&& r->Ok_0.target is LocalFile
            &&& output_file is Some ==> (r->Ok_0.target->LocalFile_path)@ == (output_file->0)@
            &&& output_file is None ==> (r->Ok_0.target->LocalFile_path)@ == default_output_path()
            &&& r->Ok_0.exit_after_write == exit_after_write
        },
{
    match (url, email) {
        (Some(u), Some(e)) => {
            if output_file.is_some() {
                Err(CliError::OutputFileWithPost)
            } else if exit_after_write {
                Err(CliError::ExitWithPost)
            } else {
                Ok(
                    Config {
                        target: DispatchTarget::RemotePost { url: u, email: e },
                        exit_after_write: false,
                    },
                )
            }
        },
        (Some(_), None) => Err(CliError::UrlWithoutEmail),
        (None, Some(_)) => Err(CliError::EmailWithoutUrl),
        (None, None) => {
            let path = match output_file {
                Some(p) => p,
                None => String::from_str("auth_ticket.txt"),
            };
            Ok(Config { target: DispatchTarget::LocalFile { path }, exit_after_write })
        },
    }
}

} // verus!
