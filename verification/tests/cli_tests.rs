use steam_auth::cli::{resolve_args, CliError};
use steam_auth::dispatch::DispatchTarget;

fn s(v: &str) -> Option<String> {
    Some(v.to_string())
}

#[test]
fn url_without_email_is_rejected() {
    let r = resolve_args(s("http://x/verify"), None, None, false);
    assert_eq!(r.unwrap_err(), CliError::UrlWithoutEmail);
}

#[test]
fn email_without_url_is_rejected() {
    let r = resolve_args(None, s("a@b.com"), None, false);
    assert_eq!(r.unwrap_err(), CliError::EmailWithoutUrl);
}

#[test]
fn output_file_conflicts_with_post_pair() {
    let r = resolve_args(s("http://x/verify"), s("a@b.com"), s("out.txt"), false);
    assert_eq!(r.unwrap_err(), CliError::OutputFileWithPost);
}

#[test]
fn exit_conflicts_with_post_pair() {
    let r = resolve_args(s("http://x/verify"), s("a@b.com"), None, true);
    assert_eq!(r.unwrap_err(), CliError::ExitWithPost);
}

#[test]
fn url_and_email_select_remote_post() {
    let config = resolve_args(s("http://x/verify"), s("a@b.com"), None, false).unwrap();
    assert!(!config.exit_after_write);
    match config.target {
        DispatchTarget::RemotePost { url, email } => {
            assert_eq!(url, "http://x/verify");
            assert_eq!(email, "a@b.com");
        }
        DispatchTarget::LocalFile { .. } => panic!("expected the remote target"),
    }
}

#[test]
fn no_flags_select_default_file() {
    let config = resolve_args(None, None, None, false).unwrap();
    assert!(!config.exit_after_write);
    match config.target {
        DispatchTarget::LocalFile { path } => assert_eq!(path, "auth_ticket.txt"),
        DispatchTarget::RemotePost { .. } => panic!("expected the file target"),
    }
}

#[test]
fn explicit_output_file_and_exit_are_kept() {
    let config = resolve_args(None, None, s("out.txt"), true).unwrap();
    assert!(config.exit_after_write);
    match config.target {
        DispatchTarget::LocalFile { path } => assert_eq!(path, "out.txt"),
        DispatchTarget::RemotePost { .. } => panic!("expected the file target"),
    }
}
