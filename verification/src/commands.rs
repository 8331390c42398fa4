//! The fixed endpoint, the snapshot path, and the exact argument lists
//! handed to the two collaborator processes.

use vstd::prelude::*;
use crate::config::Config;
use crate::decimal::push_decimal;
use crate::decimal::spec_decimal;

verus! {

/// The fixed remote endpoint every snapshot is uploaded to.
pub open spec fn spec_https_url() -> Seq<char> {
    "https://webcam.connect.prusa3d.com/c/snapshot"@
}

/// Returns the fixed remote endpoint.
pub fn https_url() -> (r: &'static str)
    ensures
        r@ == spec_https_url(),
{
    "https://webcam.connect.prusa3d.com/c/snapshot"
}

/// The local snapshot file path for a device fingerprint.
pub open spec fn spec_snapshot_path(fingerprint: Seq<char>) -> Seq<char> {
    "/dev/shm/camera_"@ + fingerprint + ".jpg"@
}

/// Builds the local snapshot file path for a device fingerprint.
pub fn snapshot_path(fingerprint: &str) -> (r: String)
    ensures
        r@ == spec_snapshot_path(fingerprint@),
{
    let mut s = String::from_str("/dev/shm/camera_");
    s.append(fingerprint);
    s.append(".jpg");
    proof {
        assert(s@ =~= spec_snapshot_path(fingerprint@));
    }
    s
}

/// The argument lists as mathematical values: each argument's text, in
/// order, program name first.
pub open spec fn args_view(v: Seq<String>) -> Seq<Seq<char>> {
    v.map_values(|s: String| s@)
}

/// Appends one literal argument.
fn push_arg(v: &mut Vec<String>, s: &str)
    ensures
        args_view(final(v)@) == args_view(old(v)@) + seq![s@],
{
    v.push(String::from_str(s));
    proof {
        assert(args_view(v@) =~= args_view(old(v)@) + seq![s@]);
    }
}

/// Appends one already-built argument.
fn push_arg_string(v: &mut Vec<String>, s: String)
    ensures
        args_view(final(v)@) == args_view(old(v)@) + seq![s@],
{
    v.push(s);
    proof {
        assert(args_view(v@) =~= args_view(old(v)@) + seq![s@]);
    }
}

/// Appends one argument made of a prefix and a suffix.
fn push_arg2(v: &mut Vec<String>, prefix: &str, suffix: &str)
    ensures
        args_view(final(v)@) == args_view(old(v)@) + seq![prefix@ + suffix@],
{
    let mut s = String::from_str(prefix);
    s.append(suffix);
    v.push(s);
    proof {
        assert(args_view(v@) =~= args_view(old(v)@) + seq![prefix@ + suffix@]);
    }
}

/// Appends one argument made of a prefix and a decimal number.
fn push_arg_decimal(v: &mut Vec<String>, prefix: &str, n: u64)
    ensures
        args_view(final(v)@) == args_view(old(v)@) + seq![prefix@ + spec_decimal(n as nat)],
{
    let mut s = String::from_str(prefix);
    push_decimal(&mut s, n);
    v.push(s);
    proof {
        assert(args_view(v@) =~= args_view(old(v)@) + seq![prefix@ + spec_decimal(n as nat)]);
    }
}

/// The command line for the capture collaborator: the still-image utility,
/// told to write one immediate full-resolution frame to the snapshot path.
pub open spec fn spec_capture_command(fingerprint: Seq<char>) -> Seq<Seq<char>> {
    seq![
        "rpicam-still"@,
        "--immediate"@,
        "--nopreview"@,
        "--mode"@,
        "2592:1944:12:P"@,
        "--lores-width"@,
        "0"@,
        "--lores-height"@,
        "0"@,
        "--thumb"@,
        "none"@,
        "--output"@,
        spec_snapshot_path(fingerprint),
    ]
}

/// Builds the capture collaborator's command line, program name first.
pub fn capture_command(fingerprint: &str) -> (r: Vec<String>)
    ensures
        args_view(r@) == spec_capture_command(fingerprint@),
{
    let mut v: Vec<String> = Vec::new();
    push_arg(&mut v, "rpicam-still");
    push_arg(&mut v, "--immediate");
    push_arg(&mut v, "--nopreview");
    push_arg(&mut v, "--mode");
    push_arg(&mut v, "2592:1944:12:P");
    push_arg(&mut v, "--lores-width");
    push_arg(&mut v, "0");
    push_arg(&mut v, "--lores-height");
    push_arg(&mut v, "0");
    push_arg(&mut v, "--thumb");
    push_arg(&mut v, "none");
    push_arg(&mut v, "--output");
    push_arg_string(&mut v, snapshot_path(fingerprint));
    proof {
        assert(args_view(v@) =~= spec_capture_command(fingerprint@));
    }
    v
}

/// The command line for the upload collaborator: the HTTP client, told to
/// PUT the snapshot to the fixed endpoint with the fingerprint, token and
/// content-length headers, under a five-second timeout; in debug mode a
/// verbose flag is appended.
pub open spec fn spec_upload_command(cfg: Config, content_length: u64) -> Seq<Seq<char>> {
    let base = seq![
        "curl"@,
        "-X"@,
        "PUT"@,
        spec_https_url(),
        "-H"@,
        "Accept: text/plain"@,
        "-H"@,
        "Content-type: image/jpg"@,
        "-H"@,
        "Fingerprint: "@ + cfg.fingerprint@,
        "-H"@,
        "Token: "@ + cfg.token@,
        "-H"@,
        "Content-length: "@ + spec_decimal(content_length as nat),
        "--data-binary"@,
        "@"@ + spec_snapshot_path(cfg.fingerprint@),
        "--no-progress-meter"@,
        "--compressed"@,
        "--max-time"@,
        "5"@,
    ];
    if cfg.debug {
        base + seq!["--verbose"@]
    } else {
        base
    }
}

/// Builds the upload collaborator's command line, program name first.
pub fn upload_command(cfg: &Config, content_length: u64) -> (r: Vec<String>)
    ensures
        args_view(r@) == spec_upload_command(*cfg, content_length),
{
    let mut v: Vec<String> = Vec::new();
    push_arg(&mut v, "curl");
    push_arg(&mut v, "-X");
    push_arg(&mut v, "PUT");
    push_arg(&mut v, "https://webcam.connect.prusa3d.com/c/snapshot");
    push_arg(&mut v, "-H");
    push_arg(&mut v, "Accept: text/plain");
    push_arg(&mut v, "-H");
    push_arg(&mut v, "Content-type: image/jpg");
    push_arg(&mut v, "-H");
    push_arg2(&mut v, "Fingerprint: ", cfg.fingerprint.as_str());
    push_arg(&mut v, "-H");
    push_arg2(&mut v, "Token: ", cfg.token.as_str());
    push_arg(&mut v, "-H");
    push_arg_decimal(&mut v, "Content-length: ", content_length);
    push_arg(&mut v, "--data-binary");
    let path = snapshot_path(cfg.fingerprint.as_str());
    push_arg2(&mut v, "@", path.as_str());
    push_arg(&mut v, "--no-progress-meter");
    push_arg(&mut v, "--compressed");
    push_arg(&mut v, "--max-time");
    push_arg(&mut v, "5");
    if cfg.debug {
        push_arg(&mut v, "--verbose");
    }
    proof {
        assert(args_view(v@) =~= spec_upload_command(*cfg, content_length));
    }
    v
}

} // verus!
