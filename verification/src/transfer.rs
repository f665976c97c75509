//! The local destination of a downloaded video.
//!
//! A transfer downloads the remote file into a local path built from the
//! sender's handle (or nothing, when the sender has none), the wall-clock
//! timestamp of the moment, and the fixed directory and extension. The
//! timestamp comes from the clock, so the path as a whole is only pinned up
//! to it: some clock reading stands between the handle and the extension.

use crate::messages::opt_text_view;
use crate::messages::or_empty;
use crate::messages::handle_text;
use vstd::prelude::*;
use vstd::string::StringExecFns;

verus! {

/// The local destination for a downloaded video: the fixed directory, the
/// sender's handle, a separator, a timestamp, and the fixed extension.
pub open spec fn local_path_spec(handle: Seq<char>, timestamp: Seq<char>) -> Seq<char> {
    "./videos/"@ + handle + "-"@ + timestamp + ".mp4"@
}

/// Builds the local destination path from a handle and a timestamp.
pub fn local_path(username: Option<&str>, timestamp: &str) -> (r: String)
    ensures
        r@ == local_path_spec(or_empty(opt_text_view(username)), timestamp@),
{
    let mut r = String::from_str("./videos/");
    r.append(handle_text(username));
    r.append("-");
    r.append(timestamp);
    r.append(".mp4");
    r
}

/// Relies on chrono::Local::now, rendered through its Display form, for the
/// current local wall-clock time. The result depends on the clock, so
/// nothing is promised of it.
#[verifier::external_body]
fn current_timestamp() -> (r: String) {
    format!("{}", chrono::Local::now())
}

/// Builds the local destination path for a download happening now: some
/// clock reading stands as the timestamp.
pub fn fresh_local_path(username: Option<&str>) -> (r: String)
    ensures
        exists|ts: Seq<char>|
            r@ == local_path_spec(or_empty(opt_text_view(username)), ts),
{
    let ts = current_timestamp();
    let r = local_path(username, ts.as_str());
    proof {
        assert(r@ == local_path_spec(or_empty(opt_text_view(username)), ts@));
    }
    r
}

} // verus!
