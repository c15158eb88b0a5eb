//! The local override of an app's deploy recipe: where the fix agent lands a
//! durable fix (env vars, start, build, install), laid over the repository's
//! own manifest on every deploy.

use vstd::prelude::*;
use crate::text;

verus! {

/// What the agent can fix durably for one app; whatever is missing falls
/// back to the repository's manifest, then to auto-detection.
#[derive(Debug, Clone)]
pub struct Override {
    /// Persistent env vars (typically a connection string that was missing).
    pub envs: Vec<(String, String)>,
    /// Start command (wins over the manifest's).
    pub start: Option<String>,
    pub build: Option<String>,
    pub install: Option<String>,
}

impl Override {
    /// An empty override: nothing fixed yet.
    pub fn empty() -> (r: Self)
        ensures
            r.envs@.len() == 0,
            r.start is None && r.build is None && r.install is None,
    {
        Override { envs: Vec::new(), start: None, build: None, install: None }
    }
}

/// The file name of an app's override: `<app>.toml`.
pub open spec fn override_file_of(app: Seq<char>) -> Seq<char> {
    app + ".toml"@
}

/// The file name under the overrides directory that holds `app`'s override.
pub fn path_for(app: &str) -> (r: String)
    ensures
        r@ == override_file_of(app@),
{
    let mut s = String::new();
    text::push_str(&mut s, app);
    text::push_str(&mut s, ".toml");
    s
}

} // verus!
