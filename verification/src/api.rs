//! What the hosting API answers, as plain values, and the list of published
//! apps that the panel shows.

use vstd::prelude::*;
use crate::text;
use crate::naming;
use crate::state::{AppEntry, APP_PORT};

verus! {

/// The signed-in account.
#[derive(Debug)]
pub struct Me {
    pub email: Option<String>,
}

/// A VM as the API lists it.
#[derive(Debug)]
pub struct Sandbox {
    pub sandbox_id: String,
    pub status: String,
    pub name: Option<String>,
}

/// A command started in the background on a VM.
#[derive(Debug)]
pub struct BgStart {
    pub exec_id: String,
}

/// The state of a background command: `running` or `exited`, with its exit
/// code and captured output.
#[derive(Debug)]
pub struct BgStatus {
    pub status: String,
    pub exit_code: Option<i32>,
    pub stdout: String,
    pub stderr: String,
}

/// A port exposed on a public URL.
#[derive(Debug)]
pub struct Exposed {
    pub url: String,
}

/// Whether a VM was published by this launcher and can be addressed: its
/// name carries the marker prefix and its id is not blank (an empty id would
/// address every VM).
pub open spec fn is_listed(s: Sandbox) -> bool {
    &&& s.name matches Some(n) && text::starts_with(n@, "gl:"@)
    &&& text::trim(s.sandbox_id@).len() > 0
}

/// The panel row of a listed VM: its display name, and its public URL when it runs.
pub open spec fn entry_of(s: Sandbox) -> (Seq<char>, Seq<char>, Seq<char>, bool) {
    let running = s.status@ == "running"@;
    (
        s.sandbox_id@,
        naming::display_of(naming::opt_view(s.name)),
        if running {
            naming::public_url_of(s.sandbox_id@, APP_PORT)
        } else {
            Seq::<char>::empty()
        },
        running,
    )
}

pub open spec fn entry_view(e: AppEntry) -> (Seq<char>, Seq<char>, Seq<char>, bool) {
    (e.id@, e.name@, e.url@, e.running)
}

/// The rows of the listed VMs, in the API's order.
pub open spec fn listed_entries(s: Seq<Sandbox>) -> Seq<(Seq<char>, Seq<char>, Seq<char>, bool)>
    decreases s.len(),
{
    if s.len() == 0 {
        Seq::empty()
    } else {
        let rest = listed_entries(s.drop_last());
        if is_listed(s.last()) {
            rest.push(entry_of(s.last()))
        } else {
            rest
        }
    }
}

fn str_is(s: &String, lit: &str) -> (r: bool)
    ensures
        r == (s@ == lit@),
{
    let v = text::chars_of(s.as_str());
    text::vec_eq_str(&v, lit)
}

/// The published apps among the VMs of the account, with their URLs rebuilt
/// from the ids (one request for the whole panel).
pub fn apps_from_sandboxes(list: Vec<Sandbox>) -> (r: Vec<AppEntry>)
    ensures
        r@.map_values(|e: AppEntry| entry_view(e)) == listed_entries(list@),
{
    let mut out: Vec<AppEntry> = Vec::new();
    let mut i: usize = 0;
    while i < list.len()
        invariant
            i <= list@.len(),
            out@.map_values(|e: AppEntry| entry_view(e)) == listed_entries(list@.take(i as int)),
        decreases list@.len() - i,
    {
        let s = &list[i];
        proof {
            reveal_strlit("gl:");
            assert(list@.take(i + 1).drop_last() =~= list@.take(i as int));
            assert(list@.take(i + 1).last() == list@[i as int]);
        }
        let ours = match &s.name {
            Some(n) => {
                let nv = text::chars_of(n.as_str());
                text::vec_starts_with(&nv, "gl:")
            },
            None => false,
        };
        let idv = text::chars_of(s.sandbox_id.as_str());
        let trimmed = text::trim_vec(&idv);
        if ours && trimmed.len() > 0 {
            let running = str_is(&s.status, "running");
            let url = if running {
                naming::public_url(s.sandbox_id.as_str(), APP_PORT)
            } else {
                String::new()
            };
            let name = naming::display_name(&s.name);
            let e = AppEntry { id: s.sandbox_id.clone(), name, url, running };
            let ghost before = out@;
            out.push(e);
            assert(out@.map_values(|e: AppEntry| entry_view(e)) =~= before.map_values(
                |e: AppEntry| entry_view(e),
            ).push(entry_of(list@[i as int])));
        }
        i = i + 1;
    }
    assert(list@.take(list@.len() as int) =~= list@);
    out
}

} // verus!
