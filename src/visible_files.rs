//! The set of files shown in the editor's windows, and the notification
//! that reports it.

use vstd::prelude::*;
use crate::json::{json_str, member_of, Json};
use crate::path::{is_absolute, is_absolute_path, to_uri, uri_of};
use crate::strings::{contains_text, texts};

verus! {

/// What the editor reports of one window: the file name of the buffer it
/// shows (`None` when that query failed) and whether that file exists on
/// disk.
pub struct WindowFile {
    pub name: Option<String>,
    pub exists: bool,
}

/// Whether window `w` shows an existing file under an absolute path.
pub open spec fn shows_file(w: WindowFile) -> bool {
    w.name is Some && is_absolute(w.name->Some_0@) && w.exists
}

/// The paths of the files shown in `ws`, each once, in the order of the
/// first window that shows it.
pub open spec fn visible_paths(ws: Seq<WindowFile>) -> Seq<Seq<char>>
    decreases ws.len(),
{
    if ws.len() == 0 {
        Seq::empty()
    } else {
        let prev = visible_paths(ws.drop_last());
        let w = ws.last();
        if shows_file(w) && !prev.contains(w.name->Some_0@) {
            prev.push(w.name->Some_0@)
        } else {
            prev
        }
    }
}

/// The URIs of the files shown in `ws`.
pub open spec fn visible_uris(ws: Seq<WindowFile>) -> Seq<Seq<char>> {
    visible_paths(ws).map_values(|p: Seq<char>| uri_of(p))
}

/// Payload of the visible-files notification: the complete current list.
pub struct VisibleFilesChanged {
    pub uris: Vec<String>,
}

impl VisibleFilesChanged {
    /// The name under which this notification is published.
    pub fn method() -> (r: &'static str)
        ensures
            r@ == "visibleFilesDidChange"@,
    {
        "visibleFilesDidChange"
    }

    /// The JSON payload `{ uris: [...] }`.
    pub fn to_json(&self) -> (r: Json)
        ensures
            r matches Json::Object(f) && f@.len() == 1 && f@[0].0@ == "uris"@ && (f@[0].1 matches Json::Array(a)
                && a@.len() == self.uris@.len() && forall|i: int|
                0 <= i < a@.len() ==> (#[trigger] a@[i] matches Json::Str(t) && t@ == self.uris@[i]@)),
    {
        let mut a: Vec<Json> = Vec::new();
        let mut i: usize = 0;
        while i < self.uris.len()
            invariant
                i <= self.uris.len(),
                a@.len() == i,
                forall|j: int|
                    0 <= j < i ==> (#[trigger] a@[j] matches Json::Str(t) && t@ == self.uris@[j]@),
            decreases self.uris.len() - i,
        {
            a.push(json_str(self.uris[i].clone()));
            i = i + 1;
        }
        let mut f: Vec<(String, Json)> = Vec::new();
        f.push(member_of("uris", Json::Array(a)));
        Json::Object(f)
    }
}

/// The paths of the existing files shown in `windows`, without repeats,
/// in the order of the first window showing each.
pub fn get_visible_buffers(windows: &Vec<WindowFile>) -> (r: Vec<String>)
    ensures
        texts(r@) == visible_paths(windows@),
{
    let mut paths: Vec<String> = Vec::new();
    let mut i: usize = 0;
    while i < windows.len()
        invariant
            i <= windows.len(),
            texts(paths@) == visible_paths(windows@.subrange(0, i as int)),
        decreases windows.len() - i,
    {
        let w = &windows[i];
        proof {
            let ws = windows@.subrange(0, i as int + 1);
            assert(ws.drop_last() =~= windows@.subrange(0, i as int));
            assert(ws.last() == windows@[i as int]);
        }
        match &w.name {
            Some(name) => {
                if is_absolute_path(name.as_str()) && w.exists && !contains_text(&paths, name) {
                    let ghost before = paths@;
                    paths.push(name.clone());
                    assert(texts(paths@) =~= texts(before).push(name@));
                }
            },
            None => {},
        }
        i = i + 1;
    }
    assert(windows@.subrange(0, windows@.len() as int) =~= windows@);
    paths
}

/// Builds the visible-files notification for the current windows.
pub fn handle_event(windows: &Vec<WindowFile>) -> (r: VisibleFilesChanged)
    ensures
        texts(r.uris@) == visible_uris(windows@),
{
    let paths = get_visible_buffers(windows);
    let mut uris: Vec<String> = Vec::new();
    let mut i: usize = 0;
    while i < paths.len()
        invariant
            i <= paths.len(),
            texts(paths@) == visible_paths(windows@),
            texts(uris@) =~= visible_uris(windows@).subrange(0, i as int),
        decreases paths.len() - i,
    {
        let u = to_uri(paths[i].as_str());
        assert(texts(paths@)[i as int] == paths@[i as int]@);
        assert(visible_uris(windows@)[i as int] == uri_of(visible_paths(windows@)[i as int]));
        let ghost before = uris@;
        let ghost uv = u@;
        uris.push(u);
        assert(texts(uris@) =~= texts(before).push(uv));
        assert(texts(uris@) =~= visible_uris(windows@).subrange(0, i as int + 1));
        i = i + 1;
    }
    VisibleFilesChanged { uris }
}

/// The list of visible files never repeats a path, and each path in it is
/// the absolute path of an existing file that some window shows.
pub proof fn lemma_visible_paths_unique_existing(ws: Seq<WindowFile>)
    ensures
        visible_paths(ws).no_duplicates(),
        forall|k: int|
            #![trigger visible_paths(ws)[k]]
            0 <= k < visible_paths(ws).len() ==> exists|j: int|
                0 <= j < ws.len() && shows_file(#[trigger] ws[j]) && ws[j].name->Some_0@
                    == visible_paths(ws)[k],
    decreases ws.len(),
{
    if ws.len() > 0 {
        let prev = ws.drop_last();
        lemma_visible_paths_unique_existing(prev);
        assert forall|k: int|
            #![trigger visible_paths(ws)[k]]
            0 <= k < visible_paths(ws).len() implies exists|j: int|
            0 <= j < ws.len() && shows_file(#[trigger] ws[j]) && ws[j].name->Some_0@
                == visible_paths(ws)[k] by {
            if k < visible_paths(prev).len() {
                let j = choose|j: int|
                    0 <= j < prev.len() && shows_file(#[trigger] prev[j]) && prev[j].name->Some_0@
                        == visible_paths(prev)[k];
                assert(ws[j] == prev[j]);
            } else {
                assert(ws[ws.len() - 1] == ws.last());
            }
        }
    }
}

/// The visible-files notification never repeats a URI, and each URI in it
/// names an existing file that some window shows.
pub proof fn lemma_visible_uris_unique_existing(ws: Seq<WindowFile>)
    ensures
        visible_uris(ws).no_duplicates(),
        forall|k: int|
            #![trigger visible_uris(ws)[k]]
            0 <= k < visible_uris(ws).len() ==> exists|j: int|
                0 <= j < ws.len() && shows_file(#[trigger] ws[j]) && uri_of(ws[j].name->Some_0@)
                    == visible_uris(ws)[k],
{
    lemma_visible_paths_unique_existing(ws);
    let ps = visible_paths(ws);
    let us = visible_uris(ws);
    assert forall|a: int, b: int|
        #![trigger us[a], us[b]]
        0 <= a < us.len() && 0 <= b < us.len() && a != b implies us[a] != us[b] by {
        if us[a] == us[b] {
            assert(ps[a] =~= us[a].subrange(7, us[a].len() as int));
            assert(ps[b] =~= us[b].subrange(7, us[b].len() as int));
        }
    }
    assert forall|k: int| #![trigger us[k]] 0 <= k < us.len() implies exists|j: int|
        0 <= j < ws.len() && shows_file(#[trigger] ws[j]) && uri_of(ws[j].name->Some_0@) == us[k] by {
        let j = choose|j: int|
            0 <= j < ws.len() && shows_file(#[trigger] ws[j]) && ws[j].name->Some_0@ == ps[k];
        assert(uri_of(ws[j].name->Some_0@) == us[k]);
    }
}

} // verus!
