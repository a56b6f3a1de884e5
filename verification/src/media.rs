//! Extension-category classification of media files, and selection and
//! counting of paths by extension list.

use vstd::prelude::*;
use crate::bytes_util::{
    spec_basename, spec_extension, spec_lower, basename, extension_of, to_lower, bytes_eq,
};

verus! {

// ASCII codes of the lower-case letters and digits used by extension lists.
pub const L_A: u8 = 97;
pub const L_B: u8 = 98;
pub const L_C: u8 = 99;
pub const L_D: u8 = 100;
pub const L_E: u8 = 101;
pub const L_F: u8 = 102;
pub const L_G: u8 = 103;
pub const L_H: u8 = 104;
pub const L_I: u8 = 105;
pub const L_J: u8 = 106;
pub const L_K: u8 = 107;
pub const L_L: u8 = 108;
pub const L_M: u8 = 109;
pub const L_N: u8 = 110;
pub const L_O: u8 = 111;
pub const L_P: u8 = 112;
pub const L_Q: u8 = 113;
pub const L_R: u8 = 114;
pub const L_S: u8 = 115;
pub const L_T: u8 = 116;
pub const L_U: u8 = 117;
pub const L_V: u8 = 118;
pub const L_W: u8 = 119;
pub const L_X: u8 = 120;
pub const L_Y: u8 = 121;
pub const D_ONE: u8 = 49;
pub const D_TWO: u8 = 50;
pub const D_THREE: u8 = 51;
pub const D_FOUR: u8 = 52;
pub const U_V: u8 = 86;

/// The extension category a file is classified under.
#[derive(Clone, Copy, Debug, PartialEq, Eq, Structural)]
pub enum MediaCategory {
    Photo,
    Video,
    Metadata,
}

/// A file seen during a tree walk: its absolute path as plain bytes and the
/// extension category it was matched under.  Unique per path within one walk.
#[derive(Debug)]
pub struct FileRecord {
    pub path: Vec<u8>,
    pub category: MediaCategory,
}

impl FileRecord {
    /// A record is well formed when its category agrees with its path's
    /// (lower-cased) extension.
    pub open spec fn wf(self) -> bool {
        spec_category_of_path(self.path@) == Some(self.category)
    }
}

/// The mathematical value of a [`FileRecord`]: its path bytes and category.
pub struct FileRecordV {
    pub path: Seq<u8>,
    pub category: MediaCategory,
}

impl View for FileRecord {
    type V = FileRecordV;

    open spec fn view(&self) -> FileRecordV {
        FileRecordV { path: self.path@, category: self.category }
    }
}

/// The views of a sequence of file records.
pub open spec fn rec_views(s: Seq<FileRecord>) -> Seq<FileRecordV> {
    s.map_values(|r: FileRecord| r@)
}

impl Clone for FileRecord {
    fn clone(&self) -> (r: Self)
        ensures
            r@ == self@,
    {
        FileRecord {
            path: vstd::slice::slice_to_vec(self.path.as_slice()),
            category: self.category,
        }
    }
}

/// The views of a sequence of byte vectors.
pub open spec fn views_of(s: Seq<Vec<u8>>) -> Seq<Seq<u8>> {
    s.map_values(|v: Vec<u8>| v@)
}

/// The recognised photo extensions, lower case.
pub open spec fn spec_photo_exts() -> Seq<Seq<u8>> {
    seq![
        seq![L_J, L_P, L_G],
        seq![L_J, L_P, L_E, L_G],
        seq![L_P, L_N, L_G],
        seq![L_H, L_E, L_I, L_C],
        seq![L_D, L_N, L_G],
        seq![L_R, L_A, L_W],
        seq![L_A, L_R, L_W],
        seq![L_C, L_R, D_TWO],
        seq![L_N, L_E, L_F],
    ]
}

/// The recognised video extensions, lower case.
pub open spec fn spec_video_exts() -> Seq<Seq<u8>> {
    seq![
        seq![L_M, L_P, D_FOUR],
        seq![L_M, L_O, L_V],
        seq![L_A, L_V, L_I],
        seq![L_M, D_FOUR, L_V],
        seq![D_THREE, L_G, L_P],
        seq![L_M, L_K, L_V],
        seq![L_W, L_E, L_B, L_M],
        seq![L_F, L_L, L_V],
        seq![L_W, L_M, L_V],
        seq![L_M, L_T, L_S],
        seq![L_M, D_TWO, L_T, L_S],
    ]
}

/// The recognised sidecar-metadata extensions, lower case.
pub open spec fn spec_metadata_exts() -> Seq<Seq<u8>> {
    seq![seq![L_X, L_M, L_P]]
}

fn ext3(a: u8, b: u8, c: u8) -> (r: Vec<u8>)
    ensures
        r@ == seq![a, b, c],
{
    let mut r: Vec<u8> = Vec::new();
    r.push(a);
    r.push(b);
    r.push(c);
    proof {
        assert(r@ =~= seq![a, b, c]);
    }
    r
}

fn ext4(a: u8, b: u8, c: u8, d: u8) -> (r: Vec<u8>)
    ensures
        r@ == seq![a, b, c, d],
{
    let mut r: Vec<u8> = Vec::new();
    r.push(a);
    r.push(b);
    r.push(c);
    r.push(d);
    proof {
        assert(r@ =~= seq![a, b, c, d]);
    }
    r
}

/// The photo extension list as executable data.
pub fn photo_extensions() -> (r: Vec<Vec<u8>>)
    ensures
        views_of(r@) == spec_photo_exts(),
{
    let mut r: Vec<Vec<u8>> = Vec::new();
    r.push(ext3(L_J, L_P, L_G));
    r.push(ext4(L_J, L_P, L_E, L_G));
    r.push(ext3(L_P, L_N, L_G));
    r.push(ext4(L_H, L_E, L_I, L_C));
    r.push(ext3(L_D, L_N, L_G));
    r.push(ext3(L_R, L_A, L_W));
    r.push(ext3(L_A, L_R, L_W));
    r.push(ext3(L_C, L_R, D_TWO));
    r.push(ext3(L_N, L_E, L_F));
    proof {
        assert(views_of(r@) =~= spec_photo_exts());
    }
    r
}

/// The video extension list as executable data.
pub fn video_extensions() -> (r: Vec<Vec<u8>>)
    ensures
        views_of(r@) == spec_video_exts(),
{
    let mut r: Vec<Vec<u8>> = Vec::new();
    r.push(ext3(L_M, L_P, D_FOUR));
    r.push(ext3(L_M, L_O, L_V));
    r.push(ext3(L_A, L_V, L_I));
    r.push(ext3(L_M, D_FOUR, L_V));
    r.push(ext3(D_THREE, L_G, L_P));
    r.push(ext3(L_M, L_K, L_V));
    r.push(ext4(L_W, L_E, L_B, L_M));
    r.push(ext3(L_F, L_L, L_V));
    r.push(ext3(L_W, L_M, L_V));
    r.push(ext3(L_M, L_T, L_S));
    r.push(ext4(L_M, D_TWO, L_T, L_S));
    proof {
        assert(views_of(r@) =~= spec_video_exts());
    }
    r
}

/// The metadata extension list as executable data.
pub fn metadata_extensions() -> (r: Vec<Vec<u8>>)
    ensures
        views_of(r@) == spec_metadata_exts(),
{
    let mut r: Vec<Vec<u8>> = Vec::new();
    r.push(ext3(L_X, L_M, L_P));
    proof {
        assert(views_of(r@) =~= spec_metadata_exts());
    }
    r
}

/// Photo and video extensions together: the media proper, without sidecars.
pub fn media_extensions() -> (r: Vec<Vec<u8>>)
    ensures
        views_of(r@) == spec_photo_exts() + spec_video_exts(),
{
    let mut r = photo_extensions();
    let mut v = video_extensions();
    r.append(&mut v);
    proof {
        assert(views_of(r@) =~= spec_photo_exts() + spec_video_exts());
    }
    r
}

/// Every extension the backup workflow cares about, sidecars included.
pub fn all_extensions() -> (r: Vec<Vec<u8>>)
    ensures
        views_of(r@) == spec_photo_exts() + spec_video_exts() + spec_metadata_exts(),
{
    let mut r = media_extensions();
    let mut m = metadata_extensions();
    r.append(&mut m);
    proof {
        assert(views_of(r@) =~= spec_photo_exts() + spec_video_exts() + spec_metadata_exts());
    }
    r
}

/// The lower-cased extension of a path's final component, if it has one.
pub open spec fn spec_ext_lower(path: Seq<u8>) -> Option<Seq<u8>> {
    match spec_extension(spec_basename(path)) {
        None => None,
        Some(e) => Some(spec_lower(e)),
    }
}

/// The extension category of a path, decided by its lower-cased extension:
/// casing of the extension never affects classification.
pub open spec fn spec_category_of_path(path: Seq<u8>) -> Option<MediaCategory> {
    match spec_ext_lower(path) {
        None => None,
        Some(e) => if spec_photo_exts().contains(e) {
            Some(MediaCategory::Photo)
        } else if spec_video_exts().contains(e) {
            Some(MediaCategory::Video)
        } else if spec_metadata_exts().contains(e) {
            Some(MediaCategory::Metadata)
        } else {
            None
        },
    }
}

/// Whether a path's lower-cased extension is one of `exts`.
pub open spec fn spec_matches_exts(path: Seq<u8>, exts: Seq<Seq<u8>>) -> bool {
    match spec_ext_lower(path) {
        None => false,
        Some(e) => exts.contains(e),
    }
}

/// Whether `e`'s view occurs in the list of byte strings.
pub fn list_contains(list: &Vec<Vec<u8>>, e: &[u8]) -> (r: bool)
    ensures
        r == views_of(list@).contains(e@),
{
    let n = list.len();
    let mut i: usize = 0;
    while i < n
        invariant
            n == list@.len(),
            i <= n,
            forall|j: int| 0 <= j < i ==> views_of(list@)[j] != e@,
        decreases n - i,
    {
        if bytes_eq(list[i].as_slice(), e) {
            proof {
                assert(views_of(list@)[i as int] == e@);
            }
            return true;
        }
        i = i + 1;
    }
    proof {
        if views_of(list@).contains(e@) {
            let j = choose|j: int| 0 <= j < views_of(list@).len() && views_of(list@)[j] == e@;
            assert(views_of(list@)[j] != e@);
        }
    }
    false
}

/// The lower-cased extension of a path's final component.
pub fn ext_lower(path: &[u8]) -> (r: Option<Vec<u8>>)
    ensures
        match r {
            Some(e) => spec_ext_lower(path@) == Some(e@),
            None => spec_ext_lower(path@) is None,
        },
{
    let name = basename(path);
    match extension_of(name.as_slice()) {
        None => None,
        Some(e) => Some(to_lower(e.as_slice())),
    }
}

/// Whether the file at `path` matches one of the extensions in `exts`.
/// The comparison is case-insensitive in the path's extension.
pub fn matches_extensions(path: &[u8], exts: &Vec<Vec<u8>>) -> (r: bool)
    ensures
        r == spec_matches_exts(path@, views_of(exts@)),
{
    match ext_lower(path) {
        None => false,
        Some(e) => list_contains(exts, e.as_slice()),
    }
}

/// The extension category of `path`, if it has a recognised extension.
pub fn category_of_path(path: &[u8]) -> (r: Option<MediaCategory>)
    ensures
        r == spec_category_of_path(path@),
{
    match ext_lower(path) {
        None => None,
        Some(e) => {
            let photos = photo_extensions();
            if list_contains(&photos, e.as_slice()) {
                Some(MediaCategory::Photo)
            } else {
                let videos = video_extensions();
                if list_contains(&videos, e.as_slice()) {
                    Some(MediaCategory::Video)
                } else {
                    let meta = metadata_extensions();
                    if list_contains(&meta, e.as_slice()) {
                        Some(MediaCategory::Metadata)
                    } else {
                        None
                    }
                }
            }
        },
    }
}

/// How many of `paths` match one of the extensions in `exts`.
pub open spec fn spec_count_matching(paths: Seq<Seq<u8>>, exts: Seq<Seq<u8>>) -> nat {
    paths.filter(|p: Seq<u8>| spec_matches_exts(p, exts)).len()
}

/// Count the files whose extension is in `exts`: the verified core of the
/// directory statistics the workflow reports before acting.
pub fn count_files_with_extensions(paths: &Vec<Vec<u8>>, exts: &Vec<Vec<u8>>) -> (count: usize)
    ensures
        count == spec_count_matching(views_of(paths@), views_of(exts@)),
{
    let n = paths.len();
    let mut count: usize = 0;
    let mut i: usize = 0;
    proof {
        assert(views_of(paths@).take(0) =~= Seq::<Seq<u8>>::empty());
    }
    while i < n
        invariant
            n == paths@.len(),
            i <= n,
            count == spec_count_matching(views_of(paths@).take(i as int), views_of(exts@)),
            count <= i,
        decreases n - i,
    {
        let ghost pre = views_of(paths@).take(i as int);
        let ghost pred = |p: Seq<u8>| spec_matches_exts(p, views_of(exts@));
        if matches_extensions(paths[i].as_slice(), exts) {
            count = count + 1;
        }
        proof {
            pre.lemma_filter_push(paths@[i as int]@, pred);
            assert(views_of(paths@).take(i + 1) =~= pre.push(paths@[i as int]@));
        }
        i = i + 1;
    }
    proof {
        assert(views_of(paths@).take(n as int) =~= views_of(paths@));
    }
    count
}

/// The sub-list of `paths` matching `exts`, in their original order.
pub fn select_matching(paths: &Vec<Vec<u8>>, exts: &Vec<Vec<u8>>) -> (r: Vec<Vec<u8>>)
    ensures
        views_of(r@) == views_of(paths@).filter(
            |p: Seq<u8>| spec_matches_exts(p, views_of(exts@)),
        ),
{
    let n = paths.len();
    let mut r: Vec<Vec<u8>> = Vec::new();
    let mut i: usize = 0;
    proof {
        assert(views_of(paths@).take(0) =~= Seq::<Seq<u8>>::empty());
        assert(views_of(r@) =~= Seq::<Seq<u8>>::empty());
    }
    while i < n
        invariant
            n == paths@.len(),
            i <= n,
            views_of(r@) == views_of(paths@).take(i as int).filter(
                |p: Seq<u8>| spec_matches_exts(p, views_of(exts@)),
            ),
        decreases n - i,
    {
        let ghost pre = views_of(paths@).take(i as int);
        let ghost pred = |p: Seq<u8>| spec_matches_exts(p, views_of(exts@));
        if matches_extensions(paths[i].as_slice(), exts) {
            r.push(vstd::slice::slice_to_vec(paths[i].as_slice()));
            proof {
                assert(views_of(r@) =~= pre.filter(pred).push(paths@[i as int]@));
            }
        }
        proof {
            pre.lemma_filter_push(paths@[i as int]@, pred);
            assert(views_of(paths@).take(i + 1) =~= pre.push(paths@[i as int]@));
        }
        i = i + 1;
    }
    proof {
        assert(views_of(paths@).take(n as int) =~= views_of(paths@));
    }
    r
}

} // verus!
