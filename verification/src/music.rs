//! The result-item type. The backend answers with a video id, a title, an
//! author and a length in seconds; an item stores the fields the client
//! shows: a watch URL, a display duration, and the names as given.

use vstd::prelude::*;
use vstd::string::StringExecFns;

use crate::duration_codec;
use crate::duration_codec::spec_duration_str;

verus! {

/// One music result item.
#[derive(Debug, PartialEq, Eq)]
pub struct MusicUnit {
    pub liked: bool,
    pub artist: String,
    pub name: String,
    pub duration: String,
    pub path: String,
}

/// The URL that plays a video, given its id.
pub open spec fn spec_watch_url(video_id: Seq<char>) -> Seq<char> {
    "https://www.youtube.com/watch?v="@ + video_id
}

impl MusicUnit {
    /// Builds an item from the four fields the backend serves: the title
    /// becomes the name, the author the artist, the video id its watch
    /// URL, and the length in seconds its `minutes:seconds` display form.
    pub fn from_fields(title: &str, video_id: &str, author: &str, length_seconds: u64) -> (r:
        MusicUnit)
        ensures
            r.liked == false,
            r.name@ == title@,
            r.artist@ == author@,
            r.duration@ == spec_duration_str(
                (length_seconds / 60) as nat,
                (length_seconds % 60) as nat,
            ),
            r.path@ == spec_watch_url(video_id@),
    {
        let mut path = String::from_str("https://www.youtube.com/watch?v=");
        path.append(video_id);
        MusicUnit {
            liked: false,
            artist: String::from_str(author),
            name: String::from_str(title),
            duration: duration_codec::to_string(length_seconds),
            path,
        }
    }

    /// A field-for-field copy of the item.
    pub fn duplicate(&self) -> (r: MusicUnit)
        ensures
            r == *self,
    {
        MusicUnit {
            liked: self.liked,
            artist: self.artist.clone(),
            name: self.name.clone(),
            duration: self.duration.clone(),
            path: self.path.clone(),
        }
    }
}

/// Copies the items of `v` with indices in `[from, to)`.
pub fn copy_units(v: &Vec<MusicUnit>, from: usize, to: usize) -> (r: Vec<MusicUnit>)
    requires
        from <= to <= v@.len(),
    ensures
        r@ == v@.subrange(from as int, to as int),
{
    let mut out: Vec<MusicUnit> = Vec::new();
    let mut i: usize = from;
    proof {
        assert(out@ =~= v@.subrange(from as int, from as int));
    }
    while i < to
        invariant
            from <= i <= to <= v@.len(),
            out@ == v@.subrange(from as int, i as int),
        decreases to - i,
    {
        let u = v[i].duplicate();
        out.push(u);
        proof {
            assert(out@ =~= v@.subrange(from as int, i + 1));
        }
        i = i + 1;
    }
    out
}

} // verus!
