//! The records of the blog client and the lookups it makes on them.
use vstd::prelude::*;

verus! {

/// A blog post as the server lists it.
#[derive(Debug, Clone)]
pub struct Post {
    pub user: usize,
    pub post: String,
    pub outline: Option<String>,
    pub title: String,
    pub tags: Vec<usize>,
    pub timestamp: u128,
    pub idx: i64,
}

/// The editable part of a post, as it is sent back to the server.
#[derive(Debug, Clone)]
pub struct PostUpload {
    pub post: String,
    pub title: String,
    pub outline: Option<String>,
    pub tags: Vec<usize>,
}

impl From<Post> for PostUpload {
    fn from(value: Post) -> (r: PostUpload) {
        PostUpload { post: value.post, title: value.title, outline: value.outline, tags: value.tags }
    }
}

impl vstd::std_specs::convert::FromSpecImpl<Post> for PostUpload {
    open spec fn obeys_from_spec() -> bool {
        true
    }

    open spec fn from_spec(value: Post) -> PostUpload {
        PostUpload { post: value.post, title: value.title, outline: value.outline, tags: value.tags }
    }
}

/// A tag: its display name and the number posts refer to it by.
#[derive(Debug, Clone)]
pub struct Tag {
    pub name: String,
    pub idx: usize,
}

/// The name of the first tag in `tags` numbered `idx`, if there is one.
pub open spec fn tag_name_of(tags: Seq<Tag>, idx: usize) -> Option<Seq<char>>
    decreases tags.len(),
{
    if tags.len() == 0 {
        None
    } else if tags[0].idx == idx {
        Some(tags[0].name@)
    } else {
        tag_name_of(tags.drop_first(), idx)
    }
}

/// The names of the tags numbered `idxs`, in order, leaving out the numbers
/// that no tag has.
pub open spec fn resolved_names(idxs: Seq<usize>, tags: Seq<Tag>) -> Seq<Seq<char>>
    decreases idxs.len(),
{
    if idxs.len() == 0 {
        Seq::empty()
    } else {
        let earlier = resolved_names(idxs.drop_last(), tags);
        match tag_name_of(tags, idxs.last()) {
            Some(name) => earlier.push(name),
            None => earlier,
        }
    }
}

/// Looks up the name of the tag numbered `tag_idx`; the first such tag wins.
pub fn resolve_tag(tag_idx: usize, tags: &[Tag]) -> (r: Option<&str>)
    ensures
        match r {
            Some(name) => tag_name_of(tags@, tag_idx) == Some(name@),
            None => tag_name_of(tags@, tag_idx) is None,
        },
{
    let mut i: usize = 0;
    assert(tags@.subrange(0, tags@.len() as int) =~= tags@);
    while i < tags.len()
        invariant
            i <= tags@.len(),
            tag_name_of(tags@, tag_idx) == tag_name_of(tags@.subrange(i as int, tags@.len() as int), tag_idx),
        decreases tags.len() - i,
    {
        let ghost rest = tags@.subrange(i as int, tags@.len() as int);
        assert(rest.drop_first() =~= tags@.subrange(i + 1, tags@.len() as int));
        if tags[i].idx == tag_idx {
            return Some(tags[i].name.as_str());
        }
        i = i + 1;
    }
    None
}

/// The names of the tags numbered `tag_idx`, in order; numbers that no tag
/// has are left out.
pub fn resolve_tags<'a>(tag_idx: &[usize], tags: &'a [Tag]) -> (r: Vec<&'a str>)
    ensures
        r@.map_values(|s: &str| s@) == resolved_names(tag_idx@, tags@),
{
    let mut names: Vec<&'a str> = Vec::new();
    let mut i: usize = 0;
    while i < tag_idx.len()
        invariant
            i <= tag_idx@.len(),
            names@.map_values(|s: &str| s@) == resolved_names(tag_idx@.subrange(0, i as int), tags@),
        decreases tag_idx.len() - i,
    {
        let ghost before = names@;
        assert(tag_idx@.subrange(0, i + 1).drop_last() =~= tag_idx@.subrange(0, i as int));
        match resolve_tag(tag_idx[i], tags) {
            Some(name) => {
                names.push(name);
                assert(names@.map_values(|s: &str| s@) =~= before.map_values(|s: &str| s@).push(
                    name@,
                ));
            },
            None => {},
        }
        i = i + 1;
    }
    assert(tag_idx@.subrange(0, tag_idx@.len() as int) =~= tag_idx@);
    names
}

/// The text `%Y-%m-%d %H:%M:%S` of the UTC time `millis` milliseconds after
/// the Unix epoch.
pub uninterp spec fn utc_timestamp_text(millis: int) -> Seq<char>;

/// The last millisecond of the year 262142, the latest time chrono represents.
pub const MAX_TIMESTAMP_MILLIS: u128 = 8210266876799999;

/// Relies on chrono::DateTime::<Utc>::from_timestamp_millis, which returns
/// `None` exactly outside chrono's range of years (-262143 to 262142), and on
/// its `format`, which renders the time with the given pattern.
#[verifier::external_body]
fn format_utc_millis(millis: i64) -> (r: Option<String>)
    ensures
        0 <= millis <= MAX_TIMESTAMP_MILLIS ==> r is Some,
        r matches Some(text) ==> text@ == utc_timestamp_text(millis as int),
{
    chrono::DateTime::<chrono::Utc>::from_timestamp_millis(millis).map(
        |t| t.format("%Y-%m-%d %H:%M:%S").to_string(),
    )
}

/// The UTC date and time of a post's timestamp, as `YYYY-MM-DD HH:MM:SS`.
pub fn timestamp_to_string(timestamp_millis: u128) -> (r: String)
    requires
        timestamp_millis <= MAX_TIMESTAMP_MILLIS,
    ensures
        r@ == utc_timestamp_text(timestamp_millis as int),
{
    match format_utc_millis(timestamp_millis as i64) {
        Some(text) => text,
        None => String::new(),
    }
}

} // verus!
