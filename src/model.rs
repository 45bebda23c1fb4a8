use vstd::prelude::*;

verus! {

/// An instant in UTC: whole seconds since the Unix epoch and the
/// nanoseconds past that second.
#[derive(Debug, Clone, Copy, PartialEq, Eq, Structural)]
pub struct Timestamp {
    pub seconds: i64,
    pub nanos: u32,
}

/// A user as the API reports them. Absent optional fields stay absent.
#[derive(Debug)]
pub struct User {
    pub login: String,
    pub email: Option<String>,
    pub location: Option<String>,
    pub followers_count: usize,
    pub following_count: usize,
    pub is_hireable: bool,
}

/// One star given to the repository: when, and by whom.
#[derive(Debug)]
pub struct StarEvent {
    pub starred_at: Timestamp,
    pub user: User,
}

/// A star event flattened into one row of the output table.
#[derive(Debug)]
pub struct OutputRow {
    pub date: Timestamp,
    pub username: String,
    pub email: Option<String>,
    pub location: Option<String>,
    pub followers: usize,
    pub following: usize,
    pub hireable: bool,
}

/// The row of a star event: every field copied as it is.
pub open spec fn row_of(e: StarEvent) -> OutputRow {
    OutputRow {
        date: e.starred_at,
        username: e.user.login,
        email: e.user.email,
        location: e.user.location,
        followers: e.user.followers_count,
        following: e.user.following_count,
        hireable: e.user.is_hireable,
    }
}

fn copy_text(o: &Option<String>) -> (r: Option<String>)
    ensures
        r == *o,
{
    match o {
        Some(s) => Some(s.clone()),
        None => None,
    }
}

impl OutputRow {
    /// Projects a star event onto a row, with no defaulting and no filtering.
    pub fn from_star(star: &StarEvent) -> (r: OutputRow)
        ensures
            r == row_of(*star),
    {
        OutputRow {
            date: star.starred_at,
            username: star.user.login.clone(),
            email: copy_text(&star.user.email),
            location: copy_text(&star.user.location),
            followers: star.user.followers_count,
            following: star.user.following_count,
            hireable: star.user.is_hireable,
        }
    }
}

/// The projection keeps every field: an absent email or location stays
/// absent and a present one keeps its text.
pub proof fn lemma_row_keeps_fields(e: StarEvent)
    ensures
        row_of(e).email == e.user.email,
        row_of(e).location == e.user.location,
        row_of(e).username == e.user.login,
        row_of(e).date == e.starred_at,
        row_of(e).followers == e.user.followers_count,
        row_of(e).following == e.user.following_count,
        row_of(e).hireable == e.user.is_hireable,
        e.user.email is None <==> row_of(e).email is None,
        e.user.location is None <==> row_of(e).location is None,
{
}

/// The projection depends on the star event alone: projecting equal events,
/// or the same event twice, gives equal rows.
pub proof fn lemma_projection_is_pure(a: StarEvent, b: StarEvent)
    requires
        a == b,
    ensures
        row_of(a) == row_of(b),
{
}

} // verus!
