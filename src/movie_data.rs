use vstd::prelude::*;

use crate::text::{all_white_space, lemma_trim_trailing_space, chars_of, clean, clean_copy, find_char, find_from, lower_of, rfind_before, rfind_char, substring, to_lower};

verus! {

// region: ---- GENRE ----
/// A genre as the metadata provider names it; shared by every movie of that genre.
pub struct Genre {
    pub id: i64,
    pub name: String,
}

impl Clone for Genre {
    fn clone(&self) -> (r: Self)
        ensures
            r == *self,
    {
        Genre { id: self.id, name: self.name.clone() }
    }
}

impl Genre {
    pub fn new(id: i64, name: &str) -> (r: Genre)
        ensures
            r.id == id,
            r.name@ == name@,
    {
        Genre { id, name: String::from_str(name) }
    }

    pub fn id(&self) -> (r: i64)
        ensures
            r == self.id,
    {
        self.id
    }

    pub fn name(&self) -> (r: &str)
        ensures
            r@ == self.name@,
    {
        self.name.as_str()
    }
}
// endregion

/// Copy of an optional string.
pub(crate) fn clone_opt(s: &Option<String>) -> (r: Option<String>)
    ensures
        r == *s,
{
    match s {
        Some(v) => Some(v.clone()),
        None => None,
    }
}

// region: ---- CAST ----
/// An actor credited on a movie. `id` is the row id in the store (0 until
/// persisted), `tmdb_id` the provider's id of the person, `picture_path`
/// the remote image reference and later the local file of the headshot.
pub struct Cast {
    pub id: i64,
    pub tmdb_id: i64,
    pub name: String,
    pub picture_path: Option<String>,
    pub character: String,
    pub order: i32,
}

impl Clone for Cast {
    fn clone(&self) -> (r: Self)
        ensures
            r == *self,
    {
        Cast {
            id: self.id,
            tmdb_id: self.tmdb_id,
            name: self.name.clone(),
            picture_path: clone_opt(&self.picture_path),
            character: self.character.clone(),
            order: self.order,
        }
    }
}

impl Cast {
    pub fn new(tmdb_id: i64, name: &str, picture_path: Option<String>, character: &str, order: i32) -> (r: Cast)
        ensures
            r.id == 0,
            r.tmdb_id == tmdb_id,
            r.name@ == name@,
            r.picture_path == picture_path,
            r.character@ == character@,
            r.order == order,
    {
        Cast {
            id: 0,
            tmdb_id,
            name: String::from_str(name),
            picture_path,
            character: String::from_str(character),
            order,
        }
    }

    pub fn id(&self) -> (r: i64)
        ensures
            r == self.id,
    {
        self.id
    }

    pub fn tmdb_id(&self) -> (r: i64)
        ensures
            r == self.tmdb_id,
    {
        self.tmdb_id
    }

    pub fn name(&self) -> (r: &str)
        ensures
            r@ == self.name@,
    {
        self.name.as_str()
    }

    pub fn picture_path(&self) -> (r: Option<&String>)
        ensures
            r is Some <==> self.picture_path is Some,
            r matches Some(p) ==> *p == self.picture_path->Some_0,
    {
        self.picture_path.as_ref()
    }

    pub fn character(&self) -> (r: &str)
        ensures
            r@ == self.character@,
    {
        self.character.as_str()
    }

    pub fn order(&self) -> (r: i32)
        ensures
            r == self.order,
    {
        self.order
    }

    pub fn set_picture_path(&mut self, new_path: Option<String>)
        ensures
            *final(self) == (Cast { picture_path: new_path, ..*old(self) }),
    {
        self.picture_path = new_path;
    }
}
// endregion

// region: ---- CREW ----
/// A crew member credited on a movie, with the department and job the
/// provider lists.
pub struct Crew {
    pub id: i64,
    pub tmdb_id: i64,
    pub name: String,
    pub picture_path: Option<String>,
    pub department: String,
    pub job: String,
}

impl Clone for Crew {
    fn clone(&self) -> (r: Self)
        ensures
            r == *self,
    {
        Crew {
            id: self.id,
            tmdb_id: self.tmdb_id,
            name: self.name.clone(),
            picture_path: clone_opt(&self.picture_path),
            department: self.department.clone(),
            job: self.job.clone(),
        }
    }
}

impl Crew {
    pub fn new(tmdb_id: i64, name: &str, picture_path: Option<String>, department: &str, job: &str) -> (r: Crew)
        ensures
            r.id == 0,
            r.tmdb_id == tmdb_id,
            r.name@ == name@,
            r.picture_path == picture_path,
            r.department@ == department@,
            r.job@ == job@,
    {
        Crew {
            id: 0,
            tmdb_id,
            name: String::from_str(name),
            picture_path,
            department: String::from_str(department),
            job: String::from_str(job),
        }
    }

    pub fn id(&self) -> (r: i64)
        ensures
            r == self.id,
    {
        self.id
    }

    pub fn tmdb_id(&self) -> (r: i64)
        ensures
            r == self.tmdb_id,
    {
        self.tmdb_id
    }

    pub fn name(&self) -> (r: &str)
        ensures
            r@ == self.name@,
    {
        self.name.as_str()
    }

    pub fn picture_path(&self) -> (r: Option<&String>)
        ensures
            r is Some <==> self.picture_path is Some,
            r matches Some(p) ==> *p == self.picture_path->Some_0,
    {
        self.picture_path.as_ref()
    }

    pub fn department(&self) -> (r: &str)
        ensures
            r@ == self.department@,
    {
        self.department.as_str()
    }

    pub fn job(&self) -> (r: &str)
        ensures
            r@ == self.job@,
    {
        self.job.as_str()
    }

    pub fn set_picture_path(&mut self, new_path: Option<String>)
        ensures
            *final(self) == (Crew { picture_path: new_path, ..*old(self) }),
    {
        self.picture_path = new_path;
    }
}
// endregion

// region: ---- CREDITS ----
/// Index given to `set_cast_image` or `set_crew_image` lies past the end.
#[derive(PartialEq, Eq, Structural, Debug, Clone, Copy)]
pub struct IndexOutOfBounds;

/// The cast and crew lists of one movie.
pub struct CreditsMovie {
    pub cast: Vec<Cast>,
    pub crew: Vec<Crew>,
}

impl CreditsMovie {
    pub fn new() -> (r: Self)
        ensures
            r.cast@.len() == 0,
            r.crew@.len() == 0,
    {
        CreditsMovie { cast: Vec::new(), crew: Vec::new() }
    }

    pub fn from_parts(cast: Vec<Cast>, crew: Vec<Crew>) -> (r: Self)
        ensures
            r.cast == cast,
            r.crew == crew,
    {
        CreditsMovie { cast, crew }
    }

    pub fn credits_cast(&self) -> (r: &Vec<Cast>)
        ensures
            *r == self.cast,
    {
        &self.cast
    }

    pub fn credits_crew(&self) -> (r: &Vec<Crew>)
        ensures
            *r == self.crew,
    {
        &self.crew
    }

    pub fn credits_cast_mut(&mut self) -> (r: &mut Vec<Cast>)
        ensures
            *r == old(self).cast,
            *final(self) == (CreditsMovie { cast: *final(r), crew: old(self).crew }),
    {
        &mut self.cast
    }

    pub fn credits_crew_mut(&mut self) -> (r: &mut Vec<Crew>)
        ensures
            *r == old(self).crew,
            *final(self) == (CreditsMovie { cast: old(self).cast, crew: *final(r) }),
    {
        &mut self.crew
    }

    /// Records the local file of the headshot of the cast entry at `indx`.
    pub fn set_cast_image(&mut self, indx: usize, image_path: &str) -> (r: Result<(), IndexOutOfBounds>)
        ensures
            r is Ok <==> indx < old(self).cast@.len(),
            r is Ok ==> final(self).crew == old(self).crew
                && final(self).cast@.len() == old(self).cast@.len()
                && (final(self).cast@[indx as int].picture_path matches Some(p) && p@ == image_path@)
                && final(self).cast@[indx as int] == (Cast {
                    picture_path: final(self).cast@[indx as int].picture_path,
                    ..old(self).cast@[indx as int]
                })
                && forall|j: int| 0 <= j < old(self).cast@.len() && j != indx ==> final(self).cast@[j] == old(self).cast@[j],
            r is Err ==> *final(self) == *old(self),
    {
        if indx >= self.cast.len() {
            return Err(IndexOutOfBounds);
        }
        let mut entry = self.cast[indx].clone();
        entry.set_picture_path(Some(String::from_str(image_path)));
        self.cast.set(indx, entry);
        Ok(())
    }

    /// Records the local file of the headshot of the crew entry at `indx`.
    pub fn set_crew_image(&mut self, indx: usize, image_path: &str) -> (r: Result<(), IndexOutOfBounds>)
        ensures
            r is Ok <==> indx < old(self).crew@.len(),
            r is Ok ==> final(self).cast == old(self).cast
                && final(self).crew@.len() == old(self).crew@.len()
                && (final(self).crew@[indx as int].picture_path matches Some(p) && p@ == image_path@)
                && final(self).crew@[indx as int] == (Crew {
                    picture_path: final(self).crew@[indx as int].picture_path,
                    ..old(self).crew@[indx as int]
                })
                && forall|j: int| 0 <= j < old(self).crew@.len() && j != indx ==> final(self).crew@[j] == old(self).crew@[j],
            r is Err ==> *final(self) == *old(self),
    {
        if indx >= self.crew.len() {
            return Err(IndexOutOfBounds);
        }
        let mut entry = self.crew[indx].clone();
        entry.set_picture_path(Some(String::from_str(image_path)));
        self.crew.set(indx, entry);
        Ok(())
    }
}
// endregion

// region: ---- FILE NAME ----
/// The trailing segment of a `/`-separated path.
pub open spec fn file_name_of(p: Seq<char>) -> Seq<char> {
    match rfind_before(p, '/', p.len() as int) {
        Some(k) => p.subrange(k + 1, p.len() as int),
        None => p,
    }
}

/// The trailing segment of a `/`-separated path.
pub fn file_name(path: &str) -> (r: String)
    ensures
        r@ == file_name_of(path@),
{
    let p = chars_of(path);
    let len: usize = p.len();
    let slash = rfind_char(&p, '/', len);
    let start: usize = match slash {
        Some(k) => k + 1,
        None => 0,
    };
    let r = substring(path, start, len);
    assert(r@ == file_name_of(path@)) by {
        match rfind_before(path@, '/', path@.len() as int) {
            Some(k) => {
                assert(start == k + 1);
            },
            None => {
                assert(r@ =~= path@);
            },
        }
    }
    r
}

/// Positions of the first `open` character and of the first `close`
/// character after it.
pub open spec fn delimited(n: Seq<char>, open: char, close: char) -> Option<(int, int)> {
    match find_from(n, open, 0) {
        Some(o) => match find_from(n, close, o + 1) {
            Some(c) => Some((o, c)),
            None => None,
        },
        None => None,
    }
}

/// Positions of the year's parentheses in a file name.
pub open spec fn year_span(n: Seq<char>) -> Option<(int, int)> {
    delimited(n, '(', ')')
}

/// The extra tag of a file name: what its first `[`…`]` pair holds, or nothing.
pub open spec fn tag_of(n: Seq<char>) -> Seq<char> {
    match delimited(n, '[', ']') {
        Some((a, b)) => clean(n.subrange(a + 1, b)),
        None => Seq::empty(),
    }
}

/// What a file name with a year yields: title, year and extra tag.
pub open spec fn name_parts(n: Seq<char>, o: int, c: int) -> (Seq<char>, Seq<char>, Seq<char>) {
    (clean(n.subrange(0, o)), clean(n.subrange(o + 1, c)), tag_of(n))
}

/// A file name that cannot become a movie candidate.
pub enum ParseError {
    /// The name holds no `(`…`)` pair; the path is kept for the report.
    MalformedName(String),
}
// endregion

/// A movie known from its file and, once resolved, from the provider.
/// The two float fields of the provider (vote average) are kept as their
/// IEEE-754 single-precision bit patterns.
pub struct MovieData {
    pub id: i64,
    pub file_path: String,
    pub file_title: String,
    pub file_year: String,
    pub file_optional_info: String,
    pub tmdb_id: i64,
    pub original_title: String,
    pub title: String,
    pub genres: Vec<Genre>,
    pub vote_average: u32,
    pub release_date: String,
    pub summary: String,
    pub poster_large: Option<String>,
    pub poster_snapshot: Option<String>,
    pub backdrop: Option<String>,
}

/// A movie freshly made from its file: provider fields empty or zero.
pub open spec fn is_unresolved(m: MovieData) -> bool {
    &&& m.id == 0
    &&& m.tmdb_id == 0
    &&& m.original_title@.len() == 0
    &&& m.title@.len() == 0
    &&& m.genres@.len() == 0
    &&& m.vote_average == 0
    &&& m.release_date@.len() == 0
    &&& m.summary@.len() == 0
    &&& m.poster_large is None
    &&& m.poster_snapshot is None
    &&& m.backdrop is None
}

/// `r` is what the file at `path` yields: a candidate when its name holds a
/// year, and the error that names the path otherwise.
pub open spec fn is_candidate_of(path: Seq<char>, r: Result<MovieData, ParseError>) -> bool {
    let n = file_name_of(path);
    match r {
        Err(ParseError::MalformedName(p)) => year_span(n) is None && p@ == path,
        Ok(m) => year_span(n) matches Some((o, c)) && m.file_path@ == lower_of(path)
            && (m.file_title@, m.file_year@, m.file_optional_info@) == name_parts(n, o, c)
            && is_unresolved(m),
    }
}

proof fn lemma_find_from_at(s: Seq<char>, c: char, i: int, j: int)
    requires
        0 <= i <= j < s.len(),
        s[j] == c,
        forall|k: int| i <= k < j ==> s[k] != c,
    ensures
        find_from(s, c, i) == Some(j),
    decreases j - i,
{
    if i < j {
        lemma_find_from_at(s, c, i + 1, j);
    }
}

/// A file name made of a title, a space and a parenthesised year (the title
/// holding no `(`, the year no `)`) yields that title and that year, each
/// trimmed and lower-cased, whatever follows the year.
pub proof fn lemma_well_formed_name(path: Seq<char>, t: Seq<char>, y: Seq<char>, rest: Seq<char>, r: Result<MovieData, ParseError>)
    requires
        file_name_of(path) == t + " ("@ + y + ")"@ + rest,
        !t.contains('('),
        !y.contains(')'),
        is_candidate_of(path, r),
    ensures
        r matches Ok(m) && m.file_title@ == clean(t) && m.file_year@ == clean(y),
{
    reveal_strlit(" (");
    reveal_strlit(")");
    let n = file_name_of(path);
    let o = t.len() as int + 1;
    let c: int = t.len() as int + 2 + y.len() as int;
    assert(n[o] == '(');
    assert forall|k: int| 0 <= k < o implies n[k] != '(' by {
        if k < t.len() {
            assert(n[k] == t[k]);
            assert(!(t[k] == '('));
        } else {
            assert(n[k] == ' ');
        }
    }
    lemma_find_from_at(n, '(', 0, o);
    assert(n[c] == ')');
    assert forall|k: int| o + 1 <= k < c implies n[k] != ')' by {
        assert(n[k] == y[k - o - 1]);
        assert(!(y[k - o - 1] == ')'));
    }
    lemma_find_from_at(n, ')', o + 1, c);
    assert(year_span(n) == Some((o, c)));
    assert(n.subrange(0, o) =~= t + seq![' ']);
    assert(all_white_space(seq![' ']));
    lemma_trim_trailing_space(t, seq![' ']);
    assert(n.subrange(o + 1, c) =~= y);
}

impl MovieData {
    /// Builds the candidate for the file at `path`: the path lower-cased,
    /// and title, year and extra tag from the file name.
    pub fn new(path: &str) -> (r: Result<MovieData, ParseError>)
        ensures
            is_candidate_of(path@, r),
    {
        let file_name = file_name(path);
        match Self::parse_file_name(file_name.as_str()) {
            Err(_) => Err(ParseError::MalformedName(String::from_str(path))),
            Ok((file_title, file_year, file_optional_info)) => Ok(MovieData {
                id: 0,
                file_path: to_lower(path),
                file_title,
                file_year,
                file_optional_info,
                tmdb_id: 0,
                original_title: String::new(),
                title: String::new(),
                genres: Vec::new(),
                vote_average: 0,
                release_date: String::new(),
                summary: String::new(),
                poster_large: None,
                poster_snapshot: None,
                backdrop: None,
            }),
        }
    }

    /// Title, year and extra tag of a file name, each lower-cased and trimmed.
    pub fn parse_file_name(name: &str) -> (r: Result<(String, String, String), ParseError>)
        ensures
            year_span(name@) is None <==> r is Err,
            r matches Err(ParseError::MalformedName(p)) ==> p@ == name@,
            r matches Ok((t, y, x)) ==> ({
                let (o, c) = year_span(name@)->Some_0;
                (t@, y@, x@) == name_parts(name@, o, c)
            }),
    {
        let n = chars_of(name);
        proof {
            assert(n@.len() <= usize::MAX);
        }
        let (open, close) = match find_char(&n, '(', 0) {
            None => return Err(ParseError::MalformedName(String::from_str(name))),
            Some(o) => match find_char(&n, ')', o + 1) {
                None => return Err(ParseError::MalformedName(String::from_str(name))),
                Some(c) => (o, c),
            },
        };
        let file_title = clean_copy(substring(name, 0, open).as_str());
        let file_year = clean_copy(substring(name, open + 1, close).as_str());
        let file_optional_info = match find_char(&n, '[', 0) {
            None => String::new(),
            Some(a) => match find_char(&n, ']', a + 1) {
                None => String::new(),
                Some(b) => clean_copy(substring(name, a + 1, b).as_str()),
            },
        };
        proof {
            assert(tag_of(name@) == file_optional_info@);
        }
        Ok((file_title, file_year, file_optional_info))
    }

    // region: ----- GETTERS -----
    pub fn id(&self) -> (r: i64)
        ensures
            r == self.id,
    {
        self.id
    }

    pub fn file_path(&self) -> (r: &str)
        ensures
            r@ == self.file_path@,
    {
        self.file_path.as_str()
    }

    pub fn file_title(&self) -> (r: &str)
        ensures
            r@ == self.file_title@,
    {
        self.file_title.as_str()
    }

    pub fn file_year(&self) -> (r: &str)
        ensures
            r@ == self.file_year@,
    {
        self.file_year.as_str()
    }

    pub fn file_optional_info(&self) -> (r: &str)
        ensures
            r@ == self.file_optional_info@,
    {
        self.file_optional_info.as_str()
    }

    pub fn tmdb_id(&self) -> (r: i64)
        ensures
            r == self.tmdb_id,
    {
        self.tmdb_id
    }

    pub fn original_title(&self) -> (r: &str)
        ensures
            r@ == self.original_title@,
    {
        self.original_title.as_str()
    }

    pub fn title(&self) -> (r: &str)
        ensures
            r@ == self.title@,
    {
        self.title.as_str()
    }

    pub fn genres(&self) -> (r: &[Genre])
        ensures
            r@ == self.genres@,
    {
        self.genres.as_slice()
    }

    /// Bit pattern of the provider's vote average.
    pub fn vote_average(&self) -> (r: u32)
        ensures
            r == self.vote_average,
    {
        self.vote_average
    }

    pub fn release_date(&self) -> (r: &str)
        ensures
            r@ == self.release_date@,
    {
        self.release_date.as_str()
    }

    pub fn summary(&self) -> (r: &str)
        ensures
            r@ == self.summary@,
    {
        self.summary.as_str()
    }

    pub fn poster_large(&self) -> (r: &Option<String>)
        ensures
            *r == self.poster_large,
    {
        &self.poster_large
    }

    pub fn poster_snapshot(&self) -> (r: &Option<String>)
        ensures
            *r == self.poster_snapshot,
    {
        &self.poster_snapshot
    }

    pub fn backdrop(&self) -> (r: &Option<String>)
        ensures
            *r == self.backdrop,
    {
        &self.backdrop
    }

    // endregion

    // region: ----- SETTERS -----

    pub fn set_id(&mut self, new_id: i64) -> (r: &mut Self)
        ensures
            *r == (MovieData { id: new_id, ..*old(self) }),
            *final(self) == *final(r),
    {
        self.id = new_id;
        self
    }

    pub fn set_file_path(&mut self, new_file_path: &str) -> (r: &mut Self)
        ensures
            r.file_path@ == new_file_path@,
            *r == (MovieData { file_path: r.file_path, ..*old(self) }),
            *final(self) == *final(r),
    {
        self.file_path = String::from_str(new_file_path);
        self
    }

    pub fn set_file_title(&mut self, new_file_title: &str) -> (r: &mut Self)
        ensures
            r.file_title@ == new_file_title@,
            *r == (MovieData { file_title: r.file_title, ..*old(self) }),
            *final(self) == *final(r),
    {
        self.file_title = String::from_str(new_file_title);
        self
    }

    pub fn set_file_year(&mut self, new_file_year: &str) -> (r: &mut Self)
        ensures
            r.file_year@ == new_file_year@,
            *r == (MovieData { file_year: r.file_year, ..*old(self) }),
            *final(self) == *final(r),
    {
        self.file_year = String::from_str(new_file_year);
        self
    }

    pub fn set_file_optional_info(&mut self, new_file_optional_info: &str) -> (r: &mut Self)
        ensures
            r.file_optional_info@ == new_file_optional_info@,
            *r == (MovieData { file_optional_info: r.file_optional_info, ..*old(self) }),
            *final(self) == *final(r),
    {
        self.file_optional_info = String::from_str(new_file_optional_info);
        self
    }

    pub fn set_tmdb_id(&mut self, new_id: i64) -> (r: &mut Self)
        ensures
            *r == (MovieData { tmdb_id: new_id, ..*old(self) }),
            *final(self) == *final(r),
    {
        self.tmdb_id = new_id;
        self
    }

    pub fn set_original_title(&mut self, new_original_title: &str) -> (r: &mut Self)
        ensures
            r.original_title@ == new_original_title@,
            *r == (MovieData { original_title: r.original_title, ..*old(self) }),
            *final(self) == *final(r),
    {
        self.original_title = String::from_str(new_original_title);
        self
    }

    pub fn set_title(&mut self, new_title: &str) -> (r: &mut Self)
        ensures
            r.title@ == new_title@,
            *r == (MovieData { title: r.title, ..*old(self) }),
            *final(self) == *final(r),
    {
        self.title = String::from_str(new_title);
        self
    }

    pub fn set_genres(&mut self, new_genres: Vec<Genre>) -> (r: &mut Self)
        ensures
            *r == (MovieData { genres: new_genres, ..*old(self) }),
            *final(self) == *final(r),
    {
        self.genres = new_genres;
        self
    }

    pub fn set_vote_average(&mut self, new_vote_average: u32) -> (r: &mut Self)
        ensures
            *r == (MovieData { vote_average: new_vote_average, ..*old(self) }),
            *final(self) == *final(r),
    {
        self.vote_average = new_vote_average;
        self
    }

    pub fn set_release_date(&mut self, new_release_date: &str) -> (r: &mut Self)
        ensures
            r.release_date@ == new_release_date@,
            *r == (MovieData { release_date: r.release_date, ..*old(self) }),
            *final(self) == *final(r),
    {
        self.release_date = String::from_str(new_release_date);
        self
    }

    pub fn set_summary(&mut self, new_summary: &str) -> (r: &mut Self)
        ensures
            r.summary@ == new_summary@,
            *r == (MovieData { summary: r.summary, ..*old(self) }),
            *final(self) == *final(r),
    {
        self.summary = String::from_str(new_summary);
        self
    }

    pub fn set_poster_large(&mut self, new_poster_large: Option<String>) -> (r: &mut Self)
        ensures
            *r == (MovieData { poster_large: new_poster_large, ..*old(self) }),
            *final(self) == *final(r),
    {
        self.poster_large = new_poster_large;
        self
    }

    pub fn set_poster_snapshot(&mut self, new_poster_snapshot: Option<String>) -> (r: &mut Self)
        ensures
            *r == (MovieData { poster_snapshot: new_poster_snapshot, ..*old(self) }),
            *final(self) == *final(r),
    {
        self.poster_snapshot = new_poster_snapshot;
        self
    }

    pub fn set_backdrop(&mut self, new_backdrop: Option<String>) -> (r: &mut Self)
        ensures
            *r == (MovieData { backdrop: new_backdrop, ..*old(self) }),
            *final(self) == *final(r),
    {
        self.backdrop = new_backdrop;
        self
    }
    // endregion
}

} // verus!
