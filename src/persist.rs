use vstd::prelude::*;

use crate::movie_data::{Cast, CreditsMovie, Crew, Genre, MovieData};
use crate::text::{lower_of, to_lower};

verus! {

// region: ---- SCHEMA ----
pub const CREATE_MOVIE_TABLE: &'static str = "CREATE TABLE IF NOT EXISTS Movie (
    id INTEGER PRIMARY KEY AUTOINCREMENT,
    tmdb_id INTEGER,
    file_path TEXT NOT NULL UNIQUE,
    file_optional_info TEXT,
    title TEXT NOT NULL,
    original_title TEXT NOT NULL,
    release_date TEXT,
    summary TEXT NOT NULL,
    vote_average REAL NOT NULL DEFAULT 0,
    poster_large TEXT,
    poster_snapshot TEXT,
    backdrop TEXT
)";

pub const CREATE_PERSON_TABLE: &'static str = "CREATE TABLE IF NOT EXISTS Person (
    id INTEGER PRIMARY KEY AUTOINCREMENT,
    tmdb_id INTEGER,
    movie_id INTEGER,
    name TEXT NOT NULL,
    character TEXT,
    job_name TEXT NOT NULL,
    picture_path TEXT,
    FOREIGN KEY (movie_id) REFERENCES Movie(id)
)";

pub const CREATE_PERSON_UNIQUE: &'static str = "CREATE UNIQUE INDEX IF NOT EXISTS idx_cast_tmdb_movie_character_job
    ON Person (tmdb_id, movie_id, character, job_name)";

pub const CREATE_GENRE_TABLE: &'static str = "CREATE TABLE IF NOT EXISTS Genre (
    id INTEGER PRIMARY KEY,
    name TEXT NOT NULL
)";

pub const CREATE_MOVIE_GENRE_TABLE: &'static str = "CREATE TABLE IF NOT EXISTS Movie_Genre (
    id INTEGER PRIMARY KEY AUTOINCREMENT,
    movie_id INTEGER NOT NULL,
    genre_id INTEGER NOT NULL,
    FOREIGN KEY (movie_id) REFERENCES Movie(id),
    FOREIGN KEY (genre_id) REFERENCES Genre(id)
)";

pub const CREATE_MOVIE_GENRE_UNIQUE: &'static str = "CREATE UNIQUE INDEX IF NOT EXISTS idx_movie_genre
    ON Movie_Genre (movie_id, genre_id)";

pub const INSERT_MOVIE: &'static str = "INSERT INTO Movie (tmdb_id, file_path, file_optional_info, title, original_title,
    release_date, summary, vote_average, poster_large, poster_snapshot, backdrop)
    VALUES (?1, ?2, ?3, ?4, ?5, ?6, ?7, ?8, ?9, ?10, ?11)
    ON CONFLICT(file_path) DO NOTHING";

pub const SELECT_MOVIE_ID: &'static str = "SELECT id FROM Movie WHERE file_path = ?1";

pub const INSERT_GENRE: &'static str = "INSERT INTO Genre (id, name) VALUES (?1, ?2)
    ON CONFLICT(id) DO NOTHING";

pub const INSERT_MOVIE_GENRE: &'static str = "INSERT INTO Movie_Genre (movie_id, genre_id) VALUES (?1, ?2)
    ON CONFLICT(movie_id, genre_id) DO NOTHING";

pub const INSERT_PERSON: &'static str = "INSERT INTO Person (tmdb_id, movie_id, name, job_name, character, picture_path)
    VALUES (?1, ?2, ?3, ?4, ?5, ?6)
    ON CONFLICT(tmdb_id, movie_id, character, job_name) DO NOTHING";

/// The lookup index `idx_<table>_<column>` (lower case) on one column.
pub open spec fn index_sql(table: Seq<char>, column: Seq<char>) -> Seq<char> {
    "CREATE INDEX IF NOT EXISTS idx_"@ + lower_of(table) + "_"@ + lower_of(column) + " ON "@ + table + "("@
        + column + ")"@
}

/// Statement that creates the index `idx_<table>_<column>` (lower case) on
/// one column.
pub fn create_index(table: &str, column: &str) -> (r: String)
    ensures
        r@ == index_sql(table@, column@),
{
    let mut s = String::from_str("CREATE INDEX IF NOT EXISTS idx_");
    s.append(to_lower(table).as_str());
    s.append("_");
    s.append(to_lower(column).as_str());
    s.append(" ON ");
    s.append(table);
    s.append("(");
    s.append(column);
    s.append(")");
    s
}

/// The statements that create the four tables, their unique indexes and
/// the lookup indexes, in the order they must run.
pub fn schema_statements() -> (r: Vec<String>)
    ensures
        r@.len() == 12,
        r@[0]@ == CREATE_MOVIE_TABLE@,
        r@[1]@ == index_sql("Movie"@, "title"@),
        r@[2]@ == index_sql("Movie"@, "release_date"@),
        r@[3]@ == index_sql("Movie"@, "tmdb_id"@),
        r@[4]@ == CREATE_PERSON_TABLE@,
        r@[5]@ == index_sql("Person"@, "name"@),
        r@[6]@ == index_sql("Person"@, "job_name"@),
        r@[7]@ == CREATE_PERSON_UNIQUE@,
        r@[8]@ == CREATE_GENRE_TABLE@,
        r@[9]@ == CREATE_MOVIE_GENRE_TABLE@,
        r@[10]@ == index_sql("Genre"@, "name"@),
        r@[11]@ == CREATE_MOVIE_GENRE_UNIQUE@,
{
    let mut v: Vec<String> = Vec::new();
    v.push(String::from_str(CREATE_MOVIE_TABLE));
    v.push(create_index("Movie", "title"));
    v.push(create_index("Movie", "release_date"));
    v.push(create_index("Movie", "tmdb_id"));
    v.push(String::from_str(CREATE_PERSON_TABLE));
    v.push(create_index("Person", "name"));
    v.push(create_index("Person", "job_name"));
    v.push(String::from_str(CREATE_PERSON_UNIQUE));
    v.push(String::from_str(CREATE_GENRE_TABLE));
    v.push(String::from_str(CREATE_MOVIE_GENRE_TABLE));
    v.push(create_index("Genre", "name"));
    v.push(String::from_str(CREATE_MOVIE_GENRE_UNIQUE));
    v
}
// endregion

// region: ---- WRITES ----
/// A value bound to a statement parameter. `Real` holds a single-precision
/// float as its bit pattern.
pub enum SqlValue {
    Null,
    Integer(i64),
    Real(u32),
    Text(String),
}

/// A statement with its parameters, in order.
pub struct Statement {
    pub sql: String,
    pub params: Vec<SqlValue>,
}

/// One row written while storing a movie, each as an insert that leaves
/// the table as it is when the row's unique key is already there.
pub enum Write {
    /// Keyed by `file_path`.
    Movie {
        tmdb_id: i64,
        file_path: String,
        file_optional_info: String,
        title: String,
        original_title: String,
        release_date: String,
        summary: String,
        vote_average: u32,
        poster_large: Option<String>,
        poster_snapshot: Option<String>,
        backdrop: Option<String>,
    },
    /// Keyed by the genre id.
    Genre { id: i64, name: String },
    /// Keyed by the pair.
    MovieGenre { movie_id: i64, genre_id: i64 },
    /// Keyed by `(tmdb_id, movie_id, character, job_name)`.
    Person {
        tmdb_id: i64,
        movie_id: i64,
        name: String,
        job_name: String,
        character: String,
        picture_path: Option<String>,
    },
}

/// The unique key of a person row.
pub type PersonKey = (i64, i64, Seq<char>, Seq<char>);

/// What a write says of the unique keys of the store.
pub enum WriteKey {
    Movie(Seq<char>),
    Genre(i64),
    MovieGenre(i64, i64),
    Person(PersonKey),
}

impl Write {
    pub open spec fn key(&self) -> WriteKey {
        match self {
            Write::Movie { file_path, .. } => WriteKey::Movie(file_path@),
            Write::Genre { id, .. } => WriteKey::Genre(*id),
            Write::MovieGenre { movie_id, genre_id } => WriteKey::MovieGenre(*movie_id, *genre_id),
            Write::Person { tmdb_id, movie_id, character, job_name, .. } => WriteKey::Person(
                (*tmdb_id, *movie_id, character@, job_name@),
            ),
        }
    }
}

fn text(s: &String) -> (r: SqlValue)
    ensures
        r == SqlValue::Text(*s),
{
    SqlValue::Text(s.clone())
}

/// A nullable text column.
pub open spec fn opt_value(o: Option<String>) -> SqlValue {
    match o {
        Some(v) => SqlValue::Text(v),
        None => SqlValue::Null,
    }
}

/// The parameters of the statement of a write, in the order of its columns.
pub open spec fn params_of(w: Write) -> Seq<SqlValue> {
    match w {
        Write::Movie {
            tmdb_id,
            file_path,
            file_optional_info,
            title,
            original_title,
            release_date,
            summary,
            vote_average,
            poster_large,
            poster_snapshot,
            backdrop,
        } => seq![
            SqlValue::Integer(tmdb_id),
            SqlValue::Text(file_path),
            SqlValue::Text(file_optional_info),
            SqlValue::Text(title),
            SqlValue::Text(original_title),
            SqlValue::Text(release_date),
            SqlValue::Text(summary),
            SqlValue::Real(vote_average),
            opt_value(poster_large),
            opt_value(poster_snapshot),
            opt_value(backdrop),
        ],
        Write::Genre { id, name } => seq![SqlValue::Integer(id), SqlValue::Text(name)],
        Write::MovieGenre { movie_id, genre_id } => seq![SqlValue::Integer(movie_id), SqlValue::Integer(genre_id)],
        Write::Person { tmdb_id, movie_id, name, job_name, character, picture_path } => seq![
            SqlValue::Integer(tmdb_id),
            SqlValue::Integer(movie_id),
            SqlValue::Text(name),
            SqlValue::Text(job_name),
            SqlValue::Text(character),
            opt_value(picture_path),
        ],
    }
}

fn opt_text(s: &Option<String>) -> (r: SqlValue)
    ensures
        r == opt_value(*s),
{
    match s {
        Some(v) => SqlValue::Text(v.clone()),
        None => SqlValue::Null,
    }
}

impl Write {
    /// The statement that performs this write.
    pub fn to_statement(&self) -> (r: Statement)
        ensures
            r.params@ == params_of(*self),
            match self {
                Write::Movie { .. } => r.sql@ == INSERT_MOVIE@,
                Write::Genre { .. } => r.sql@ == INSERT_GENRE@,
                Write::MovieGenre { .. } => r.sql@ == INSERT_MOVIE_GENRE@,
                Write::Person { .. } => r.sql@ == INSERT_PERSON@,
            },
    {
        match self {
            Write::Movie {
                tmdb_id,
                file_path,
                file_optional_info,
                title,
                original_title,
                release_date,
                summary,
                vote_average,
                poster_large,
                poster_snapshot,
                backdrop,
            } => {
                let mut p: Vec<SqlValue> = Vec::new();
                p.push(SqlValue::Integer(*tmdb_id));
                p.push(text(file_path));
                p.push(text(file_optional_info));
                p.push(text(title));
                p.push(text(original_title));
                p.push(text(release_date));
                p.push(text(summary));
                p.push(SqlValue::Real(*vote_average));
                p.push(opt_text(poster_large));
                p.push(opt_text(poster_snapshot));
                p.push(opt_text(backdrop));
                assert(p@ =~= params_of(*self));
                Statement { sql: String::from_str(INSERT_MOVIE), params: p }
            },
            Write::Genre { id, name } => {
                let mut p: Vec<SqlValue> = Vec::new();
                p.push(SqlValue::Integer(*id));
                p.push(text(name));
                assert(p@ =~= params_of(*self));
                Statement { sql: String::from_str(INSERT_GENRE), params: p }
            },
            Write::MovieGenre { movie_id, genre_id } => {
                let mut p: Vec<SqlValue> = Vec::new();
                p.push(SqlValue::Integer(*movie_id));
                p.push(SqlValue::Integer(*genre_id));
                assert(p@ =~= params_of(*self));
                Statement { sql: String::from_str(INSERT_MOVIE_GENRE), params: p }
            },
            Write::Person { tmdb_id, movie_id, name, job_name, character, picture_path } => {
                let mut p: Vec<SqlValue> = Vec::new();
                p.push(SqlValue::Integer(*tmdb_id));
                p.push(SqlValue::Integer(*movie_id));
                p.push(text(name));
                p.push(text(job_name));
                p.push(text(character));
                p.push(opt_text(picture_path));
                assert(p@ =~= params_of(*self));
                Statement { sql: String::from_str(INSERT_PERSON), params: p }
            },
        }
    }
}

/// The query that reads back the row id of a stored movie by its path.
pub fn movie_id_query(m: &MovieData) -> (r: Statement)
    ensures
        r.sql@ == SELECT_MOVIE_ID@,
        r.params@.len() == 1,
        r.params@ == seq![SqlValue::Text(m.file_path)],
{
    let mut p: Vec<SqlValue> = Vec::new();
    p.push(text(&m.file_path));
    assert(p@ =~= seq![SqlValue::Text(m.file_path)]);
    Statement { sql: String::from_str(SELECT_MOVIE_ID), params: p }
}
// endregion

// region: ---- PLAN ----
/// The key of the movie row of `m`.
pub open spec fn movie_key(m: MovieData) -> WriteKey {
    WriteKey::Movie(m.file_path@)
}

/// Keys of the genre rows and links of a movie stored as `movie_id`.
pub open spec fn genre_keys(movie_id: i64, genres: Seq<Genre>) -> Seq<WriteKey>
    decreases genres.len(),
{
    if genres.len() == 0 {
        Seq::empty()
    } else {
        genre_keys(movie_id, genres.drop_last()) + seq![
            WriteKey::Genre(genres.last().id),
            WriteKey::MovieGenre(movie_id, genres.last().id),
        ]
    }
}

/// Keys of the person rows of the cast: job "actor".
pub open spec fn cast_keys(movie_id: i64, cast: Seq<Cast>) -> Seq<WriteKey>
    decreases cast.len(),
{
    if cast.len() == 0 {
        Seq::empty()
    } else {
        cast_keys(movie_id, cast.drop_last()).push(
            WriteKey::Person((cast.last().tmdb_id, movie_id, cast.last().character@, "actor"@)),
        )
    }
}

/// Keys of the person rows of the crew: character "N/A".
pub open spec fn crew_keys(movie_id: i64, crew: Seq<Crew>) -> Seq<WriteKey>
    decreases crew.len(),
{
    if crew.len() == 0 {
        Seq::empty()
    } else {
        crew_keys(movie_id, crew.drop_last()).push(
            WriteKey::Person((crew.last().tmdb_id, movie_id, "N/A"@, crew.last().job@)),
        )
    }
}

/// Keys of every row that follows the movie row, in order.
pub open spec fn child_keys(movie_id: i64, m: MovieData, c: CreditsMovie) -> Seq<WriteKey> {
    genre_keys(movie_id, m.genres@) + cast_keys(movie_id, c.cast@) + crew_keys(movie_id, c.crew@)
}

/// The write of the movie row.
pub fn movie_write(m: &MovieData) -> (r: Write)
    ensures
        r.key() == movie_key(*m),
        r matches Write::Movie { tmdb_id, file_path, file_optional_info, title, original_title, release_date, summary, vote_average, poster_large, poster_snapshot, backdrop }
            && tmdb_id == m.tmdb_id && file_path == m.file_path && file_optional_info == m.file_optional_info
            && title == m.title && original_title == m.original_title && release_date == m.release_date
            && summary == m.summary && vote_average == m.vote_average && poster_large == m.poster_large
            && poster_snapshot == m.poster_snapshot && backdrop == m.backdrop,
{
    Write::Movie {
        tmdb_id: m.tmdb_id,
        file_path: m.file_path.clone(),
        file_optional_info: m.file_optional_info.clone(),
        title: m.title.clone(),
        original_title: m.original_title.clone(),
        release_date: m.release_date.clone(),
        summary: m.summary.clone(),
        vote_average: m.vote_average,
        poster_large: m.poster_large.clone(),
        poster_snapshot: m.poster_snapshot.clone(),
        backdrop: m.backdrop.clone(),
    }
}

pub open spec fn keys_of(ws: Seq<Write>) -> Seq<WriteKey> {
    ws.map_values(|w: Write| w.key())
}

/// Each genre row carries the genre's name.
pub open spec fn genre_payload(ws: Seq<Write>, genres: Seq<Genre>) -> bool {
    forall|i: int| 0 <= i < genres.len() ==> ws[2 * i] == (Write::Genre { id: (#[trigger] genres[i]).id, name: genres[i].name })
}

/// Name and image of a person row.
pub open spec fn person_fields(w: Write) -> Option<(String, Option<String>)> {
    match w {
        Write::Person { name, picture_path, .. } => Some((name, picture_path)),
        _ => None,
    }
}

/// Each cast row, from position `off`, carries the actor's name and image.
pub open spec fn cast_payload(ws: Seq<Write>, off: int, cast: Seq<Cast>) -> bool {
    forall|j: int| 0 <= j < cast.len() ==> person_fields(ws[off + j]) == Some(((#[trigger] cast[j]).name, cast[j].picture_path))
}

/// Each crew row, from position `off`, carries the member's name and image.
pub open spec fn crew_payload(ws: Seq<Write>, off: int, crew: Seq<Crew>) -> bool {
    forall|j: int| 0 <= j < crew.len() ==> person_fields(ws[off + j]) == Some(((#[trigger] crew[j]).name, crew[j].picture_path))
}

/// The writes that follow the movie row, for the movie stored as
/// `movie_id`: each genre and its link, then the cast, then the crew.
pub fn child_writes(movie_id: i64, m: &MovieData, c: &CreditsMovie) -> (r: Vec<Write>)
    ensures
        keys_of(r@) == child_keys(movie_id, *m, *c),
        r@.len() == 2 * m.genres@.len() + c.cast@.len() + c.crew@.len(),
        genre_payload(r@, m.genres@),
        cast_payload(r@, 2 * m.genres@.len() as int, c.cast@),
        crew_payload(r@, 2 * m.genres@.len() + c.cast@.len() as int, c.crew@),
{
    let mut out: Vec<Write> = Vec::new();
    let mut i: usize = 0;
    while i < m.genres.len()
        invariant
            i <= m.genres@.len(),
            keys_of(out@) == genre_keys(movie_id, m.genres@.subrange(0, i as int)),
            out@.len() == 2 * i,
            genre_payload(out@, m.genres@.subrange(0, i as int)),
        decreases m.genres@.len() - i,
    {
        let g = &m.genres[i];
        proof {
            assert(m.genres@.subrange(0, i + 1).drop_last() =~= m.genres@.subrange(0, i as int));
        }
        let ghost before = out@;
        let name = g.name.clone();
        out.push(Write::Genre { id: g.id, name });
        out.push(Write::MovieGenre { movie_id, genre_id: g.id });
        assert(out@[2 * i as int] == Write::Genre { id: g.id, name: g.name });
        assert(m.genres@.subrange(0, i + 1)[i as int] == *g);
        assert(keys_of(out@) =~= keys_of(before) + seq![WriteKey::Genre(g.id), WriteKey::MovieGenre(movie_id, g.id)]);
        assert forall|t: int| 0 <= t < i + 1 implies out@[2 * t] == (Write::Genre {
            id: (#[trigger] m.genres@.subrange(0, i + 1)[t]).id,
            name: m.genres@.subrange(0, i + 1)[t].name,
        }) by {
            if t < i {
                assert(out@[2 * t] == before[2 * t]);
                assert(m.genres@.subrange(0, i + 1)[t] == m.genres@.subrange(0, i as int)[t]);
            }
        }
        i = i + 1;
    }
    assert(m.genres@.subrange(0, m.genres@.len() as int) =~= m.genres@);
    let ghost after_genres = out@;
    let ghost g_len: int = 2 * m.genres@.len() as int;
    let mut j: usize = 0;
    while j < c.cast.len()
        invariant
            j <= c.cast@.len(),
            keys_of(after_genres) == genre_keys(movie_id, m.genres@),
            keys_of(out@) == keys_of(after_genres) + cast_keys(movie_id, c.cast@.subrange(0, j as int)),
            g_len == 2 * m.genres@.len(),
            after_genres.len() == g_len,
            out@.len() == g_len + j,
            out@.subrange(0, g_len) == after_genres,
            genre_payload(after_genres, m.genres@),
            cast_payload(out@, g_len, c.cast@.subrange(0, j as int)),
        decreases c.cast@.len() - j,
    {
        let a = &c.cast[j];
        proof {
            assert(c.cast@.subrange(0, j + 1).drop_last() =~= c.cast@.subrange(0, j as int));
        }
        let ghost before = out@;
        out.push(
            Write::Person {
                tmdb_id: a.tmdb_id,
                movie_id,
                name: a.name.clone(),
                job_name: String::from_str("actor"),
                character: a.character.clone(),
                picture_path: a.picture_path.clone(),
            },
        );
        assert(keys_of(out@) =~= keys_of(before).push(
            WriteKey::Person((a.tmdb_id, movie_id, a.character@, "actor"@)),
        ));
        j = j + 1;
    }
    assert(c.cast@.subrange(0, c.cast@.len() as int) =~= c.cast@);
    let ghost after_cast = out@;
    assert forall|t: int| 0 <= t < m.genres@.len() implies after_cast[2 * t] == (Write::Genre {
        id: (#[trigger] m.genres@[t]).id,
        name: m.genres@[t].name,
    }) by {
        assert(after_cast[2 * t] == out@.subrange(0, g_len)[2 * t]);
    }
    let ghost c_len: int = g_len + c.cast@.len() as int;
    assert(out@.subrange(0, g_len) == after_genres);
    let mut k: usize = 0;
    while k < c.crew.len()
        invariant
            k <= c.crew@.len(),
            keys_of(after_cast) == genre_keys(movie_id, m.genres@) + cast_keys(movie_id, c.cast@),
            keys_of(out@) == keys_of(after_cast) + crew_keys(movie_id, c.crew@.subrange(0, k as int)),
            c_len == 2 * m.genres@.len() + c.cast@.len(),
            g_len == 2 * m.genres@.len(),
            after_cast.len() == c_len,
            out@.len() == c_len + k,
            out@.subrange(0, c_len) == after_cast,
            genre_payload(after_cast, m.genres@),
            cast_payload(after_cast, g_len, c.cast@),
            crew_payload(out@, c_len, c.crew@.subrange(0, k as int)),
        decreases c.crew@.len() - k,
    {
        let b = &c.crew[k];
        proof {
            assert(c.crew@.subrange(0, k + 1).drop_last() =~= c.crew@.subrange(0, k as int));
        }
        let ghost before = out@;
        out.push(
            Write::Person {
                tmdb_id: b.tmdb_id,
                movie_id,
                name: b.name.clone(),
                job_name: b.job.clone(),
                character: String::from_str("N/A"),
                picture_path: b.picture_path.clone(),
            },
        );
        assert(keys_of(out@) =~= keys_of(before).push(
            WriteKey::Person((b.tmdb_id, movie_id, "N/A"@, b.job@)),
        ));
        k = k + 1;
    }
    assert(c.crew@.subrange(0, c.crew@.len() as int) =~= c.crew@);
    assert forall|t: int| 0 <= t < m.genres@.len() implies out@[2 * t] == (Write::Genre {
        id: (#[trigger] m.genres@[t]).id,
        name: m.genres@[t].name,
    }) by {
        assert(out@[2 * t] == out@.subrange(0, c_len)[2 * t]);
    }
    assert forall|t: int| 0 <= t < c.cast@.len() implies person_fields(out@[g_len + t]) == Some(
        ((#[trigger] c.cast@[t]).name, c.cast@[t].picture_path),
    ) by {
        assert(out@[g_len + t] == out@.subrange(0, c_len)[g_len + t]);
    }
    assert(keys_of(out@) =~= child_keys(movie_id, *m, *c));
    out
}
// endregion

// region: ---- STORE MODEL ----
/// The unique keys held by the four tables. Row ids of movies are their
/// positions plus one, in insertion order.
pub struct StoreModel {
    pub movies: Seq<Seq<char>>,
    pub genres: Seq<i64>,
    pub links: Seq<(i64, i64)>,
    pub people: Seq<PersonKey>,
}

pub open spec fn empty_store() -> StoreModel {
    StoreModel { movies: Seq::empty(), genres: Seq::empty(), links: Seq::empty(), people: Seq::empty() }
}

/// No two rows of a table share a unique key.
pub open spec fn store_wf(s: StoreModel) -> bool {
    &&& s.movies.no_duplicates()
    &&& s.genres.no_duplicates()
    &&& s.links.no_duplicates()
    &&& s.people.no_duplicates()
}

pub open spec fn holds_key(s: StoreModel, k: WriteKey) -> bool {
    match k {
        WriteKey::Movie(p) => s.movies.contains(p),
        WriteKey::Genre(g) => s.genres.contains(g),
        WriteKey::MovieGenre(m, g) => s.links.contains((m, g)),
        WriteKey::Person(pk) => s.people.contains(pk),
    }
}

/// An insert that does nothing on a conflict of its unique key.
pub open spec fn apply_key(s: StoreModel, k: WriteKey) -> StoreModel {
    if holds_key(s, k) {
        s
    } else {
        match k {
            WriteKey::Movie(p) => StoreModel { movies: s.movies.push(p), ..s },
            WriteKey::Genre(g) => StoreModel { genres: s.genres.push(g), ..s },
            WriteKey::MovieGenre(m, g) => StoreModel { links: s.links.push((m, g)), ..s },
            WriteKey::Person(pk) => StoreModel { people: s.people.push(pk), ..s },
        }
    }
}

pub open spec fn apply_keys(s: StoreModel, ks: Seq<WriteKey>) -> StoreModel
    decreases ks.len(),
{
    if ks.len() == 0 {
        s
    } else {
        apply_key(apply_keys(s, ks.drop_last()), ks.last())
    }
}

/// Position of the first row with path `p`, or the length when there is none.
pub open spec fn movie_position(movies: Seq<Seq<char>>, p: Seq<char>) -> int
    decreases movies.len(),
{
    if movies.len() == 0 {
        0
    } else if movies[0] == p {
        0
    } else {
        1 + movie_position(movies.drop_first(), p)
    }
}

/// The row id read back for the movie stored at `p`.
pub open spec fn movie_id_of(s: StoreModel, p: Seq<char>) -> i64 {
    (movie_position(s.movies, p) + 1) as i64
}

/// One storing of `m` with its credits: the movie row, the read-back of
/// its id, then its genres, links and people.
pub open spec fn persist_model(s: StoreModel, m: MovieData, c: CreditsMovie) -> StoreModel {
    let s1 = apply_key(s, movie_key(m));
    apply_keys(s1, child_keys(movie_id_of(s1, m.file_path@), m, c))
}

/// Exactly one element of `s` equals `x`.
pub open spec fn exactly_one<T>(s: Seq<T>, x: T) -> bool {
    exists|i: int| 0 <= i < s.len() && s[i] == x && forall|j: int| 0 <= j < s.len() && s[j] == x ==> j == i
}

proof fn lemma_apply_key_keeps(s: StoreModel, k: WriteKey, k2: WriteKey)
    requires
        holds_key(s, k),
    ensures
        holds_key(apply_key(s, k2), k),
{
    let t = apply_key(s, k2);
    match k {
        WriteKey::Movie(p) => {
            let i = choose|i: int| 0 <= i < s.movies.len() && s.movies[i] == p;
            assert(t.movies[i] == p);
        },
        WriteKey::Genre(g) => {
            let i = choose|i: int| 0 <= i < s.genres.len() && s.genres[i] == g;
            assert(t.genres[i] == g);
        },
        WriteKey::MovieGenre(m, g) => {
            let i = choose|i: int| 0 <= i < s.links.len() && s.links[i] == (m, g);
            assert(t.links[i] == (m, g));
        },
        WriteKey::Person(pk) => {
            let i = choose|i: int| 0 <= i < s.people.len() && s.people[i] == pk;
            assert(t.people[i] == pk);
        },
    }
}

proof fn lemma_apply_keys_keeps(s: StoreModel, ks: Seq<WriteKey>, k: WriteKey)
    requires
        holds_key(s, k),
    ensures
        holds_key(apply_keys(s, ks), k),
    decreases ks.len(),
{
    if ks.len() > 0 {
        lemma_apply_keys_keeps(s, ks.drop_last(), k);
        lemma_apply_key_keeps(apply_keys(s, ks.drop_last()), k, ks.last());
    }
}

proof fn lemma_apply_key_holds(s: StoreModel, k: WriteKey)
    ensures
        holds_key(apply_key(s, k), k),
{
    let t = apply_key(s, k);
    if !holds_key(s, k) {
        match k {
            WriteKey::Movie(p) => assert(t.movies[t.movies.len() - 1] == p),
            WriteKey::Genre(g) => assert(t.genres[t.genres.len() - 1] == g),
            WriteKey::MovieGenre(m, g) => assert(t.links[t.links.len() - 1] == (m, g)),
            WriteKey::Person(pk) => assert(t.people[t.people.len() - 1] == pk),
        }
    }
}

/// After a run of inserts, every key of the run is held.
proof fn lemma_apply_keys_holds(s: StoreModel, ks: Seq<WriteKey>)
    ensures
        forall|i: int| 0 <= i < ks.len() ==> holds_key(apply_keys(s, ks), #[trigger] ks[i]),
    decreases ks.len(),
{
    if ks.len() > 0 {
        let prev = ks.drop_last();
        lemma_apply_keys_holds(s, prev);
        let t = apply_keys(s, prev);
        lemma_apply_key_holds(t, ks.last());
        assert forall|i: int| 0 <= i < ks.len() implies holds_key(apply_keys(s, ks), #[trigger] ks[i]) by {
            if i < ks.len() - 1 {
                assert(ks[i] == prev[i]);
                lemma_apply_key_keeps(t, ks[i], ks.last());
            }
        }
    }
}

/// A run of inserts whose keys are all held changes nothing.
proof fn lemma_apply_keys_absorbed(s: StoreModel, ks: Seq<WriteKey>)
    requires
        forall|i: int| 0 <= i < ks.len() ==> holds_key(s, #[trigger] ks[i]),
    ensures
        apply_keys(s, ks) == s,
    decreases ks.len(),
{
    if ks.len() > 0 {
        let prev = ks.drop_last();
        assert forall|i: int| 0 <= i < prev.len() implies holds_key(s, #[trigger] prev[i]) by {
            assert(prev[i] == ks[i]);
        }
        lemma_apply_keys_absorbed(s, prev);
        assert(holds_key(s, ks[ks.len() - 1]));
    }
}

pub open spec fn no_movie_key(ks: Seq<WriteKey>) -> bool {
    forall|i: int| 0 <= i < ks.len() ==> !(#[trigger] ks[i] is Movie)
}

pub open spec fn only_person_keys(ks: Seq<WriteKey>) -> bool {
    forall|i: int| 0 <= i < ks.len() ==> #[trigger] ks[i] is Person
}

proof fn lemma_apply_keys_movies(s: StoreModel, ks: Seq<WriteKey>)
    requires
        no_movie_key(ks),
    ensures
        apply_keys(s, ks).movies == s.movies,
    decreases ks.len(),
{
    if ks.len() > 0 {
        assert(ks.last() == ks[ks.len() - 1]);
        assert(no_movie_key(ks.drop_last())) by {
            assert forall|i: int| 0 <= i < ks.drop_last().len() implies !(#[trigger] ks.drop_last()[i] is Movie) by {
                assert(ks.drop_last()[i] == ks[i]);
            }
        }
        lemma_apply_keys_movies(s, ks.drop_last());
    }
}

proof fn lemma_cast_keys_person(movie_id: i64, cast: Seq<Cast>)
    ensures
        only_person_keys(cast_keys(movie_id, cast)),
    decreases cast.len(),
{
    if cast.len() > 0 {
        lemma_cast_keys_person(movie_id, cast.drop_last());
    }
}

proof fn lemma_crew_keys_person(movie_id: i64, crew: Seq<Crew>)
    ensures
        only_person_keys(crew_keys(movie_id, crew)),
    decreases crew.len(),
{
    if crew.len() > 0 {
        lemma_crew_keys_person(movie_id, crew.drop_last());
    }
}

proof fn lemma_genre_keys_no_movie(movie_id: i64, genres: Seq<Genre>)
    ensures
        no_movie_key(genre_keys(movie_id, genres)),
    decreases genres.len(),
{
    if genres.len() > 0 {
        lemma_genre_keys_no_movie(movie_id, genres.drop_last());
    }
}

proof fn lemma_people_keys(movie_id: i64, c: CreditsMovie)
    ensures
        only_person_keys(cast_keys(movie_id, c.cast@) + crew_keys(movie_id, c.crew@)),
{
    lemma_cast_keys_person(movie_id, c.cast@);
    lemma_crew_keys_person(movie_id, c.crew@);
    let a = cast_keys(movie_id, c.cast@);
    let b = crew_keys(movie_id, c.crew@);
    assert forall|i: int| 0 <= i < (a + b).len() implies #[trigger] (a + b)[i] is Person by {
        if i < a.len() {
            assert((a + b)[i] == a[i]);
        } else {
            assert((a + b)[i] == b[i - a.len()]);
        }
    }
}

proof fn lemma_child_keys_no_movie(movie_id: i64, m: MovieData, c: CreditsMovie)
    ensures
        no_movie_key(child_keys(movie_id, m, c)),
{
    lemma_genre_keys_no_movie(movie_id, m.genres@);
    lemma_people_keys(movie_id, c);
    let a = genre_keys(movie_id, m.genres@);
    let b = cast_keys(movie_id, c.cast@) + crew_keys(movie_id, c.crew@);
    assert(child_keys(movie_id, m, c) =~= a + b);
    assert forall|i: int| 0 <= i < (a + b).len() implies !(#[trigger] (a + b)[i] is Movie) by {
        if i < a.len() {
            assert((a + b)[i] == a[i]);
        } else {
            assert((a + b)[i] == b[i - a.len()]);
        }
    }
}

proof fn lemma_push_no_duplicates<T>(s: Seq<T>, x: T)
    requires
        s.no_duplicates(),
        !s.contains(x),
    ensures
        s.push(x).no_duplicates(),
{
    let t = s.push(x);
    assert forall|i: int, j: int| 0 <= i < t.len() && 0 <= j < t.len() && i != j implies t[i] != t[j] by {
        if i < s.len() && j < s.len() {
            assert(t[i] == s[i] && t[j] == s[j]);
        } else if i == s.len() {
            assert(t[j] == s[j]);
        } else {
            assert(t[i] == s[i]);
        }
    }
}

proof fn lemma_apply_key_wf(s: StoreModel, k: WriteKey)
    requires
        store_wf(s),
    ensures
        store_wf(apply_key(s, k)),
{
    if !holds_key(s, k) {
        match k {
            WriteKey::Movie(p) => lemma_push_no_duplicates(s.movies, p),
            WriteKey::Genre(g) => lemma_push_no_duplicates(s.genres, g),
            WriteKey::MovieGenre(m, g) => lemma_push_no_duplicates(s.links, (m, g)),
            WriteKey::Person(pk) => lemma_push_no_duplicates(s.people, pk),
        }
    }
}

proof fn lemma_apply_keys_wf(s: StoreModel, ks: Seq<WriteKey>)
    requires
        store_wf(s),
    ensures
        store_wf(apply_keys(s, ks)),
    decreases ks.len(),
{
    if ks.len() > 0 {
        lemma_apply_keys_wf(s, ks.drop_last());
        lemma_apply_key_wf(apply_keys(s, ks.drop_last()), ks.last());
    }
}

proof fn lemma_persist_wf(s: StoreModel, m: MovieData, c: CreditsMovie)
    requires
        store_wf(s),
    ensures
        store_wf(persist_model(s, m, c)),
{
    let s1 = apply_key(s, movie_key(m));
    lemma_apply_key_wf(s, movie_key(m));
    lemma_apply_keys_wf(s1, child_keys(movie_id_of(s1, m.file_path@), m, c));
}

proof fn lemma_no_duplicates_exactly_one<T>(s: Seq<T>, p: T)
    requires
        s.no_duplicates(),
        s.contains(p),
    ensures
        exactly_one(s, p),
{
    let i = choose|i: int| 0 <= i < s.len() && s[i] == p;
    assert(forall|j: int| 0 <= j < s.len() && s[j] == p ==> j == i);
}

/// Storing a movie keeps the store well formed, leaves exactly one movie
/// row for its path, and storing it again with the same data changes
/// nothing: the second run conflicts on every unique key.
pub proof fn lemma_persist_idempotent(s: StoreModel, m: MovieData, c: CreditsMovie)
    requires
        store_wf(s),
    ensures
        store_wf(persist_model(s, m, c)),
        exactly_one(persist_model(s, m, c).movies, m.file_path@),
        persist_model(persist_model(s, m, c), m, c) == persist_model(s, m, c),
{
    let mk = movie_key(m);
    let s1 = apply_key(s, mk);
    let id = movie_id_of(s1, m.file_path@);
    let ks = child_keys(id, m, c);
    let t = persist_model(s, m, c);
    lemma_child_keys_no_movie(id, m, c);
    lemma_apply_keys_movies(s1, ks);
    lemma_apply_key_holds(s, mk);
    lemma_persist_wf(s, m, c);
    lemma_no_duplicates_exactly_one(t.movies, m.file_path@);
    // The second run: the movie row conflicts and reads back the same id.
    lemma_apply_keys_keeps(s1, ks, mk);
    assert(apply_key(t, mk) == t);
    assert(movie_id_of(t, m.file_path@) == id);
    lemma_apply_keys_holds(s1, ks);
    lemma_apply_keys_absorbed(t, ks);
}

/// Storing a second movie whose path is already stored, whatever its other
/// data, adds no movie row: exactly one row keeps that path.
pub proof fn lemma_persist_same_path(s: StoreModel, m1: MovieData, c1: CreditsMovie, m2: MovieData, c2: CreditsMovie)
    requires
        store_wf(s),
        m1.file_path@ == m2.file_path@,
    ensures
        ({
            let s1 = persist_model(s, m1, c1);
            let s2 = persist_model(s1, m2, c2);
            &&& store_wf(s2)
            &&& s2.movies == s1.movies
            &&& exactly_one(s2.movies, m2.file_path@)
        }),
{
    let s1 = persist_model(s, m1, c1);
    lemma_persist_idempotent(s, m1, c1);
    lemma_persist_wf(s1, m2, c2);
    let a = apply_key(s1, movie_key(m2));
    assert(s1.movies.contains(m2.file_path@));
    assert(a == s1);
    let id = movie_id_of(a, m2.file_path@);
    lemma_child_keys_no_movie(id, m2, c2);
    lemma_apply_keys_movies(a, child_keys(id, m2, c2));
}

proof fn lemma_genre_keys_contain(movie_id: i64, genres: Seq<Genre>, i: int)
    requires
        0 <= i < genres.len(),
    ensures
        genre_keys(movie_id, genres).contains(WriteKey::Genre(genres[i].id)),
        genre_keys(movie_id, genres).contains(WriteKey::MovieGenre(movie_id, genres[i].id)),
    decreases genres.len(),
{
    let prev = genre_keys(movie_id, genres.drop_last());
    let ks = genre_keys(movie_id, genres);
    assert(ks == prev + seq![
        WriteKey::Genre(genres.last().id),
        WriteKey::MovieGenre(movie_id, genres.last().id),
    ]);
    if i == genres.len() - 1 {
        assert(ks[prev.len() as int] == WriteKey::Genre(genres[i].id));
        assert(ks[prev.len() as int + 1] == WriteKey::MovieGenre(movie_id, genres[i].id));
    } else {
        lemma_genre_keys_contain(movie_id, genres.drop_last(), i);
        assert(genres.drop_last()[i] == genres[i]);
        let j1 = choose|j: int| 0 <= j < prev.len() && prev[j] == WriteKey::Genre(genres[i].id);
        let j2 = choose|j: int| 0 <= j < prev.len() && prev[j] == WriteKey::MovieGenre(movie_id, genres[i].id);
        assert(ks[j1] == prev[j1]);
        assert(ks[j2] == prev[j2]);
    }
}

/// After storing `m`, the store holds a genre row and a link for each of
/// its genres.
proof fn lemma_persist_holds_genre(s: StoreModel, m: MovieData, c: CreditsMovie, i: int)
    requires
        0 <= i < m.genres@.len(),
    ensures
        ({
            let t = persist_model(s, m, c);
            let id = movie_id_of(apply_key(s, movie_key(m)), m.file_path@);
            &&& t.genres.contains(m.genres@[i].id)
            &&& t.links.contains((id, m.genres@[i].id))
        }),
{
    let s1 = apply_key(s, movie_key(m));
    let id = movie_id_of(s1, m.file_path@);
    let g = genre_keys(id, m.genres@);
    let p = cast_keys(id, c.cast@) + crew_keys(id, c.crew@);
    let ks = child_keys(id, m, c);
    assert(ks =~= g + p);
    lemma_genre_keys_contain(id, m.genres@, i);
    lemma_apply_keys_holds(s1, ks);
    let j1 = choose|j: int| 0 <= j < g.len() && g[j] == WriteKey::Genre(m.genres@[i].id);
    let j2 = choose|j: int| 0 <= j < g.len() && g[j] == WriteKey::MovieGenre(id, m.genres@[i].id);
    assert(ks[j1] == g[j1]);
    assert(ks[j2] == g[j2]);
    assert(holds_key(persist_model(s, m, c), ks[j1]));
    assert(holds_key(persist_model(s, m, c), ks[j2]));
}

/// Two movies that share a genre id, stored one after the other in any
/// well-formed store, leave exactly one genre row of that id.
pub proof fn lemma_shared_genre_row(
    s: StoreModel,
    m1: MovieData,
    c1: CreditsMovie,
    m2: MovieData,
    c2: CreditsMovie,
    i1: int,
    i2: int,
)
    requires
        store_wf(s),
        0 <= i1 < m1.genres@.len(),
        0 <= i2 < m2.genres@.len(),
        m1.genres@[i1].id == m2.genres@[i2].id,
    ensures
        exactly_one(persist_model(persist_model(s, m1, c1), m2, c2).genres, m1.genres@[i1].id),
{
    let s1 = persist_model(s, m1, c1);
    let s2 = persist_model(s1, m2, c2);
    lemma_persist_wf(s, m1, c1);
    lemma_persist_wf(s1, m2, c2);
    lemma_persist_holds_genre(s1, m2, c2, i2);
    lemma_no_duplicates_exactly_one(s2.genres, m1.genres@[i1].id);
}

/// Every link that a run of inserts adds has a key of the run.
proof fn lemma_new_links(s: StoreModel, ks: Seq<WriteKey>, l: (i64, i64))
    requires
        apply_keys(s, ks).links.contains(l),
    ensures
        s.links.contains(l) || ks.contains(WriteKey::MovieGenre(l.0, l.1)),
    decreases ks.len(),
{
    if ks.len() > 0 {
        let prev = ks.drop_last();
        let t = apply_keys(s, prev);
        if t.links.contains(l) {
            lemma_new_links(s, prev, l);
            if prev.contains(WriteKey::MovieGenre(l.0, l.1)) {
                let j = choose|j: int| 0 <= j < prev.len() && prev[j] == WriteKey::MovieGenre(l.0, l.1);
                assert(ks[j] == prev[j]);
            }
        } else {
            let u = apply_key(t, ks.last());
            let j = choose|j: int| 0 <= j < u.links.len() && u.links[j] == l;
            assert(ks[ks.len() - 1] == ks.last());
            if !(ks.last() == WriteKey::MovieGenre(l.0, l.1)) {
                assert(u.links == t.links || u.links == t.links.push(u.links.last()));
                assert(false) by {
                    if u.links == t.links {
                    } else {
                        assert(j == t.links.len());
                    }
                }
            }
        }
    }
}

proof fn lemma_genre_keys_links(movie_id: i64, genres: Seq<Genre>, a: i64, b: i64)
    requires
        genre_keys(movie_id, genres).contains(WriteKey::MovieGenre(a, b)),
    ensures
        a == movie_id,
    decreases genres.len(),
{
    let prev = genre_keys(movie_id, genres.drop_last());
    let ks = genre_keys(movie_id, genres);
    let j = choose|j: int| 0 <= j < ks.len() && ks[j] == WriteKey::MovieGenre(a, b);
    if j < prev.len() {
        assert(ks[j] == prev[j]);
        lemma_genre_keys_links(movie_id, genres.drop_last(), a, b);
    }
}

/// Every link that storing `m` adds belongs to its movie id.
proof fn lemma_persist_links(s: StoreModel, m: MovieData, c: CreditsMovie, l: (i64, i64))
    requires
        persist_model(s, m, c).links.contains(l),
    ensures
        s.links.contains(l) || l.0 == movie_id_of(apply_key(s, movie_key(m)), m.file_path@),
{
    let s1 = apply_key(s, movie_key(m));
    let id = movie_id_of(s1, m.file_path@);
    let g = genre_keys(id, m.genres@);
    let p = cast_keys(id, c.cast@) + crew_keys(id, c.crew@);
    let ks = child_keys(id, m, c);
    assert(ks =~= g + p);
    lemma_new_links(s1, ks, l);
    assert(s1.links == s.links);
    if ks.contains(WriteKey::MovieGenre(l.0, l.1)) {
        let j = choose|j: int| 0 <= j < ks.len() && ks[j] == WriteKey::MovieGenre(l.0, l.1);
        lemma_people_keys(id, c);
        if j < g.len() {
            assert(ks[j] == g[j]);
            lemma_genre_keys_links(id, m.genres@, l.0, l.1);
        } else {
            assert(ks[j] == p[j - g.len()]);
        }
    }
}

/// Two movies that share a genre id, stored one after the other in an
/// empty store, leave exactly two links of that genre, one per movie.
pub proof fn lemma_shared_genre_links(
    m1: MovieData,
    c1: CreditsMovie,
    m2: MovieData,
    c2: CreditsMovie,
    i1: int,
    i2: int,
)
    requires
        m1.file_path@ != m2.file_path@,
        0 <= i1 < m1.genres@.len(),
        0 <= i2 < m2.genres@.len(),
        m1.genres@[i1].id == m2.genres@[i2].id,
    ensures
        ({
            let k = m1.genres@[i1].id;
            let s = persist_model(persist_model(empty_store(), m1, c1), m2, c2);
            &&& exactly_one(s.links, (1i64, k))
            &&& exactly_one(s.links, (2i64, k))
            &&& forall|l: (i64, i64)| s.links.contains(l) && l.1 == k ==> l == (1i64, k) || l == (2i64, k)
        }),
{
    let k = m1.genres@[i1].id;
    let e = empty_store();
    assert(store_wf(e));
    let s1 = persist_model(e, m1, c1);
    let s2 = persist_model(s1, m2, c2);
    lemma_persist_wf(e, m1, c1);
    lemma_persist_wf(s1, m2, c2);
    let a1 = apply_key(e, movie_key(m1));
    assert(a1.movies =~= seq![m1.file_path@]);
    assert(movie_id_of(a1, m1.file_path@) == 1);
    lemma_child_keys_no_movie(1, m1, c1);
    lemma_apply_keys_movies(a1, child_keys(1, m1, c1));
    assert(s1.movies == seq![m1.file_path@]);
    let a2 = apply_key(s1, movie_key(m2));
    assert(!s1.movies.contains(m2.file_path@)) by {
        if s1.movies.contains(m2.file_path@) {
            let i = choose|i: int| 0 <= i < s1.movies.len() && s1.movies[i] == m2.file_path@;
            assert(i == 0);
        }
    }
    assert(a2.movies =~= seq![m1.file_path@, m2.file_path@]);
    assert(a2.movies.drop_first() =~= seq![m2.file_path@]);
    assert(movie_position(a2.movies.drop_first(), m2.file_path@) == 0);
    assert(movie_id_of(a2, m2.file_path@) == 2);
    // Both links are there.
    lemma_persist_holds_genre(e, m1, c1, i1);
    lemma_apply_key_holds(s1, movie_key(m2));
    lemma_apply_key_keeps(s1, WriteKey::MovieGenre(1, k), movie_key(m2));
    lemma_apply_keys_keeps(a2, child_keys(2, m2, c2), WriteKey::MovieGenre(1, k));
    lemma_persist_holds_genre(s1, m2, c2, i2);
    lemma_no_duplicates_exactly_one(s2.links, (1i64, k));
    lemma_no_duplicates_exactly_one(s2.links, (2i64, k));
    // Nothing else carries that genre.
    assert forall|l: (i64, i64)| s2.links.contains(l) && l.1 == k implies l == (1i64, k) || l == (2i64, k) by {
        lemma_persist_links(s1, m2, c2, l);
        if s1.links.contains(l) {
            lemma_persist_links(e, m1, c1, l);
        }
    }
}

// endregion

} // verus!
