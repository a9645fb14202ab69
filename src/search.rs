use vstd::prelude::*;

use crate::movie_data::{clone_opt, Genre, MovieData};

verus! {

// region: ---- FLOAT ORDER ----
/// Position of a single-precision float, given by its bit pattern, in the
/// order of the values: both zeros share a place, and NaN comes below all.
pub open spec fn float_rank(bits: u32) -> int {
    let mag = bits as int % 0x8000_0000;
    if mag > 0x7f80_0000 {
        -0x8000_0000
    } else if bits < 0x8000_0000 {
        mag
    } else {
        -mag
    }
}

/// The rank of a float given by its bit pattern, as `float_rank` defines it.
pub fn popularity_rank(bits: u32) -> (r: i64)
    ensures
        r == float_rank(bits),
{
    let mag: u32 = bits % 0x8000_0000;
    if mag > 0x7f80_0000 {
        -0x8000_0000
    } else if bits < 0x8000_0000 {
        mag as i64
    } else {
        -(mag as i64)
    }
}
// endregion

// region: ---- SEARCH RESULTS ----
/// One match of a search by title. `popularity` and `vote_average` hold the
/// provider's single-precision values as their bit patterns.
pub struct SearchedMovie {
    pub id: i64,
    pub original_title: String,
    pub title: String,
    pub genre_ids: Vec<i64>,
    pub popularity: u32,
    pub vote_average: u32,
    pub release_date: String,
    pub overview: String,
    pub backdrop_path: Option<String>,
    pub poster_path: Option<String>,
}

impl Clone for SearchedMovie {
    fn clone(&self) -> (r: Self)
        ensures
            r@ == self@,
    {
        SearchedMovie {
            id: self.id,
            original_title: self.original_title.clone(),
            title: self.title.clone(),
            genre_ids: self.genre_ids.clone(),
            popularity: self.popularity,
            vote_average: self.vote_average,
            release_date: self.release_date.clone(),
            overview: self.overview.clone(),
            backdrop_path: clone_opt(&self.backdrop_path),
            poster_path: clone_opt(&self.poster_path),
        }
    }
}

/// The fields of a search match that the contracts speak of.
pub struct SearchedMovieView {
    pub id: i64,
    pub original_title: Seq<char>,
    pub title: Seq<char>,
    pub genre_ids: Seq<i64>,
    pub popularity: u32,
    pub vote_average: u32,
    pub release_date: Seq<char>,
    pub overview: Seq<char>,
    pub backdrop_path: Option<String>,
    pub poster_path: Option<String>,
}

impl View for SearchedMovie {
    type V = SearchedMovieView;

    open spec fn view(&self) -> SearchedMovieView {
        SearchedMovieView {
            id: self.id,
            original_title: self.original_title@,
            title: self.title@,
            genre_ids: self.genre_ids@,
            popularity: self.popularity,
            vote_average: self.vote_average,
            release_date: self.release_date@,
            overview: self.overview@,
            backdrop_path: self.backdrop_path,
            poster_path: self.poster_path,
        }
    }
}

impl SearchedMovie {
    pub fn id(&self) -> (r: i64)
        ensures
            r == self.id,
    {
        self.id
    }

    pub fn original_title(&self) -> (r: &str)
        ensures
            r@ == self.original_title@,
    {
        self.original_title.as_str()
    }

    pub fn title(&self) -> (r: &str)
        ensures
            r@ == self.title@,
    {
        self.title.as_str()
    }

    pub fn genre_ids(&self) -> (r: &Vec<i64>)
        ensures
            *r == self.genre_ids,
    {
        &self.genre_ids
    }

    /// Bit pattern of the provider's popularity score.
    pub fn popularity(&self) -> (r: u32)
        ensures
            r == self.popularity,
    {
        self.popularity
    }

    /// Bit pattern of the provider's vote average.
    pub fn vote_average(&self) -> (r: u32)
        ensures
            r == self.vote_average,
    {
        self.vote_average
    }

    pub fn release_date(&self) -> (r: &str)
        ensures
            r@ == self.release_date@,
    {
        self.release_date.as_str()
    }

    pub fn overview(&self) -> (r: &str)
        ensures
            r@ == self.overview@,
    {
        self.overview.as_str()
    }

    pub fn backdrop_path(&self) -> (r: &Option<String>)
        ensures
            *r == self.backdrop_path,
    {
        &self.backdrop_path
    }

    pub fn poster_path(&self) -> (r: &Option<String>)
        ensures
            *r == self.poster_path,
    {
        &self.poster_path
    }
}

/// `k` is the first position of the highest popularity in `s`.
pub open spec fn is_first_most_popular(s: Seq<SearchedMovie>, k: int) -> bool {
    &&& 0 <= k < s.len()
    &&& forall|j: int| 0 <= j < s.len() ==> float_rank(#[trigger] s[j].popularity) <= float_rank(s[k].popularity)
    &&& forall|j: int| 0 <= j < k ==> float_rank(#[trigger] s[j].popularity) < float_rank(s[k].popularity)
}

/// The matches of one search, in the provider's order.
pub struct MovieSearchResult {
    pub results: Vec<SearchedMovie>,
}

impl MovieSearchResult {
    /// Position of the most popular match, the first one among equals;
    /// `None` when there is no match.
    pub fn most_popular_index(&self) -> (r: Option<usize>)
        ensures
            r is None <==> self.results@.len() == 0,
            r matches Some(k) ==> is_first_most_popular(self.results@, k as int),
    {
        if self.results.len() == 0 {
            return None;
        }
        let mut best: usize = 0;
        let mut best_rank = popularity_rank(self.results[0].popularity);
        let mut i: usize = 1;
        while i < self.results.len()
            invariant
                1 <= i <= self.results@.len(),
                best < i,
                best_rank == float_rank(self.results@[best as int].popularity),
                forall|j: int| 0 <= j < i ==> float_rank(#[trigger] self.results@[j].popularity) <= best_rank,
                forall|j: int| 0 <= j < best ==> float_rank(#[trigger] self.results@[j].popularity) < best_rank,
            decreases self.results@.len() - i,
        {
            let rank = popularity_rank(self.results[i].popularity);
            if rank > best_rank {
                best = i;
                best_rank = rank;
            }
            i = i + 1;
        }
        Some(best)
    }

    /// The most popular match, the first one among equals; `None` when
    /// there is no match.
    pub fn get_most_popular(&self) -> (r: Option<SearchedMovie>)
        ensures
            r is None <==> self.results@.len() == 0,
            r matches Some(m) ==> exists|k: int| is_first_most_popular(self.results@, k) && m@ == self.results@[k]@,
    {
        match self.most_popular_index() {
            None => None,
            Some(k) => Some(self.results[k].clone()),
        }
    }
}
// endregion

// region: ---- GENRES ----
/// The genre list of one movie, as the provider gives it.
pub struct MovieGenres {
    pub genres: Vec<Genre>,
}

impl MovieGenres {
    pub fn genres(&self) -> (r: Vec<Genre>)
        ensures
            r@ == self.genres@,
    {
        let r = self.genres.clone();
        assert(r@ =~= self.genres@);
        r
    }
}
// endregion

// region: ---- YEAR ----
pub open spec fn is_digit(c: char) -> bool {
    '0' <= c <= '9'
}

/// Value of a run of decimal digits.
pub open spec fn digits_value(s: Seq<char>) -> int
    decreases s.len(),
{
    if s.len() == 0 {
        0
    } else {
        digits_value(s.drop_last()) * 10 + (s.last() as int - '0' as int)
    }
}

/// Every character of `d` is a decimal digit.
pub open spec fn all_digits(d: Seq<char>) -> bool {
    forall|i: int| 0 <= i < d.len() ==> is_digit(#[trigger] d[i])
}

/// The digits of a number, past an optional leading `+`.
pub open spec fn unsigned_part(s: Seq<char>) -> Seq<char> {
    if s.len() > 0 && s[0] == '+' {
        s.drop_first()
    } else {
        s
    }
}

/// What `str::parse::<u32>` accepts: an optional `+`, then one or more
/// decimal digits whose value fits.
pub open spec fn decimal_u32(s: Seq<char>) -> Option<u32> {
    let d = unsigned_part(s);
    if d.len() > 0 && all_digits(d) && digits_value(d) <= u32::MAX {
        Some(digits_value(d) as u32)
    } else {
        None
    }
}

proof fn lemma_digits_value_nonneg(s: Seq<char>)
    requires
        forall|i: int| 0 <= i < s.len() ==> is_digit(#[trigger] s[i]),
    ensures
        digits_value(s) >= 0,
    decreases s.len(),
{
    if s.len() > 0 {
        lemma_digits_value_nonneg(s.drop_last());
    }
}

/// The year of a file name as a number, when it is one.
pub fn parse_year(s: &str) -> (r: Option<u32>)
    ensures
        r == decimal_u32(s@),
{
    let chars = crate::text::chars_of(s);
    let start: usize = if chars.len() > 0 && chars[0] == '+' {
        1
    } else {
        0
    };
    let ghost d = chars@.subrange(start as int, chars@.len() as int);
    assert(d =~= unsigned_part(s@));
    if start >= chars.len() {
        return None;
    }
    let mut value: u64 = 0;
    let mut over = false;
    let mut i: usize = start;
    while i < chars.len()
        invariant
            start <= i <= chars@.len(),
            chars@ == s@,
            d == chars@.subrange(start as int, chars@.len() as int),
            d == unsigned_part(s@),
            forall|k: int| start <= k < i ==> is_digit(#[trigger] chars@[k]),
            !over ==> value == digits_value(chars@.subrange(start as int, i as int)),
            !over ==> value <= u32::MAX,
            over ==> digits_value(chars@.subrange(start as int, i as int)) > u32::MAX,
        decreases chars@.len() - i,
    {
        let c = chars[i];
        if !('0' <= c && c <= '9') {
            proof {
                let dd = unsigned_part(s@);
                assert(dd == d);
                assert(d[i - start] == c);
                assert(!is_digit(dd[i - start]));
                assert(decimal_u32(s@) is None);
            }
            return None;
        }
        let ghost prev = chars@.subrange(start as int, i as int);
        let ghost next = chars@.subrange(start as int, i + 1);
        assert(next.drop_last() =~= prev);
        proof {
            assert forall|k: int| 0 <= k < prev.len() implies is_digit(#[trigger] prev[k]) by {
                assert(prev[k] == chars@[start + k]);
            }
            lemma_digits_value_nonneg(prev);
        }
        let digit = (c as u32 - '0' as u32) as u64;
        if !over {
            value = value * 10 + digit;
            if value > 0xffff_ffff {
                over = true;
            }
        } else {
            let ghost dv = digits_value(prev);
            assert(dv * 10 + digit >= dv) by (nonlinear_arith)
                requires
                    dv >= 0,
                    digit >= 0,
            ;
        }
        i = i + 1;
    }
    assert(chars@.subrange(start as int, chars@.len() as int) == d);
    assert forall|k: int| 0 <= k < d.len() implies is_digit(#[trigger] d[k]) by {
        assert(d[k] == chars@[start + k]);
    }
    if over {
        None
    } else {
        Some(value as u32)
    }
}
// endregion

// region: ---- APPLY MATCH ----
impl MovieData {
    /// Copies what a search match says of the movie: provider id, titles,
    /// vote average, release date, summary and the three image references
    /// (the poster serves for both poster sizes).
    pub fn apply_search_result(&mut self, s: &SearchedMovie)
        ensures
            final(self).tmdb_id == s.id,
            final(self).original_title@ == s.original_title@,
            final(self).title@ == s.title@,
            final(self).vote_average == s.vote_average,
            final(self).release_date@ == s.release_date@,
            final(self).summary@ == s.overview@,
            final(self).poster_large == s.poster_path,
            final(self).poster_snapshot == s.poster_path,
            final(self).backdrop == s.backdrop_path,
            final(self).id == old(self).id,
            final(self).file_path == old(self).file_path,
            final(self).file_title == old(self).file_title,
            final(self).file_year == old(self).file_year,
            final(self).file_optional_info == old(self).file_optional_info,
            final(self).genres == old(self).genres,
    {
        self.tmdb_id = s.id;
        self.original_title = s.original_title.clone();
        self.title = s.title.clone();
        self.vote_average = s.vote_average;
        self.release_date = s.release_date.clone();
        self.summary = s.overview.clone();
        self.poster_large = clone_opt(&s.poster_path);
        self.poster_snapshot = clone_opt(&s.poster_path);
        self.backdrop = clone_opt(&s.backdrop_path);
    }
}
// endregion

} // verus!
